//! The operations of the auction engine, on plain values: `execute` holds the
//! ones that change an auction or the configuration, `query` the read-only ones.

pub mod execute;
pub mod query;
