//! A candle auction engine: the auction lifecycle, the append-only bid ledger,
//! the admission rules for bids, the randomised winner selection and the
//! settlement that turns a selected winner into outgoing transfers.

pub mod candle;
pub mod error;
pub mod handler;
pub mod msg;
pub mod outgoing;
pub mod settlement;
pub mod state;
