use vstd::prelude::*;

verus! {

/// The error type of the host library's encoding and storage helpers.
#[verifier::external_type_specification]
#[verifier::external_body]
pub struct ExStdError(cosmwasm_std::StdError);

/// Why an operation was refused. Every refusal happens before any field of an
/// auction or of the configuration is changed.
#[derive(Debug, PartialEq)]
pub enum ContractError {
    /// An encoding step of the host library failed.
    Std(cosmwasm_std::StdError),
    Unauthorized { description: Option<String> },
    /// The sender of a configuration update is not the owner.
    NotOwner { sender: String, owner: String },
    /// The requested duration is below the configured minimum.
    DurationTooShort { input_duration: u64, min_duration: u64 },
    /// The requested duration is above the configured maximum.
    DurationTooLong { input_duration: u64, max_duration: u64 },
    /// A bid arrived outside the bidding window `[start, end]`.
    NotOpeningPeriod { start: u64, end: u64 },
    /// A settlement was asked for before the window closed at `end`.
    AuctionNotEnded { end: u64, now: u64 },
    /// The auction has been settled already.
    AlreadySettled {},
    /// Auctions are switched off.
    AuctionDisabled {},
    /// A bid offered `current`, below the bid floor `min_price`.
    AuctionPriceTooLow { min_price: u128, current: u128 },
    /// A request that does not fit the auction it names.
    BadRequest { msg: String },
}

} // verus!
