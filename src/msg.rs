use vstd::prelude::*;

use crate::state::AuctionStatus;

pub mod response;

verus! {

/// An amount of one denomination of the native currency attached to a message.
#[derive(Clone, Debug, PartialEq, Eq)]
pub struct Fund {
    pub denom: String,
    pub amount: u128,
}

/// The amount of `denom` among `funds[i..]`: that of the first entry of that
/// denomination, or zero if there is none.
pub open spec fn fund_amount_from(funds: Seq<Fund>, denom: Seq<char>, i: int) -> u128
    decreases funds.len() - i,
{
    if i < 0 || i >= funds.len() {
        0
    } else if funds[i].denom@ == denom {
        funds[i].amount
    } else {
        fund_amount_from(funds, denom, i + 1)
    }
}

/// The amount of `denom` attached: the first entry of that denomination, or zero.
pub open spec fn fund_amount(funds: Seq<Fund>, denom: Seq<char>) -> u128 {
    fund_amount_from(funds, denom, 0)
}

/// Finds the amount of `denom` among the attached funds.
pub fn attached_amount(funds: &Vec<Fund>, denom: &String) -> (r: u128)
    ensures
        r == fund_amount(funds@, denom@),
{
    let mut i: usize = 0;
    while i < funds.len()
        invariant
            i <= funds@.len(),
            fund_amount_from(funds@, denom@, 0) == fund_amount_from(funds@, denom@, i as int),
        decreases funds@.len() - i,
    {
        if funds[i].denom == *denom {
            return funds[i].amount;
        }
        i = i + 1;
    }
    0
}

/// The parameters a deployment starts with.
#[derive(Clone, Debug, PartialEq, Eq)]
pub struct InstantiateMsg {
    pub min_auction_duration: u64,
    pub max_auction_duration: u64,
    pub enable_auction: bool,
    pub fee_rate: u64,
    pub default_denom: String,
    pub support_contract: Vec<String>,
    pub oracle_contract: String,
}

/// The payload of a deposit or a token bid: the auction it is for, and the
/// bidder on whose behalf a bid is placed, if not the sender.
#[derive(Clone, Debug, PartialEq, Eq)]
pub struct Auction {
    pub id: u64,
    pub bidder: Option<String>,
}

/// The read-only requests.
#[derive(Clone, Debug, PartialEq, Eq)]
pub enum QueryMsg {
    /// The configuration.
    Config {},
    /// One page of auctions, most recent first, optionally of one status only.
    AuctionList { status: Option<AuctionStatus>, page: u32, limit: u32 },
    /// One auction by id.
    Auction { id: u64 },
}

/// The request sent to the randomness provider.
#[derive(Clone, Debug, PartialEq, Eq)]
pub enum RandQueryMsg {
    /// The randomness of the beacon round `round`.
    Get { round: u64 },
}

/// The answer of the randomness provider.
#[derive(Clone, Debug, PartialEq, Eq)]
pub struct GetResponse {
    /// The randomness, if available; empty when the round does not exist yet.
    pub randomness: Vec<u8>,
}

/// The parameters of a migration (none).
#[derive(Clone, Debug, PartialEq, Eq)]
pub struct MigrateMsg {}

} // verus!
