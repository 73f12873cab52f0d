use vstd::prelude::*;

verus! {

/// The asset in which the bids of an auction are paid.
#[derive(Clone, Copy, Debug, PartialEq, Eq, Structural)]
pub enum PaymentType {
    /// The chain's native currency; the auction's `payment` is the denomination.
    Coin,
    /// A fungible token contract; the auction's `payment` is its address.
    Cw20,
}

/// Where an auction stands at a given moment.
#[derive(Clone, Copy, Debug, PartialEq, Eq, Structural)]
pub enum AuctionStatus {
    /// The bidding window has not opened yet.
    NotStarted,
    /// The bidding window is open.
    OpeningPeriod,
    /// The bidding window has closed.
    Ended,
}

/// The last second of an auction's bidding window: `start + duration`,
/// clamped to the largest representable time.
pub open spec fn window_end(start: u64, duration: u64) -> u64 {
    if start + duration > u64::MAX {
        u64::MAX
    } else {
        (start + duration) as u64
    }
}

/// The status of an auction whose window is `[start, window_end(start, duration)]`.
pub open spec fn status_at(start: u64, duration: u64, now: u64) -> AuctionStatus {
    if now < start {
        AuctionStatus::NotStarted
    } else if now <= window_end(start, duration) {
        AuctionStatus::OpeningPeriod
    } else {
        AuctionStatus::Ended
    }
}

/// The position of a status in the lifecycle.
pub open spec fn status_rank(s: AuctionStatus) -> int {
    match s {
        AuctionStatus::NotStarted => 0,
        AuctionStatus::OpeningPeriod => 1,
        AuctionStatus::Ended => 2,
    }
}

/// Computes `window_end(start, duration)`.
pub fn end_timestamp(start: u64, duration: u64) -> (r: u64)
    ensures
        r == window_end(start, duration),
{
    match start.checked_add(duration) {
        Some(e) => e,
        None => u64::MAX,
    }
}

/// The version record of the deployed contract.
#[derive(Clone, Debug, PartialEq, Eq)]
pub struct ContractVersion {
    /// The crate name of the implementing contract, e.g. `crates.io:candle_auction`.
    pub contract: String,
    /// The version of that contract.
    pub version: String,
}

/// Process-wide auction parameters and the auction counter.
#[derive(Clone, Debug, PartialEq, Eq)]
pub struct Config {
    /// The highest auction id assigned so far; the next auction gets `auction_num + 1`.
    pub auction_num: u64,
    pub min_auction_duration: u64,
    pub max_auction_duration: u64,
    /// Global switch: creation, deposits and bids are refused while it is off.
    pub enable_auction: bool,
    /// Carried configuration; no transfer computation applies it.
    pub fee_rate: u64,
    pub default_denom: String,
    /// Asset contracts allowed to deposit escrow into an auction.
    pub support_contract: Vec<String>,
    pub version: ContractVersion,
    /// The address allowed to update this configuration.
    pub owner: String,
    /// The randomness provider queried when a candle is blown.
    pub oracle_contract: String,
}

/// One entry of the bid ledger.
#[derive(Clone, Debug, PartialEq, Eq)]
pub struct Bid {
    pub bidder: String,
    /// The second at which the bid was admitted.
    pub timestamp: u64,
    pub amount: u128,
}

/// One escrowed asset: a token of an asset contract.
#[derive(Clone, Debug, PartialEq, Eq)]
pub struct Token {
    pub contract: String,
    pub token_id: String,
}

/// One auction record.
#[derive(Clone, Debug, PartialEq, Eq)]
pub struct Auction {
    /// The name of the auctioned item.
    pub name: String,
    /// The first second of the bidding window.
    pub start_timestamp: u64,
    /// The length of the bidding window; it ends at `start_timestamp + auction_duration`.
    pub auction_duration: u64,
    /// The bid ledger, in the order of admission.
    pub bidders: Vec<Bid>,
    /// While bidding: the highest bid so far. After the candle is blown: the final winner.
    pub curr_winner: Option<Bid>,
    /// The escrowed assets.
    pub tokens: Vec<Token>,
    /// The creator of the auction, who is paid and who gets the assets back on a flow.
    pub seller: String,
    pub payment_type: PaymentType,
    /// The denomination (`Coin`) or the token contract (`Cw20`) of the bids.
    pub payment: String,
    /// The floor price, if any.
    pub min_price: Option<u128>,
    /// The number of bids in the ledger.
    pub bid_num: u32,
    /// Whether the auction has been settled.
    pub is_candle_blow: bool,
}

/// `min_price`, with no floor read as zero.
pub open spec fn floor_of(min_price: Option<u128>) -> u128 {
    match min_price {
        Some(p) => p,
        None => 0,
    }
}

/// The smallest amount the next bid may offer: the larger of the highest bid
/// so far and the floor price.
pub open spec fn bid_floor(a: Auction) -> u128 {
    match a.curr_winner {
        Some(w) => if w.amount >= floor_of(a.min_price) {
            w.amount
        } else {
            floor_of(a.min_price)
        },
        None => floor_of(a.min_price),
    }
}

/// The ledger invariant that bidding maintains: the count matches the ledger,
/// every bid lies in the window and meets the floor price, the amounts never
/// decrease, and while unsettled the provisional winner is the latest bid.
pub open spec fn ledger_wf(a: Auction) -> bool {
    let bids = a.bidders@;
    &&& a.bid_num == bids.len()
    &&& forall|i: int|
        0 <= i < bids.len() ==> a.start_timestamp <= #[trigger] bids[i].timestamp <= window_end(
            a.start_timestamp,
            a.auction_duration,
        ) && bids[i].amount >= floor_of(a.min_price)
    &&& forall|i: int, j: int|
        0 <= i < j < bids.len() ==> #[trigger] bids[i].amount <= #[trigger] bids[j].amount
    &&& !a.is_candle_blow ==> a.curr_winner == if bids.len() == 0 {
        None::<Bid>
    } else {
        Some(bids.last())
    }
}

impl Auction {
    /// The status of this auction at `curr_timestamp`.
    pub fn status(&self, curr_timestamp: u64) -> (r: AuctionStatus)
        ensures
            r == status_at(self.start_timestamp, self.auction_duration, curr_timestamp),
    {
        if self.start_timestamp > curr_timestamp {
            return AuctionStatus::NotStarted;
        }
        if curr_timestamp > end_timestamp(self.start_timestamp, self.auction_duration) {
            return AuctionStatus::Ended;
        }
        AuctionStatus::OpeningPeriod
    }

    /// The smallest amount the next bid may offer.
    pub fn bid_min_price(&self) -> (r: u128)
        ensures
            r == bid_floor(*self),
    {
        let floor = match self.min_price {
            Some(p) => p,
            None => 0,
        };
        match &self.curr_winner {
            Some(w) => if w.amount >= floor {
                w.amount
            } else {
                floor
            },
            None => floor,
        }
    }
}

/// While bidding, the provisional winner holds the largest amount in the
/// ledger, and the bid count is the length of the ledger.
pub proof fn lemma_provisional_winner_is_max(a: Auction)
    requires
        ledger_wf(a),
        !a.is_candle_blow,
        a.bidders@.len() > 0,
    ensures
        a.bid_num == a.bidders@.len(),
        a.curr_winner is Some,
        forall|i: int|
            0 <= i < a.bidders@.len() ==> #[trigger] a.bidders@[i].amount <= a.curr_winner->Some_0.amount,
        exists|i: int|
            0 <= i < a.bidders@.len() && #[trigger] a.bidders@[i].amount == a.curr_winner->Some_0.amount,
{
    let n = a.bidders@.len();
    assert(a.bidders@[n - 1].amount == a.curr_winner->Some_0.amount);
    assert forall|i: int| 0 <= i < n implies #[trigger] a.bidders@[i].amount
        <= a.curr_winner->Some_0.amount by {
        if i < n - 1 {
            assert(a.bidders@[i].amount <= a.bidders@[n - 1].amount);
        }
    }
}

/// The status is a function of the time alone and never moves backward as the
/// time advances: for `now1 <= now2` the status at `now2` comes no earlier in
/// the lifecycle than the status at `now1`.
pub proof fn lemma_status_monotonic(start: u64, duration: u64, now1: u64, now2: u64)
    requires
        now1 <= now2,
    ensures
        status_rank(status_at(start, duration, now1)) <= status_rank(
            status_at(start, duration, now2),
        ),
{
}

} // verus!
