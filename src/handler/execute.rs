use vstd::prelude::*;

use crate::candle::{
    cutoff_for, cutoff_time, hash_randomness, lemma_winner_before_cutoff, randomness_hash_of,
    select_winner, winner_index,
};
use crate::error::ContractError;
use crate::msg::{attached_amount, fund_amount, Fund, InstantiateMsg, RandQueryMsg};
use crate::outgoing::{carries_out_all, transfer_messages, OutMsg};
use crate::settlement::{asset_transfers, candle_plan, candle_transfers, flow_plan};
use crate::state::{
    bid_floor, end_timestamp, ledger_wf, status_at, window_end, Auction, AuctionStatus, Bid,
    Config, ContractVersion, PaymentType, Token,
};

verus! {

/// `r` is a `BadRequest` refusal whose message is `text`.
pub open spec fn refused_with<T>(r: Result<T, ContractError>, text: &str) -> bool {
    r matches Err(ContractError::BadRequest { msg }) && msg@ == text@
}

/// `new` has the name, window, seller, payment terms and settled flag of `old`.
pub open spec fn same_header(old: Auction, new: Auction) -> bool {
    &&& new.name == old.name
    &&& new.start_timestamp == old.start_timestamp
    &&& new.auction_duration == old.auction_duration
    &&& new.seller == old.seller
    &&& new.payment_type == old.payment_type
    &&& new.payment == old.payment
    &&& new.min_price == old.min_price
    &&& new.is_candle_blow == old.is_candle_blow
}

/// `new` is `old` with nothing changed but the fields that bidding writes.
pub open spec fn same_terms(old: Auction, new: Auction) -> bool {
    &&& new.name == old.name
    &&& new.start_timestamp == old.start_timestamp
    &&& new.auction_duration == old.auction_duration
    &&& new.tokens == old.tokens
    &&& new.seller == old.seller
    &&& new.payment_type == old.payment_type
    &&& new.payment == old.payment
    &&& new.min_price == old.min_price
    &&& new.is_candle_blow == old.is_candle_blow
}

/// `new` is `old` after admitting `bid`: the ledger grows by it, the count by
/// one, and it becomes the provisional winner.
pub open spec fn admits(old: Auction, new: Auction, bid: Bid) -> bool {
    &&& same_terms(old, new)
    &&& new.bidders@ == old.bidders@.push(bid)
    &&& new.bid_num == old.bid_num + 1
    &&& new.curr_winner == Some(bid)
}

/// All four admission conditions hold (with room left in the bid counter).
pub open spec fn admissible(
    enabled: bool,
    a: Auction,
    now: u64,
    payment_ok: bool,
    amount: u128,
) -> bool {
    &&& enabled
    &&& status_at(a.start_timestamp, a.auction_duration, now) == AuctionStatus::OpeningPeriod
    &&& payment_ok
    &&& amount >= bid_floor(a)
    &&& a.bid_num < u32::MAX
}

/// What an admission attempt returns and does, given whether the payment
/// asset matched and the amount offered.
pub open spec fn admission_outcome(
    enabled: bool,
    old: Auction,
    new: Auction,
    now: u64,
    payment_ok: bool,
    bidder: String,
    amount: u128,
    r: Result<(), ContractError>,
) -> bool {
    let open = status_at(old.start_timestamp, old.auction_duration, now)
        == AuctionStatus::OpeningPeriod;
    &&& (r is Ok <==> admissible(enabled, old, now, payment_ok, amount))
    &&& r is Ok ==> admits(old, new, Bid { bidder, timestamp: now, amount })
    &&& r is Err ==> new == old
    &&& !enabled ==> r == Err::<(), ContractError>(ContractError::AuctionDisabled {  })
    &&& enabled && !open ==> r == Err::<(), ContractError>(
        ContractError::NotOpeningPeriod {
            start: old.start_timestamp,
            end: window_end(old.start_timestamp, old.auction_duration),
        },
    )
    &&& enabled && open && !payment_ok ==> refused_with(r, "Unsupported payment asset")
    &&& enabled && open && payment_ok && amount < bid_floor(old) ==> r == Err::<(), ContractError>(
        ContractError::AuctionPriceTooLow { min_price: bid_floor(old), current: amount },
    )
    &&& enabled && open && payment_ok && amount >= bid_floor(old) && old.bid_num == u32::MAX
        ==> refused_with(r, "Too many bids")
    &&& r is Ok && ledger_wf(old) && !old.is_candle_blow ==> ledger_wf(new)
}

/// After `n` admitted bids on a new auction (each one recorded by `admits`
/// and meeting the bid floor of its time), the ledger holds exactly those bids
/// in order, the bid count is `n`, and the provisional winner is the latest
/// bid, whose amount is the largest of all admitted amounts.
pub proof fn lemma_admitted_bids(states: Seq<Auction>, bids: Seq<Bid>)
    requires
        states.len() == bids.len() + 1,
        states[0].bidders@.len() == 0,
        states[0].bid_num == 0,
        states[0].curr_winner is None,
        forall|k: int|
            0 <= k < bids.len() ==> #[trigger] admits(states[k], states[k + 1], bids[k])
                && bids[k].amount >= bid_floor(states[k]),
    ensures
        states.last().bid_num == bids.len(),
        states.last().bidders@ == bids,
        bids.len() == 0 ==> states.last().curr_winner is None,
        bids.len() > 0 ==> states.last().curr_winner == Some(bids.last()),
        forall|i: int| 0 <= i < bids.len() ==> #[trigger] bids[i].amount <= bids.last().amount,
    decreases bids.len(),
{
    let n = bids.len() as int;
    if n > 0 {
        let ps = states.drop_last();
        let pb = bids.drop_last();
        assert forall|k: int| 0 <= k < pb.len() implies #[trigger] admits(ps[k], ps[k + 1], pb[k])
            && pb[k].amount >= bid_floor(ps[k]) by {
            assert(admits(states[k], states[k + 1], bids[k]));
        }
        lemma_admitted_bids(ps, pb);
        assert(admits(states[n - 1], states[n], bids[n - 1]));
        assert(states.last().bidders@ =~= bids);
        if n > 1 {
            assert(pb.last() == bids[n - 2]);
            assert(bids[n - 2].amount <= bids[n - 1].amount);
            assert forall|i: int| 0 <= i < n implies #[trigger] bids[i].amount <= bids.last().amount by {
                if i < n - 1 {
                    assert(pb[i] == bids[i]);
                }
            }
        }
    }
}

/// Checks the admission conditions in order (switch, window, payment asset,
/// floor) and appends the bid when all hold.
fn place_bid(
    config: &Config,
    auction: &mut Auction,
    now: u64,
    payment_ok: bool,
    bidder: String,
    amount: u128,
) -> (r: Result<(), ContractError>)
    ensures
        admission_outcome(
            config.enable_auction,
            *old(auction),
            *final(auction),
            now,
            payment_ok,
            bidder,
            amount,
            r,
        ),
{
    if !config.enable_auction {
        return Err(ContractError::AuctionDisabled {  });
    }
    match auction.status(now) {
        AuctionStatus::OpeningPeriod => {},
        _ => {
            return Err(
                ContractError::NotOpeningPeriod {
                    start: auction.start_timestamp,
                    end: end_timestamp(auction.start_timestamp, auction.auction_duration),
                },
            );
        },
    }
    if !payment_ok {
        return Err(ContractError::BadRequest { msg: "Unsupported payment asset".to_owned() });
    }
    let min_price = auction.bid_min_price();
    if amount < min_price {
        return Err(ContractError::AuctionPriceTooLow { min_price, current: amount });
    }
    if auction.bid_num == u32::MAX {
        return Err(ContractError::BadRequest { msg: "Too many bids".to_owned() });
    }
    let ghost pre = *auction;
    auction.bid_num = auction.bid_num + 1;
    auction.bidders.push(Bid { bidder: bidder.clone(), timestamp: now, amount });
    auction.curr_winner = Some(Bid { bidder, timestamp: now, amount });
    proof {
        let bids = auction.bidders@;
        let n = bids.len();
        if ledger_wf(pre) && !pre.is_candle_blow {
            assert forall|i: int, j: int| 0 <= i < j < n implies #[trigger] bids[i].amount
                <= #[trigger] bids[j].amount by {
                if j == n - 1 && i < n - 2 {
                    assert(bids[i].amount <= bids[n - 2].amount);
                }
            }
            assert(bids.last() == Bid { bidder, timestamp: now, amount });
        }
    }
    Ok(())
}

/// A bid paid in the native currency. The amount is that of the attached fund
/// of the auction's denomination (zero if none is attached); the bidder is
/// `bidder` if given, else the sender.
pub fn bid_for_denom(
    config: &Config,
    auction: &mut Auction,
    now: u64,
    sender: String,
    bidder: Option<String>,
    funds: &Vec<Fund>,
) -> (r: Result<(), ContractError>)
    ensures
        admission_outcome(
            config.enable_auction,
            *old(auction),
            *final(auction),
            now,
            old(auction).payment_type == PaymentType::Coin,
            match bidder {
                Some(b) => b,
                None => sender,
            },
            fund_amount(funds@, old(auction).payment@),
            r,
        ),
{
    let amount = attached_amount(funds, &auction.payment);
    let payment_ok = match auction.payment_type {
        PaymentType::Coin => true,
        PaymentType::Cw20 => false,
    };
    let bidder = match bidder {
        Some(b) => b,
        None => sender,
    };
    place_bid(config, auction, now, payment_ok, bidder, amount)
}

/// A bid paid in fungible tokens, reported by the token contract
/// `token_contract` on behalf of `sender`. The bid is admitted only when the
/// auction is paid in that very token; the bidder is `bidder` if given, else
/// the sender.
pub fn handle_cw20_bid(
    config: &Config,
    auction: &mut Auction,
    now: u64,
    token_contract: String,
    sender: String,
    amount: u128,
    bidder: Option<String>,
) -> (r: Result<(), ContractError>)
    ensures
        admission_outcome(
            config.enable_auction,
            *old(auction),
            *final(auction),
            now,
            old(auction).payment_type == PaymentType::Cw20 && token_contract@
                == old(auction).payment@,
            match bidder {
                Some(b) => b,
                None => sender,
            },
            amount,
            r,
        ),
{
    let payment_ok = match auction.payment_type {
        PaymentType::Coin => false,
        PaymentType::Cw20 => token_contract == auction.payment,
    };
    let bidder = match bidder {
        Some(b) => b,
        None => sender,
    };
    place_bid(config, auction, now, payment_ok, bidder, amount)
}

/// How many beacon rounds past the auction id the randomness is drawn from,
/// so that the round is still unknown when the auction closes.
pub const DRAND_NEXT_ROUND_SECURITY: u64 = 10;

/// The error of a settlement attempt that fails the checks common to every
/// settlement path, if it does: the window must have closed and the auction
/// must not be settled yet.
pub open spec fn settlement_refusal(a: Auction, now: u64) -> Option<ContractError> {
    if status_at(a.start_timestamp, a.auction_duration, now) != AuctionStatus::Ended {
        Some(
            ContractError::AuctionNotEnded {
                end: window_end(a.start_timestamp, a.auction_duration),
                now,
            },
        )
    } else if a.is_candle_blow {
        Some(ContractError::AlreadySettled {  })
    } else {
        None
    }
}

/// `new` is `old` settled: only the settled flag changes.
pub open spec fn settled_as(old: Auction, new: Auction) -> bool {
    &&& new.name == old.name
    &&& new.start_timestamp == old.start_timestamp
    &&& new.auction_duration == old.auction_duration
    &&& new.bidders == old.bidders
    &&& new.tokens == old.tokens
    &&& new.seller == old.seller
    &&& new.payment_type == old.payment_type
    &&& new.payment == old.payment
    &&& new.min_price == old.min_price
    &&& new.bid_num == old.bid_num
    &&& new.is_candle_blow
}

fn check_settlement(auction: &Auction, now: u64) -> (r: Result<(), ContractError>)
    ensures
        match settlement_refusal(*auction, now) {
            Some(e) => r == Err::<(), ContractError>(e),
            None => r is Ok,
        },
{
    match auction.status(now) {
        AuctionStatus::Ended => {},
        _ => {
            return Err(
                ContractError::AuctionNotEnded {
                    end: end_timestamp(auction.start_timestamp, auction.auction_duration),
                    now,
                },
            );
        },
    }
    if auction.is_candle_blow {
        return Err(ContractError::AlreadySettled {  });
    }
    Ok(())
}

/// The randomness request that blowing the candle of auction `auction_id`
/// needs: round `auction_id + DRAND_NEXT_ROUND_SECURITY`. Refused unless the
/// auction has ended unsettled with at least one bid.
pub fn blow_candle_request(auction: &Auction, auction_id: u64, now: u64) -> (r: Result<
    RandQueryMsg,
    ContractError,
>)
    ensures
        settlement_refusal(*auction, now) matches Some(e) ==> r == Err::<RandQueryMsg, ContractError>(e),
        settlement_refusal(*auction, now) is None && auction.bidders@.len() == 0 ==> refused_with(
            r,
            "Auction flow",
        ),
        settlement_refusal(*auction, now) is None && auction.bidders@.len() > 0 && auction_id
            + DRAND_NEXT_ROUND_SECURITY <= u64::MAX ==> r == Ok::<RandQueryMsg, ContractError>(
            RandQueryMsg::Get { round: (auction_id + DRAND_NEXT_ROUND_SECURITY) as u64 },
        ),
        settlement_refusal(*auction, now) is None && auction.bidders@.len() > 0 && auction_id
            + DRAND_NEXT_ROUND_SECURITY > u64::MAX ==> refused_with(r, "Auction id out of range"),
{
    check_settlement(auction, now)?;
    if auction.bidders.len() == 0 {
        return Err(ContractError::BadRequest { msg: "Auction flow".to_owned() });
    }
    match auction_id.checked_add(DRAND_NEXT_ROUND_SECURITY) {
        Some(round) => Ok(RandQueryMsg::Get { round }),
        None => Err(ContractError::BadRequest { msg: "Auction id out of range".to_owned() }),
    }
}

/// What a candle blow with the randomness hash `h` returns and does.
pub open spec fn candle_outcome(
    a: Auction,
    new: Auction,
    now: u64,
    h: u64,
    r: Result<Vec<OutMsg>, ContractError>,
) -> bool {
    let winner = winner_index(a.bidders@, cutoff_time(a.start_timestamp, a.auction_duration, h));
    &&& settlement_refusal(a, now) matches Some(e) ==> r == Err::<Vec<OutMsg>, ContractError>(e)
    &&& settlement_refusal(a, now) is None && a.bidders@.len() == 0 ==> refused_with(r, "Auction flow")
    &&& r is Ok <==> settlement_refusal(a, now) is None && a.bidders@.len() > 0
    &&& r is Err ==> new == a
    &&& r matches Ok(msgs) ==> {
        &&& settled_as(a, new)
        &&& new.curr_winner == match winner {
            Some(w) => Some(a.bidders@[w]),
            None => None,
        }
        &&& carries_out_all(
            msgs@,
            a.payment_type,
            a.payment@,
            candle_transfers(a.bidders@, a.tokens@, a.seller, winner),
        )
    }
}

/// Blows the candle with `randomness_hash`, the hash of the revealed
/// randomness: draws the cutoff, selects the latest bid at or before it as the
/// final winner, and computes the refunds to every other bidder, the payment
/// to the seller and the delivery of the escrowed assets to the winner. The
/// auction is then settled, with the winner recorded.
///
/// When every bid came after the cutoff there is no winner: every bid is
/// refunded, the auction is settled, and the escrowed assets stay in escrow,
/// since no later settlement is accepted.
pub fn settle_candle(auction: &mut Auction, now: u64, randomness_hash: u64) -> (r: Result<
    Vec<OutMsg>,
    ContractError,
>)
    ensures
        candle_outcome(*old(auction), *final(auction), now, randomness_hash, r),
{
    check_settlement(auction, now)?;
    if auction.bidders.len() == 0 {
        return Err(ContractError::BadRequest { msg: "Auction flow".to_owned() });
    }
    let cutoff = cutoff_for(auction.start_timestamp, auction.auction_duration, randomness_hash);
    let winner = select_winner(&auction.bidders, cutoff);
    proof {
        if winner is Some {
            lemma_winner_before_cutoff(auction.bidders@, cutoff);
        }
    }
    let plan = candle_plan(&auction.bidders, &auction.tokens, &auction.seller, winner);
    let msgs = transfer_messages(auction.payment_type, &auction.payment, &plan);
    let final_winner = match winner {
        Some(w) => {
            let b = &auction.bidders[w];
            Some(Bid { bidder: b.bidder.clone(), timestamp: b.timestamp, amount: b.amount })
        },
        None => None,
    };
    auction.curr_winner = final_winner;
    auction.is_candle_blow = true;
    Ok(msgs)
}

/// Blows the candle with the revealed randomness bytes (see `settle_candle`).
pub fn blow_candle(auction: &mut Auction, now: u64, randomness: &Vec<u8>) -> (r: Result<
    Vec<OutMsg>,
    ContractError,
>)
    ensures
        candle_outcome(*old(auction), *final(auction), now, randomness_hash_of(randomness@), r),
{
    let h = hash_randomness(randomness);
    settle_candle(auction, now, h)
}

/// Settles a flow, an auction that ended without any bid and so without a
/// provisional winner: every escrowed asset goes back to the seller, and no
/// funds move. Refused on an auction with bids.
pub fn auction_flow(auction: &mut Auction, now: u64) -> (r: Result<Vec<OutMsg>, ContractError>)
    ensures
        ({
            let a = *old(auction);
            let flow = a.bidders@.len() == 0 && a.curr_winner is None;
            &&& settlement_refusal(a, now) matches Some(e) ==> r == Err::<Vec<OutMsg>, ContractError>(e)
            &&& settlement_refusal(a, now) is None && !flow ==> refused_with(r, "Auction not flow")
            &&& r is Ok <==> settlement_refusal(a, now) is None && flow
            &&& r is Err ==> *final(auction) == a
            &&& r matches Ok(msgs) ==> settled_as(a, *final(auction)) && final(auction).curr_winner
                == a.curr_winner && carries_out_all(
                msgs@,
                a.payment_type,
                a.payment@,
                asset_transfers(a.tokens@, a.seller),
            )
        }),
{
    check_settlement(auction, now)?;
    if auction.bidders.len() > 0 || auction.curr_winner.is_some() {
        return Err(ContractError::BadRequest { msg: "Auction not flow".to_owned() });
    }
    let plan = flow_plan(&auction.tokens, &auction.seller);
    let msgs = transfer_messages(auction.payment_type, &auction.payment, &plan);
    auction.is_candle_blow = true;
    Ok(msgs)
}

/// Settles by claim: the claimed winner (`winner` if given, else the sender)
/// must be the bidder of the provisional winner; every escrowed asset goes to
/// it, with no re-selection and no refunds. This path and the candle blow
/// share the settled flag, so an auction is settled by one of them only; the
/// two can name different winners for the same ledger, and a deployment is
/// expected to offer one of them.
pub fn winner_claim(auction: &mut Auction, now: u64, sender: String, winner: Option<String>) -> (r: Result<
    Vec<OutMsg>,
    ContractError,
>)
    ensures
        ({
            let a = *old(auction);
            let claimed = match winner {
                Some(w) => w,
                None => sender,
            };
            let is_winner = a.curr_winner matches Some(b) && b.bidder@ == claimed@;
            &&& settlement_refusal(a, now) matches Some(e) ==> r == Err::<Vec<OutMsg>, ContractError>(e)
            &&& settlement_refusal(a, now) is None && !is_winner ==> refused_with(r, "Not Winner")
            &&& r is Ok <==> settlement_refusal(a, now) is None && is_winner
            &&& r is Err ==> *final(auction) == a
            &&& r matches Ok(msgs) ==> settled_as(a, *final(auction)) && final(auction).curr_winner
                == a.curr_winner && carries_out_all(
                msgs@,
                a.payment_type,
                a.payment@,
                asset_transfers(a.tokens@, a.curr_winner->Some_0.bidder),
            )
        }),
{
    let claimed = match winner {
        Some(w) => w,
        None => sender,
    };
    check_settlement(auction, now)?;
    let is_winner = match &auction.curr_winner {
        Some(b) => b.bidder == claimed,
        None => false,
    };
    if !is_winner {
        return Err(ContractError::BadRequest { msg: "Not Winner".to_owned() });
    }
    let plan = match &auction.curr_winner {
        Some(b) => flow_plan(&auction.tokens, &b.bidder),
        None => Vec::new(),
    };
    let msgs = transfer_messages(auction.payment_type, &auction.payment, &plan);
    auction.is_candle_blow = true;
    Ok(msgs)
}

/// A settled auction refuses every further settlement, so no transfer is ever
/// emitted twice.
pub proof fn lemma_settled_refuses_settlement(a: Auction, now: u64)
    requires
        a.is_candle_blow,
    ensures
        settlement_refusal(a, now) is Some,
{
}

/// The auction created at `now` by `seller` with the given terms: no bids, no
/// escrow, unsettled.
pub open spec fn fresh_auction(
    a: Auction,
    seller: String,
    name: String,
    start_timestamp: u64,
    auction_duration: u64,
    payment_type: PaymentType,
    payment: String,
    min_price: Option<u128>,
) -> bool {
    &&& a.name == name
    &&& a.start_timestamp == start_timestamp
    &&& a.auction_duration == auction_duration
    &&& a.bidders@.len() == 0
    &&& a.curr_winner is None
    &&& a.tokens@.len() == 0
    &&& a.seller == seller
    &&& a.payment_type == payment_type
    &&& a.payment == payment
    &&& a.min_price == min_price
    &&& a.bid_num == 0
    &&& !a.is_candle_blow
}

/// Creates an auction and assigns it the next id, `auction_num + 1`, which
/// becomes the new `auction_num`. Refused while auctions are switched off,
/// when the window has already closed at `now`, when the duration is outside
/// the configured bounds, and when the id space is exhausted.
pub fn auction(
    config: &mut Config,
    now: u64,
    sender: String,
    name: String,
    start_timestamp: u64,
    auction_duration: u64,
    payment_type: PaymentType,
    payment: String,
    min_price: Option<u128>,
) -> (r: Result<(u64, Auction), ContractError>)
    ensures
        ({
            let c = *old(config);
            let closed = now > window_end(start_timestamp, auction_duration);
            let short = auction_duration < c.min_auction_duration;
            let long = auction_duration > c.max_auction_duration;
            &&& !c.enable_auction ==> r == Err::<(u64, Auction), ContractError>(
                ContractError::AuctionDisabled {  },
            )
            &&& c.enable_auction && closed ==> refused_with(r, "Bad timestamp setting")
            &&& c.enable_auction && !closed && short ==> r == Err::<(u64, Auction), ContractError>(
                ContractError::DurationTooShort {
                    input_duration: auction_duration,
                    min_duration: c.min_auction_duration,
                },
            )
            &&& c.enable_auction && !closed && !short && long ==> r == Err::<
                (u64, Auction),
                ContractError,
            >(
                ContractError::DurationTooLong {
                    input_duration: auction_duration,
                    max_duration: c.max_auction_duration,
                },
            )
            &&& c.enable_auction && !closed && !short && !long && c.auction_num == u64::MAX
                ==> refused_with(r, "No auction id left")
            &&& r is Ok <==> c.enable_auction && !closed && !short && !long && c.auction_num < u64::MAX
            &&& r is Err ==> *final(config) == c
            &&& r matches Ok((id, a)) ==> id == c.auction_num + 1 && *final(config) == (Config {
                auction_num: id,
                ..c
            }) && fresh_auction(
                a,
                sender,
                name,
                start_timestamp,
                auction_duration,
                payment_type,
                payment,
                min_price,
            ) && ledger_wf(a)
        }),
{
    if !config.enable_auction {
        return Err(ContractError::AuctionDisabled {  });
    }
    if now > end_timestamp(start_timestamp, auction_duration) {
        return Err(ContractError::BadRequest { msg: "Bad timestamp setting".to_owned() });
    }
    if auction_duration < config.min_auction_duration {
        return Err(
            ContractError::DurationTooShort {
                input_duration: auction_duration,
                min_duration: config.min_auction_duration,
            },
        );
    }
    if auction_duration > config.max_auction_duration {
        return Err(
            ContractError::DurationTooLong {
                input_duration: auction_duration,
                max_duration: config.max_auction_duration,
            },
        );
    }
    if config.auction_num == u64::MAX {
        return Err(ContractError::BadRequest { msg: "No auction id left".to_owned() });
    }
    let auction_id = config.auction_num + 1;
    config.auction_num = auction_id;
    let created = Auction {
        name,
        start_timestamp,
        auction_duration,
        bidders: Vec::new(),
        curr_winner: None,
        tokens: Vec::new(),
        seller: sender,
        payment_type,
        payment,
        min_price,
        bid_num: 0,
        is_candle_blow: false,
    };
    Ok((auction_id, created))
}

/// Whether `contract` is on the allow-list of asset contracts.
pub open spec fn is_supported(config: Config, contract: Seq<char>) -> bool {
    exists|i: int| 0 <= i < config.support_contract@.len() && #[trigger] config.support_contract@[i]@ == contract
}

fn supports(config: &Config, contract: &String) -> (r: bool)
    ensures
        r == is_supported(*config, contract@),
{
    let mut i: usize = 0;
    while i < config.support_contract.len()
        invariant
            i <= config.support_contract@.len(),
            forall|k: int| 0 <= k < i ==> #[trigger] config.support_contract@[k]@ != contract@,
        decreases config.support_contract@.len() - i,
    {
        if config.support_contract[i] == *contract {
            return true;
        }
        i = i + 1;
    }
    false
}

/// What a deposit attempt returns and does.
pub open spec fn deposit_outcome(
    config: Config,
    a: Auction,
    new: Auction,
    now: u64,
    asset_contract: String,
    sender: String,
    token_id: String,
    r: Result<(), ContractError>,
) -> bool {
    let supported = is_supported(config, asset_contract@);
    let waiting = status_at(a.start_timestamp, a.auction_duration, now)
        == AuctionStatus::NotStarted;
    let accepted = supported && waiting && sender@ == a.seller@;
    &&& !config.enable_auction ==> r == Err::<(), ContractError>(ContractError::AuctionDisabled {  })
    &&& config.enable_auction && !supported ==> refused_with(r, "Unsupported contract")
    &&& config.enable_auction && supported && !waiting ==> refused_with(r, "Auction has started")
    &&& config.enable_auction && supported && waiting && sender@ != a.seller@ ==> refused_with(
        r,
        "Not the seller",
    )
    &&& r is Ok <==> config.enable_auction && accepted
    &&& r is Err ==> new == a
    &&& r is Ok ==> same_header(a, new) && new.bidders == a.bidders && new.bid_num == a.bid_num
        && new.curr_winner == a.curr_winner && new.tokens@ == a.tokens@.push(
        Token { contract: asset_contract, token_id },
    )
}

/// Escrows the token `token_id` of the asset contract `asset_contract`,
/// deposited on behalf of `sender`. Refused while auctions are switched off,
/// for a contract off the allow-list, once the window has opened, and for a
/// sender other than the seller.
pub fn handle_cw721(
    config: &Config,
    auction: &mut Auction,
    now: u64,
    asset_contract: String,
    sender: String,
    token_id: String,
) -> (r: Result<(), ContractError>)
    ensures
        deposit_outcome(*config, *old(auction), *final(auction), now, asset_contract, sender, token_id, r),
{
    if !config.enable_auction {
        return Err(ContractError::AuctionDisabled {  });
    }
    if !supports(config, &asset_contract) {
        return Err(ContractError::BadRequest { msg: "Unsupported contract".to_owned() });
    }
    match auction.status(now) {
        AuctionStatus::NotStarted => {},
        _ => {
            return Err(ContractError::BadRequest { msg: "Auction has started".to_owned() });
        },
    }
    if !(sender == auction.seller) {
        return Err(ContractError::BadRequest { msg: "Not the seller".to_owned() });
    }
    auction.tokens.push(Token { contract: asset_contract, token_id });
    Ok(())
}

/// Dispatches a message reported by another contract on behalf of `sender`:
/// with an `amount` it is a token bid (see `handle_cw20_bid`), otherwise with
/// a `token_id` it is an asset deposit (see `handle_cw721`). A message with
/// neither is refused.
pub fn receive(
    config: &Config,
    auction: &mut Auction,
    now: u64,
    contract: String,
    sender: String,
    amount: Option<u128>,
    token_id: Option<String>,
    bidder: Option<String>,
) -> (r: Result<(), ContractError>)
    ensures
        match amount {
            Some(x) => admission_outcome(
                config.enable_auction,
                *old(auction),
                *final(auction),
                now,
                old(auction).payment_type == PaymentType::Cw20 && contract@ == old(auction).payment@,
                match bidder {
                    Some(b) => b,
                    None => sender,
                },
                x,
                r,
            ),
            None => match token_id {
                Some(t) => deposit_outcome(*config, *old(auction), *final(auction), now, contract, sender, t, r),
                None => refused_with(r, "Missing token id") && *final(auction) == *old(auction),
            },
        },
{
    match amount {
        Some(x) => handle_cw20_bid(config, auction, now, contract, sender, x, bidder),
        None => match token_id {
            Some(t) => handle_cw721(config, auction, now, contract, sender, t),
            None => Err(ContractError::BadRequest { msg: "Missing token id".to_owned() }),
        },
    }
}

/// The configuration a deployment starts with: no auction yet, the given
/// parameters, `owner` as the owner.
pub fn initial_config(msg: InstantiateMsg, owner: String, version: ContractVersion) -> (r: Config)
    ensures
        r.auction_num == 0,
        r.min_auction_duration == msg.min_auction_duration,
        r.max_auction_duration == msg.max_auction_duration,
        r.enable_auction == msg.enable_auction,
        r.fee_rate == msg.fee_rate,
        r.default_denom == msg.default_denom,
        r.support_contract == msg.support_contract,
        r.version == version,
        r.owner == owner,
        r.oracle_contract == msg.oracle_contract,
{
    Config {
        auction_num: 0,
        min_auction_duration: msg.min_auction_duration,
        max_auction_duration: msg.max_auction_duration,
        enable_auction: msg.enable_auction,
        fee_rate: msg.fee_rate,
        default_denom: msg.default_denom,
        support_contract: msg.support_contract,
        version,
        owner,
        oracle_contract: msg.oracle_contract,
    }
}

/// `v` if given, else `current`.
pub open spec fn or_keep<T>(v: Option<T>, current: T) -> T {
    match v {
        Some(x) => x,
        None => current,
    }
}

/// Replaces the given configuration fields. Only the owner may do so.
pub fn update_config(
    config: &mut Config,
    sender: String,
    min_auction_duration: Option<u64>,
    max_auction_duration: Option<u64>,
    enable_auction: Option<bool>,
    fee_rate: Option<u64>,
    default_denom: Option<String>,
    support_contract: Option<Vec<String>>,
) -> (r: Result<(), ContractError>)
    ensures
        ({
            let c = *old(config);
            &&& sender@ != c.owner@ ==> r == Err::<(), ContractError>(
                ContractError::NotOwner { sender, owner: c.owner },
            ) && *final(config) == c
            &&& sender@ == c.owner@ ==> r is Ok && *final(config) == (Config {
                min_auction_duration: or_keep(min_auction_duration, c.min_auction_duration),
                max_auction_duration: or_keep(max_auction_duration, c.max_auction_duration),
                enable_auction: or_keep(enable_auction, c.enable_auction),
                fee_rate: or_keep(fee_rate, c.fee_rate),
                default_denom: or_keep(default_denom, c.default_denom),
                support_contract: or_keep(support_contract, c.support_contract),
                ..c
            })
        }),
{
    if !(sender == config.owner) {
        return Err(ContractError::NotOwner { sender, owner: config.owner.clone() });
    }
    if let Some(v) = min_auction_duration {
        config.min_auction_duration = v;
    }
    if let Some(v) = max_auction_duration {
        config.max_auction_duration = v;
    }
    if let Some(v) = enable_auction {
        config.enable_auction = v;
    }
    if let Some(v) = fee_rate {
        config.fee_rate = v;
    }
    if let Some(v) = default_denom {
        config.default_denom = v;
    }
    if let Some(v) = support_contract {
        config.support_contract = v;
    }
    Ok(())
}

} // verus!
