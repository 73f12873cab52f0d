use vstd::prelude::*;

use crate::state::{Auction as AuctionRecord, Bid, Config as ConfigRecord, PaymentType, Token};

verus! {

/// The configuration as reported to readers.
#[derive(Clone, Debug, PartialEq, Eq)]
pub struct Config {
    pub auction_num: u64,
    pub min_auction_duration: u64,
    pub max_auction_duration: u64,
    pub enable_auction: bool,
    pub fee_rate: u64,
    pub default_denom: String,
    pub support_contract: Vec<String>,
}

/// An auction as reported to readers.
#[derive(Clone, Debug, PartialEq, Eq)]
pub struct Auction {
    pub name: String,
    pub start_timestamp: u64,
    pub auction_duration: u64,
    pub bidders: Vec<Bid>,
    pub curr_winner: Option<Bid>,
    pub tokens: Vec<Token>,
    pub seller: String,
    pub payment_type: PaymentType,
    pub payment: String,
    pub min_price: Option<u128>,
    pub bid_num: u32,
}

/// `r` reports the configuration `c`.
pub open spec fn reports_config(r: Config, c: ConfigRecord) -> bool {
    &&& r.auction_num == c.auction_num
    &&& r.min_auction_duration == c.min_auction_duration
    &&& r.max_auction_duration == c.max_auction_duration
    &&& r.enable_auction == c.enable_auction
    &&& r.fee_rate == c.fee_rate
    &&& r.default_denom == c.default_denom
    &&& r.support_contract@ == c.support_contract@
}

/// `r` reports the auction `a`.
pub open spec fn reports_auction(r: Auction, a: AuctionRecord) -> bool {
    &&& r.name == a.name
    &&& r.start_timestamp == a.start_timestamp
    &&& r.auction_duration == a.auction_duration
    &&& r.bidders@ == a.bidders@
    &&& r.curr_winner == a.curr_winner
    &&& r.tokens@ == a.tokens@
    &&& r.seller == a.seller
    &&& r.payment_type == a.payment_type
    &&& r.payment == a.payment
    &&& r.min_price == a.min_price
    &&& r.bid_num == a.bid_num
}

fn copy_bid(b: &Bid) -> (r: Bid)
    ensures
        r == *b,
{
    Bid { bidder: b.bidder.clone(), timestamp: b.timestamp, amount: b.amount }
}

fn copy_bids(v: &Vec<Bid>) -> (r: Vec<Bid>)
    ensures
        r@ == v@,
{
    let mut r: Vec<Bid> = Vec::new();
    let mut i: usize = 0;
    while i < v.len()
        invariant
            i <= v@.len(),
            r@ == v@.take(i as int),
        decreases v@.len() - i,
    {
        r.push(copy_bid(&v[i]));
        i = i + 1;
        assert(r@ =~= v@.take(i as int));
    }
    assert(v@.take(i as int) =~= v@);
    r
}

fn copy_tokens(v: &Vec<Token>) -> (r: Vec<Token>)
    ensures
        r@ == v@,
{
    let mut r: Vec<Token> = Vec::new();
    let mut i: usize = 0;
    while i < v.len()
        invariant
            i <= v@.len(),
            r@ == v@.take(i as int),
        decreases v@.len() - i,
    {
        let t = &v[i];
        r.push(Token { contract: t.contract.clone(), token_id: t.token_id.clone() });
        i = i + 1;
        assert(r@ =~= v@.take(i as int));
    }
    assert(v@.take(i as int) =~= v@);
    r
}

fn copy_strings(v: &Vec<String>) -> (r: Vec<String>)
    ensures
        r@ == v@,
{
    let mut r: Vec<String> = Vec::new();
    let mut i: usize = 0;
    while i < v.len()
        invariant
            i <= v@.len(),
            r@ == v@.take(i as int),
        decreases v@.len() - i,
    {
        r.push(v[i].clone());
        i = i + 1;
        assert(r@ =~= v@.take(i as int));
    }
    assert(v@.take(i as int) =~= v@);
    r
}

impl Config {
    /// The report of the configuration `c`.
    pub fn from_record(c: &ConfigRecord) -> (r: Config)
        ensures
            reports_config(r, *c),
    {
        Config {
            auction_num: c.auction_num,
            min_auction_duration: c.min_auction_duration,
            max_auction_duration: c.max_auction_duration,
            enable_auction: c.enable_auction,
            fee_rate: c.fee_rate,
            default_denom: c.default_denom.clone(),
            support_contract: copy_strings(&c.support_contract),
        }
    }
}

impl Auction {
    /// The report of the auction `a`.
    pub fn from_record(a: &AuctionRecord) -> (r: Auction)
        ensures
            reports_auction(r, *a),
    {
        Auction {
            name: a.name.clone(),
            start_timestamp: a.start_timestamp,
            auction_duration: a.auction_duration,
            bidders: copy_bids(&a.bidders),
            curr_winner: match &a.curr_winner {
                Some(b) => Some(copy_bid(b)),
                None => None,
            },
            tokens: copy_tokens(&a.tokens),
            seller: a.seller.clone(),
            payment_type: a.payment_type,
            payment: a.payment.clone(),
            min_price: a.min_price,
            bid_num: a.bid_num,
        }
    }
}

} // verus!
