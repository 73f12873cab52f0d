use vstd::prelude::*;

use crate::msg::response;
use crate::state::{status_at, Auction, AuctionStatus, Config};

verus! {

/// Reports the configuration.
pub fn config(stored: &Config) -> (r: response::Config)
    ensures
        response::reports_config(r, *stored),
{
    response::Config::from_record(stored)
}

/// Reports the auction found under an id, or nothing if none was.
pub fn auction(found: Option<&Auction>) -> (r: Option<response::Auction>)
    ensures
        match found {
            Some(a) => r matches Some(x) && response::reports_auction(x, *a),
            None => r is None,
        },
{
    match found {
        Some(a) => Some(response::Auction::from_record(a)),
        None => None,
    }
}

/// Whether auction `a` is listed under the status filter at `now`.
pub open spec fn listed(a: Auction, now: u64, status: Option<AuctionStatus>) -> bool {
    match status {
        Some(s) => status_at(a.start_timestamp, a.auction_duration, now) == s,
        None => true,
    }
}

/// The ids of the listed auctions among the `k` most recent ones, most recent
/// first. The auction at index `i` has id `i + 1`.
pub open spec fn listed_recent(
    auctions: Seq<Auction>,
    now: u64,
    status: Option<AuctionStatus>,
    k: int,
) -> Seq<u64>
    decreases k,
{
    if k <= 0 || k > auctions.len() {
        Seq::empty()
    } else {
        let i = auctions.len() - k;
        let prev = listed_recent(auctions, now, status, k - 1);
        if listed(auctions[i], now, status) {
            prev.push((i + 1) as u64)
        } else {
            prev
        }
    }
}

/// The ids on page `page` of `limit` entries of the listed auctions, most
/// recent first: the first `page * limit` listed auctions are skipped.
pub open spec fn page_ids(
    auctions: Seq<Auction>,
    now: u64,
    status: Option<AuctionStatus>,
    page: u32,
    limit: u32,
) -> Seq<u64> {
    let all = listed_recent(auctions, now, status, auctions.len() as int);
    let start = page * limit;
    let lo = if start < all.len() { start } else { all.len() as int };
    let hi = if start + limit < all.len() { start + limit } else { all.len() as int };
    all.subrange(lo, hi)
}

proof fn lemma_listed_prefix(
    auctions: Seq<Auction>,
    now: u64,
    status: Option<AuctionStatus>,
    k1: int,
    k2: int,
)
    requires
        0 <= k1 <= k2 <= auctions.len(),
    ensures
        listed_recent(auctions, now, status, k1).len() <= listed_recent(auctions, now, status, k2).len(),
        listed_recent(auctions, now, status, k2).take(
            listed_recent(auctions, now, status, k1).len() as int,
        ) == listed_recent(auctions, now, status, k1),
    decreases k2 - k1,
{
    let m1 = listed_recent(auctions, now, status, k1);
    if k1 < k2 {
        lemma_listed_prefix(auctions, now, status, k1, k2 - 1);
        let m = listed_recent(auctions, now, status, k2 - 1);
        let m2 = listed_recent(auctions, now, status, k2);
        assert(m2.take(m.len() as int) =~= m);
        assert(m2.take(m1.len() as int) =~= m.take(m1.len() as int));
    } else {
        assert(m1.take(m1.len() as int) =~= m1);
    }
}

proof fn lemma_listed_ids(auctions: Seq<Auction>, now: u64, status: Option<AuctionStatus>, k: int)
    requires
        0 <= k <= auctions.len(),
        auctions.len() <= u64::MAX,
    ensures
        listed_recent(auctions, now, status, k).len() <= k,
        forall|j: int|
            0 <= j < listed_recent(auctions, now, status, k).len() ==> 1 <= #[trigger] listed_recent(
                auctions,
                now,
                status,
                k,
            )[j] <= auctions.len(),
    decreases k,
{
    if k > 0 {
        lemma_listed_ids(auctions, now, status, k - 1);
    }
}

/// The ids on one page of the listing (see `page_ids`).
pub fn auction_list_ids(
    auctions: &Vec<Auction>,
    now: u64,
    status: Option<AuctionStatus>,
    page: u32,
    limit: u32,
) -> (r: Vec<u64>)
    ensures
        r@ == page_ids(auctions@, now, status, page, limit),
{
    let ghost all = listed_recent(auctions@, now, status, auctions@.len() as int);
    assert((page as u64) * (limit as u64) <= u64::MAX) by (nonlinear_arith)
        requires
            page <= u32::MAX,
            limit <= u32::MAX,
    ;
    let start: u64 = (page as u64) * (limit as u64);
    let mut res: Vec<u64> = Vec::new();
    if limit == 0 {
        assert(page_ids(auctions@, now, status, page, limit) =~= Seq::<u64>::empty());
        return res;
    }
    let n = auctions.len();
    let mut k: usize = 0;
    let mut count: usize = 0;
    while k < n
        invariant
            n == auctions@.len(),
            all == listed_recent(auctions@, now, status, n as int),
            k <= n,
            start == page * limit,
            limit > 0,
            count == listed_recent(auctions@, now, status, k as int).len(),
            count <= k,
            res@.len() < limit,
            res@ == listed_recent(auctions@, now, status, k as int).subrange(
                if start < count { start as int } else { count as int },
                if start + limit < count { start + limit } else { count as int },
            ),
        decreases n - k,
    {
        let ghost prev = listed_recent(auctions@, now, status, k as int);
        let i = n - 1 - k;
        let a = &auctions[i];
        let keep = match status {
            Some(s) => match (a.status(now), s) {
                (AuctionStatus::NotStarted, AuctionStatus::NotStarted) => true,
                (AuctionStatus::OpeningPeriod, AuctionStatus::OpeningPeriod) => true,
                (AuctionStatus::Ended, AuctionStatus::Ended) => true,
                _ => false,
            },
            None => true,
        };
        k = k + 1;
        if keep {
            let id = (i + 1) as u64;
            if count as u64 >= start {
                res.push(id);
            }
            count = count + 1;
            proof {
                let cur = listed_recent(auctions@, now, status, k as int);
                assert(cur == prev.push(id));
                let lo = if start < count { start as int } else { count as int };
                let hi = if start + limit < count { start + limit } else { count as int };
                assert(res@ =~= cur.subrange(lo, hi));
            }
            if res.len() >= limit as usize {
                proof {
                    let cur = listed_recent(auctions@, now, status, k as int);
                    lemma_listed_prefix(auctions@, now, status, k as int, n as int);
                    assert(cur == all.take(cur.len() as int));
                    assert(start + limit <= count);
                    assert(res@ =~= all.subrange(start as int, start + limit));
                }
                return res;
            }
        }
    }
    assert(auctions@.len() == n);
    res
}

/// One page of the listing, most recent first (see `page_ids`).
pub fn auction_list(
    auctions: &Vec<Auction>,
    now: u64,
    status: Option<AuctionStatus>,
    page: u32,
    limit: u32,
) -> (r: Vec<response::Auction>)
    ensures
        r@.len() == page_ids(auctions@, now, status, page, limit).len(),
        forall|j: int|
            0 <= j < r@.len() ==> response::reports_auction(
                #[trigger] r@[j],
                auctions@[page_ids(auctions@, now, status, page, limit)[j] - 1],
            ),
{
    let ids = auction_list_ids(auctions, now, status, page, limit);
    let len = auctions.len();
    proof {
        let n = len as int;
        lemma_listed_ids(auctions@, now, status, n);
        let all = listed_recent(auctions@, now, status, n);
        assert forall|q: int| 0 <= q < ids@.len() implies 1 <= #[trigger] ids@[q] <= n by {
            let start = page * limit;
            let lo = if start < all.len() { start } else { all.len() as int };
            assert(ids@[q] == all[lo + q]);
        }
    }
    let mut out: Vec<response::Auction> = Vec::new();
    let mut j: usize = 0;
    while j < ids.len()
        invariant
            j <= ids@.len(),
            ids@ == page_ids(auctions@, now, status, page, limit),
            len == auctions@.len(),
            forall|q: int| 0 <= q < ids@.len() ==> 1 <= #[trigger] ids@[q] <= auctions@.len(),
            out@.len() == j,
            forall|q: int|
                0 <= q < j ==> response::reports_auction(#[trigger] out@[q], auctions@[ids@[q] - 1]),
        decreases ids@.len() - j,
    {
        let idx = (ids[j] - 1) as usize;
        assert(idx as int == ids@[j as int] - 1);
        out.push(response::Auction::from_record(&auctions[idx]));
        j = j + 1;
    }
    out
}

} // verus!
