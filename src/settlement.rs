use vstd::prelude::*;

use crate::state::{Bid, Token};

verus! {

/// One outgoing movement computed by settlement.
#[derive(Clone, Debug, PartialEq, Eq)]
pub enum Transfer {
    /// `amount` of the auction's payment asset to `recipient`.
    Funds { recipient: String, amount: u128 },
    /// The escrowed token `token_id` of `contract` to `recipient`.
    Asset { contract: String, token_id: String, recipient: String },
}

/// Refunds, latest bid first, for the bids at indices `lo..` of the ledger,
/// leaving out the bid at index `w`.
pub open spec fn refunds_from(bids: Seq<Bid>, w: int, lo: int) -> Seq<Transfer>
    decreases bids.len() - lo,
{
    if lo < 0 || lo >= bids.len() {
        Seq::empty()
    } else if lo == w {
        refunds_from(bids, w, lo + 1)
    } else {
        refunds_from(bids, w, lo + 1).push(
            Transfer::Funds { recipient: bids[lo].bidder, amount: bids[lo].amount },
        )
    }
}

/// One transfer per escrowed asset, in escrow order, each to `recipient`.
pub open spec fn asset_transfers(tokens: Seq<Token>, recipient: String) -> Seq<Transfer> {
    Seq::new(
        tokens.len(),
        |i: int|
            Transfer::Asset {
                contract: tokens[i].contract,
                token_id: tokens[i].token_id,
                recipient,
            },
    )
}

/// The transfers of a candle blow whose winner is the bid at `winner`: a
/// refund to every other bidder (latest first), the winning amount to the
/// seller, and every escrowed asset to the winner. With no winner every bid is
/// refunded and the assets stay in escrow.
pub open spec fn candle_transfers(
    bids: Seq<Bid>,
    tokens: Seq<Token>,
    seller: String,
    winner: Option<int>,
) -> Seq<Transfer> {
    match winner {
        Some(w) => refunds_from(bids, w, 0).push(
            Transfer::Funds { recipient: seller, amount: bids[w].amount },
        ) + asset_transfers(tokens, bids[w].bidder),
        None => refunds_from(bids, -1, 0),
    }
}

/// The total of the fund movements of `ts`.
pub open spec fn funds_total(ts: Seq<Transfer>) -> int
    decreases ts.len(),
{
    if ts.len() == 0 {
        0
    } else {
        funds_total(ts.drop_last()) + match ts.last() {
            Transfer::Funds { amount, .. } => amount as int,
            Transfer::Asset { .. } => 0int,
        }
    }
}

/// The total of the amounts of the bids at indices `lo..`.
pub open spec fn bids_total_from(bids: Seq<Bid>, lo: int) -> int
    decreases bids.len() - lo,
{
    if lo < 0 || lo >= bids.len() {
        0
    } else {
        bids[lo].amount + bids_total_from(bids, lo + 1)
    }
}

/// The total of all bid amounts of a ledger.
pub open spec fn bids_total(bids: Seq<Bid>) -> int {
    bids_total_from(bids, 0)
}

proof fn lemma_funds_total_concat(a: Seq<Transfer>, b: Seq<Transfer>)
    ensures
        funds_total(a + b) == funds_total(a) + funds_total(b),
    decreases b.len(),
{
    if b.len() > 0 {
        lemma_funds_total_concat(a, b.drop_last());
        assert((a + b).drop_last() =~= a + b.drop_last());
    } else {
        assert(a + b =~= a);
    }
}

proof fn lemma_assets_move_no_funds(tokens: Seq<Token>, recipient: String)
    ensures
        funds_total(asset_transfers(tokens, recipient)) == 0,
    decreases tokens.len(),
{
    if tokens.len() > 0 {
        lemma_assets_move_no_funds(tokens.drop_last(), recipient);
        assert(asset_transfers(tokens, recipient).drop_last() =~= asset_transfers(
            tokens.drop_last(),
            recipient,
        ));
    }
}

proof fn lemma_refunds_total(bids: Seq<Bid>, w: int, lo: int)
    requires
        0 <= lo <= bids.len(),
    ensures
        funds_total(refunds_from(bids, w, lo)) == bids_total_from(bids, lo) - if lo <= w < bids.len() {
            bids[w].amount as int
        } else {
            0int
        },
    decreases bids.len() - lo,
{
    if lo < bids.len() {
        lemma_refunds_total(bids, w, lo + 1);
        let rest = refunds_from(bids, w, lo + 1);
        let t = Transfer::Funds { recipient: bids[lo].bidder, amount: bids[lo].amount };
        assert(rest.push(t).drop_last() =~= rest);
    }
}

/// No funds are created or destroyed by a candle blow: the refunds and the
/// payment to the seller add up to the total of all bids, whichever bid wins
/// (or none).
pub proof fn lemma_candle_conserves_funds(
    bids: Seq<Bid>,
    tokens: Seq<Token>,
    seller: String,
    winner: Option<int>,
)
    requires
        winner matches Some(w) ==> 0 <= w < bids.len(),
    ensures
        funds_total(candle_transfers(bids, tokens, seller, winner)) == bids_total(bids),
{
    match winner {
        Some(w) => {
            lemma_refunds_total(bids, w, 0);
            let refunds = refunds_from(bids, w, 0);
            let paid = refunds.push(Transfer::Funds { recipient: seller, amount: bids[w].amount });
            assert(paid.drop_last() =~= refunds);
            lemma_funds_total_concat(paid, asset_transfers(tokens, bids[w].bidder));
            lemma_assets_move_no_funds(tokens, bids[w].bidder);
        },
        None => {
            lemma_refunds_total(bids, -1, 0);
        },
    }
}

/// A flow moves no funds: its transfers return the escrowed assets only.
pub proof fn lemma_flow_moves_no_funds(tokens: Seq<Token>, seller: String)
    ensures
        funds_total(asset_transfers(tokens, seller)) == 0,
        forall|i: int|
            0 <= i < tokens.len() ==> (#[trigger] asset_transfers(tokens, seller)[i] matches Transfer::Asset { recipient, .. } && recipient == seller),
{
    lemma_assets_move_no_funds(tokens, seller);
}

/// Appends to `out` one transfer per escrowed asset, each to `recipient`.
fn push_asset_transfers(out: &mut Vec<Transfer>, tokens: &Vec<Token>, recipient: &String)
    ensures
        final(out)@ == old(out)@ + asset_transfers(tokens@, *recipient),
{
    let ghost start = out@;
    let mut i: usize = 0;
    while i < tokens.len()
        invariant
            i <= tokens@.len(),
            out@ == start + asset_transfers(tokens@.take(i as int), *recipient),
        decreases tokens@.len() - i,
    {
        let t = &tokens[i];
        out.push(
            Transfer::Asset {
                contract: t.contract.clone(),
                token_id: t.token_id.clone(),
                recipient: recipient.clone(),
            },
        );
        i = i + 1;
        assert(asset_transfers(tokens@.take(i as int), *recipient) =~= asset_transfers(
            tokens@.take(i - 1),
            *recipient,
        ).push(
            Transfer::Asset {
                contract: tokens@[i - 1].contract,
                token_id: tokens@[i - 1].token_id,
                recipient: *recipient,
            },
        ));
    }
    assert(tokens@.take(i as int) =~= tokens@);
}

/// The transfers that return every escrowed asset to `seller`.
pub fn flow_plan(tokens: &Vec<Token>, seller: &String) -> (r: Vec<Transfer>)
    ensures
        r@ == asset_transfers(tokens@, *seller),
{
    let mut out: Vec<Transfer> = Vec::new();
    push_asset_transfers(&mut out, tokens, seller);
    out
}

/// The transfers of a candle blow whose winner is the bid at `winner`.
pub fn candle_plan(bids: &Vec<Bid>, tokens: &Vec<Token>, seller: &String, winner: Option<usize>) -> (r: Vec<Transfer>)
    requires
        winner matches Some(w) ==> w < bids@.len(),
    ensures
        r@ == candle_transfers(
            bids@,
            tokens@,
            *seller,
            match winner {
                Some(w) => Some(w as int),
                None => None,
            },
        ),
{
    let w: Ghost<int> = Ghost(
        match winner {
            Some(w) => w as int,
            None => -1,
        },
    );
    let mut out: Vec<Transfer> = Vec::new();
    let mut n: usize = bids.len();
    while n > 0
        invariant
            n <= bids@.len(),
            out@ == refunds_from(bids@, w@, n as int),
            w@ == match winner {
                Some(w) => w as int,
                None => -1,
            },
        decreases n,
    {
        n = n - 1;
        let skip = match winner {
            Some(wi) => wi == n,
            None => false,
        };
        if !skip {
            let b = &bids[n];
            out.push(Transfer::Funds { recipient: b.bidder.clone(), amount: b.amount });
        }
    }
    match winner {
        Some(wi) => {
            let b = &bids[wi];
            out.push(Transfer::Funds { recipient: seller.clone(), amount: b.amount });
            push_asset_transfers(&mut out, tokens, &b.bidder);
        },
        None => {},
    }
    out
}

} // verus!
