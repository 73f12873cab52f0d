use vstd::prelude::*;

use std::hash::{Hash, Hasher};

use crate::state::{window_end, Bid};

verus! {

/// The 64-bit hash of a randomness value, as std's `DefaultHasher` of the
/// running build computes it.
pub uninterp spec fn randomness_hash_of(randomness: Seq<u8>) -> u64;

/// Relies on std's `DefaultHasher`: a hasher made by `DefaultHasher::new` is
/// not seeded, so within one build the hash of the bytes (hashed as a
/// `cosmwasm_std::Binary`) depends on the bytes alone. std does not promise
/// the same hashes across releases or platforms: the length is hashed as a
/// native `usize`, so a 64-bit host and a 32-bit wasm target draw different
/// cutoffs from the same bytes.
#[verifier::external_body]
pub(crate) fn hash_randomness(randomness: &Vec<u8>) -> (r: u64)
    ensures
        r == randomness_hash_of(randomness@),
{
    let mut hasher = std::collections::hash_map::DefaultHasher::new();
    cosmwasm_std::Binary::from(randomness.clone()).hash(&mut hasher);
    hasher.finish()
}

/// The offset of the cutoff into the window: the hash modulo the duration. A
/// window of zero length has the single offset zero.
pub open spec fn cutoff_offset(duration: u64, h: u64) -> u64 {
    if duration == 0 {
        0
    } else {
        (h % duration) as u64
    }
}

/// The cutoff drawn from the hash `h`: `start + h % duration`, clamped to the
/// largest representable time.
pub open spec fn cutoff_time(start: u64, duration: u64, h: u64) -> u64 {
    window_end(start, cutoff_offset(duration, h))
}

/// The index of the latest bid among `bids[..n]` placed at or before `cutoff`.
pub open spec fn last_eligible(bids: Seq<Bid>, cutoff: u64, n: int) -> Option<int>
    decreases n,
{
    if n <= 0 {
        None
    } else if bids[n - 1].timestamp <= cutoff {
        Some(n - 1)
    } else {
        last_eligible(bids, cutoff, n - 1)
    }
}

/// The final winner of a ledger for a given cutoff: the latest bid at or
/// before the cutoff.
pub open spec fn winner_index(bids: Seq<Bid>, cutoff: u64) -> Option<int> {
    last_eligible(bids, cutoff, bids.len() as int)
}

/// Computes the cutoff for the hash `h` of the revealed randomness.
pub fn cutoff_for(start: u64, duration: u64, h: u64) -> (r: u64)
    ensures
        r == cutoff_time(start, duration, h),
{
    let offset = if duration == 0 {
        0
    } else {
        h % duration
    };
    match start.checked_add(offset) {
        Some(t) => t,
        None => u64::MAX,
    }
}

/// Computes the cutoff for revealed randomness bytes.
pub fn draw_cutoff(start: u64, duration: u64, randomness: &Vec<u8>) -> (r: u64)
    ensures
        r == cutoff_time(start, duration, randomness_hash_of(randomness@)),
{
    let h = hash_randomness(randomness);
    cutoff_for(start, duration, h)
}

/// Scans the ledger from the latest bid backward and returns the first bid
/// placed at or before `cutoff`.
pub fn select_winner(bids: &Vec<Bid>, cutoff: u64) -> (r: Option<usize>)
    ensures
        match r {
            Some(i) => winner_index(bids@, cutoff) == Some(i as int),
            None => winner_index(bids@, cutoff) is None,
        },
{
    let mut n: usize = bids.len();
    while n > 0
        invariant
            n <= bids@.len(),
            winner_index(bids@, cutoff) == last_eligible(bids@, cutoff, n as int),
        decreases n,
    {
        if bids[n - 1].timestamp <= cutoff {
            return Some(n - 1);
        }
        n = n - 1;
    }
    None
}

proof fn lemma_last_eligible(bids: Seq<Bid>, cutoff: u64, n: int)
    requires
        0 <= n <= bids.len(),
    ensures
        match last_eligible(bids, cutoff, n) {
            Some(i) => 0 <= i < n && bids[i].timestamp <= cutoff && forall|j: int|
                i < j < n ==> #[trigger] bids[j].timestamp > cutoff,
            None => forall|j: int| 0 <= j < n ==> #[trigger] bids[j].timestamp > cutoff,
        },
    decreases n,
{
    if n > 0 {
        lemma_last_eligible(bids, cutoff, n - 1);
    }
}

/// The selected winner was placed at or before the cutoff, and every later
/// bid after it.
pub proof fn lemma_winner_before_cutoff(bids: Seq<Bid>, cutoff: u64)
    requires
        winner_index(bids, cutoff) is Some,
    ensures
        0 <= winner_index(bids, cutoff)->Some_0 < bids.len(),
        bids[winner_index(bids, cutoff)->Some_0].timestamp <= cutoff,
        forall|j: int|
            winner_index(bids, cutoff)->Some_0 < j < bids.len() ==> #[trigger] bids[j].timestamp
                > cutoff,
{
    lemma_last_eligible(bids, cutoff, bids.len() as int);
}

/// A winner exists whenever some bid of the ledger was placed at or before
/// the cutoff; in particular whenever the earliest bid was.
pub proof fn lemma_winner_exists(bids: Seq<Bid>, cutoff: u64)
    requires
        exists|i: int| 0 <= i < bids.len() && #[trigger] bids[i].timestamp <= cutoff,
    ensures
        winner_index(bids, cutoff) is Some,
{
    lemma_last_eligible(bids, cutoff, bids.len() as int);
}

/// The cutoff and the winner are functions of the ledger, the window and the
/// randomness bytes: the same inputs give the same outcome.
pub proof fn lemma_selection_deterministic(
    bids1: Seq<Bid>,
    bids2: Seq<Bid>,
    start: u64,
    duration: u64,
    randomness1: Seq<u8>,
    randomness2: Seq<u8>,
)
    requires
        bids1 == bids2,
        randomness1 == randomness2,
    ensures
        cutoff_time(start, duration, randomness_hash_of(randomness1)) == cutoff_time(
            start,
            duration,
            randomness_hash_of(randomness2),
        ),
        winner_index(bids1, cutoff_time(start, duration, randomness_hash_of(randomness1)))
            == winner_index(bids2, cutoff_time(start, duration, randomness_hash_of(randomness2))),
{
}

/// The cutoff never falls before the window opens, and, for a window of
/// non-zero length that does not reach the largest time, falls before its end.
pub proof fn lemma_cutoff_in_window(start: u64, duration: u64, h: u64)
    ensures
        start <= cutoff_time(start, duration, h) <= window_end(start, duration),
        duration > 0 && start + duration <= u64::MAX ==> cutoff_time(start, duration, h) < start
            + duration,
{
}

} // verus!
