//! Cleaning up after a revoked artist: their active listings are cancelled
//! in bounded batches, so the work can be resumed call after call.
use vstd::prelude::*;

use crate::types::{AccountId, Listing, ListingStatus};

verus! {

/// `l` is an active listing of `artist`.
pub open spec fn active_of(l: Listing, artist: AccountId) -> bool {
    l.artist == artist && l.status == ListingStatus::Active
}

/// Number of active listings of `artist` among `s`.
pub open spec fn count_active(s: Seq<Listing>, artist: AccountId) -> nat
    decreases s.len(),
{
    if s.len() == 0 {
        0
    } else {
        count_active(s.drop_last(), artist) + if active_of(s.last(), artist) {
            1nat
        } else {
            0nat
        }
    }
}

/// The listing at index `j` of `s` after a batch that cancels at most `max`
/// active listings of `artist`, the first ones in order.
pub open spec fn after_batch(s: Seq<Listing>, artist: AccountId, max: nat, j: int) -> Listing {
    if active_of(s[j], artist) && count_active(s.take(j), artist) < max {
        Listing { status: ListingStatus::Cancelled, ..s[j] }
    } else {
        s[j]
    }
}

/// The smaller of two numbers.
pub open spec fn min_nat(a: nat, b: nat) -> nat {
    if a < b {
        a
    } else {
        b
    }
}

/// Cancels the first `max` active listings of `artist` among `listings`
/// (their tokens are to go back to the artist and their pending offers to be
/// turned down) and returns how many active listings of the artist remain,
/// so that a caller repeats until nothing remains. Other listings are left
/// as they were.
pub fn cancel_artist_listings(listings: &mut Vec<Listing>, artist: AccountId, max: u32) -> (remaining: u64)
    ensures
        final(listings)@.len() == old(listings)@.len(),
        forall|j: int|
            0 <= j < old(listings)@.len() ==> #[trigger] final(listings)@[j] == after_batch(
                old(listings)@,
                artist,
                max as nat,
                j,
            ),
        remaining == count_active(old(listings)@, artist) - min_nat(
            max as nat,
            count_active(old(listings)@, artist),
        ),
        remaining == count_active(final(listings)@, artist),
{
    let ghost before = listings@;
    let n = listings.len();
    let mut done: u32 = 0;
    let mut remaining: u64 = 0;
    let mut i: usize = 0;
    while i < n
        invariant
            n == before.len(),
            listings@.len() == n,
            i <= n,
            done <= max,
            done == min_nat(max as nat, count_active(before.take(i as int), artist)),
            remaining + done == count_active(before.take(i as int), artist),
            count_active(before.take(i as int), artist) <= i,
            remaining == count_active(listings@.take(i as int), artist),
            forall|j: int| 0 <= j < i ==> #[trigger] listings@[j] == after_batch(before, artist, max as nat, j),
            forall|j: int| i <= j < n ==> #[trigger] listings@[j] == before[j],
        decreases n - i,
    {
        let ghost prev = listings@;
        assert(before.take(i as int + 1).drop_last() =~= before.take(i as int));
        assert(before.take(i as int + 1).last() == before[i as int]);
        assert(before.take(i as int) =~= before.take(i as int));
        if listings[i].artist == artist && listings[i].status == ListingStatus::Active {
            if done < max {
                listings[i].status = ListingStatus::Cancelled;
                done = done + 1;
            } else {
                remaining = remaining + 1;
            }
        }
        proof {
            assert(listings@.take(i as int + 1).drop_last() =~= prev.take(i as int));
            assert forall|j: int| 0 <= j < i + 1 implies #[trigger] listings@[j] == after_batch(
                before,
                artist,
                max as nat,
                j,
            ) by {
                if j < i {
                    assert(listings@[j] == prev[j]);
                }
            }
        }
        i = i + 1;
    }
    proof {
        assert(before.take(n as int) =~= before);
        assert(listings@.take(n as int) =~= listings@);
    }
    remaining
}

/// Batches make progress: each one cancels `min(max, remaining)` listings,
/// so repeating with a positive `max` empties the artist's active listings,
/// and once none remain a batch changes nothing.
pub proof fn lemma_batches_converge(before: nat, max: nat)
    ensures
        before - min_nat(max, before) <= before,
        max > 0 && before > 0 ==> before - min_nat(max, before) < before,
        before == 0 ==> before - min_nat(max, before) == 0,
{
}

} // verus!
