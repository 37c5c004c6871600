use vstd::prelude::*;

use crate::errors::MarketplaceError;
use crate::types::Recipient;

verus! {

/// 100 % expressed in basis points.
pub const BPS_DENOMINATOR: u32 = 10_000;

/// The most payees one listing or auction may split its proceeds between.
pub const MAX_RECIPIENTS: usize = 4;

/// Sum of the shares of `s`, in basis points.
pub open spec fn total_bps(s: Seq<Recipient>) -> int
    decreases s.len(),
{
    if s.len() == 0 {
        0
    } else {
        total_bps(s.drop_last()) + s.last().percentage
    }
}

/// Some payee has a share of zero basis points.
pub open spec fn has_zero_share(s: Seq<Recipient>) -> bool {
    exists|i: int| 0 <= i < s.len() && #[trigger] s[i].percentage == 0
}

/// Some address occurs twice among the payees.
pub open spec fn has_duplicate_address(s: Seq<Recipient>) -> bool {
    exists|i: int, j: int|
        0 <= i < j < s.len() && #[trigger] s[i].address == #[trigger] s[j].address
}

/// What validation answers for the payee list `s` next to a protocol fee of
/// `protocol_fee_bps`: the checks run in this order and the first that fails
/// decides the error.
pub open spec fn recipients_verdict(s: Seq<Recipient>, protocol_fee_bps: u32) -> Result<
    (),
    MarketplaceError,
> {
    if s.len() == 0 {
        Err(MarketplaceError::InvalidSplit)
    } else if s.len() > MAX_RECIPIENTS {
        Err(MarketplaceError::TooManyRecipients)
    } else if has_zero_share(s) {
        Err(MarketplaceError::ZeroRecipientBps)
    } else if has_duplicate_address(s) {
        Err(MarketplaceError::DuplicateRecipient)
    } else if total_bps(s) + protocol_fee_bps > BPS_DENOMINATOR {
        Err(MarketplaceError::RoyaltyExceedsLimit)
    } else {
        Ok(())
    }
}

/// A payee list that passed validation has between one and
/// [`MAX_RECIPIENTS`] payees, and its shares together with the fee stay
/// within 10 000 bps.
pub proof fn lemma_valid_split_bounds(s: Seq<Recipient>, protocol_fee_bps: u32)
    requires
        recipients_verdict(s, protocol_fee_bps) is Ok,
    ensures
        1 <= s.len() <= MAX_RECIPIENTS,
        protocol_fee_bps <= BPS_DENOMINATOR,
        0 <= total_bps(s) <= BPS_DENOMINATOR - protocol_fee_bps,
{
    lemma_total_bps_bound(s);
}

proof fn lemma_total_bps_bound(s: Seq<Recipient>)
    ensures
        0 <= total_bps(s) <= s.len() * 0xffff_ffff,
    decreases s.len(),
{
    if s.len() > 0 {
        lemma_total_bps_bound(s.drop_last());
    }
}

/// Checks a payee list before it is stored on a listing or auction: it must be
/// non-empty, hold at most [`MAX_RECIPIENTS`] entries, give every payee a
/// non-zero share, name no address twice, and leave room for the protocol fee
/// (shares plus fee at most 10 000 bps).
pub fn validate_recipients(recipients: &Vec<Recipient>, protocol_fee_bps: u32) -> (r: Result<
    (),
    MarketplaceError,
>)
    ensures
        r == recipients_verdict(recipients@, protocol_fee_bps),
{
    let n = recipients.len();
    if n == 0 {
        return Err(MarketplaceError::InvalidSplit);
    }
    if n > MAX_RECIPIENTS {
        return Err(MarketplaceError::TooManyRecipients);
    }
    let mut i: usize = 0;
    while i < n
        invariant
            n == recipients@.len(),
            0 < n <= MAX_RECIPIENTS,
            i <= n,
            forall|k: int| 0 <= k < i ==> recipients@[k].percentage != 0,
        decreases n - i,
    {
        if recipients[i].percentage == 0 {
            assert(recipients@[i as int].percentage == 0);
            return Err(MarketplaceError::ZeroRecipientBps);
        }
        i = i + 1;
    }
    assert(!has_zero_share(recipients@));
    let mut j: usize = 0;
    while j < n
        invariant
            n == recipients@.len(),
            n <= MAX_RECIPIENTS,
            !has_zero_share(recipients@),
            j <= n,
            forall|a: int, b: int|
                0 <= a < b < j ==> #[trigger] recipients@[a].address != #[trigger] recipients@[b].address,
        decreases n - j,
    {
        let mut k: usize = 0;
        while k < j
            invariant
                n == recipients@.len(),
                n <= MAX_RECIPIENTS,
                !has_zero_share(recipients@),
                j < n,
                k <= j,
                forall|a: int| 0 <= a < k ==> #[trigger] recipients@[a].address != recipients@[j as int].address,
            decreases j - k,
        {
            if recipients[k].address == recipients[j].address {
                assert(recipients@[k as int].address == recipients@[j as int].address);
                assert(has_duplicate_address(recipients@));
                return Err(MarketplaceError::DuplicateRecipient);
            }
            k = k + 1;
        }
        j = j + 1;
    }
    assert(!has_duplicate_address(recipients@));
    let mut total: u64 = 0;
    let mut t: usize = 0;
    while t < n
        invariant
            n == recipients@.len(),
            n <= MAX_RECIPIENTS,
            t <= n,
            total == total_bps(recipients@.take(t as int)),
            total <= t * 0xffff_ffff,
        decreases n - t,
    {
        assert(recipients@.take(t as int + 1).drop_last() =~= recipients@.take(t as int));
        total = total + recipients[t].percentage as u64;
        t = t + 1;
    }
    assert(recipients@.take(n as int) =~= recipients@);
    if total + protocol_fee_bps as u64 > BPS_DENOMINATOR as u64 {
        return Err(MarketplaceError::RoyaltyExceedsLimit);
    }
    Ok(())
}

} // verus!
