use vstd::prelude::*;

use crate::errors::MarketplaceError;
use crate::recipients::{total_bps, BPS_DENOMINATOR, MAX_RECIPIENTS};
use crate::types::{AccountId, Recipient};

verus! {

/// What a collection reports about its collection-level royalty: who is paid
/// and how many basis points of the sale price.
#[derive(Clone, Copy, Debug, PartialEq, Eq, Structural)]
pub struct RoyaltyInfo {
    pub receiver: AccountId,
    pub bps: u32,
}

/// How the proceeds of one sale are divided.
#[derive(Debug)]
pub struct Settlement {
    /// The collection royalty receiver, when a royalty is paid.
    pub royalty_receiver: Option<AccountId>,
    /// Paid to the royalty receiver, off the top of the sale price.
    pub royalty_amount: i128,
    /// Paid to the treasury.
    pub protocol_fee: i128,
    /// `payouts[i]` is paid to the `i`-th recipient of the listing or auction.
    pub payouts: Vec<i128>,
}

/// `bps` basis points of `amount`, rounded down.
pub open spec fn bps_of(amount: int, bps: int) -> int {
    amount * bps / (BPS_DENOMINATOR as int)
}

/// Sum of a sequence of amounts.
pub open spec fn sum_amounts(s: Seq<i128>) -> int
    decreases s.len(),
{
    if s.len() == 0 {
        0
    } else {
        sum_amounts(s.drop_last()) + s.last()
    }
}

/// The collection reports a royalty rate above 100 %: the settlement is
/// refused with `InvalidRoyalty`.
pub open spec fn royalty_invalid(royalty: Option<RoyaltyInfo>) -> bool {
    royalty matches Some(ri) && ri.bps > BPS_DENOMINATOR
}

/// A royalty is taken when the collection reports a non-zero rate to a
/// receiver other than the seller.
pub open spec fn royalty_applies(seller: AccountId, royalty: Option<RoyaltyInfo>) -> bool {
    royalty matches Some(ri) && ri.bps > 0 && ri.receiver != seller
}

/// The royalty taken off the top of `price`.
pub open spec fn royalty_part(price: int, seller: AccountId, royalty: Option<RoyaltyInfo>) -> int {
    if royalty_applies(seller, royalty) {
        bps_of(price, royalty->Some_0.bps as int)
    } else {
        0
    }
}

/// The protocol fee on what remains after the royalty; nothing when no
/// treasury is configured.
pub open spec fn fee_part(remaining: int, protocol_fee_bps: u32, treasury_set: bool) -> int {
    if treasury_set {
        bps_of(remaining, protocol_fee_bps as int)
    } else {
        0
    }
}

/// What the recipients share: the price less royalty and protocol fee.
pub open spec fn distributable(
    price: int,
    seller: AccountId,
    royalty: Option<RoyaltyInfo>,
    protocol_fee_bps: u32,
    treasury_set: bool,
) -> int {
    let remaining = price - royalty_part(price, seller, royalty);
    remaining - fee_part(remaining, protocol_fee_bps, treasury_set)
}

/// The pro-rata share of the `i`-th recipient; the last recipient instead
/// takes whatever the others leave.
pub open spec fn recipient_share(d: int, recipients: Seq<Recipient>, i: int) -> int {
    bps_of(d, recipients[i].percentage as int)
}

/// `st` divides a sale of `price` by `seller` as the rules say: royalty off
/// the top, fee on the rest, each recipient but the last its pro-rata share
/// of what remains and the last the remainder, all of it adding up to the
/// price.
pub open spec fn settles(
    st: Settlement,
    price: int,
    seller: AccountId,
    recipients: Seq<Recipient>,
    protocol_fee_bps: u32,
    treasury_set: bool,
    royalty: Option<RoyaltyInfo>,
) -> bool {
    let remaining = price - royalty_part(price, seller, royalty);
    let d = distributable(price, seller, royalty, protocol_fee_bps, treasury_set);
    let n = recipients.len();
    &&& st.royalty_amount == royalty_part(price, seller, royalty)
    &&& st.royalty_receiver == (if royalty_applies(seller, royalty) {
        Some(royalty->Some_0.receiver)
    } else {
        None
    })
    &&& st.protocol_fee == fee_part(remaining, protocol_fee_bps, treasury_set)
    &&& st.payouts@.len() == n
    &&& forall|i: int|
        0 <= i < n - 1 ==> #[trigger] st.payouts@[i] == recipient_share(d, recipients, i)
    &&& st.payouts@[n - 1] == d - sum_amounts(st.payouts@.take(n - 1))
    &&& st.royalty_amount + st.protocol_fee + sum_amounts(st.payouts@) == price
    &&& 0 <= st.royalty_amount && 0 <= st.protocol_fee && 0 <= d
}

/// Some multiplication of the settlement would leave the range of `i128`.
pub open spec fn settlement_overflows(
    price: int,
    seller: AccountId,
    recipients: Seq<Recipient>,
    protocol_fee_bps: u32,
    treasury_set: bool,
    royalty: Option<RoyaltyInfo>,
) -> bool {
    let remaining = price - royalty_part(price, seller, royalty);
    let d = distributable(price, seller, royalty, protocol_fee_bps, treasury_set);
    ||| royalty_applies(seller, royalty) && price * (royalty->Some_0.bps as int) > i128::MAX
    ||| treasury_set && remaining * (protocol_fee_bps as int) > i128::MAX
    ||| exists|i: int|
        0 <= i < recipients.len() - 1 && d * (#[trigger] recipients[i].percentage as int)
            > i128::MAX
}

proof fn lemma_bps_of_bounds(amount: int, bps: int)
    requires
        0 <= amount,
        0 <= bps,
    ensures
        0 <= bps_of(amount, bps),
        bps <= BPS_DENOMINATOR ==> bps_of(amount, bps) <= amount,
        bps_of(amount, bps) <= amount * bps,
{
    assert(0 <= amount * bps) by (nonlinear_arith)
        requires
            0 <= amount,
            0 <= bps,
    ;
    assert(amount * bps / 10000 <= amount * bps) by (nonlinear_arith)
        requires
            0 <= amount * bps,
    ;
    if bps <= BPS_DENOMINATOR {
        assert(amount * bps <= amount * 10000) by (nonlinear_arith)
            requires
                0 <= amount,
                0 <= bps <= 10000,
        ;
        assert(amount * bps / 10000 <= amount * 10000 / 10000) by (nonlinear_arith)
            requires
                0 <= amount * bps <= amount * 10000,
        ;
        assert(amount * 10000 / 10000 == amount) by (nonlinear_arith);
    }
}

/// `bps` basis points of a non-negative `amount`, or `None` when the product
/// leaves the range of `i128`.
fn checked_bps_of(amount: i128, bps: u32) -> (r: Option<i128>)
    requires
        amount >= 0,
    ensures
        r is None <==> amount * (bps as int) > i128::MAX,
        r matches Some(v) ==> v == bps_of(amount as int, bps as int),
{
    proof {
        assert(0 <= amount * (bps as int)) by (nonlinear_arith)
            requires
                0 <= amount,
                0 <= bps,
        ;
    }
    match amount.checked_mul(bps as i128) {
        None => None,
        Some(p) => {
            let q = p.checked_div(10_000i128);
            proof {
                assert(p >= 0);
            }
            q
        },
    }
}

/// Divides the proceeds of a sale of `price`.
///
/// The collection royalty comes off the top (when it applies, see
/// [`royalty_applies`]); the protocol fee is charged on the rest when a
/// treasury is configured; what then remains goes to the recipients, each
/// but the last receiving its share of it in basis points, the last receiving
/// what the others leave. Every product is checked: one that leaves `i128`
/// fails the settlement with `ArithmeticOverflow`. A price that is not
/// positive is refused with `InvalidPrice`, and a reported royalty rate above
/// 10 000 bps with `InvalidRoyalty`.
pub fn settle(
    price: i128,
    seller: AccountId,
    recipients: &Vec<Recipient>,
    protocol_fee_bps: u32,
    treasury_set: bool,
    royalty: Option<RoyaltyInfo>,
) -> (r: Result<Settlement, MarketplaceError>)
    requires
        1 <= recipients@.len() <= MAX_RECIPIENTS,
        protocol_fee_bps <= BPS_DENOMINATOR,
    ensures
        price <= 0 ==> r == Err::<Settlement, MarketplaceError>(MarketplaceError::InvalidPrice),
        price > 0 && royalty_invalid(royalty) ==> r == Err::<Settlement, MarketplaceError>(
            MarketplaceError::InvalidRoyalty,
        ),
        price > 0 && !royalty_invalid(royalty) ==> (r is Err <==> settlement_overflows(
            price as int,
            seller,
            recipients@,
            protocol_fee_bps,
            treasury_set,
            royalty,
        )),
        r matches Err(e) ==> (price <= 0 || royalty_invalid(royalty) || e
            == MarketplaceError::ArithmeticOverflow),
        r matches Ok(st) ==> settles(st, price as int, seller, recipients@, protocol_fee_bps, treasury_set, royalty),
{
    if price <= 0 {
        return Err(MarketplaceError::InvalidPrice);
    }
    match royalty {
        Some(ri) => {
            if ri.bps > BPS_DENOMINATOR {
                return Err(MarketplaceError::InvalidRoyalty);
            }
        },
        None => {},
    }
    assert(!royalty_invalid(royalty));
    let ghost p = price as int;
    let applies = match royalty {
        Some(ri) => ri.bps > 0 && ri.receiver != seller,
        None => false,
    };
    assert(applies == royalty_applies(seller, royalty));
    let mut royalty_amount: i128 = 0;
    let mut royalty_receiver: Option<AccountId> = None;
    if applies {
        let ri = royalty.unwrap();
        match checked_bps_of(price, ri.bps) {
            None => return Err(MarketplaceError::ArithmeticOverflow),
            Some(v) => {
                royalty_amount = v;
            },
        }
        royalty_receiver = Some(ri.receiver);
        proof {
            lemma_bps_of_bounds(p, ri.bps as int);
        }
    }
    assert(royalty_amount == royalty_part(p, seller, royalty));
    assert(0 <= royalty_amount <= price);
    let remaining: i128 = price - royalty_amount;
    let mut protocol_fee: i128 = 0;
    if treasury_set {
        match checked_bps_of(remaining, protocol_fee_bps) {
            None => return Err(MarketplaceError::ArithmeticOverflow),
            Some(v) => {
                protocol_fee = v;
            },
        }
        proof {
            lemma_bps_of_bounds(remaining as int, protocol_fee_bps as int);
        }
    }
    assert(protocol_fee == fee_part(remaining as int, protocol_fee_bps, treasury_set));
    assert(0 <= protocol_fee <= remaining);
    let d: i128 = remaining - protocol_fee;
    assert(d == distributable(p, seller, royalty, protocol_fee_bps, treasury_set));
    let n = recipients.len();
    let mut payouts: Vec<i128> = Vec::new();
    let mut paid: i128 = 0;
    let mut i: usize = 0;
    while i + 1 < n
        invariant
            n == recipients@.len(),
            1 <= n <= MAX_RECIPIENTS,
            i + 1 <= n,
            price > 0,
            p == price as int,
            !royalty_invalid(royalty),
            !(royalty_applies(seller, royalty) && p * (royalty->Some_0.bps as int) > i128::MAX),
            !(treasury_set && (p - royalty_part(p, seller, royalty)) * (protocol_fee_bps as int)
                > i128::MAX),
            0 <= d,
            d == distributable(p, seller, royalty, protocol_fee_bps, treasury_set),
            payouts@.len() == i,
            forall|k: int| 0 <= k < i ==> #[trigger] payouts@[k] == recipient_share(d as int, recipients@, k),
            forall|k: int| 0 <= k < i ==> d * (#[trigger] recipients@[k].percentage as int) <= i128::MAX,
            paid == sum_amounts(payouts@),
            0 <= paid <= i * (i128::MAX / 10000),
        decreases n - i,
    {
        let pct = recipients[i].percentage;
        match checked_bps_of(d, pct) {
            None => {
                assert(d * (recipients@[i as int].percentage as int) > i128::MAX);
                return Err(MarketplaceError::ArithmeticOverflow);
            },
            Some(v) => {
                proof {
                    lemma_bps_of_bounds(d as int, pct as int);
                    assert(v <= i128::MAX / 10000) by (nonlinear_arith)
                        requires
                            v == (d as int) * (pct as int) / 10000,
                            (d as int) * (pct as int) <= i128::MAX,
                    ;
                    assert(payouts@.push(v).drop_last() =~= payouts@);
                }
                payouts.push(v);
                paid = paid + v;
            },
        }
        i = i + 1;
    }
    assert(i == n - 1);
    assert(payouts@.take(n - 1) =~= payouts@);
    let last = d - paid;
    proof {
        assert(payouts@.push(last).drop_last() =~= payouts@);
    }
    payouts.push(last);
    assert(!settlement_overflows(p, seller, recipients@, protocol_fee_bps, treasury_set, royalty));
    Ok(Settlement { royalty_receiver, royalty_amount, protocol_fee, payouts })
}

proof fn lemma_total_bps_prefix(s: Seq<Recipient>, k: int)
    requires
        0 <= k <= s.len(),
    ensures
        total_bps(s.take(k)) <= total_bps(s),
        total_bps(s.take(k)) >= 0,
    decreases s.len(),
{
    if s.len() > 0 {
        if k == s.len() {
            assert(s.take(k) =~= s);
            lemma_total_bps_prefix(s.drop_last(), k - 1);
        } else {
            assert(s.take(k) =~= s.drop_last().take(k));
            lemma_total_bps_prefix(s.drop_last(), k);
        }
    }
}

proof fn lemma_shares_bounded(d: int, recipients: Seq<Recipient>, payouts: Seq<i128>, k: int)
    requires
        d >= 0,
        0 <= k <= payouts.len(),
        k <= recipients.len(),
        forall|i: int| 0 <= i < k ==> #[trigger] payouts[i] == recipient_share(d, recipients, i),
    ensures
        10000 * sum_amounts(payouts.take(k)) <= d * total_bps(recipients.take(k)),
        sum_amounts(payouts.take(k)) >= 0,
    decreases k,
{
    if k > 0 {
        lemma_shares_bounded(d, recipients, payouts, k - 1);
        assert(payouts.take(k).drop_last() =~= payouts.take(k - 1));
        assert(recipients.take(k).drop_last() =~= recipients.take(k - 1));
        let p = recipients[k - 1].percentage as int;
        let v = payouts[k - 1] as int;
        assert(v == d * p / 10000);
        assert(10000 * v <= d * p && v >= 0) by (nonlinear_arith)
            requires
                v == d * p / 10000,
                d >= 0,
                p >= 0,
        ;
        let t = total_bps(recipients.take(k - 1));
        assert(d * (t + p) == d * t + d * p) by (nonlinear_arith);
    }
}

/// When the payee shares add up to at most 100 %, nobody is paid a negative
/// amount: every pro-rata share is at least zero and the last payee's
/// remainder is too.
pub proof fn lemma_payouts_non_negative(d: int, recipients: Seq<Recipient>, payouts: Seq<i128>)
    requires
        d >= 0,
        recipients.len() >= 1,
        total_bps(recipients) <= BPS_DENOMINATOR,
        payouts.len() == recipients.len(),
        forall|i: int|
            0 <= i < recipients.len() - 1 ==> #[trigger] payouts[i] == recipient_share(d, recipients, i),
        payouts[recipients.len() - 1] == d - sum_amounts(payouts.take(recipients.len() - 1)),
    ensures
        forall|i: int| 0 <= i < payouts.len() ==> #[trigger] payouts[i] >= 0,
{
    let n = recipients.len() as int;
    lemma_shares_bounded(d, recipients, payouts, n - 1);
    lemma_total_bps_prefix(recipients, n - 1);
    let s = sum_amounts(payouts.take(n - 1));
    let t = total_bps(recipients.take(n - 1));
    assert(d * t <= d * 10000) by (nonlinear_arith)
        requires
            d >= 0,
            t <= 10000,
    ;
    assert forall|i: int| 0 <= i < payouts.len() implies #[trigger] payouts[i] >= 0 by {
        if i < n - 1 {
            lemma_bps_of_bounds(d, recipients[i].percentage as int);
        }
    }
}

} // verus!
