use vstd::prelude::*;
use vstd::arithmetic::div_mod::{
    lemma_div_is_strictly_smaller, lemma_div_non_zero, lemma_fundamental_div_mod,
    lemma_mod_bound, lemma_multiply_divide_lt,
};
use crate::addr::Addr;
use spl_math::checked_ceil_div::CheckedCeilDiv;

verus! {

/// The two amounts a committed swap moves: the pool takes `take_amount` of
/// the incoming asset and returns `return_amount` of the outgoing one.
#[derive(Clone, Copy, Debug, PartialEq, Eq, Structural)]
pub struct SwapResult {
    pub take_amount: u64,
    pub return_amount: u64,
}

/// Which asset the caller pays into the pool.
#[derive(Clone, Copy, Debug, PartialEq, Eq, Structural)]
pub enum SwapDirection {
    XtoY,
    YtoX,
}

impl SwapDirection {
    /// Resolves the selected asset against the market's two mints.
    pub fn new(swap_pk: &Addr, x_pk: &Addr, y_pk: &Addr) -> (r: Option<SwapDirection>)
        ensures
            swap_pk@ == x_pk@ ==> r == Some(SwapDirection::XtoY),
            swap_pk@ != x_pk@ && swap_pk@ == y_pk@ ==> r == Some(SwapDirection::YtoX),
            swap_pk@ != x_pk@ && swap_pk@ != y_pk@ ==> r is None,
    {
        if swap_pk.equals(x_pk) {
            Some(SwapDirection::XtoY)
        } else if swap_pk.equals(y_pk) {
            Some(SwapDirection::YtoX)
        } else {
            None
        }
    }
}

/// The least integer at or above `k / d`.
pub open spec fn ceil_div(k: int, d: int) -> int
    recommends
        d > 0,
{
    if k % d == 0 {
        k / d
    } else {
        k / d + 1
    }
}

/// The destination reserve after a swap: `ceil(K / (X + dX))`.
pub open spec fn new_destination_spec(add_source_amount: u64, source_amount: u64, destination_amount: u64) -> int {
    ceil_div(
        source_amount * destination_amount,
        source_amount + add_source_amount,
    )
}

/// The source reserve after a swap: `X + dX`, lowered when the ceiling
/// division is inexact to the least value whose product with the new
/// destination reserve still reaches `K`.
pub open spec fn new_source_spec(add_source_amount: u64, source_amount: u64, destination_amount: u64) -> int {
    let k = source_amount * destination_amount;
    let nx = source_amount + add_source_amount;
    if k % nx == 0 {
        nx
    } else {
        ceil_div(k, new_destination_spec(add_source_amount, source_amount, destination_amount))
    }
}

/// What the swap calculator returns: the pool keeps any fractional surplus,
/// and a swap in which either moved amount would be zero is refused.
pub open spec fn calc_swap_spec(add_source_amount: u64, source_amount: u64, destination_amount: u64) -> Option<SwapResult> {
    let k = source_amount * destination_amount;
    let nx = source_amount + add_source_amount;
    if nx == 0 || k < nx {
        None
    } else {
        let ny2 = new_destination_spec(add_source_amount, source_amount, destination_amount);
        let nx2 = new_source_spec(add_source_amount, source_amount, destination_amount);
        if nx2 < source_amount {
            None
        } else if nx2 - source_amount > u64::MAX {
            None
        } else if nx2 == source_amount {
            None
        } else if destination_amount < ny2 {
            None
        } else if destination_amount == ny2 {
            None
        } else {
            Some(
                SwapResult {
                    take_amount: (nx2 - source_amount) as u64,
                    return_amount: (destination_amount - ny2) as u64,
                },
            )
        }
    }
}

/// Relies on `spl_math::checked_ceil_div::CheckedCeilDiv` for `u128`: the
/// call fails exactly when the divisor is zero or exceeds the dividend;
/// otherwise it returns the ceiling quotient of `lhs / rhs` together with
/// `rhs` lowered, when the division was inexact, to the least divisor whose
/// product with that quotient still reaches `lhs`.
#[verifier::external_body]
fn checked_ceil_div_u128(lhs: u128, rhs: u128) -> (r: Option<(u128, u128)>)
    ensures
        r is Some <==> 0 < rhs <= lhs,
        (r is Some && lhs % rhs == 0) ==> (r->0).0 == lhs / rhs && (r->0).1 == rhs,
        (r is Some && lhs % rhs != 0) ==> (r->0).0 == lhs / rhs + 1 && (r->0).1 == ceil_div(
            lhs as int,
            lhs / rhs + 1,
        ),
{
    lhs.checked_ceil_div(rhs)
}

/// Core facts about the adjusted reserve pair returned by the ceiling
/// division: the quotient and lowered divisor are positive, the divisor
/// never grows, and their product still covers the dividend.
pub proof fn lemma_ceil_pair(k: int, d: int)
    requires
        0 < d <= k,
    ensures
        ({
            let q = ceil_div(k, d);
            let d2 = if k % d == 0 {
                d
            } else {
                ceil_div(k, q)
            };
            1 <= q && 1 <= d2 <= d && q * d2 >= k
        }),
{
    let q = ceil_div(k, d);
    let d2 = if k % d == 0 {
        d
    } else {
        ceil_div(k, q)
    };
    lemma_div_non_zero(k, d);
    lemma_fundamental_div_mod(k, d);
    lemma_mod_bound(k, d);
    if k % d == 0 {
        assert(q * d2 == (k / d) * d);
        assert(d * (k / d) == k);
        assert((k / d) * d == d * (k / d)) by (nonlinear_arith);
    } else {
        // The remainder forces d >= 2, so the raised quotient stays within k.
        assert(d >= 2);
        lemma_div_is_strictly_smaller(k, d);
        assert(q <= k);
        lemma_div_non_zero(k, q);
        lemma_fundamental_div_mod(k, q);
        lemma_mod_bound(k, q);
        // k < q * d, hence the lowered divisor never exceeds d.
        assert(k < q * d) by {
            assert(d * (k / d) + (k % d) == k);
            assert(q * d == (k / d + 1) * d);
            assert((k / d + 1) * d == d * (k / d) + d) by (nonlinear_arith);
        };
        lemma_multiply_divide_lt(k, q, d);
        assert(k / q < d);
        // The product of the pair covers k again.
        if k % q == 0 {
            assert(d2 == k / q);
            assert(q * (k / q) == k);
        } else {
            assert(d2 == k / q + 1);
            assert(q * (k / q + 1) == q * (k / q) + q) by (nonlinear_arith);
            assert(q * (k / q) + (k % q) == k);
            assert(q * d2 >= k);
        }
    }
}

/// The amount the pool takes never exceeds the amount offered: the adjusted
/// source reserve stays at or below `X + dX`.
pub proof fn lemma_new_source_bounded(add_source_amount: u64, source_amount: u64, destination_amount: u64)
    requires
        0 < source_amount + add_source_amount <= source_amount * destination_amount,
    ensures
        new_source_spec(add_source_amount, source_amount, destination_amount) <= source_amount
            + add_source_amount,
        new_destination_spec(add_source_amount, source_amount, destination_amount) >= 1,
        new_source_spec(add_source_amount, source_amount, destination_amount) >= 1,
{
    let k = source_amount as int * destination_amount as int;
    let d = source_amount as int + add_source_amount as int;
    lemma_ceil_pair(k, d);
}

/// A committed swap never decreases the invariant `K = X * Y`: the pool
/// keeps any fractional surplus of the exchange.
pub proof fn lemma_swap_non_decreasing(add_source_amount: u64, source_amount: u64, destination_amount: u64)
    requires
        calc_swap_spec(add_source_amount, source_amount, destination_amount) is Some,
    ensures
        ({
            let r = calc_swap_spec(add_source_amount, source_amount, destination_amount)->0;
            (source_amount + r.take_amount) * (destination_amount - r.return_amount)
                >= source_amount * destination_amount
        }),
{
    let k = source_amount as int * destination_amount as int;
    let d = source_amount as int + add_source_amount as int;
    lemma_ceil_pair(k, d);
    let r = calc_swap_spec(add_source_amount, source_amount, destination_amount)->0;
    let nx2 = new_source_spec(add_source_amount, source_amount, destination_amount);
    let ny2 = new_destination_spec(add_source_amount, source_amount, destination_amount);
    assert(source_amount + r.take_amount == nx2);
    assert(destination_amount - r.return_amount == ny2);
    assert(ny2 * nx2 == nx2 * ny2) by (nonlinear_arith);
}

/// The degenerate-amount law: the calculator fails exactly when the pools
/// are empty relative to the offer (the ceiling division fails), or when
/// the taken or returned amount would come out as zero.
pub proof fn lemma_calc_swap_none_iff(add_source_amount: u64, source_amount: u64, destination_amount: u64)
    ensures
        calc_swap_spec(add_source_amount, source_amount, destination_amount) is None <==> (
        source_amount + add_source_amount == 0 || source_amount * destination_amount
            < source_amount + add_source_amount || new_source_spec(
            add_source_amount,
            source_amount,
            destination_amount,
        ) <= source_amount || new_destination_spec(
            add_source_amount,
            source_amount,
            destination_amount,
        ) >= destination_amount),
{
    let k = source_amount as int * destination_amount as int;
    let d = source_amount as int + add_source_amount as int;
    if 0 < d <= k {
        lemma_new_source_bounded(add_source_amount, source_amount, destination_amount);
    }
}

/// The constant-product exchange: promotes the operands to 128 bits,
/// computes the adjusted reserve pair by pool-favoring ceiling division,
/// and narrows the two moved amounts back to 64 bits.
pub fn calc_swap(add_source_amount: u64, source_amount: u64, destination_amount: u64) -> (r: Option<
    SwapResult,
>)
    ensures
        r == calc_swap_spec(add_source_amount, source_amount, destination_amount),
{
    let add128 = add_source_amount as u128;
    let src128 = source_amount as u128;
    let dst128 = destination_amount as u128;

    proof {
        assert(src128 * dst128 <= 0xFFFF_FFFF_FFFF_FFFF * 0xFFFF_FFFF_FFFF_FFFF)
            by (nonlinear_arith)
            requires
                src128 <= 0xFFFF_FFFF_FFFF_FFFF,
                dst128 <= 0xFFFF_FFFF_FFFF_FFFF,
        ;
    }
    let invariant_k = src128 * dst128;
    let new_source = src128 + add128;

    match checked_ceil_div_u128(invariant_k, new_source) {
        None => None,
        Some((new_destination, adjusted_source)) => {
            if adjusted_source < src128 {
                return None;
            }
            let take_wide = adjusted_source - src128;
            if take_wide > u64::MAX as u128 {
                return None;
            }
            let take = take_wide as u64;
            if take == 0 {
                return None;
            }
            if dst128 < new_destination {
                return None;
            }
            let give_wide = dst128 - new_destination;
            let give = give_wide as u64;
            if give == 0 {
                return None;
            }
            Some(SwapResult { take_amount: take, return_amount: give })
        },
    }
}

} // verus!

