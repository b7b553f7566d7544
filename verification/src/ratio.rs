//! Full-precision `a * b / d` on `u128`.
//!
//! The product of two `u128` values needs up to 256 bits. The functions here
//! reach the exact quotient without ever holding a value wider than `u128`.

use vstd::arithmetic::div_mod::lemma_basic_div;
use vstd::arithmetic::div_mod::lemma_div_by_multiple;
use vstd::arithmetic::div_mod::lemma_div_non_zero;
use vstd::arithmetic::div_mod::lemma_fundamental_div_mod;
use vstd::arithmetic::div_mod::lemma_fundamental_div_mod_converse;
use vstd::prelude::*;

verus! {

/// The whole part of `a * b / d`, over the mathematical integers.
pub open spec fn mul_div_floor(a: nat, b: nat, d: nat) -> nat
    recommends
        d > 0,
{
    (((a * b) as int) / (d as int)) as nat
}

/// The quotient is positive exactly when the product reaches the divisor.
pub proof fn lemma_mul_div_floor_positive(a: nat, b: nat, d: nat)
    requires
        d > 0,
    ensures
        mul_div_floor(a, b, d) > 0 <==> a * b >= d,
{
    let product: int = (a * b) as int;
    if product >= d {
        lemma_div_non_zero(product, d as int);
    } else {
        lemma_basic_div(product, d as int);
    }
}

/// Scaling by `a / a` changes nothing.
pub proof fn lemma_mul_div_floor_same(a: nat, b: nat)
    requires
        a > 0,
    ensures
        mul_div_floor(a, b, a) == b,
{
    assert(a * b == b * a) by (nonlinear_arith);
    lemma_div_by_multiple(b as int, a as int);
}

/// A quotient of `x * y` by `d` cannot pass `y` while `x` stays below `d`.
proof fn lemma_quotient_at_most_factor(x: int, y: int, d: int, q: int, r: int)
    by (nonlinear_arith)
    requires
        0 <= x < d,
        0 <= y,
        0 <= r,
        q * d + r == x * y,
    ensures
        q <= y,
{
}

/// Doubling both sides of `x * h == q * d + r`.
proof fn lemma_double(x: int, h: int, d: int, q: int, r: int)
    by (nonlinear_arith)
    requires
        x * h == q * d + r,
    ensures
        x * (2 * h) == (2 * q) * d + 2 * r,
        x * (2 * h) == (2 * q + 1) * d + (2 * r - d),
        x * (2 * h + 1) == x * (2 * h) + x,
{
}

/// Moving one `d` from the remainder into the quotient.
proof fn lemma_carry(d: int, q: int, r: int)
    by (nonlinear_arith)
    ensures
        q * d + r == (q + 1) * d + (r - d),
{
}

/// Quotient and remainder of `x * y` by `d`, for `x` below `d`.
fn mul_div_rem_below(x: u128, y: u128, d: u128) -> (qr: (u128, u128))
    requires
        x < d,
    ensures
        x * y == qr.0 * d + qr.1,
        qr.1 < d,
        qr.0 <= y,
    decreases y,
{
    if y == 0 {
        assert(x * 0 == 0 * d + 0) by (nonlinear_arith);
        return (0, 0);
    }
    let half: u128 = y / 2;
    let (q, r): (u128, u128) = mul_div_rem_below(x, half, d);
    proof {
        lemma_double(x as int, half as int, d as int, q as int, r as int);
    }
    let carry: bool = r >= d - r;
    proof {
        if carry {
            lemma_quotient_at_most_factor(x as int, 2 * half, d as int, 2 * q + 1, 2 * r - d);
        }
    }
    let q2: u128 = if carry { q + q + 1 } else { q + q };
    let r2: u128 = if carry { r - (d - r) } else { r + r };
    assert(x * (2 * half) == q2 * d + r2);
    if y % 2 == 0 {
        assert(y == 2 * half);
        return (q2, r2);
    }
    assert(y == 2 * half + 1);
    assert(x * y == q2 * d + (r2 + x));
    if r2 >= d - x {
        proof {
            lemma_carry(d as int, q2 as int, r2 + x);
            lemma_quotient_at_most_factor(x as int, y as int, d as int, q2 + 1, r2 + x - d);
        }
        (q2 + 1, r2 - (d - x))
    } else {
        (q2, r2 + x)
    }
}

/// Joins the whole multiples of `d` in `a` with the rest of `a`.
proof fn lemma_split_product(a: int, b: int, d: int, whole: int, part: int, q: int, r: int)
    by (nonlinear_arith)
    requires
        a == d * whole + part,
        part * b == q * d + r,
    ensures
        a * b == (whole * b + q) * d + r,
{
}

/// `a * b / d`, rounded down, or `None` where `d` is zero or the quotient
/// does not fit in `u128`. The product itself may be wider than `u128`.
pub fn mul_div(a: u128, b: u128, d: u128) -> (res: Option<u128>)
    ensures
        d == 0 ==> res is None,
        d > 0 && mul_div_floor(a as nat, b as nat, d as nat) > u128::MAX ==> res is None,
        d > 0 && mul_div_floor(a as nat, b as nat, d as nat) <= u128::MAX ==> res == Some(
            mul_div_floor(a as nat, b as nat, d as nat) as u128,
        ),
{
    if d == 0 {
        return None;
    }
    let whole: u128 = a / d;
    let part: u128 = a % d;
    let (q, r): (u128, u128) = mul_div_rem_below(part, b, d);
    proof {
        lemma_fundamental_div_mod(a as int, d as int);
        lemma_split_product(a as int, b as int, d as int, whole as int, part as int, q as int, r as int);
        lemma_fundamental_div_mod_converse(a * b, d as int, whole * b + q, r as int);
        assert(0 <= whole * b) by (nonlinear_arith)
            requires
                0 <= whole,
                0 <= b,
        ;
        assert(mul_div_floor(a as nat, b as nat, d as nat) == whole * b + q);
    }
    match whole.checked_mul(b) {
        None => None,
        Some(multiples) => multiples.checked_add(q),
    }
}

} // verus!
