//! Scalar helpers shared by the movement engine and the behaviours.
//!
//! Distances are integers: whole pixels, or hundredths of a pixel for speeds.

use vstd::prelude::*;

verus! {

/// Mathematical sign: -1, 0 or 1.
pub open spec fn sign_of(v: int) -> int {
    if v > 0 {
        1
    } else if v < 0 {
        -1
    } else {
        0
    }
}

pub open spec fn min_of(a: int, b: int) -> int {
    if a <= b {
        a
    } else {
        b
    }
}

pub open spec fn max_of(a: int, b: int) -> int {
    if a >= b {
        a
    } else {
        b
    }
}

/// `val` moved toward `target` by at most `amount`, never past it.
pub open spec fn appr_of(val: int, target: int, amount: int) -> int {
    if val > target {
        max_of(val - amount, target)
    } else {
        min_of(val + amount, target)
    }
}

/// The nearest whole pixel to `r` hundredths, halves rounded up.
pub open spec fn round_hundredths(r: int) -> int {
    (r + 50) / 100
}

pub fn min(v1: i32, v2: i32) -> (r: i32)
    ensures
        r == min_of(v1 as int, v2 as int),
{
    if v1 <= v2 {
        v1
    } else {
        v2
    }
}

pub fn max(v1: i32, v2: i32) -> (r: i32)
    ensures
        r == max_of(v1 as int, v2 as int),
{
    if v1 >= v2 {
        v1
    } else {
        v2
    }
}

/// -1 for a negative value, 1 for a positive one, and 0 for zero.
pub fn sign(v: i32) -> (r: i32)
    ensures
        r == sign_of(v as int),
{
    if v > 0 {
        1
    } else if v < 0 {
        -1
    } else {
        0
    }
}

/// Moves `val` toward `target` by `amount`, stopping at `target`.
pub fn appr(val: i32, target: i32, amount: i32) -> (r: i32)
    requires
        amount >= 0,
    ensures
        r == appr_of(val as int, target as int, amount as int),
        val <= target ==> val <= r <= target,
        target <= val ==> target <= r <= val,
{
    if val > target {
        let stepped = val as i64 - amount as i64;
        if stepped >= target as i64 {
            stepped as i32
        } else {
            target
        }
    } else {
        let stepped = val as i64 + amount as i64;
        if stepped <= target as i64 {
            stepped as i32
        } else {
            target
        }
    }
}

/// The median of three values.
pub open spec fn median_of(a: int, b: int, c: int) -> int {
    max_of(min_of(a, b), min_of(max_of(a, b), c))
}

/// The middle one of three values.
pub fn mid(v1: i32, v2: i32, v3: i32) -> (r: i32)
    ensures
        r == median_of(v1 as int, v2 as int, v3 as int),
        r == v1 || r == v2 || r == v3,
        (v1 <= r && v2 <= r) || (v1 <= r && v3 <= r) || (v2 <= r && v3 <= r),
        (v1 >= r && v2 >= r) || (v1 >= r && v3 >= r) || (v2 >= r && v3 >= r),
{
    max(min(v1, v2), min(max(v1, v2), v3))
}

/// Splits `r` hundredths into the nearest whole pixel and what is left over.
pub fn split_hundredths(r: i32) -> (out: (i32, i32))
    requires
        -100_000_000 <= r <= 100_000_000,
    ensures
        out.0 == round_hundredths(r as int),
        out.1 == r - 100 * out.0,
        -50 <= out.1 < 50,
{
    let shifted = (r as i64 + 50 + 2_000_000_000) as u64;
    let whole = (shifted / 100) as i64 - 20_000_000;
    proof {
        let s = r as int + 50;
        let q = s / 100;
        let m = s % 100;
        vstd::arithmetic::div_mod::lemma_fundamental_div_mod(s, 100);
        vstd::arithmetic::div_mod::lemma_mod_bound(s, 100);
        vstd::arithmetic::div_mod::lemma_fundamental_div_mod_converse(
            s + 2_000_000_000,
            100,
            q + 20_000_000,
            m,
        );
    }
    (whole as i32, (r as i64 - 100 * whole) as i32)
}

} // verus!
