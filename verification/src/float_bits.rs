//! Single-precision numbers as their IEEE 754 bit patterns.
//!
//! A pattern is a `u32`: one sign bit, eight exponent bits, twenty-three
//! fraction bits. Everything here is integer arithmetic on patterns. The
//! order of two numbers and the whole part of a number are decided from the
//! pattern alone, so the rest of the library can take analog readings and
//! thresholds as patterns and still compare them as the numbers they encode.
//!
//! The number behind a pattern is modelled by [`value`], an integer count of
//! the smallest step between two numbers. [`lemma_rank_orders_values`] shows
//! that the comparisons here are the order of those values, and
//! [`lemma_whole_part_rounds_down`] that truncation rounds them toward zero.

use vstd::arithmetic::power2::{lemma2_to64, lemma_pow2_strictly_increases, lemma_pow2_unfold, pow2};
use vstd::prelude::*;

verus! {

/// The pattern of negative zero: only the sign bit set.
pub const SIGN_BIT: u32 = 0x8000_0000;

/// The weight of the lowest exponent bit.
pub const EXPONENT_UNIT: u32 = 0x0080_0000;

/// The pattern of positive infinity: every exponent bit set, no fraction bit.
pub const INFINITY: u32 = 0x7f80_0000;

/// The pattern with its sign bit cleared.
pub open spec fn magnitude(bits: u32) -> int {
    if bits >= SIGN_BIT {
        bits - SIGN_BIT
    } else {
        bits as int
    }
}

/// The sign bit is set.
pub open spec fn negative(bits: u32) -> bool {
    bits >= SIGN_BIT
}

/// The pattern encodes no number: all exponent bits set and a fraction bit too.
pub open spec fn nan(bits: u32) -> bool {
    magnitude(bits) > INFINITY
}

/// The pattern encodes zero, of either sign.
pub open spec fn zero(bits: u32) -> bool {
    magnitude(bits) == 0
}

/// An integer that orders the patterns as the numbers they encode are ordered
/// (see [`lemma_rank_orders_values`]).
///
/// Among patterns of one sign a larger magnitude is a number further from
/// zero, so the magnitude, negated under a set sign bit, grows exactly as the
/// encoded number grows. Both zeros get rank 0. The infinities are the two
/// ends of the range. The rank of a pattern that is no number means nothing.
pub open spec fn rank(bits: u32) -> int {
    if negative(bits) {
        -magnitude(bits)
    } else {
        magnitude(bits)
    }
}

/// `a <= b` as numbers. False as soon as one side is no number.
pub open spec fn le(a: u32, b: u32) -> bool {
    !nan(a) && !nan(b) && rank(a) <= rank(b)
}

/// `a < b` as numbers. False as soon as one side is no number.
pub open spec fn lt(a: u32, b: u32) -> bool {
    !nan(a) && !nan(b) && rank(a) < rank(b)
}

/// `a >= b` as numbers. False as soon as one side is no number.
pub open spec fn ge(a: u32, b: u32) -> bool {
    le(b, a)
}

/// `a > b` as numbers. False as soon as one side is no number.
pub open spec fn gt(a: u32, b: u32) -> bool {
    lt(b, a)
}

/// The smaller of two numbers: `a` unless `b` is smaller. Where one of the two
/// is no number the result is the other one.
pub open spec fn lesser(a: u32, b: u32) -> u32 {
    if nan(a) {
        b
    } else if nan(b) {
        a
    } else if lt(b, a) {
        b
    } else {
        a
    }
}

/// The larger of two numbers: `a` unless `b` is larger. Where one of the two
/// is no number the result is the other one.
pub open spec fn greater(a: u32, b: u32) -> u32 {
    if nan(a) {
        b
    } else if nan(b) {
        a
    } else if lt(a, b) {
        b
    } else {
        a
    }
}

/// The pattern of the same number with the opposite sign.
pub open spec fn negated(bits: u32) -> u32 {
    if bits >= SIGN_BIT {
        (bits - SIGN_BIT) as u32
    } else {
        (bits + SIGN_BIT) as u32
    }
}

/// The exponent field, from 0 to 255.
pub open spec fn exponent(bits: u32) -> int {
    magnitude(bits) / (EXPONENT_UNIT as int)
}

/// The fraction field, below 2^23.
pub open spec fn fraction(bits: u32) -> int {
    magnitude(bits) % (EXPONENT_UNIT as int)
}

/// The significand as an integer: the fraction with its hidden leading bit,
/// which is set unless the exponent field is 0.
pub open spec fn significand(bits: u32) -> int {
    if exponent(bits) == 0 {
        fraction(bits)
    } else {
        fraction(bits) + EXPONENT_UNIT
    }
}

/// The power of two that scales the significand: a finite pattern encodes
/// `significand * 2^scale`, negated under a set sign bit.
pub open spec fn scale(bits: u32) -> int {
    if exponent(bits) == 0 {
        -149
    } else {
        exponent(bits) - 150
    }
}

/// The absolute value of a finite pattern's number, rounded toward zero to a
/// whole number.
pub open spec fn whole_part(bits: u32) -> int {
    let s: int = scale(bits);
    if s >= 0 {
        significand(bits) * pow2(s as nat)
    } else {
        significand(bits) / (pow2((-s) as nat) as int)
    }
}

/// The absolute value of the number that a pattern encodes, counted in units
/// of 2^-149, the step between the two smallest numbers. Every finite number
/// is a whole count of these units. An infinity comes out as 2^128, beyond
/// every finite number.
pub open spec fn units(bits: u32) -> int {
    significand(bits) * pow2((scale(bits) + 149) as nat)
}

/// The number that a pattern encodes, counted in units of 2^-149.
pub open spec fn value(bits: u32) -> int {
    if negative(bits) {
        -units(bits)
    } else {
        units(bits)
    }
}

/// The number rounded toward zero and then held to the range of `i32`.
///
/// What is no number gives 0. Positive infinity gives the largest `i32` and
/// negative infinity the smallest, as every number beyond the range does.
pub open spec fn truncated(bits: u32) -> int {
    if nan(bits) {
        0
    } else if negative(bits) {
        if magnitude(bits) == INFINITY || whole_part(bits) >= 0x8000_0000 {
            i32::MIN as int
        } else {
            -whole_part(bits)
        }
    } else {
        if magnitude(bits) == INFINITY || whole_part(bits) > i32::MAX {
            i32::MAX as int
        } else {
            whole_part(bits)
        }
    }
}

/// Clears the sign bit.
pub fn magnitude_of(bits: u32) -> (m: u32)
    ensures
        m == magnitude(bits),
{
    if bits >= SIGN_BIT {
        bits - SIGN_BIT
    } else {
        bits
    }
}

/// Tells whether the pattern encodes no number.
pub fn is_nan(bits: u32) -> (r: bool)
    ensures
        r == nan(bits),
{
    magnitude_of(bits) > INFINITY
}

/// Tells whether the pattern encodes zero, of either sign.
pub fn is_zero(bits: u32) -> (r: bool)
    ensures
        r == zero(bits),
{
    magnitude_of(bits) == 0
}

/// Computes the rank of a pattern.
pub fn rank_of(bits: u32) -> (r: i64)
    ensures
        r == rank(bits),
{
    let m: u32 = magnitude_of(bits);
    if bits >= SIGN_BIT {
        -(m as i64)
    } else {
        m as i64
    }
}

/// Decides `a <= b` as numbers.
pub fn less_equal(a: u32, b: u32) -> (r: bool)
    ensures
        r == le(a, b),
{
    !is_nan(a) && !is_nan(b) && rank_of(a) <= rank_of(b)
}

/// Decides `a < b` as numbers.
pub fn less_than(a: u32, b: u32) -> (r: bool)
    ensures
        r == lt(a, b),
{
    !is_nan(a) && !is_nan(b) && rank_of(a) < rank_of(b)
}

/// Decides `a >= b` as numbers.
pub fn greater_equal(a: u32, b: u32) -> (r: bool)
    ensures
        r == ge(a, b),
{
    less_equal(b, a)
}

/// Picks the smaller of two numbers.
pub fn lesser_of(a: u32, b: u32) -> (r: u32)
    ensures
        r == lesser(a, b),
{
    if is_nan(a) {
        b
    } else if is_nan(b) {
        a
    } else if less_than(b, a) {
        b
    } else {
        a
    }
}

/// Picks the larger of two numbers.
pub fn greater_of(a: u32, b: u32) -> (r: u32)
    ensures
        r == greater(a, b),
{
    if is_nan(a) {
        b
    } else if is_nan(b) {
        a
    } else if less_than(a, b) {
        b
    } else {
        a
    }
}

/// Flips the sign bit.
pub fn negate(bits: u32) -> (r: u32)
    ensures
        r == negated(bits),
{
    if bits >= SIGN_BIT {
        bits - SIGN_BIT
    } else {
        bits + SIGN_BIT
    }
}

/// Computes a power of two.
fn power_of_two(k: u32) -> (p: u64)
    requires
        k <= 32,
    ensures
        p == pow2(k as nat),
{
    let mut p: u64 = 1;
    let mut i: u32 = 0;
    proof {
        lemma2_to64();
    }
    while i < k
        invariant
            i <= k <= 32,
            p == pow2(i as nat),
            p <= pow2(32),
            pow2(32) == 0x1_0000_0000,
        decreases k - i,
    {
        proof {
            lemma_pow2_unfold((i + 1) as nat);
            if i + 1 < 32 {
                lemma_pow2_strictly_increases((i + 1) as nat, 32);
            }
        }
        p = p * 2;
        i = i + 1;
    }
    p
}

/// Rounds the number toward zero and holds the result to the range of `i32`.
pub fn truncate(bits: u32) -> (r: i32)
    ensures
        r == truncated(bits),
{
    let m: u32 = magnitude_of(bits);
    let e: u32 = m / EXPONENT_UNIT;
    let f: u32 = m % EXPONENT_UNIT;
    let minus: bool = bits >= SIGN_BIT;
    if m > INFINITY {
        0
    } else if e < 127 {
        proof {
            lemma_below_one(bits);
        }
        0
    } else if e >= 158 {
        proof {
            lemma_beyond_range(bits);
        }
        if minus {
            i32::MIN
        } else {
            i32::MAX
        }
    } else {
        let s: u64 = (f + EXPONENT_UNIT) as u64;
        let w: u64 = if e >= 150 {
            let p: u64 = power_of_two(e - 150);
            proof {
                lemma_whole_part_bound(bits);
            }
            assert(s * p == whole_part(bits));
            s * p
        } else {
            let p: u64 = power_of_two(150 - e);
            proof {
                lemma_whole_part_bound(bits);
                vstd::arithmetic::power2::lemma_pow2_pos((150 - e) as nat);
            }
            assert(s / p == whole_part(bits));
            s / p
        };
        if minus {
            -(w as i64) as i32
        } else {
            w as i32
        }
    }
}

/// A number below one in absolute value has whole part zero.
proof fn lemma_below_one(bits: u32)
    requires
        exponent(bits) < 127,
    ensures
        whole_part(bits) == 0,
{
    lemma2_to64();
    let k: nat = (-scale(bits)) as nat;
    let p: int = pow2(k) as int;
    assert(k >= 24);
    if k > 24 {
        lemma_pow2_strictly_increases(24, k);
    }
    assert(p >= 0x100_0000);
    assert(0 <= significand(bits) < 0x100_0000);
    vstd::arithmetic::div_mod::lemma_basic_div(significand(bits), p);
}

/// A finite number with exponent field 158 or more is 2^31 or more in
/// absolute value.
proof fn lemma_beyond_range(bits: u32)
    requires
        158 <= exponent(bits),
    ensures
        nan(bits) || magnitude(bits) == INFINITY || whole_part(bits) >= 0x8000_0000,
{
    lemma2_to64();
    let k: nat = scale(bits) as nat;
    assert(k >= 8);
    if k > 8 {
        lemma_pow2_strictly_increases(8, k);
    }
    let p: int = pow2(k) as int;
    let s: int = significand(bits);
    assert(s >= 0x80_0000);
    assert(p >= 0x100);
    assert(s * p >= 0x80_0000 * 0x100) by (nonlinear_arith)
        requires
            s >= 0x80_0000,
            p >= 0x100,
    ;
}

/// With an exponent field from 127 to 157 the whole part is below 2^31.
proof fn lemma_whole_part_bound(bits: u32)
    requires
        127 <= exponent(bits) < 158,
    ensures
        0 <= whole_part(bits) < 0x8000_0000,
        exponent(bits) >= 150 ==> whole_part(bits) == significand(bits) * pow2(
            (exponent(bits) - 150) as nat,
        ),
        exponent(bits) < 150 ==> whole_part(bits) == significand(bits) / (pow2(
            (150 - exponent(bits)) as nat,
        ) as int),
{
    lemma2_to64();
    let s: int = significand(bits);
    let e: int = exponent(bits);
    assert(0x80_0000 <= s < 0x100_0000);
    if e >= 150 {
        let k: nat = (e - 150) as nat;
        let p: int = pow2(k) as int;
        if k < 7 {
            lemma_pow2_strictly_increases(k, 7);
        }
        assert(0 < p <= 0x80) by {
            vstd::arithmetic::power2::lemma_pow2_pos(k);
        }
        assert(0 <= s * p < 0x100_0000 * 0x80) by (nonlinear_arith)
            requires
                0 <= s < 0x100_0000,
                0 < p <= 0x80,
        ;
    } else {
        let k: nat = (150 - e) as nat;
        let p: int = pow2(k) as int;
        assert(p > 0) by {
            vstd::arithmetic::power2::lemma_pow2_pos(k);
        }
        vstd::arithmetic::div_mod::lemma_div_pos_is_pos(s, p);
        vstd::arithmetic::div_mod::lemma_div_nonincreasing(s, p);
    }
}

/// The order of numbers is a total order, and what is no number stands in no
/// order with anything.
pub proof fn lemma_order(a: u32, b: u32, c: u32)
    ensures
        !nan(a) ==> le(a, a),
        le(a, b) && le(b, c) ==> le(a, c),
        !nan(a) && !nan(b) ==> le(a, b) || le(b, a),
        lt(a, b) <==> le(a, b) && !le(b, a),
        le(a, b) && le(b, a) ==> rank(a) == rank(b),
        nan(a) ==> !le(a, b) && !le(b, a) && !lt(a, b) && !lt(b, a),
{
}

/// The smaller of two numbers is one of the two and at most as large as
/// either; the larger is one of the two and at least as large as either.
pub proof fn lemma_lesser_and_greater(a: u32, b: u32)
    ensures
        lesser(a, b) == a || lesser(a, b) == b,
        !nan(a) ==> le(lesser(a, b), a),
        !nan(b) ==> le(lesser(a, b), b),
        greater(a, b) == a || greater(a, b) == b,
        !nan(a) ==> ge(greater(a, b), a),
        !nan(b) ==> ge(greater(a, b), b),
{
}

/// Flipping the sign twice gives the pattern back. The opposite number has
/// the opposite rank and the same whole part, so it truncates to the opposite
/// integer as long as the whole part is within the range of `i32`.
pub proof fn lemma_negated(bits: u32)
    ensures
        negated(negated(bits)) == bits,
        nan(negated(bits)) == nan(bits),
        zero(negated(bits)) == zero(bits),
        rank(negated(bits)) == -rank(bits),
        whole_part(negated(bits)) == whole_part(bits),
        !nan(bits) && magnitude(bits) != INFINITY && whole_part(bits) <= i32::MAX ==> truncated(
            negated(bits),
        ) == -truncated(bits),
{
}

/// A larger magnitude encodes a number further from zero.
proof fn lemma_units_grow(a: u32, b: u32)
    requires
        magnitude(a) < magnitude(b),
    ensures
        units(a) < units(b),
{
    let ea: int = exponent(a);
    let eb: int = exponent(b);
    let ka: nat = (scale(a) + 149) as nat;
    let kb: nat = (scale(b) + 149) as nat;
    let sa: int = significand(a);
    let sb: int = significand(b);
    vstd::arithmetic::power2::lemma_pow2_pos(ka);
    vstd::arithmetic::power2::lemma_pow2_pos(kb);
    if ea == eb {
        vstd::arithmetic::mul::lemma_mul_strict_inequality(sa, sb, pow2(ka) as int);
    } else {
        let pa: int = pow2(ea as nat) as int;
        let pb: int = pow2((eb - 1) as nat) as int;
        assert(units(a) < 0x80_0000 * pa) by {
            if ea == 0 {
                lemma2_to64();
                assert(sa * 1 == sa);
            } else {
                lemma_pow2_unfold(ea as nat);
                let q: int = pow2(ka) as int;
                vstd::arithmetic::mul::lemma_mul_strict_inequality(sa, 0x100_0000, q);
                assert(0x100_0000 * q == 0x80_0000 * (2 * q)) by (nonlinear_arith);
            }
        }
        assert(units(b) >= 0x80_0000 * pb) by {
            vstd::arithmetic::mul::lemma_mul_inequality(0x80_0000, sb, pb);
        }
        assert(pa <= pb) by {
            if ea < eb - 1 {
                lemma_pow2_strictly_increases(ea as nat, (eb - 1) as nat);
            }
        }
    }
}

/// The rank orders the patterns exactly as the numbers they encode are
/// ordered: `le` and `lt` are the order of the encoded numbers, and two
/// patterns encode the same number only if they are the same pattern or the
/// two zeros.
pub proof fn lemma_rank_orders_values(a: u32, b: u32)
    ensures
        rank(a) <= rank(b) <==> value(a) <= value(b),
        rank(a) < rank(b) <==> value(a) < value(b),
        le(a, b) <==> !nan(a) && !nan(b) && value(a) <= value(b),
        lt(a, b) <==> !nan(a) && !nan(b) && value(a) < value(b),
        value(a) == value(b) <==> a == b || (zero(a) && zero(b)),
        zero(a) <==> value(a) == 0,
{
    if magnitude(a) < magnitude(b) {
        lemma_units_grow(a, b);
    }
    if magnitude(b) < magnitude(a) {
        lemma_units_grow(b, a);
    }
    if magnitude(a) > 0 {
        lemma_units_grow(0, a);
    } else {
        assert(units(a) == 0) by (nonlinear_arith)
            requires
                significand(a) == 0,
                units(a) == significand(a) * pow2((scale(a) + 149) as nat),
        ;
    }
    if magnitude(b) > 0 {
        lemma_units_grow(0, b);
    } else {
        assert(units(b) == 0) by (nonlinear_arith)
            requires
                significand(b) == 0,
                units(b) == significand(b) * pow2((scale(b) + 149) as nat),
        ;
    }
    assert(units(0) == 0) by (nonlinear_arith)
        requires
            significand(0) == 0,
            units(0) == significand(0) * pow2((scale(0) + 149) as nat),
    ;
}

/// The whole part is the absolute value rounded down to a whole number: the
/// count of units divided by the 2^149 units that make one.
pub proof fn lemma_whole_part_rounds_down(bits: u32)
    ensures
        whole_part(bits) == units(bits) / (pow2(149) as int),
{
    let s: int = scale(bits);
    let sig: int = significand(bits);
    let one: int = pow2(149) as int;
    vstd::arithmetic::power2::lemma_pow2_pos(149);
    if s >= 0 {
        let p: int = pow2(s as nat) as int;
        vstd::arithmetic::power2::lemma_pow2_pos(s as nat);
        vstd::arithmetic::power2::lemma_pow2_adds(s as nat, 149);
        assert(units(bits) == (sig * p) * one) by {
            vstd::arithmetic::mul::lemma_mul_is_associative(sig, p, one);
        }
        assert(sig * p >= 0) by (nonlinear_arith)
            requires
                sig >= 0,
                p > 0,
        ;
        vstd::arithmetic::div_mod::lemma_div_by_multiple(sig * p, one);
    } else {
        let j: nat = (-s) as nat;
        let k: nat = (s + 149) as nat;
        let pj: int = pow2(j) as int;
        let pk: int = pow2(k) as int;
        vstd::arithmetic::power2::lemma_pow2_pos(j);
        vstd::arithmetic::power2::lemma_pow2_pos(k);
        vstd::arithmetic::power2::lemma_pow2_adds(k, j);
        assert(one == pk * pj);
        assert(sig * pk >= 0) by (nonlinear_arith)
            requires
                sig >= 0,
                pk > 0,
        ;
        vstd::arithmetic::div_mod::lemma_div_denominator(sig * pk, pk, pj);
        vstd::arithmetic::div_mod::lemma_div_by_multiple(sig, pk);
    }
}

} // verus!
