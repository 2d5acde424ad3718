//! IEEE-754 single-precision numbers, held as their 32-bit patterns.
//!
//! A pattern has a sign bit, eight exponent bits and 23 fraction bits. The
//! functions of this module decide, on the pattern alone, how the number it
//! stands for compares with a few constants, and compute the pattern that
//! round-to-nearest, ties-to-even, gives for a few integer quantities.

use vstd::prelude::*;
use vstd::arithmetic::div_mod::*;

verus! {

/// The pattern of `0.0`.
pub const ZERO: u32 = 0;

/// The pattern of `1.0`.
pub const ONE: u32 = 0x3F80_0000;

/// The pattern of `-0.0`.
pub const NEGATIVE_ZERO: u32 = 0x8000_0000;

/// The pattern of `-1.0`.
pub const NEGATIVE_ONE: u32 = 0xBF80_0000;

/// The pattern of positive infinity, the largest pattern that is a number.
pub const INFINITY: u32 = 0x7F80_0000;

/// The pattern of negative infinity.
pub const NEGATIVE_INFINITY: u32 = 0xFF80_0000;

/// Whether the pattern is not a number: all exponent bits set and a fraction
/// that is not zero.
pub open spec fn is_nan(bits: u32) -> bool {
    INFINITY < bits < NEGATIVE_ZERO || NEGATIVE_INFINITY < bits
}

/// Whether the number is greater than one. Among the patterns without a sign
/// bit the numbers grow with the pattern, up to infinity.
pub open spec fn exceeds_one(bits: u32) -> bool {
    ONE < bits <= INFINITY
}

/// Whether the number is less than zero. Negative zero is not.
pub open spec fn below_zero(bits: u32) -> bool {
    NEGATIVE_ZERO < bits <= NEGATIVE_INFINITY
}

/// Whether the number is less than minus one.
pub open spec fn below_negative_one(bits: u32) -> bool {
    NEGATIVE_ONE < bits <= NEGATIVE_INFINITY
}

/// The number limited to the range from zero to one. What is not a number,
/// and negative zero, stay as they are.
pub open spec fn unit_clamped(bits: u32) -> u32 {
    if exceeds_one(bits) {
        ONE
    } else if below_zero(bits) {
        ZERO
    } else {
        bits
    }
}

/// The number limited to the range from minus one to one. What is not a
/// number stays as it is.
pub open spec fn signed_unit_clamped(bits: u32) -> u32 {
    if exceeds_one(bits) {
        ONE
    } else if below_negative_one(bits) {
        NEGATIVE_ONE
    } else {
        bits
    }
}

/// Limits a number to the range from zero to one.
pub fn clamp_unit(bits: u32) -> (clamped: u32)
    ensures
        clamped == unit_clamped(bits),
{
    if ONE < bits && bits <= INFINITY {
        ONE
    } else if NEGATIVE_ZERO < bits && bits <= NEGATIVE_INFINITY {
        ZERO
    } else {
        bits
    }
}

/// Limits a number to the range from minus one to one.
pub fn clamp_signed_unit(bits: u32) -> (clamped: u32)
    ensures
        clamped == signed_unit_clamped(bits),
{
    if ONE < bits && bits <= INFINITY {
        ONE
    } else if NEGATIVE_ONE < bits && bits <= NEGATIVE_INFINITY {
        NEGATIVE_ONE
    } else {
        bits
    }
}

/// A clamped number that is a number lies between zero and one: its pattern
/// is that of negative zero or is at most that of one.
pub proof fn lemma_unit_clamped_range(bits: u32)
    ensures
        !is_nan(bits) ==> unit_clamped(bits) <= ONE || unit_clamped(bits) == NEGATIVE_ZERO,
        is_nan(bits) ==> unit_clamped(bits) == bits,
        unit_clamped(unit_clamped(bits)) == unit_clamped(bits),
{
}

/// Natural numbers below this bound have at most 24 significant bits, and each
/// of them is a single-precision number.
pub const EXACT_END: u64 = 0x100_0000;

/// The spacing of the single-precision numbers around `n`: the least power of
/// two that brings `n`, divided by it, below 24 significant bits.
pub open spec fn rounding_unit(n: nat) -> nat
    decreases n,
{
    if n < 0x100_0000 {
        1
    } else {
        2 * rounding_unit(n / 2)
    }
}

/// The exponent of `rounding_unit(n)`.
pub open spec fn excess_bits(n: nat) -> nat
    decreases n,
{
    if n < 0x100_0000 {
        0
    } else {
        1 + excess_bits(n / 2)
    }
}

/// The multiple of `unit` nearest to `n`; of two that are equally near, the
/// even multiple.
pub open spec fn round_half_even(n: nat, unit: nat) -> nat {
    let q = n / unit;
    let r = n % unit;
    if 2 * r > unit || (2 * r == unit && q % 2 == 1) {
        (q + 1) * unit
    } else {
        q * unit
    }
}

/// The single-precision number nearest to the natural number `n`, which is
/// what a conversion of `n` to single precision gives.
pub open spec fn nearest_single(n: nat) -> nat {
    round_half_even(n, rounding_unit(n))
}

/// For a number of more than 24 significant bits the spacing is at least two,
/// and the number divided by it has exactly 24 significant bits.
pub proof fn lemma_rounding_unit_large(n: nat)
    requires
        n >= 0x100_0000,
    ensures
        rounding_unit(n) >= 2,
        0x80_0000 <= n / rounding_unit(n) < 0x100_0000,
    decreases n,
{
    let half = n / 2;
    if half < 0x100_0000 {
        assert(rounding_unit(half) == 1);
    } else {
        lemma_rounding_unit_large(half);
        lemma_div_denominator(n as int, 2, rounding_unit(half) as int);
    }
}

/// The spacing is never zero.
pub proof fn lemma_rounding_unit_positive(n: nat)
    ensures
        rounding_unit(n) >= 1,
    decreases n,
{
    if n >= 0x100_0000 {
        lemma_rounding_unit_positive(n / 2);
    }
}

/// A number of at most 24 significant bits is a single-precision number.
pub proof fn lemma_nearest_single_exact(n: nat)
    requires
        n < 0x100_0000,
    ensures
        nearest_single(n) == n,
{
}

/// Rounding moves a number by at most half the spacing, and the result is a
/// multiple of the spacing.
pub proof fn lemma_nearest_single_is_near(n: nat)
    ensures
        nearest_single(n) % rounding_unit(n) == 0,
        2 * (nearest_single(n) - n) <= rounding_unit(n),
        2 * (n - nearest_single(n)) <= rounding_unit(n),
{
    let unit = rounding_unit(n);
    lemma_rounding_unit_positive(n);
    let q = n / unit;
    lemma_fundamental_div_mod(n as int, unit as int);
    lemma_mod_multiples_basic(q as int, unit as int);
    lemma_mod_multiples_basic(q as int + 1, unit as int);
    assert((q + 1) * unit == q * unit + unit) by (nonlinear_arith);
    assert(unit * q == q * unit) by (nonlinear_arith);
}

/// No multiple of the spacing is nearer to a number than the one it is
/// rounded to.
pub proof fn lemma_nearest_single_is_nearest(n: nat, multiple: int)
    ensures
        nearest_single(n) - n <= multiple * rounding_unit(n) - n || nearest_single(n) - n <= n
            - multiple * rounding_unit(n),
        n - nearest_single(n) <= multiple * rounding_unit(n) - n || n - nearest_single(n) <= n
            - multiple * rounding_unit(n),
{
    let unit = rounding_unit(n) as int;
    let rounded = nearest_single(n) as int;
    let other = multiple * unit;
    lemma_rounding_unit_positive(n);
    lemma_nearest_single_is_near(n);
    lemma_fundamental_div_mod(rounded, unit);
    let own = rounded / unit;
    assert(rounded == own * unit) by (nonlinear_arith)
        requires
            rounded == unit * own,
    ;
    if multiple > own {
        assert(other - rounded >= unit) by (nonlinear_arith)
            requires
                other == multiple * unit,
                rounded == own * unit,
                multiple > own,
                unit >= 1,
        ;
    } else if multiple < own {
        assert(rounded - other >= unit) by (nonlinear_arith)
            requires
                other == multiple * unit,
                rounded == own * unit,
                multiple < own,
                unit >= 1,
        ;
    }
}

/// A number of more than 24 significant bits stays at or above the bound when
/// it is rounded.
pub proof fn lemma_nearest_single_large(n: nat)
    requires
        n >= 0x100_0000,
    ensures
        nearest_single(n) >= 0x100_0000,
{
    let unit = rounding_unit(n);
    let q = n / unit;
    lemma_rounding_unit_large(n);
    assert(q * unit >= 0x100_0000) by (nonlinear_arith)
        requires
            q >= 0x80_0000,
            unit >= 2,
    ;
    assert((q + 1) * unit >= q * unit) by (nonlinear_arith);
}

/// Splits the rounded number into the multiple and the spacing.
fn round_significand(n: u64) -> (parts: (u64, u64, u64))
    ensures
        parts.1 == rounding_unit(n as nat),
        parts.2 == excess_bits(n as nat),
        parts.0 * parts.1 == nearest_single(n as nat),
        parts.0 <= 0x100_0000,
        parts.1 <= 0x200_0000_0000,
        n >= 0x80_0000 ==> parts.0 >= 0x80_0000,
{
    let mut q: u64 = n;
    let mut unit: u64 = 1;
    let mut shift: u64 = 0;
    while q >= EXACT_END
        invariant
            1 <= unit,
            shift < unit,
            q == n / unit,
            q * unit <= n,
            rounding_unit(n as nat) == unit * rounding_unit(q as nat),
            excess_bits(n as nat) == shift + excess_bits(q as nat),
            n >= 0x80_0000 ==> q >= 0x80_0000,
            unit > 1 ==> q >= 0x80_0000,
        decreases q,
    {
        proof {
            let ni = n as int;
            let ui = unit as int;
            let qi = q as int;
            assert(ui <= 0x100_0000_0000) by (nonlinear_arith)
                requires
                    qi * ui <= ni,
                    qi >= 0x100_0000,
                    ni <= u64::MAX,
            ;
            lemma_div_denominator(ni, ui, 2);
            lemma_fundamental_div_mod(ni, ui * 2);
            let ru = rounding_unit((qi / 2) as nat) as int;
            assert(ui * (2 * ru) == (ui * 2) * ru) by (nonlinear_arith);
            assert((ui * 2) * (ni / (ui * 2)) == (ni / (ui * 2)) * (ui * 2)) by (nonlinear_arith);
        }
        q = q / 2;
        unit = unit * 2;
        shift = shift + 1;
    }
    proof {
        lemma_fundamental_div_mod(n as int, unit as int);
        assert(unit * q == q * unit) by (nonlinear_arith);
        assert(rounding_unit(q as nat) == 1);
        assert(unit * 1 == unit);
        if unit > 1 {
            let ni = n as int;
            let ui = unit as int;
            let qi = q as int;
            assert(ui <= 0x200_0000_0000) by (nonlinear_arith)
                requires
                    qi * ui <= ni,
                    qi >= 0x80_0000,
                    ni <= u64::MAX,
            ;
        }
    }
    let r: u64 = n - q * unit;
    let up: bool = 2 * r > unit || (2 * r == unit && q % 2 == 1);
    let multiple: u64 = if up {
        q + 1
    } else {
        q
    };
    (multiple, unit, shift)
}

/// Converts a natural number to single precision: the result is the number
/// that the conversion stands for, which may differ from `n` where `n` has
/// more than 24 significant bits.
pub fn round_to_single(n: u64) -> (rounded: u128)
    ensures
        rounded == nearest_single(n as nat),
        rounded <= 0x2_0000_0000_0000_0000,
{
    let (multiple, unit, _shift) = round_significand(n);
    assert(multiple * unit <= 0x2_0000_0000_0000_0000) by (nonlinear_arith)
        requires
            multiple <= 0x100_0000,
            unit <= 0x200_0000_0000,
    ;
    (multiple as u128) * (unit as u128)
}

/// The significand of the single-precision number nearest to 1/255. The
/// number itself is this significand times 2^-31.
pub const RECIPROCAL_255: u64 = 0x80_8081;

/// The pattern of the single-precision product of the number nearest to
/// 1/255 and a byte: the byte as a share of 255, between zero and one.
///
/// The exact product is `byte * RECIPROCAL_255 * 2^-31`. Rounded to 24
/// significant bits it is `m * 2^(s - 31)` with `m` below 2^24 or equal to
/// it, so its exponent field is `s + 119` and its pattern
/// `(s + 118) * 2^23 + m`.
pub open spec fn unit_from_byte_bits(byte: u8) -> u32 {
    if byte == 0 {
        ZERO
    } else {
        let product = (byte * 0x80_8081) as nat;
        ((excess_bits(product) + 118) * 0x80_0000 + nearest_single(product) / rounding_unit(
            product,
        )) as u32
    }
}

/// The spacing around a product of a byte and `RECIPROCAL_255`, which has at
/// most 32 significant bits.
proof fn lemma_byte_product_spacing(p: nat)
    requires
        p < 0x1_0000_0000,
    ensures
        excess_bits(p) <= 8,
        p >= 0x8000_0000 ==> rounding_unit(p) == 256 && excess_bits(p) == 8,
        0x4000_0000 <= p < 0x8000_0000 ==> rounding_unit(p) == 128 && excess_bits(p) == 7,
        p < 0x4000_0000 ==> excess_bits(p) <= 6,
{
    reveal_with_fuel(excess_bits, 10);
    reveal_with_fuel(rounding_unit, 10);
}

/// The multiple that a product of a byte and `RECIPROCAL_255` rounds to, at
/// the two largest spacings.
proof fn lemma_byte_product_multiple(byte: u8, multiple: nat)
    requires
        byte > 0,
        multiple * rounding_unit((byte * 0x80_8081) as nat) == nearest_single(
            (byte * 0x80_8081) as nat,
        ),
    ensures
        byte == 255 ==> multiple == 0x80_0000,
        byte < 255 && byte * 0x80_8081 >= 0x4000_0000 ==> multiple < 0x100_0000,
{
    let p = (byte * 0x80_8081) as nat;
    lemma_byte_product_spacing(p);
    if byte == 255 {
        assert(p == 0x8000_007F);
        assert(p / 256 == 0x80_0000 && p % 256 == 127);
        let unit = rounding_unit(p);
        assert(0x80_0000 * unit == 0x80_0000 * 256) by (nonlinear_arith)
            requires
                unit == 256,
        ;
        assert(multiple * unit == multiple * 256) by (nonlinear_arith)
            requires
                unit == 256,
        ;
    } else if p >= 0x4000_0000 {
        assert(p < 0x8000_0000);
        let q = p / 128;
        assert(q <= 16711423);
        let unit = rounding_unit(p);
        assert((q + 1) * unit == q * 128 + 128 && q * unit == q * 128) by (nonlinear_arith)
            requires
                unit == 128,
        ;
        assert(multiple * unit == multiple * 128) by (nonlinear_arith)
            requires
                unit == 128,
        ;
    }
}

/// A byte as a share of 255 lies between zero and one; it is zero for 0 alone
/// and one for 255 alone.
pub proof fn lemma_unit_from_byte_range(byte: u8)
    ensures
        unit_from_byte_bits(byte) <= ONE,
        byte == 0 <==> unit_from_byte_bits(byte) == ZERO,
        byte == 255 <==> unit_from_byte_bits(byte) == ONE,
{
    if byte > 0 {
        let p = (byte * 0x80_8081) as nat;
        let unit = rounding_unit(p);
        lemma_rounding_unit_positive(p);
        lemma_nearest_single_is_near(p);
        let multiple = nearest_single(p) / unit;
        lemma_fundamental_div_mod(nearest_single(p) as int, unit as int);
        assert(multiple * unit == unit * multiple) by (nonlinear_arith);
        lemma_byte_product_spacing(p);
        lemma_byte_product_multiple(byte, multiple);
        if p >= 0x80_0000 {
            lemma_significand_range(p);
        }
    }
}

/// A number of at least 24 significant bits rounds to a multiple of the
/// spacing that has 24 significant bits, or is 2^24.
proof fn lemma_significand_range(n: nat)
    requires
        n >= 0x80_0000,
    ensures
        0x80_0000 <= nearest_single(n) / rounding_unit(n) <= 0x100_0000,
{
    let unit = rounding_unit(n) as int;
    lemma_rounding_unit_positive(n);
    let q = n as int / unit;
    if n >= 0x100_0000 {
        lemma_rounding_unit_large(n);
    } else {
        assert(unit == 1 && q == n);
    }
    let rounded = nearest_single(n) as int;
    assert(rounded == q * unit || rounded == (q + 1) * unit);
    lemma_div_multiples_vanish(q, unit);
    lemma_div_multiples_vanish(q + 1, unit);
    assert(unit * q == q * unit) by (nonlinear_arith);
    assert(unit * (q + 1) == (q + 1) * unit) by (nonlinear_arith);
    assert(rounded / unit == q || rounded / unit == q + 1);
}

/// Gives a byte as a share of 255 in single precision.
pub fn unit_from_byte(byte: u8) -> (bits: u32)
    ensures
        bits == unit_from_byte_bits(byte),
{
    if byte == 0 {
        return ZERO;
    }
    let product: u64 = (byte as u64) * RECIPROCAL_255;
    let (multiple, unit, shift) = round_significand(product);
    proof {
        let p = product as nat;
        lemma_byte_product_spacing(p);
        lemma_rounding_unit_positive(p);
        lemma_div_multiples_vanish(multiple as int, unit as int);
        assert(multiple * unit == unit * multiple) by (nonlinear_arith);
    }
    let bits: u32 = ((shift + 118) * 0x80_0000 + multiple) as u32;
    bits
}

/// Whether the single-precision quotient of two natural numbers, each
/// converted to single precision first, is exactly 0.75.
///
/// Division rounds the exact quotient to the nearest single-precision number.
/// Around 0.75 these lie 2^-24 apart and the pattern of 0.75 is even, so the
/// quotient is 0.75 when the exact one is within 2^-25 of it, the ends
/// included. With `x / y` for the exact quotient that is
/// `|4x - 3y| * 2^23 <= y`.
pub open spec fn rounds_to_three_quarters(numerator: nat, denominator: nat) -> bool {
    let x = nearest_single(numerator) as int;
    let y = nearest_single(denominator) as int;
    &&& denominator > 0
    &&& (4 * x - 3 * y) * 0x80_0000 <= y
    &&& (3 * y - 4 * x) * 0x80_0000 <= y
}

/// Whether the single-precision quotient of two natural numbers, each
/// converted to single precision first, is exactly 1.5.
///
/// Around 1.5 the single-precision numbers lie 2^-23 apart and the pattern of
/// 1.5 is even, so the quotient is 1.5 when the exact one is within 2^-24 of
/// it: `|2x - 3y| * 2^23 <= y`.
pub open spec fn rounds_to_three_halves(numerator: nat, denominator: nat) -> bool {
    let x = nearest_single(numerator) as int;
    let y = nearest_single(denominator) as int;
    &&& denominator > 0
    &&& (2 * x - 3 * y) * 0x80_0000 <= y
    &&& (3 * y - 2 * x) * 0x80_0000 <= y
}

/// Whether `scale * x` and `3 * y` differ by at most `y / 2^23`.
fn within_half_spacing(x: u128, y: u128, scale: u128) -> (holds: bool)
    requires
        x <= 0x2_0000_0000_0000_0000,
        y <= 0x2_0000_0000_0000_0000,
        scale <= 4,
    ensures
        holds <==> (scale * x - 3 * y) * 0x80_0000 <= y && (3 * y - scale * x) * 0x80_0000 <= y,
{
    assert(scale * x <= 0x8_0000_0000_0000_0000) by (nonlinear_arith)
        requires
            x <= 0x2_0000_0000_0000_0000,
            scale <= 4,
    ;
    let left: u128 = scale * x;
    let right: u128 = 3 * y;
    let distance: u128 = if left >= right {
        left - right
    } else {
        right - left
    };
    distance * 0x80_0000 <= y
}

/// Tells whether `numerator / denominator`, computed in single precision, is
/// exactly 0.75.
pub fn is_three_quarters(numerator: usize, denominator: usize) -> (holds: bool)
    ensures
        holds == rounds_to_three_quarters(numerator as nat, denominator as nat),
{
    if denominator == 0 {
        return false;
    }
    let x: u128 = round_to_single(numerator as u64);
    let y: u128 = round_to_single(denominator as u64);
    within_half_spacing(x, y, 4)
}

/// Tells whether `numerator / denominator`, computed in single precision, is
/// exactly 1.5.
pub fn is_three_halves(numerator: usize, denominator: usize) -> (holds: bool)
    ensures
        holds == rounds_to_three_halves(numerator as nat, denominator as nat),
{
    if denominator == 0 {
        return false;
    }
    let x: u128 = round_to_single(numerator as u64);
    let y: u128 = round_to_single(denominator as u64);
    within_half_spacing(x, y, 2)
}

/// With a denominator of fewer than 24 significant bits, the quotient is 0.75
/// in single precision only where it is exactly three quarters.
pub proof fn lemma_three_quarters_exact(numerator: nat, denominator: nat)
    requires
        0 < denominator < 0x80_0000,
    ensures
        rounds_to_three_quarters(numerator, denominator) <==> 4 * numerator == 3 * denominator,
{
    lemma_nearest_single_exact(denominator);
    if numerator >= 0x100_0000 {
        lemma_nearest_single_large(numerator);
    } else {
        lemma_nearest_single_exact(numerator);
    }
}

/// With a denominator of fewer than 24 significant bits, the quotient is 1.5
/// in single precision only where it is exactly three halves.
pub proof fn lemma_three_halves_exact(numerator: nat, denominator: nat)
    requires
        0 < denominator < 0x80_0000,
    ensures
        rounds_to_three_halves(numerator, denominator) <==> 2 * numerator == 3 * denominator,
{
    lemma_nearest_single_exact(denominator);
    if numerator >= 0x100_0000 {
        lemma_nearest_single_large(numerator);
    } else {
        lemma_nearest_single_exact(numerator);
    }
}

} // verus!
