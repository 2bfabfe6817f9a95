use vstd::prelude::*;

verus! {

/// Two to the power 52: the weight of the lowest exponent bit of a binary64.
pub const MANTISSA_UNIT: u64 = 0x10_0000_0000_0000;

/// The exponent field of a binary64 bit pattern.
pub open spec fn exponent_field(bits: u64) -> int {
    (bits as int / 0x10_0000_0000_0000) % 0x800
}

/// Whether a binary64 bit pattern is a finite number: neither an infinity
/// nor a NaN, which are the patterns whose exponent field is all ones.
pub open spec fn is_finite_bits(bits: u64) -> bool {
    exponent_field(bits) != 0x7FF
}

/// `u / 2048` rounded to the nearest integer, a tie going to the even one.
pub open spec fn round_to_mantissa(u: u64) -> int {
    let q = u as int / 2048;
    let r = u as int % 2048;
    if r > 1024 || (r == 1024 && q % 2 == 1) {
        q + 1
    } else {
        q
    }
}

/// The binary64 bit pattern nearest to an integer `u` of at least `2^63`.
///
/// Such an integer has 64 significant bits, of which a binary64 keeps 53:
/// the mantissa is `u / 2^11` rounded half to even, counted in units of
/// `2^11`. With the implicit leading bit and a carry into the exponent both
/// folded into one sum, the pattern is `1085 * 2^52` plus that mantissa.
pub open spec fn large_integer_bits(u: u64) -> u64
    recommends
        u >= 0x8000_0000_0000_0000,
{
    (1085 * 0x10_0000_0000_0000 + round_to_mantissa(u)) as u64
}

/// The rounded mantissa is the nearest multiple of `2^11`: it is off by at
/// most half a unit, and by exactly half a unit only when it is even.
pub proof fn lemma_round_to_mantissa_nearest(u: u64)
    ensures
        -1024 <= u as int - 2048 * round_to_mantissa(u) <= 1024,
        (u as int - 2048 * round_to_mantissa(u) == 1024 || u as int - 2048 * round_to_mantissa(u)
            == -1024) ==> round_to_mantissa(u) % 2 == 0,
{
}

/// The pattern of a large integer is that of a finite number.
pub proof fn lemma_large_integer_bits_finite(u: u64)
    requires
        u >= 0x8000_0000_0000_0000,
    ensures
        is_finite_bits(large_integer_bits(u)),
        exponent_field(large_integer_bits(u)) == 1086 || (exponent_field(large_integer_bits(u))
            == 1087 && large_integer_bits(u) == 1087 * 0x10_0000_0000_0000),
{
    let m = round_to_mantissa(u);
    assert(0x10_0000_0000_0000 <= m <= 0x20_0000_0000_0000);
    let bits = 1085 * 0x10_0000_0000_0000 + m;
    assert(1086 * 0x10_0000_0000_0000 <= bits <= 1087 * 0x10_0000_0000_0000);
}

/// Whether a binary64 bit pattern is a finite number.
pub fn is_finite(bits: u64) -> (r: bool)
    ensures
        r == is_finite_bits(bits),
{
    (bits / MANTISSA_UNIT) % 0x800 != 0x7FF
}

/// The binary64 bit pattern nearest to `u`, ties to even.
pub(crate) fn float_bits_of_large(u: u64) -> (bits: u64)
    requires
        u >= 0x8000_0000_0000_0000,
    ensures
        bits == large_integer_bits(u),
        is_finite_bits(bits),
{
    proof {
        lemma_large_integer_bits_finite(u);
    }
    let q: u64 = u / 2048;
    let r: u64 = u % 2048;
    let m: u64 = if r > 1024 || (r == 1024 && q % 2 == 1) {
        q + 1
    } else {
        q
    };
    1085 * MANTISSA_UNIT + m
}

} // verus!
