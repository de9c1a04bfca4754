//! Single-precision floats as bit patterns.
//!
//! Everything here is integer arithmetic on IEEE 754 encodings: a finite
//! positive pattern with exponent field `e > 0` and fraction `f` stands for
//! `(2^23 + f) * 2^(e - 150)`.

use vstd::arithmetic::power2::{lemma2_to64, lemma_pow2_strictly_increases, lemma_pow2_unfold, pow2};
use vstd::prelude::*;

verus! {

/// The sign bit.
pub const SIGN: u32 = 0x8000_0000;

/// The pattern of positive infinity.
pub const INFINITY: u32 = 0x7f80_0000;

/// The pattern of the canonical quiet NaN.
pub const NAN: u32 = 0x7fc0_0000;

/// The pattern of 1.0.
pub const ONE: u32 = 0x3f80_0000;

/// One unit of the exponent field.
pub const EXPONENT_UNIT: u32 = 0x80_0000;

/// The pattern without its sign.
pub open spec fn magnitude(bits: u32) -> u32 {
    if bits >= SIGN {
        (bits - SIGN) as u32
    } else {
        bits
    }
}

pub open spec fn is_finite(bits: u32) -> bool {
    magnitude(bits) < INFINITY
}

pub open spec fn is_nan(bits: u32) -> bool {
    magnitude(bits) > INFINITY
}

/// An integer that orders finite patterns as their values are ordered. Both
/// zeros have the key 0.
pub open spec fn order_key(bits: u32) -> int {
    if bits >= SIGN {
        SIGN - bits
    } else {
        bits as int
    }
}

/// The two patterns compare equal as floats.
pub open spec fn same_float(a: u32, b: u32) -> bool {
    !is_nan(a) && !is_nan(b) && order_key(a) == order_key(b)
}

/// The value of a finite non-negative pattern, in units of `2^-149`.
pub open spec fn scaled_value(bits: u32) -> nat {
    let exponent = bits as nat / 0x80_0000;
    let fraction = bits as nat % 0x80_0000;
    if exponent == 0 {
        fraction
    } else {
        (0x80_0000 + fraction) * pow2((exponent - 1) as nat)
    }
}

/// The pattern of `significand * 2^(exponent - 150)`: the significand is
/// doubled, and the exponent lowered, until the leading bit is in place.
pub open spec fn normalized(significand: nat, exponent: int) -> u32
    decreases 0x100_0000 - significand,
{
    if significand == 0 || significand >= 0x80_0000 {
        (exponent * 0x80_0000 + significand - 0x80_0000) as u32
    } else {
        normalized(2 * significand, exponent - 1)
    }
}

pub(crate) fn magnitude_of(bits: u32) -> (result: u32)
    ensures
        result == magnitude(bits),
{
    if bits >= SIGN {
        bits - SIGN
    } else {
        bits
    }
}

pub(crate) fn finite(bits: u32) -> (result: bool)
    ensures
        result == is_finite(bits),
{
    magnitude_of(bits) < INFINITY
}

pub(crate) fn nan(bits: u32) -> (result: bool)
    ensures
        result == is_nan(bits),
{
    magnitude_of(bits) > INFINITY
}

pub(crate) fn key_of(bits: u32) -> (key: i64)
    ensures
        key == order_key(bits),
{
    if bits >= SIGN {
        SIGN as i64 - bits as i64
    } else {
        bits as i64
    }
}

pub(crate) fn equal_floats(a: u32, b: u32) -> (result: bool)
    ensures
        result == same_float(a, b),
{
    !nan(a) && !nan(b) && key_of(a) == key_of(b)
}

/// The value of a pattern built from a significand and an exponent is the one
/// asked for.
pub proof fn law_normalized_value(significand: nat, exponent: int)
    requires
        0 < significand < 0x100_0000,
        24 <= exponent <= 254,
    ensures
        normalized(significand, exponent) < INFINITY,
        normalized(significand, exponent) >= EXPONENT_UNIT,
        scaled_value(normalized(significand, exponent)) == significand * pow2(
            (exponent - 1) as nat,
        ),
{
    lemma2_to64();
    assert(significand * pow2(23) >= 0x80_0000) by (nonlinear_arith)
        requires
            significand >= 1,
            pow2(23) == 0x80_0000,
    ;
    lemma_normalized(significand, exponent, 24);
}

proof fn lemma_normalized(significand: nat, exponent: int, room: int)
    requires
        0 < significand < 0x100_0000,
        1 <= room <= exponent <= 254,
        significand * pow2((room - 1) as nat) >= 0x80_0000,
    ensures
        EXPONENT_UNIT <= normalized(significand, exponent) < INFINITY,
        scaled_value(normalized(significand, exponent)) == significand * pow2(
            (exponent - 1) as nat,
        ),
    decreases 0x100_0000 - significand,
{
    lemma2_to64();
    if significand >= 0x80_0000 {
        let bits = normalized(significand, exponent);
        assert(bits == exponent * 0x80_0000 + significand - 0x80_0000);
        assert(bits as nat / 0x80_0000 == exponent);
        assert(bits as nat % 0x80_0000 == significand - 0x80_0000);
    } else {
        if room == 1 {
            assert(significand * pow2(0) == significand) by (nonlinear_arith)
                requires
                    pow2(0) == 1,
            ;
        }
        lemma_pow2_unfold((room - 1) as nat);
        lemma_pow2_unfold((exponent - 1) as nat);
        assert((2 * significand) * pow2((room - 2) as nat) == significand * (2 * pow2(
            (room - 2) as nat,
        ))) by (nonlinear_arith);
        assert((2 * significand) * pow2((exponent - 2) as nat) == significand * (2 * pow2(
            (exponent - 2) as nat,
        ))) by (nonlinear_arith);
        lemma_normalized(2 * significand, exponent - 1, room - 1);
    }
}

/// The pattern of `significand * 2^(exponent - 150)`.
pub(crate) fn normalize(significand: u32, exponent: u32) -> (bits: u32)
    requires
        0 < significand < 0x100_0000,
        24 <= exponent <= 254,
    ensures
        bits == normalized(significand as nat, exponent as int),
{
    let mut n: u32 = significand;
    let mut e: u32 = exponent;
    let ghost mut room: int = 24;
    proof {
        lemma2_to64();
        assert(n * pow2(23) >= 0x80_0000) by (nonlinear_arith)
            requires
                n >= 1,
                pow2(23) == 0x80_0000,
        ;
    }
    while n < 0x80_0000
        invariant
            0 < n < 0x100_0000,
            1 <= room <= e <= 254,
            n * pow2((room - 1) as nat) >= 0x80_0000,
            normalized(n as nat, e as int) == normalized(significand as nat, exponent as int),
        decreases 0x100_0000 - n,
    {
        proof {
            lemma2_to64();
            if room == 1 {
                assert(n * pow2(0) == n) by (nonlinear_arith)
                    requires
                        pow2(0) == 1,
                ;
            }
            lemma_pow2_unfold((room - 1) as nat);
            assert((2 * n) * pow2((room - 2) as nat) == n * (2 * pow2((room - 2) as nat)))
                by (nonlinear_arith);
            room = room - 1;
        }
        n = n * 2;
        e = e - 1;
    }
    e * 0x80_0000 + (n - 0x80_0000)
}

/// A code of a small unsigned float format: a five-bit exponent over
/// `mantissa_bits` bits of mantissa.
pub open spec fn small_float_bits(code: nat, scale: nat) -> u32 {
    let exponent = code / scale;
    let mantissa = code % scale;
    if exponent == 0 && mantissa == 0 {
        0
    } else if exponent == 0 {
        normalized(mantissa, small_exponent(1, scale))
    } else if exponent < 31 {
        normalized(scale + mantissa, small_exponent(exponent as int, scale))
    } else if mantissa == 0 {
        INFINITY
    } else {
        NAN
    }
}

/// The exponent to which a small float with this exponent field and `scale`
/// mantissa steps is normalized.
pub open spec fn small_exponent(exponent: int, scale: nat) -> int {
    if scale == 64 {
        exponent + 129
    } else {
        exponent + 130
    }
}

/// How many steps a mantissa of the given width has.
pub open spec fn mantissa_scale(mantissa_bits: u32) -> nat {
    if mantissa_bits == 6 {
        64
    } else {
        32
    }
}

/// Decode an unsigned float of 11 bits (six of mantissa) or 10 bits (five).
pub fn decode_unsigned_float(code: u32, mantissa_bits: u32) -> (bits: u32)
    requires
        mantissa_bits == 5 || mantissa_bits == 6,
        code < 32 * mantissa_scale(mantissa_bits),
    ensures
        bits == small_float_bits(code as nat, mantissa_scale(mantissa_bits)),
{
    let scale: u32 = if mantissa_bits == 6 {
        64
    } else {
        32
    };
    let base: u32 = if mantissa_bits == 6 {
        129
    } else {
        130
    };
    let exponent: u32 = code / scale;
    let mantissa: u32 = code % scale;
    if exponent == 0 {
        if mantissa == 0 {
            0
        } else {
            normalize(mantissa, 1 + base)
        }
    } else if exponent == 31 {
        if mantissa == 0 {
            INFINITY
        } else {
            NAN
        }
    } else {
        normalize(scale + mantissa, exponent + base)
    }
}

/// The pattern that a half-precision pattern stands for.
pub open spec fn half_to_single(half: u16) -> u32 {
    let sign = if half >= 0x8000 {
        SIGN as int
    } else {
        0
    };
    let exponent = half as nat / 0x400 % 0x20;
    let mantissa = half as nat % 0x400;
    (sign + if exponent == 0 && mantissa == 0 {
        0
    } else if exponent == 0 {
        normalized(mantissa, 126) as int
    } else if exponent == 31 {
        INFINITY + mantissa * 0x2000
    } else {
        normalized(0x400 + mantissa, exponent as int + 125) as int
    }) as u32
}

/// Decode a half-precision float.
pub fn decode_f16(half: u16) -> (bits: u32)
    ensures
        bits == half_to_single(half),
{
    let sign: u32 = if half >= 0x8000 {
        SIGN
    } else {
        0
    };
    let exponent: u32 = half as u32 / 0x400 % 0x20;
    let mantissa: u32 = half as u32 % 0x400;
    if exponent == 0 {
        if mantissa == 0 {
            sign
        } else {
            proof {
                law_normalized_value(mantissa as nat, 126);
            }
            sign + normalize(mantissa, 126)
        }
    } else if exponent == 31 {
        sign + INFINITY + mantissa * 0x2000
    } else {
        proof {
            law_normalized_value((0x400 + mantissa) as nat, exponent + 125);
        }
        sign + normalize(0x400 + mantissa, exponent + 125)
    }
}

/// The code of the nearest small float, halves away from zero. Negative values
/// give zero, large ones infinity.
pub open spec fn small_float_code(bits: u32, scale: nat) -> nat {
    let exponent = bits as nat / 0x80_0000;
    let fraction = bits as nat % 0x80_0000;
    if is_nan(bits) {
        31 * scale + 1
    } else if !is_finite(bits) {
        31 * scale
    } else if bits >= SIGN || bits == 0 {
        0
    } else if exponent < 113 {
        let step = pow2((small_exponent(1, scale) - exponent) as nat);
        if exponent == 0 {
            0
        } else {
            (0x80_0000 + fraction + step / 2) / step
        }
    } else if exponent > 142 {
        31 * scale
    } else {
        ((exponent - 112) * scale + (fraction * scale + 0x40_0000) / 0x80_0000) as nat
    }
}


/// Encode a float to 11 bits (six of mantissa) or 10 bits (five).
pub fn encode_unsigned_float(bits: u32, mantissa_bits: u32) -> (code: u32)
    requires
        mantissa_bits == 5 || mantissa_bits == 6,
    ensures
        code == small_float_code(bits, mantissa_scale(mantissa_bits)),
        code < 32 * mantissa_scale(mantissa_bits),
{
    let scale: u32 = if mantissa_bits == 6 {
        64
    } else {
        32
    };
    let base: u32 = if mantissa_bits == 6 {
        130
    } else {
        131
    };
    if nan(bits) {
        return 31 * scale + 1;
    }
    if !finite(bits) {
        return 31 * scale;
    }
    if bits >= SIGN || bits == 0 {
        return 0;
    }
    let exponent: u32 = bits / 0x80_0000;
    let fraction: u32 = bits % 0x80_0000;
    if exponent < 113 {
        if exponent == 0 {
            return 0;
        }
        let shift: u32 = base - exponent;
        proof {
            lemma2_to64();
        }
        if shift >= 26 {
            proof {
                lemma_pow2_unfold(shift as nat);
                if shift > 26 {
                    lemma_pow2_strictly_increases(26, shift as nat);
                }
                lemma_small_quotient((0x80_0000 + fraction) as nat, pow2(shift as nat));
            }
            return 0;
        }
        let mut step: u32 = 1;
        let mut i: u32 = 0;
        while i < shift
            invariant
                i <= shift < 26,
                step == pow2(i as nat),
                step <= 0x200_0000,
            decreases shift - i,
        {
            proof {
                lemma2_to64();
                lemma_pow2_unfold((i + 1) as nat);
                if i + 1 < 25 {
                    lemma_pow2_strictly_increases((i + 1) as nat, 25);
                }
            }
            step = step * 2;
            i = i + 1;
        }
        let code: u32 = (0x80_0000 + fraction + step / 2) / step;
        proof {
            lemma_pow2_strictly_increases(17, shift as nat);
            lemma_quotient_bound((0x80_0000 + fraction + step / 2) as nat, step as nat);
        }
        return code;
    }
    if exponent > 142 {
        return 31 * scale;
    }
    (exponent - 112) * scale + (fraction * scale + 0x40_0000) / 0x80_0000
}

proof fn lemma_small_quotient(n: nat, step: nat)
    by (nonlinear_arith)
    requires
        n < 0x100_0000,
        step >= 0x400_0000,
    ensures
        (n + step / 2) / step == 0,
{
}

proof fn lemma_quotient_bound(n: nat, step: nat)
    by (nonlinear_arith)
    requires
        n < 0x100_0000 + step / 2,
        step >= 0x4_0000,
    ensures
        n / step <= 64,
{
}


/// How often a significand is doubled before its leading bit is in place.
proof fn lemma_normalized_shape(significand: nat, exponent: int) -> (doublings: nat)
    requires
        0 < significand < 0x100_0000,
        24 <= exponent <= 254,
    ensures
        0x80_0000 <= significand * pow2(doublings) < 0x100_0000,
        doublings <= 23,
        normalized(significand, exponent) == (exponent - doublings) * 0x80_0000 + significand
            * pow2(doublings) - 0x80_0000,
{
    lemma2_to64();
    assert(significand * pow2(23) >= 0x80_0000) by (nonlinear_arith)
        requires
            significand >= 1,
            pow2(23) == 0x80_0000,
    ;
    lemma_shape_steps(significand, exponent, 24)
}

proof fn lemma_shape_steps(significand: nat, exponent: int, room: int) -> (doublings: nat)
    requires
        0 < significand < 0x100_0000,
        1 <= room <= exponent <= 254,
        significand * pow2((room - 1) as nat) >= 0x80_0000,
    ensures
        0x80_0000 <= significand * pow2(doublings) < 0x100_0000,
        doublings < room,
        normalized(significand, exponent) == (exponent - doublings) * 0x80_0000 + significand
            * pow2(doublings) - 0x80_0000,
    decreases 0x100_0000 - significand,
{
    lemma2_to64();
    if significand >= 0x80_0000 {
        assert(significand * pow2(0) == significand) by (nonlinear_arith)
            requires
                pow2(0) == 1,
        ;
        0
    } else {
        if room == 1 {
            assert(significand * pow2(0) == significand) by (nonlinear_arith)
                requires
                    pow2(0) == 1,
            ;
        }
        lemma_pow2_unfold((room - 1) as nat);
        assert((2 * significand) * pow2((room - 2) as nat) == significand * (2 * pow2(
            (room - 2) as nat,
        ))) by (nonlinear_arith);
        let rest = lemma_shape_steps(2 * significand, exponent - 1, room - 1);
        lemma_pow2_unfold(rest + 1);
        assert((2 * significand) * pow2(rest) == significand * (2 * pow2(rest)))
            by (nonlinear_arith);
        rest + 1
    }
}

proof fn lemma_shape_of(significand: nat, exponent: int, doublings: nat)
    requires
        0 < significand < 0x100_0000,
        24 <= exponent <= 254,
        0x80_0000 <= significand * pow2(doublings) < 0x100_0000,
    ensures
        normalized(significand, exponent) == (exponent - doublings) * 0x80_0000 + significand
            * pow2(doublings) - 0x80_0000,
{
    let found = lemma_normalized_shape(significand, exponent);
    if found < doublings {
        lemma_pow2_strictly_increases(found, doublings);
        lemma_pow2_unfold(found + 1);
        if found + 1 < doublings {
            lemma_pow2_strictly_increases(found + 1, doublings);
        }
        assert(significand * pow2(doublings) >= 2 * (significand * pow2(found)))
            by (nonlinear_arith)
            requires
                pow2(doublings) >= 2 * pow2(found),
        ;
    } else if doublings < found {
        lemma_pow2_unfold(doublings + 1);
        if doublings + 1 < found {
            lemma_pow2_strictly_increases(doublings + 1, found);
        }
        assert(significand * pow2(found) >= 2 * (significand * pow2(doublings)))
            by (nonlinear_arith)
            requires
                pow2(found) >= 2 * pow2(doublings),
        ;
    }
}

/// Decoding half precision is exact: the single has the value of the half.
pub proof fn law_half_decoding_is_exact(half: u16)
    requires
        half as nat / 0x400 % 0x20 < 31,
    ensures
        ({
            let exponent = half as nat / 0x400 % 0x20;
            let mantissa = half as nat % 0x400;
            let single = half_to_single(half);
            &&& is_finite(single)
            &&& (single >= SIGN <==> half >= 0x8000)
            &&& scaled_value(magnitude(single)) == if exponent == 0 {
                mantissa * pow2(125)
            } else {
                (0x400 + mantissa) * pow2((exponent + 124) as nat)
            }
        }),
{
    let exponent = half as nat / 0x400 % 0x20;
    let mantissa = half as nat % 0x400;
    if exponent == 0 {
        if mantissa > 0 {
            law_normalized_value(mantissa, 126);
        } else {
            assert(mantissa * pow2(125) == 0) by (nonlinear_arith)
                requires
                    mantissa == 0,
            ;
        }
    } else {
        law_normalized_value(0x400 + mantissa, exponent as int + 125);
    }
}

/// Encoding what a code decodes to gives the code back, for every finite code
/// and for infinity.
pub proof fn law_small_float_round_trip(code: nat, mantissa_bits: u32)
    requires
        mantissa_bits == 5 || mantissa_bits == 6,
        code <= 31 * mantissa_scale(mantissa_bits),
    ensures
        small_float_code(
            small_float_bits(code, mantissa_scale(mantissa_bits)),
            mantissa_scale(mantissa_bits),
        ) == code,
{
    let scale = mantissa_scale(mantissa_bits);
    let exponent = code / scale;
    let mantissa = code % scale;
    let bits = small_float_bits(code, scale);
    lemma2_to64();
    assert(code == exponent * scale + mantissa) by {
        assert(scale == 64 || scale == 32);
    }
    if exponent == 0 && mantissa > 0 {
        let target = small_exponent(1, scale);
        law_normalized_value(mantissa, target);
        let doublings = lemma_normalized_shape(mantissa, target);
        let step = pow2(doublings);
        if doublings < 18 {
            if doublings < 17 {
                lemma_pow2_strictly_increases(doublings, 17);
            }
            assert(mantissa * step < 0x80_0000) by (nonlinear_arith)
                requires
                    mantissa < 64,
                    step <= 0x2_0000,
            ;
        }
        if scale == 32 && doublings < 19 {
            assert(mantissa * step < 0x80_0000) by (nonlinear_arith)
                requires
                    mantissa < 32,
                    step <= 0x4_0000,
            ;
        }
        assert(bits as nat / 0x80_0000 == target - doublings);
        assert(bits as nat % 0x80_0000 == mantissa * step - 0x80_0000);
        lemma_pow2_unfold(doublings);
        lemma_pow2_strictly_increases(17, doublings);
        assert((mantissa * step + step / 2) / step == mantissa) by (nonlinear_arith)
            requires
                step > 1,
        ;
    } else if 0 < exponent < 31 {
        let target = small_exponent(exponent as int, scale);
        let doublings: nat = if scale == 64 {
            17
        } else {
            18
        };
        lemma_shape_of(scale + mantissa, target, doublings);
        law_normalized_value(scale + mantissa, target);
        assert(bits as nat / 0x80_0000 == exponent + 112);
        assert(bits as nat % 0x80_0000 == mantissa * pow2(doublings));
    }
}

} // verus!
