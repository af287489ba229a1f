//! Whole parts of IEEE 754 binary32 numbers, computed on their bit patterns.
//!
//! An OSC message carries a real number as a binary32 value. The bridge needs only its whole
//! part, so it works on the 32 bits directly: bit 31 is the sign, bits 30 to 23 the biased
//! exponent, bits 22 to 0 the fraction.

use vstd::arithmetic::div_mod::{
    lemma_basic_div, lemma_div_by_multiple, lemma_div_is_ordered,
    lemma_div_multiples_vanish_quotient,
};
use vstd::arithmetic::mul::{lemma_mul_is_associative, lemma_mul_is_commutative};
use vstd::arithmetic::power2::{
    lemma2_to64, lemma_pow2_adds, lemma_pow2_pos, lemma_pow2_strictly_increases,
    lemma_pow2_unfold, pow2,
};
use vstd::prelude::*;

verus! {

/// Whether the sign bit is set.
pub open spec fn negative(bits: u32) -> bool {
    bits >= 0x8000_0000
}

/// The biased exponent field.
pub open spec fn exponent(bits: u32) -> nat {
    ((bits as nat) / 0x80_0000) % 0x100
}

/// The fraction field.
pub open spec fn fraction(bits: u32) -> nat {
    (bits as nat) % 0x80_0000
}

/// Whether the pattern is not a number.
pub open spec fn is_nan(bits: u32) -> bool {
    exponent(bits) == 255 && fraction(bits) != 0
}

/// The magnitude of the number, rounded down to a whole number.
///
/// A pattern with exponent field `e > 0` and fraction field `f` stands for the magnitude
/// `(2^23 + f) * 2^(e - 150)`; with `e == 0` the magnitude is below one. An infinity is read by
/// the same formula, which puts it beyond every 32-bit integer.
pub open spec fn whole_part(bits: u32) -> nat {
    if exponent(bits) == 0 {
        0
    } else {
        ((0x80_0000 + fraction(bits)) * pow2(exponent(bits)) / pow2(150)) as nat
    }
}

/// The number truncated toward zero to a 32-bit signed integer: the whole part with the sign,
/// held to the nearest bound where it lies outside the range, and zero for what is not a number.
pub open spec fn truncated(bits: u32) -> int {
    if is_nan(bits) {
        0
    } else if negative(bits) {
        if whole_part(bits) >= 0x8000_0000 {
            i32::MIN as int
        } else {
            -(whole_part(bits) as int)
        }
    } else {
        if whole_part(bits) > i32::MAX {
            i32::MAX as int
        } else {
            whole_part(bits) as int
        }
    }
}

proof fn lemma_below_one(bits: u32)
    requires
        exponent(bits) < 127,
    ensures
        whole_part(bits) == 0,
{
    let e = exponent(bits);
    if e > 0 {
        let s = (0x80_0000 + fraction(bits)) as int;
        lemma2_to64();
        lemma_pow2_pos(e);
        lemma_pow2_adds(24, 126);
        if e < 126 {
            lemma_pow2_strictly_increases(e, 126);
        }
        assert(0 <= s * pow2(e) < pow2(24) * pow2(126)) by (nonlinear_arith)
            requires
                0 < s < pow2(24),
                0 < pow2(e) <= pow2(126),
        ;
        lemma_basic_div(s * pow2(e), pow2(150) as int);
    }
}

proof fn lemma_beyond_range(bits: u32)
    requires
        exponent(bits) >= 158,
    ensures
        whole_part(bits) >= 0x8000_0000,
{
    let e = exponent(bits);
    let s = (0x80_0000 + fraction(bits)) as int;
    lemma2_to64();
    lemma_pow2_pos(150);
    lemma_pow2_pos(e);
    lemma_pow2_adds(8, 150);
    lemma_pow2_adds(23, 8);
    if e > 158 {
        lemma_pow2_strictly_increases(158, e);
    }
    assert(pow2(23) * pow2(158) <= s * pow2(e)) by (nonlinear_arith)
        requires
            pow2(23) <= s,
            0 < pow2(158) <= pow2(e),
            pow2(23) > 0,
    ;
    assert(pow2(23) * pow2(158) == pow2(31) * pow2(150)) by {
        lemma_mul_is_associative(pow2(23) as int, pow2(8) as int, pow2(150) as int);
    }
    lemma_div_by_multiple(pow2(31) as int, pow2(150) as int);
    lemma_div_is_ordered((pow2(31) * pow2(150)) as int, s * pow2(e), pow2(150) as int);
}

proof fn lemma_shift_down(bits: u32)
    requires
        0 < exponent(bits) <= 150,
    ensures
        pow2((150 - exponent(bits)) as nat) > 0,
        whole_part(bits) == (0x80_0000 + fraction(bits)) / pow2((150 - exponent(bits)) as nat),
{
    let e = exponent(bits);
    let k = (150 - e) as nat;
    let s = (0x80_0000 + fraction(bits)) as int;
    lemma_pow2_pos(e);
    lemma_pow2_pos(k);
    lemma_pow2_adds(e, k);
    lemma_div_multiples_vanish_quotient(pow2(e) as int, s, pow2(k) as int);
    lemma_mul_is_commutative(s, pow2(e) as int);
}

proof fn lemma_shift_up(bits: u32)
    requires
        exponent(bits) > 150,
    ensures
        whole_part(bits) == (0x80_0000 + fraction(bits)) * pow2((exponent(bits) - 150) as nat),
{
    let e = exponent(bits);
    let k = (e - 150) as nat;
    let s = (0x80_0000 + fraction(bits)) as int;
    lemma_pow2_pos(150);
    lemma_pow2_pos(k);
    lemma_pow2_adds(k, 150);
    lemma_mul_is_associative(s, pow2(k) as int, pow2(150) as int);
    assert(0 <= s * pow2(k)) by (nonlinear_arith)
        requires
            0 < s,
            pow2(k) > 0,
    ;
    lemma_div_by_multiple(s * pow2(k), pow2(150) as int);
}

fn power_of_two(k: u32) -> (p: u64)
    requires
        k <= 23,
    ensures
        p == pow2(k as nat),
        0 < p <= 0x80_0000,
{
    let mut p: u64 = 1;
    let mut i: u32 = 0;
    proof {
        lemma2_to64();
    }
    while i < k
        invariant
            i <= k <= 23,
            p == pow2(i as nat),
            pow2(23) == 0x80_0000,
        decreases k - i,
    {
        proof {
            lemma_pow2_unfold((i + 1) as nat);
            if i + 1 < 23 {
                lemma_pow2_strictly_increases((i + 1) as nat, 23);
            }
        }
        p = p * 2;
        i = i + 1;
    }
    proof {
        lemma_pow2_pos(k as nat);
        if k < 23 {
            lemma_pow2_strictly_increases(k as nat, 23);
        }
    }
    p
}

/// Truncates the number with the given bit pattern toward zero.
pub fn truncate(bits: u32) -> (n: i32)
    ensures
        n == truncated(bits),
{
    let minus = bits >= 0x8000_0000;
    let e: u32 = (bits / 0x80_0000) % 0x100;
    let f: u32 = bits % 0x80_0000;
    if e == 255 && f != 0 {
        return 0;
    }
    if e < 127 {
        proof {
            lemma_below_one(bits);
        }
        return 0;
    }
    if e >= 158 {
        proof {
            lemma_beyond_range(bits);
        }
        return if minus {
            i32::MIN
        } else {
            i32::MAX
        };
    }
    let significand: u64 = 0x80_0000 + f as u64;
    let whole: u64 = if e <= 150 {
        proof {
            lemma_shift_down(bits);
        }
        significand / power_of_two(150 - e)
    } else {
        let scale = power_of_two(e - 150);
        proof {
            lemma_shift_up(bits);
            lemma2_to64();
            if e < 157 {
                lemma_pow2_strictly_increases((e - 150) as nat, 7);
            }
            assert(significand * scale < 0x8000_0000) by (nonlinear_arith)
                requires
                    significand < 0x100_0000,
                    0 < scale <= 0x80,
            ;
        }
        significand * scale
    };
    if minus {
        (-(whole as i64)) as i32
    } else {
        whole as i32
    }
}

} // verus!
