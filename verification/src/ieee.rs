//! Samples that a decoder hands over as IEEE 754 numbers, brought to 8 bits.
//!
//! A sample stands for an intensity between 0 and 1. It is scaled by 255 in
//! single precision, clamped to the range 0 to 255 and cut to an integer.
//! Verified code does not compute with floating-point numbers, so a sample is
//! taken as its bit pattern and the arithmetic is done on integers: the scaled
//! value is the exact product, rounded to 24 significant bits, ties to even,
//! as a multiplication in single precision rounds it.

use vstd::prelude::*;
use vstd::arithmetic::div_mod::{
    lemma_basic_div,
    lemma_div_is_ordered,
    lemma_div_is_ordered_by_denominator,
};
use vstd::arithmetic::power2::{
    lemma2_to64,
    lemma_pow2_pos,
    lemma_pow2_strictly_increases,
    lemma_pow2_unfold,
    pow2,
};

verus! {

/// `n * 2^k`, cut to an integer.
pub open spec fn scaled(n: int, k: int) -> int {
    if k >= 0 {
        n * pow2(k as nat)
    } else {
        n / (pow2((-k) as nat) as int)
    }
}

/// `n / 2^s`, rounded to the nearest integer, to the even one of two that
/// are equally near.
pub open spec fn half_even(n: int, s: nat) -> int {
    let d = pow2(s) as int;
    let q = n / d;
    let r = n % d;
    if 2 * r > d || (2 * r == d && q % 2 == 1) {
        q + 1
    } else {
        q
    }
}

/// How many of its low bits a number below `2^32` has beyond 24 significant
/// ones.
pub open spec fn excess_bits(p: int) -> nat {
    if p < 0x100_0000 {
        0
    } else if p < 0x200_0000 {
        1
    } else if p < 0x400_0000 {
        2
    } else if p < 0x800_0000 {
        3
    } else if p < 0x1000_0000 {
        4
    } else if p < 0x2000_0000 {
        5
    } else if p < 0x4000_0000 {
        6
    } else if p < 0x8000_0000 {
        7
    } else {
        8
    }
}

/// An integer cut to the range of a byte from above.
pub open spec fn saturated(y: int) -> u8 {
    if y >= 255 {
        255
    } else {
        y as u8
    }
}

/// The byte for a single-precision sample, given by its bit pattern.
///
/// The pattern is a sign bit, 8 exponent bits and 23 fraction bits. A
/// negative sample and one that is not a number give 0, infinity gives 255.
/// Any other sample is `sig * 2^exp` with an integer `sig` below `2^24`; it
/// gives `255 * sig`, rounded to 24 significant bits, times `2^exp`, cut to an
/// integer and to 255 at most.
pub open spec fn single_to_byte(bits: u32) -> u8 {
    let e = (bits / 0x80_0000) % 256;
    let f = bits % 0x80_0000;
    if bits >= 0x8000_0000 {
        0
    } else if e == 255 {
        if f == 0 {
            255
        } else {
            0
        }
    } else {
        let sig: int = if e == 0 {
            f as int
        } else {
            0x80_0000 + f
        };
        let exp: int = if e == 0 {
            -149
        } else {
            e - 150
        };
        let p = 255 * sig;
        let s = excess_bits(p);
        saturated(scaled(half_even(p, s), exp + s))
    }
}

/// The byte for a half-precision sample, given by its bit pattern.
///
/// The pattern is a sign bit, 5 exponent bits and 10 fraction bits. A
/// negative sample and one that is not a number give 0, infinity gives 255.
/// Any other sample is `sig * 2^exp` with an integer `sig` below `2^11`; it
/// gives `255 * sig * 2^exp`, which single precision holds exactly, cut to an
/// integer and to 255 at most.
pub open spec fn half_to_byte(bits: u16) -> u8 {
    let e = (bits / 0x400) % 32;
    let f = bits % 0x400;
    if bits >= 0x8000 {
        0
    } else if e == 31 {
        if f == 0 {
            255
        } else {
            0
        }
    } else {
        let sig: int = if e == 0 {
            f as int
        } else {
            0x400 + f
        };
        let exp: int = if e == 0 {
            -24
        } else {
            e - 25
        };
        saturated(scaled(255 * sig, exp))
    }
}

/// `2^n` for a small `n`.
fn power_of_two(n: u32) -> (r: u64)
    requires
        n <= 32,
    ensures
        r == pow2(n as nat),
{
    let mut r: u64 = 1;
    let mut i: u32 = 0;
    proof {
        lemma2_to64();
    }
    while i < n
        invariant
            i <= n <= 32,
            r == pow2(i as nat),
        decreases n - i,
    {
        proof {
            lemma2_to64();
            lemma_pow2_strictly_increases(i as nat, 32);
            lemma_pow2_unfold((i + 1) as nat);
        }
        r = r * 2;
        i += 1;
    }
    r
}

/// A power of two with an exponent of at least `m` is at least `2^m`.
proof fn lemma_pow2_at_least(m: nat, n: nat)
    requires
        m <= n,
    ensures
        pow2(m) <= pow2(n),
        pow2(m) > 0,
{
    lemma_pow2_pos(m);
    if m < n {
        lemma_pow2_strictly_increases(m, n);
    }
}

/// A number below `2^32`, rounded to 24 significant bits, is `2^24` at most
/// and not below what cutting the low bits off leaves.
proof fn lemma_half_even_bounds(p: int)
    requires
        0 <= p < 0x1_0000_0000,
    ensures
        p / (pow2(excess_bits(p)) as int) <= half_even(p, excess_bits(p)) <= 0x100_0000,
{
    lemma2_to64();
    let s = excess_bits(p);
    let d = pow2(s) as int;
    assert(p < 0x100_0000 * d);
    assert(p / d < 0x100_0000) by (nonlinear_arith)
        requires
            0 <= p < 0x100_0000 * d,
            d > 0,
    ;
}

/// The clamp from above: a sample of 1 or more, infinity included, gives
/// 255.
pub proof fn lemma_single_at_least_one(bits: u32)
    requires
        0x3F80_0000 <= bits <= 0x7F80_0000,
    ensures
        single_to_byte(bits) == 255,
{
    let e = (bits / 0x80_0000) % 256;
    let f = bits % 0x80_0000;
    if e != 255 {
        let exp: int = e - 150;
        let p: int = 255 * (0x80_0000 + f);
        let s = excess_bits(p);
        let q = half_even(p, s);
        let k = exp + s;
        lemma2_to64();
        lemma_half_even_bounds(p);
        assert(e >= 127);
        assert(p >= 255 * 0x80_0000);
        assert(s == 7 || s == 8);
        if s == 7 {
            assert(pow2(s) == 0x80);
            assert(p / 0x80 >= 255 * 0x1_0000);
            assert(q >= 255 * 0x1_0000);
        } else {
            assert(pow2(s) == 0x100);
            assert(p / 0x100 >= 0x80_0000);
            assert(q >= 0x80_0000);
        }
        if k >= 0 {
            lemma_pow2_pos(k as nat);
            assert(q * pow2(k as nat) >= q) by (nonlinear_arith)
                requires
                    q >= 0,
                    pow2(k as nat) >= 1,
            ;
        } else {
            let j = (-k) as nat;
            if s == 7 {
                lemma_pow2_at_least(j, 16);
                lemma_div_is_ordered_by_denominator(q, pow2(j) as int, 0x1_0000);
                lemma_div_is_ordered(255 * 0x1_0000int, q, 0x1_0000);
            } else {
                lemma_pow2_at_least(j, 15);
                lemma_div_is_ordered_by_denominator(q, pow2(j) as int, 0x8000);
                lemma_div_is_ordered(0x80_0000, q, 0x8000);
            }
        }
        assert(scaled(q, k) >= 255);
    }
}

/// The clamp from below, and more: a negative sample, one that is not a
/// number and one below `2^-9` all give 0.
pub proof fn lemma_single_gives_zero(bits: u32)
    requires
        bits < 0x3B00_0000 || bits >= 0x8000_0000 || 0x7F80_0000 < bits,
    ensures
        single_to_byte(bits) == 0,
{
    let e = (bits / 0x80_0000) % 256;
    let f = bits % 0x80_0000;
    if bits < 0x3B00_0000 {
        let sig: int = if e == 0 {
            f as int
        } else {
            0x80_0000 + f
        };
        let exp: int = if e == 0 {
            -149
        } else {
            e - 150
        };
        let p: int = 255 * sig;
        let s = excess_bits(p);
        let q = half_even(p, s);
        let k = exp + s;
        let j = (-k) as nat;
        lemma2_to64();
        lemma_half_even_bounds(p);
        assert(e < 118);
        assert(k <= -25);
        lemma_pow2_at_least(25, j);
        lemma_basic_div(q, pow2(j) as int);
        assert(scaled(q, k) == 0);
    }
}

/// Brings a single-precision sample, given by its bit pattern, to 8 bits.
pub fn single_sample_to_byte(bits: u32) -> (b: u8)
    ensures
        b == single_to_byte(bits),
{
    if bits >= 0x8000_0000 || bits > 0x7F80_0000 || bits < 0x3B00_0000 {
        proof {
            lemma_single_gives_zero(bits);
        }
        return 0;
    }
    if bits >= 0x3F80_0000 {
        proof {
            lemma_single_at_least_one(bits);
        }
        return 255;
    }
    let e: u32 = bits / 0x80_0000;
    let f: u32 = bits % 0x80_0000;
    let p: u64 = 255 * (0x80_0000 + f as u64);
    let (s, d): (u32, u64) = if p < 0x8000_0000 {
        (7, 128)
    } else {
        (8, 256)
    };
    let low: u64 = p / d;
    let rest: u64 = p % d;
    let q: u64 = if 2 * rest > d || (2 * rest == d && low % 2 == 1) {
        low + 1
    } else {
        low
    };
    proof {
        lemma2_to64();
    }
    assert(118 <= e <= 126);
    assert(s == excess_bits(p as int) && q == half_even(p as int, s as nat));
    let shift: u32 = 150 - e - s;
    let y: u64 = q / power_of_two(shift);
    assert(y == scaled(q as int, e - 150 + s));
    if y >= 255 {
        255
    } else {
        y as u8
    }
}

/// The clamp from above: a half-precision sample of 1 or more, infinity
/// included, gives 255.
pub proof fn lemma_half_at_least_one(bits: u16)
    requires
        0x3C00 <= bits <= 0x7C00,
    ensures
        half_to_byte(bits) == 255,
{
    let e = (bits / 0x400) % 32;
    let f = bits % 0x400;
    if e != 31 {
        let sig: int = 0x400 + f;
        let k: int = e - 25;
        lemma2_to64();
        assert(e >= 15);
        if k >= 0 {
            lemma_pow2_pos(k as nat);
            assert(255 * sig * pow2(k as nat) >= 255 * sig) by (nonlinear_arith)
                requires
                    sig >= 0,
                    pow2(k as nat) >= 1,
            ;
        } else {
            let j = (-k) as nat;
            lemma_pow2_at_least(j, 10);
            lemma_div_is_ordered_by_denominator(255 * sig, pow2(j) as int, 0x400);
            lemma_div_is_ordered(255 * 0x400int, 255 * sig, 0x400);
        }
        assert(scaled(255 * sig, k) >= 255);
    }
}

/// The clamp from below, and more: a negative half-precision sample, one that
/// is not a number and one below `2^-14` all give 0.
pub proof fn lemma_half_gives_zero(bits: u16)
    requires
        bits < 0x0400 || bits >= 0x8000 || 0x7C00 < bits,
    ensures
        half_to_byte(bits) == 0,
{
    if bits < 0x0400 {
        lemma2_to64();
        lemma_basic_div(255 * (bits % 0x400), pow2(24) as int);
    }
}

/// Brings a half-precision sample, given by its bit pattern, to 8 bits.
pub fn half_sample_to_byte(bits: u16) -> (b: u8)
    ensures
        b == half_to_byte(bits),
{
    if bits >= 0x8000 || bits > 0x7C00 || bits < 0x0400 {
        proof {
            lemma_half_gives_zero(bits);
        }
        return 0;
    }
    if bits >= 0x3C00 {
        proof {
            lemma_half_at_least_one(bits);
        }
        return 255;
    }
    let e: u16 = bits / 0x400;
    let f: u16 = bits % 0x400;
    let p: u64 = 255 * (0x400 + f as u64);
    let shift: u32 = (25 - e) as u32;
    proof {
        lemma_pow2_pos(shift as nat);
    }
    let y: u64 = p / power_of_two(shift);
    if y >= 255 {
        255
    } else {
        y as u8
    }
}

} // verus!
