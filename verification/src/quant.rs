//! Exact quantization of f32 coordinates for vertex welding.
//!
//! A position coordinate is welded by the integer key `round(x * 1000)`,
//! where the scaling is IEEE-754 single-precision multiplication
//! (round-to-nearest-even) and the rounding is round-half-away-from-zero,
//! saturating to the `i32` range (NaN gives 0). `quant` states that
//! computation exactly, on the bit pattern, in integer arithmetic, and
//! `quantize` implements it.

use vstd::prelude::*;

use crate::model::VKey;

verus! {

/// 2 to the power `k`.
pub open spec fn pot(k: nat) -> int
    decreases k,
{
    if k == 0 {
        1
    } else {
        2 * pot((k - 1) as nat)
    }
}

pub proof fn lemma_pot_pos(k: nat)
    ensures
        pot(k) >= 1,
    decreases k,
{
    if k > 0 {
        lemma_pot_pos((k - 1) as nat);
    }
}

pub proof fn lemma_pot_mono(a: nat, b: nat)
    requires
        a <= b,
    ensures
        pot(a) <= pot(b),
    decreases b - a,
{
    if a < b {
        lemma_pot_mono(a, (b - 1) as nat);
        lemma_pot_pos((b - 1) as nat);
    }
}

pub proof fn lemma_pot_24()
    ensures
        pot(24) == 0x100_0000,
{
    reveal_with_fuel(pot, 25);
}

pub proof fn lemma_pot_7()
    ensures
        pot(7) == 128,
{
    reveal_with_fuel(pot, 8);
}

/// The welding key of one coordinate, given as an f32 bit pattern:
/// the f32 product of the coordinate with 1000.0 (round-to-nearest-even),
/// rounded half-away-from-zero to an integer, saturated to the i32 range;
/// NaN gives 0.
pub open spec fn quant(b: u32) -> int {
    let sign = b / 0x8000_0000;
    let e = (b / 0x0080_0000) % 256;
    let m = b % 0x0080_0000;
    if e == 255 {
        // infinity saturates through the integer cast; NaN casts to 0
        if m != 0 {
            0
        } else if sign == 1 {
            -0x8000_0000
        } else {
            0x7FFF_FFFF
        }
    } else if e == 0 {
        // zero or subnormal: the scaled value stays far below one half
        0
    } else {
        // the coordinate is (m + 2^23) * 2^(e - 150); multiply by 1000 and
        // renormalize the exact 33/34-bit product to a 24-bit significand
        // with round-to-nearest-even
        let big = (m + 0x0080_0000) * 1000;
        let d = if big >= 0x2_0000_0000 {
            1024
        } else {
            512
        };
        let sh = if big >= 0x2_0000_0000 {
            10int
        } else {
            9int
        };
        let q0 = big / d;
        let r = big % d;
        let q1 = if 2 * r > d || (2 * r == d && q0 % 2 == 1) {
            q0 + 1
        } else {
            q0
        };
        let q2 = if q1 == 0x100_0000 {
            0x80_0000int
        } else {
            q1
        };
        let sh2 = if q1 == 0x100_0000 {
            sh + 1
        } else {
            sh
        };
        // the product is q2 * 2^f with q2 in [2^23, 2^24)
        let f = e - 150 + sh2;
        let mag = if f >= 8 {
            // at least 2^31: saturates (an overflow to infinity does too)
            0x8000_0000int
        } else if f >= 0 {
            q2 * pot(f as nat)
        } else if f <= -25 {
            // strictly below one half
            0int
        } else {
            // round half away from zero on the magnitude
            (q2 + pot((-f - 1) as nat)) / pot((-f) as nat)
        };
        let magsat = if sign == 0 && mag > 0x7FFF_FFFF {
            0x7FFF_FFFF
        } else {
            mag
        };
        if sign == 1 {
            -magsat
        } else {
            magsat
        }
    }
}

/// The three welding keys of a position, as mathematical integers.
pub open spec fn key3(x: u32, y: u32, z: u32) -> (int, int, int) {
    (quant(x), quant(y), quant(z))
}

/// The mathematical value of an executable key.
pub open spec fn vkey3(k: VKey) -> (int, int, int) {
    (k.x as int, k.y as int, k.z as int)
}

fn pot_u64(k: u64) -> (r: u64)
    requires
        k <= 24,
    ensures
        r as int == pot(k as nat),
        1 <= r <= 0x100_0000,
{
    let mut r: u64 = 1;
    let mut i: u64 = 0;
    while i < k
        invariant
            i <= k,
            k <= 24,
            r as int == pot(i as nat),
            1 <= r <= 0x100_0000,
        decreases k - i,
    {
        proof {
            lemma_pot_mono((i + 1) as nat, k as nat);
            lemma_pot_mono(k as nat, 24);
            lemma_pot_24();
            assert(2 * (r as int) == pot((i + 1) as nat));
        }
        r = r * 2;
        i = i + 1;
    }
    r
}

/// The welding key of one coordinate (f32 bit pattern), by exact integer
/// arithmetic on the bit pattern.
pub fn quantize(b: u32) -> (k: i32)
    ensures
        k as int == quant(b),
{
    let sign: u32 = b / 0x8000_0000;
    let e: u32 = (b / 0x0080_0000) % 256;
    let m: u32 = b % 0x0080_0000;
    if e == 255 {
        if m != 0 {
            0
        } else if sign == 1 {
            i32::MIN
        } else {
            i32::MAX
        }
    } else if e == 0 {
        0
    } else {
        let big: u64 = (m as u64 + 0x0080_0000) * 1000;
        assert(big < 0x4_0000_0000);
        let d: u64 = if big >= 0x2_0000_0000 {
            1024
        } else {
            512
        };
        let sh: u64 = if big >= 0x2_0000_0000 {
            10
        } else {
            9
        };
        let q0: u64 = big / d;
        let r: u64 = big % d;
        assert(q0 < 0x100_0000);
        let q1: u64 = if 2 * r > d || (2 * r == d && q0 % 2 == 1) {
            q0 + 1
        } else {
            q0
        };
        let q2: u64 = if q1 == 0x100_0000 {
            0x80_0000
        } else {
            q1
        };
        let sh2: u64 = if q1 == 0x100_0000 {
            sh + 1
        } else {
            sh
        };
        assert(q2 < 0x100_0000);
        let f: i64 = (e as i64) - 150 + (sh2 as i64);
        let mag: u64 = if f >= 8 {
            0x8000_0000
        } else if f >= 0 {
            let mul = pot_u64(f as u64);
            proof {
                lemma_pot_mono(f as nat, 7);
                lemma_pot_7();
                assert(q2 * mul <= q2 * 128) by (nonlinear_arith)
                    requires
                        mul <= 128,
                        q2 >= 0,
                ;
            }
            q2 * mul
        } else if f <= -25 {
            0
        } else {
            let s: u64 = (-f) as u64;
            let dd = pot_u64(s);
            let hh = pot_u64(s - 1);
            let num: u64 = q2 + hh;
            let res: u64 = num / dd;
            proof {
                assert(res <= num) by (nonlinear_arith)
                    requires
                        res == num / dd,
                        dd >= 1,
                        num >= 0,
                ;
            }
            res
        };
        assert(mag <= 0x8000_0000);
        let magsat: u64 = if sign == 0 && mag > 0x7FFF_FFFF {
            0x7FFF_FFFF
        } else {
            mag
        };
        if sign == 1 {
            let neg: i64 = -(magsat as i64);
            neg as i32
        } else {
            magsat as i32
        }
    }
}

/// The welding key of a raw position given as three f32 bit patterns.
pub fn make_key(x: u32, y: u32, z: u32) -> (k: VKey)
    ensures
        vkey3(k) == key3(x, y, z),
{
    VKey { x: quantize(x), y: quantize(y), z: quantize(z) }
}

} // verus!
