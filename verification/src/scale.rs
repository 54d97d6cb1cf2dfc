//! Device scale factors, and lengths scaled by them as single-precision arithmetic
//! scales them, in integers.
//!
//! A window system reports its scale factor as a single-precision number. Every such
//! number that can serve as a scale factor (positive and normal) is exactly
//! `significand * 2^exponent` for a 24-bit significand, and the factor is kept in that
//! form. A length is scaled as the product of two single-precision numbers is formed
//! and turned into a whole number: the length is taken in single precision, the
//! product is rounded to single precision, to the nearest number and of two equally
//! near ones to the even one, and what comes out is cut off to a whole pixel and
//! capped at the largest `u32`. Ten times the single-precision number nearest to 0.7
//! is therefore 7, as it is in single precision, though that number is a little less
//! than 0.7.

use vstd::prelude::*;
use vstd::arithmetic::power2::{
    pow2, lemma_pow2_adds, lemma_pow2_pos, lemma_pow2_unfold, lemma_pow2_strictly_increases,
    lemma2_to64, lemma2_to64_rest,
};
use vstd::arithmetic::div_mod::{
    lemma_basic_div, lemma_div_by_multiple, lemma_div_denominator, lemma_fundamental_div_mod,
    lemma_mod_multiples_basic,
};

verus! {

/// Weight of the implicit leading bit of a normal single-precision significand.
pub const HIDDEN_BIT: u32 = 0x80_0000;

/// What is subtracted from a biased exponent field to weigh an integer significand.
pub const EXPONENT_OFFSET: i32 = 150;

/// How many of the low bits of `n` a significand of 24 bits has no room for.
pub open spec fn excess_bits(n: nat) -> nat
    decreases n,
{
    if n < 0x100_0000 {
        0
    } else {
        1 + excess_bits(n / 2)
    }
}

/// `n` rounded to a multiple of `2^bits`: to the nearest one, and of two that are
/// equally near to the even one.
pub open spec fn round_half_even(n: nat, bits: nat) -> nat {
    let unit = pow2(bits);
    let quotient = n / unit;
    let rest = n % unit;
    if 2 * rest < unit || (2 * rest == unit && quotient % 2 == 0) {
        quotient * unit
    } else {
        (quotient + 1) * unit
    }
}

/// The whole number that `n` becomes when it is taken in single precision: `n` itself
/// where 24 bits hold it, and else `n` rounded to the 24 bits that lead it.
pub open spec fn to_single(n: nat) -> nat {
    round_half_even(n, excess_bits(n))
}

/// The mathematical value of a scale factor: `significand * 2^exponent`.
pub struct Dyadic {
    pub significand: nat,
    pub exponent: int,
}

impl Dyadic {
    /// A normalised 24-bit significand and an exponent in the single-precision range.
    pub open spec fn wf(self) -> bool {
        &&& 0x80_0000 <= self.significand < 0x100_0000
        &&& -149 <= self.exponent <= 104
    }

    /// The significand of the single-precision product of `len` and the factor, as a
    /// whole number: the product itself is this number times `2^exponent`.
    pub open spec fn rounded(self, len: nat) -> nat {
        to_single(to_single(len) * self.significand)
    }

    /// The single-precision product of `len` and the factor, cut off to a whole number.
    pub open spec fn product(self, len: nat) -> nat {
        if self.exponent >= 0 {
            self.rounded(len) * pow2(self.exponent as nat)
        } else {
            self.rounded(len) / pow2((-self.exponent) as nat)
        }
    }

    /// `len` times the factor in device pixels: cut off to a whole number that is at
    /// most `u32::MAX`.
    pub open spec fn scaled(self, len: nat) -> nat {
        if self.product(len) > u32::MAX {
            u32::MAX as nat
        } else {
            self.product(len)
        }
    }

    /// The factor one.
    pub open spec fn unit() -> Dyadic {
        Dyadic { significand: 0x80_0000, exponent: -23 }
    }
}

/// The sign bit of a single-precision bit pattern.
pub open spec fn sign_field(bits: u32) -> int {
    bits as int / 0x8000_0000
}

/// The biased exponent field of a single-precision bit pattern.
pub open spec fn exponent_field(bits: u32) -> int {
    (bits as int / 0x80_0000) % 0x100
}

/// The fraction field of a single-precision bit pattern.
pub open spec fn fraction_field(bits: u32) -> int {
    bits as int % 0x80_0000
}

/// The patterns that stand for a usable scale factor: positive and normal, which
/// leaves out zero, subnormal numbers, infinities and NaN.
pub open spec fn is_scale_bits(bits: u32) -> bool {
    &&& sign_field(bits) == 0
    &&& 1 <= exponent_field(bits) <= 254
}

/// The value that a positive normal bit pattern stands for.
pub open spec fn decode(bits: u32) -> Dyadic {
    Dyadic {
        significand: (0x80_0000 + fraction_field(bits)) as nat,
        exponent: exponent_field(bits) - 150,
    }
}

/// A device scale factor: how many device pixels make one logical pixel.
#[derive(Clone, Copy, Debug, PartialEq, Eq, Structural)]
pub struct ScaleFactor {
    significand: u32,
    exponent: i32,
}

impl View for ScaleFactor {
    type V = Dyadic;

    closed spec fn view(&self) -> Dyadic {
        Dyadic { significand: self.significand as nat, exponent: self.exponent as int }
    }
}

impl ScaleFactor {
    /// Holds of every value that executable code can get hold of.
    #[verifier::type_invariant]
    pub open spec fn wf(self) -> bool {
        self@.wf()
    }

    /// The factor one: device pixels and logical pixels coincide.
    pub fn one() -> (s: ScaleFactor)
        ensures
            s@ == Dyadic::unit(),
    {
        ScaleFactor { significand: HIDDEN_BIT, exponent: -23 }
    }

    /// Reads a factor from the bit pattern of a single-precision number. Patterns of
    /// numbers that are not positive and normal are turned down.
    pub fn from_bits(bits: u32) -> (r: Option<ScaleFactor>)
        ensures
            r.is_some() <==> is_scale_bits(bits),
            r.is_some() ==> r.unwrap()@ == decode(bits) && r.unwrap()@.wf(),
    {
        let sign: u32 = bits / 0x8000_0000;
        let field: u32 = (bits / HIDDEN_BIT) % 0x100;
        let fraction: u32 = bits % HIDDEN_BIT;
        if sign != 0 || field == 0 || field == 255 {
            None
        } else {
            Some(
                ScaleFactor {
                    significand: HIDDEN_BIT + fraction,
                    exponent: field as i32 - EXPONENT_OFFSET,
                },
            )
        }
    }

    /// Reads a factor as `from_bits` does, and hands back `fallback` for a pattern that
    /// stands for no scale factor.
    pub fn from_bits_or(bits: u32, fallback: ScaleFactor) -> (s: ScaleFactor)
        ensures
            s@ == (if is_scale_bits(bits) {
                decode(bits)
            } else {
                fallback@
            }),
    {
        match ScaleFactor::from_bits(bits) {
            Some(s) => s,
            None => fallback,
        }
    }

    /// The bit pattern of the single-precision number that equals this factor.
    pub fn to_bits(&self) -> (bits: u32)
        ensures
            is_scale_bits(bits),
            decode(bits) == self@,
    {
        proof {
            use_type_invariant(self);
        }
        let field: u32 = (self.exponent + EXPONENT_OFFSET) as u32;
        let fraction: u32 = self.significand - HIDDEN_BIT;
        let bits: u32 = field * HIDDEN_BIT + fraction;
        assert(bits as int / 0x80_0000 == field && bits as int % 0x80_0000 == fraction);
        assert(bits as int / 0x8000_0000 == 0);
        bits
    }

    /// Scales a logical length to device pixels.
    pub fn scale(&self, len: u32) -> (r: u32)
        ensures
            r == self@.scaled(len as nat),
    {
        proof {
            use_type_invariant(self);
            lemma2_to64();
            lemma2_to64_rest();
        }
        let length: u64 = single(len as u64);
        assert(length * self.significand <= 0x2_0000_0000 * 0xFF_FFFF) by (nonlinear_arith)
            requires
                length <= 0x2_0000_0000,
                self.significand <= 0xFF_FFFF,
        ;
        let weighted: u64 = single(length * (self.significand as u64));
        assert(weighted == self@.rounded(len as nat));
        if self.exponent >= 0 {
            if weighted == 0 {
                assert(self@.product(len as nat) == 0) by (nonlinear_arith)
                    requires
                        self@.rounded(len as nat) == 0,
                        self@.product(len as nat) == self@.rounded(len as nat) * pow2(
                            self.exponent as nat,
                        ),
                ;
                0
            } else if self.exponent >= 32 {
                proof {
                    let p = pow2(self.exponent as nat);
                    if self.exponent > 32 {
                        lemma_pow2_strictly_increases(32, self.exponent as nat);
                    }
                    assert(weighted * p >= p) by (nonlinear_arith)
                        requires
                            weighted >= 1,
                            p >= 0,
                    ;
                }
                u32::MAX
            } else {
                let factor: u64 = power_of_two(self.exponent as u32);
                proof {
                    if self.exponent < 31 {
                        lemma_pow2_strictly_increases(self.exponent as nat, 31);
                    }
                    assert(weighted * factor <= 0x400_0000_0000_0000 * 0x8000_0000)
                        by (nonlinear_arith)
                        requires
                            weighted <= 0x400_0000_0000_0000,
                            factor <= 0x8000_0000,
                    ;
                }
                let wide: u128 = (weighted as u128) * (factor as u128);
                if wide > 0xFFFF_FFFF {
                    u32::MAX
                } else {
                    wide as u32
                }
            }
        } else {
            let shift: u32 = (-self.exponent) as u32;
            if shift >= 59 {
                proof {
                    if shift > 59 {
                        lemma_pow2_strictly_increases(59, shift as nat);
                    }
                    lemma_basic_div(weighted as int, pow2(shift as nat) as int);
                }
                0
            } else {
                let divisor: u64 = power_of_two(shift);
                proof {
                    lemma_pow2_pos(shift as nat);
                }
                let quotient: u64 = weighted / divisor;
                if quotient > 0xFFFF_FFFF {
                    u32::MAX
                } else {
                    quotient as u32
                }
            }
        }
    }
}

/// Takes a whole number in single precision.
fn single(n: u64) -> (r: u64)
    requires
        n <= 0x200_0000_0000_0000,
    ensures
        r == to_single(n as nat),
        r <= 2 * n,
{
    let mut unit: u64 = 1;
    let ghost mut bits: nat = 0;
    proof {
        lemma2_to64();
    }
    while n / unit >= 0x100_0000
        invariant
            n <= 0x200_0000_0000_0000,
            unit == pow2(bits),
            1 <= unit <= 0x4_0000_0000,
            unit == 1 || n / unit >= 0x80_0000,
            excess_bits(n as nat) == bits + excess_bits((n / unit) as nat),
        decreases n / unit,
    {
        proof {
            lemma_fundamental_div_mod(n as int, unit as int);
            assert(unit * 0x100_0000 <= n) by (nonlinear_arith)
                requires
                    n / unit >= 0x100_0000,
                    n == unit * (n / unit) + n % unit,
                    n % unit >= 0,
                    unit >= 1,
            ;
            lemma_div_denominator(n as int, unit as int, 2);
            lemma_pow2_unfold(bits + 1);
            assert(excess_bits((n / unit) as nat) == 1 + excess_bits(((n / unit) / 2) as nat));
            bits = bits + 1;
        }
        unit = unit * 2;
    }
    let quotient: u64 = n / unit;
    let rest: u64 = n % unit;
    proof {
        lemma_fundamental_div_mod(n as int, unit as int);
        assert(quotient * unit <= n) by (nonlinear_arith)
            requires
                n == unit * quotient + rest,
                rest >= 0,
        ;
        assert(quotient >= 1 ==> unit <= quotient * unit) by (nonlinear_arith)
            requires
                unit >= 0,
        ;
        assert((quotient + 1) * unit == quotient * unit + unit) by (nonlinear_arith);
    }
    if 2 * rest < unit || (2 * rest == unit && quotient % 2 == 0) {
        quotient * unit
    } else {
        (quotient + 1) * unit
    }
}

/// `2^n` for an exponent that a `u64` can hold.
fn power_of_two(n: u32) -> (r: u64)
    requires
        n < 64,
    ensures
        r == pow2(n as nat),
{
    let mut r: u64 = 1;
    let mut i: u32 = 0;
    proof {
        lemma2_to64();
        lemma2_to64_rest();
    }
    while i < n
        invariant
            i <= n,
            n < 64,
            r == pow2(i as nat),
            pow2(64) == 0x1_0000_0000_0000_0000,
        decreases n - i,
    {
        proof {
            lemma_pow2_unfold((i + 1) as nat);
            lemma_pow2_strictly_increases((i + 1) as nat, 64);
        }
        r = r * 2;
        i = i + 1;
    }
    r
}

/// A number below `2^(24 + k)` has at most `k` bits too many for a significand.
proof fn lemma_excess_bits_bound(n: nat, k: nat)
    requires
        n < 0x100_0000 * pow2(k),
    ensures
        excess_bits(n) <= k,
    decreases k,
{
    lemma2_to64();
    if n >= 0x100_0000 && k > 0 {
        lemma_pow2_unfold(k);
        assert(n / 2 < 0x100_0000 * pow2((k - 1) as nat)) by (nonlinear_arith)
            requires
                n < 0x100_0000 * (2 * pow2((k - 1) as nat)),
        ;
        lemma_excess_bits_bound(n / 2, (k - 1) as nat);
    }
}

/// A factor that is a power of two scales a length that single precision holds
/// without any rounding: the product's significand is the length itself, weighed by
/// the leading bit. Under the factor one such a length stays as it is.
pub proof fn lemma_power_of_two_factor_is_exact(s: Dyadic, len: nat)
    requires
        s.significand == 0x80_0000,
        len < 0x100_0000,
    ensures
        s.rounded(len) == len * 0x80_0000,
        Dyadic::unit().product(len) == len,
        Dyadic::unit().scaled(len) == len,
{
    lemma2_to64();
    // The length is held as it is.
    assert(excess_bits(len) == 0);
    assert(to_single(len) == len);
    // Its product with the leading bit has at most 23 bits too many, all of them zero.
    let n = len * 0x80_0000;
    assert(n < 0x100_0000 * pow2(23)) by (nonlinear_arith)
        requires
            n == len * 0x80_0000,
            len < 0x100_0000,
            pow2(23) == 0x80_0000,
    ;
    lemma_excess_bits_bound(n, 23);
    let bits = excess_bits(n);
    let unit = pow2(bits);
    let rest = pow2((23 - bits) as nat);
    lemma_pow2_pos(bits);
    lemma_pow2_adds((23 - bits) as nat, bits);
    assert(n == (len * rest) * unit) by (nonlinear_arith)
        requires
            n == len * 0x80_0000,
            0x80_0000 == rest * unit,
    ;
    lemma_mod_multiples_basic((len * rest) as int, unit as int);
    lemma_div_by_multiple((len * rest) as int, unit as int);
    assert(to_single(n) == n);
    // Under the factor one the leading bit is taken off again.
    lemma_div_by_multiple(len as int, 0x80_0000);
    assert(Dyadic::unit().rounded(len) == len * 0x80_0000);
    assert(Dyadic::unit().product(len) == len);
}

} // verus!
