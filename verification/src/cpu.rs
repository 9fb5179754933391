//! CPU load readings.
//!
//! The operating system reports the load as a single-precision binary
//! floating-point number. A reading is held here by its bit pattern, and
//! everything that is said of its value is said of the exact ratio of two
//! natural numbers that the pattern denotes.

use vstd::prelude::*;
use vstd::arithmetic::power2::{lemma2_to64, lemma_pow2_pos, lemma_pow2_strictly_increases, lemma_pow2_unfold, pow2};
use crate::rounding::{
    is_nearest_even, lemma_round_half_even_bounded, lemma_round_half_even_nearest, round_half_even,
    round_ratio,
};

verus! {

/// The sign of the pattern: 1 for a negative number.
pub open spec fn sign_bit(bits: u32) -> nat {
    (bits / 0x8000_0000) as nat
}

/// The eight bits that hold the biased exponent.
pub open spec fn exponent_field(bits: u32) -> nat {
    ((bits / 0x80_0000) % 0x100) as nat
}

/// The twenty-three bits that hold the fraction.
pub open spec fn fraction_field(bits: u32) -> nat {
    (bits % 0x80_0000) as nat
}

/// Whether the pattern denotes a number, and not an infinity or a NaN.
pub open spec fn is_finite(bits: u32) -> bool {
    exponent_field(bits) != 255
}

/// The significand as a natural number: the fraction, with the implicit
/// leading bit in front of it unless the number is subnormal.
pub open spec fn significand(bits: u32) -> nat {
    if exponent_field(bits) == 0 {
        fraction_field(bits)
    } else {
        0x80_0000 + fraction_field(bits)
    }
}

/// The power of two by which the significand is scaled: the magnitude of the
/// number is `significand * 2^scale`.
pub open spec fn scale(bits: u32) -> int {
    if exponent_field(bits) == 0 {
        -149
    } else {
        exponent_field(bits) - 150
    }
}

/// Numerator of the magnitude, written as a ratio of natural numbers.
pub open spec fn numerator(bits: u32) -> nat {
    if scale(bits) >= 0 {
        significand(bits) * pow2(scale(bits) as nat)
    } else {
        significand(bits)
    }
}

/// Denominator of the magnitude: a power of two.
pub open spec fn denominator(bits: u32) -> nat {
    if scale(bits) >= 0 {
        1
    } else {
        pow2((-scale(bits)) as nat)
    }
}

/// Whether the pattern denotes a percentage: a number from 0 to 100. Both
/// zeros count, the negative one too.
pub open spec fn is_percentage(bits: u32) -> bool {
    &&& is_finite(bits)
    &&& sign_bit(bits) == 0 || significand(bits) == 0
    &&& numerator(bits) <= 100 * denominator(bits)
}

/// The percentage rounded to a whole number, ties to even.
pub open spec fn whole_percent(bits: u32) -> nat {
    round_half_even(numerator(bits), denominator(bits))
}

/// The patterns that denote a percentage, told by their fields: the sign is
/// clear or the number is zero, and the magnitude is at most that of the
/// pattern of 100, whose exponent field is 133 and whose fraction field is
/// `0x48_0000`.
pub proof fn lemma_percentage_fields(bits: u32)
    ensures
        is_percentage(bits) <==> {
            &&& sign_bit(bits) == 0 || (exponent_field(bits) == 0 && fraction_field(bits) == 0)
            &&& exponent_field(bits) <= 132 || (exponent_field(bits) == 133 && fraction_field(bits)
                <= 0x48_0000)
        },
{
    let e = exponent_field(bits);
    let f = fraction_field(bits);
    lemma2_to64();
    if e == 0 {
        lemma_pow2_strictly_increases(24, 149);
    } else if e <= 132 {
        if e < 132 {
            lemma_pow2_strictly_increases(18, (150 - e) as nat);
        }
    } else if e == 133 {
    } else if e < 150 {
        if e > 134 {
            lemma_pow2_strictly_increases((150 - e) as nat, 16);
        }
        lemma_pow2_pos((150 - e) as nat);
    } else {
        lemma_pow2_pos((e - 150) as nat);
        assert(significand(bits) * pow2((e - 150) as nat) >= significand(bits))
            by (nonlinear_arith)
            requires
                pow2((e - 150) as nat) >= 1,
        ;
    }
}

/// The denominator of a magnitude is never zero.
pub proof fn lemma_denominator_positive(bits: u32)
    ensures
        denominator(bits) > 0,
{
    if scale(bits) < 0 {
        lemma_pow2_pos((-scale(bits)) as nat);
    }
}

/// The whole percent of a percentage is the integer nearest to it, the even
/// one where two are equally near, and it is at most 100.
pub proof fn lemma_whole_percent_nearest(bits: u32)
    requires
        is_percentage(bits),
    ensures
        is_nearest_even(whole_percent(bits), numerator(bits), denominator(bits)),
        whole_percent(bits) <= 100,
{
    lemma_denominator_positive(bits);
    lemma_round_half_even_nearest(numerator(bits), denominator(bits));
    lemma_round_half_even_bounded(numerator(bits), denominator(bits), 100);
}

/// Two to the power `k`.
fn power_of_two(k: u32) -> (p: u32)
    requires
        k < 32,
    ensures
        p == pow2(k as nat),
{
    let mut p: u32 = 1;
    let mut i: u32 = 0;
    proof {
        lemma2_to64();
    }
    while i < k
        invariant
            i <= k < 32,
            p == pow2(i as nat),
        decreases k - i,
    {
        proof {
            lemma_pow2_unfold((i + 1) as nat);
            if i + 1 < 31 {
                lemma_pow2_strictly_increases((i + 1) as nat, 31);
            }
            lemma2_to64();
        }
        p = p * 2;
        i = i + 1;
    }
    p
}

/// A CPU load: a reading that denotes a percentage.
#[derive(Clone, Copy, Debug, PartialEq, Eq)]
pub struct CpuUsage {
    bits: u32,
}

impl CpuUsage {
    /// The bit pattern of the reading.
    pub closed spec fn spec_bits(self) -> u32 {
        self.bits
    }

    /// Every reading that is held denotes a percentage.
    #[verifier::type_invariant]
    pub open spec fn well_formed(self) -> bool {
        is_percentage(self.spec_bits())
    }

    /// Accepts the bit pattern of a reading if it denotes a percentage.
    pub fn from_bits(bits: u32) -> (usage: Option<CpuUsage>)
        ensures
            usage is Some <==> is_percentage(bits),
            usage matches Some(u) ==> u.spec_bits() == bits,
    {
        let negative = bits / 0x8000_0000 == 1;
        let e = (bits / 0x80_0000) % 0x100;
        let f = bits % 0x80_0000;
        proof {
            lemma_percentage_fields(bits);
        }
        if negative && !(e == 0 && f == 0) {
            None
        } else if e <= 132 || (e == 133 && f <= 0x48_0000) {
            Some(CpuUsage { bits })
        } else {
            None
        }
    }

    /// The bit pattern of the reading.
    #[verifier::when_used_as_spec(spec_bits)]
    pub fn bits(self) -> (bits: u32)
        ensures
            bits == self.spec_bits(),
            is_percentage(bits),
    {
        proof {
            use_type_invariant(self);
        }
        self.bits
    }

    /// The load rounded to a whole percent, ties to even.
    pub fn percent(self) -> (p: u8)
        ensures
            p == whole_percent(self.spec_bits()),
            p <= 100,
    {
        proof {
            use_type_invariant(self);
            lemma_whole_percent_nearest(self.bits);
            lemma_percentage_fields(self.bits);
            lemma2_to64();
        }
        let e = (self.bits / 0x80_0000) % 0x100;
        let f = self.bits % 0x80_0000;
        if e <= 125 {
            proof {
                let num = numerator(self.bits);
                let den = denominator(self.bits);
                if e == 0 {
                    lemma_pow2_strictly_increases(25, 149);
                } else if e < 125 {
                    lemma_pow2_strictly_increases(25, (150 - e) as nat);
                }
                assert(2 * num < den);
                assert(num / den == 0 && num % den == num) by (nonlinear_arith)
                    requires
                        0 <= num < den,
                ;
            }
            0
        } else {
            let den = power_of_two(150 - e);
            let sig = 0x80_0000 + f;
            let r = round_ratio(sig as u128, den as u128);
            r as u8
        }
    }
}

} // verus!
