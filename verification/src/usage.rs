//! CPU usage percentages and the order in which they rank.
//!
//! A usage value is carried as the bit pattern of an IEEE 754 single-precision
//! number, so it passes through a snapshot unchanged. Ranking works on the
//! pattern alone: the sign bit and the 31 magnitude bits.

use vstd::prelude::*;
use vstd::arithmetic::power2::{lemma_pow2_pos, lemma_pow2_strictly_increases, lemma_pow2_unfold, pow2};

verus! {

/// How many fraction patterns one exponent has: two to the 23rd.
pub const FRACTION_SPAN: u32 = 0x80_0000;

/// The sign bit of a single-precision pattern.
pub const SIGN_BIT: u32 = 0x8000_0000;

/// The magnitude bits of an infinity: all exponent bits set, no fraction bit.
pub const INFINITY_MAGNITUDE: u32 = 0x7f80_0000;

/// A CPU usage percentage, held as a single-precision bit pattern.
#[derive(Clone, Copy, Debug, PartialEq, Eq, Structural)]
pub struct CpuUsage {
    pub bits: u32,
}

impl CpuUsage {
    /// Whether the sign bit is set.
    pub open spec fn negative(self) -> bool {
        self.bits >= SIGN_BIT
    }

    /// The pattern without its sign bit: exponent and fraction.
    pub open spec fn magnitude(self) -> int {
        if self.bits >= SIGN_BIT {
            self.bits - SIGN_BIT
        } else {
            self.bits as int
        }
    }

    /// Whether the pattern is a finite number: magnitude short of infinity's.
    pub open spec fn is_finite(self) -> bool {
        self.magnitude() < INFINITY_MAGNITUDE
    }

    /// The finite number that the pattern stands for, in units of two to the
    /// minus 149th, the smallest step of single precision.
    pub open spec fn scaled_value(self) -> int
        recommends
            self.is_finite(),
    {
        if self.negative() {
            -scaled_magnitude(self.magnitude())
        } else {
            scaled_magnitude(self.magnitude())
        }
    }

    /// Whether the pattern is a NaN: magnitude beyond that of infinity.
    pub open spec fn is_nan(self) -> bool {
        self.magnitude() > INFINITY_MAGNITUDE
    }

    /// The rank given to every NaN: one below the rank of negative infinity.
    pub open spec fn nan_rank() -> int {
        -(INFINITY_MAGNITUDE as int) - 2
    }

    /// The position of this usage in the total order used for ranking.
    ///
    /// Every NaN ranks below every number. Among numbers a negative one ranks
    /// below a non-negative one, negative zero ranks directly below positive
    /// zero, and a larger magnitude ranks further from zero.
    pub open spec fn rank(self) -> int {
        if self.is_nan() {
            Self::nan_rank()
        } else if self.negative() {
            -self.magnitude() - 1
        } else {
            self.magnitude()
        }
    }

    /// Wraps a single-precision bit pattern.
    pub fn from_bits(bits: u32) -> (usage: CpuUsage)
        ensures
            usage.bits == bits,
    {
        CpuUsage { bits }
    }

    /// The single-precision bit pattern.
    pub fn to_bits(self) -> (bits: u32)
        ensures
            bits == self.bits,
    {
        self.bits
    }

    /// Whether this usage is a NaN.
    pub fn not_a_number(self) -> (nan: bool)
        ensures
            nan == self.is_nan(),
    {
        let magnitude: u32 = if self.bits >= SIGN_BIT {
            self.bits - SIGN_BIT
        } else {
            self.bits
        };
        magnitude > INFINITY_MAGNITUDE
    }

    /// Computes the rank of this usage.
    pub fn rank_key(self) -> (key: i64)
        ensures
            key == self.rank(),
    {
        let negative: bool = self.bits >= SIGN_BIT;
        let magnitude: u32 = if negative {
            self.bits - SIGN_BIT
        } else {
            self.bits
        };
        if magnitude > INFINITY_MAGNITUDE {
            -2139095042i64
        } else if negative {
            -(magnitude as i64) - 1
        } else {
            magnitude as i64
        }
    }

    /// Whether this usage ranks at least as high as `other`.
    pub fn ranks_at_least(self, other: CpuUsage) -> (holds: bool)
        ensures
            holds == (self.rank() >= other.rank()),
    {
        self.rank_key() >= other.rank_key()
    }
}

/// The absolute value behind the magnitude bits of a finite number, in units
/// of two to the minus 149th. With exponent bits zero it is the fraction bits;
/// otherwise the fraction with its leading one, doubled once for every
/// exponent step above the first.
pub open spec fn scaled_magnitude(magnitude: int) -> int {
    let exponent = magnitude / (FRACTION_SPAN as int);
    let fraction = magnitude % (FRACTION_SPAN as int);
    if exponent == 0 {
        fraction
    } else {
        (FRACTION_SPAN + fraction) * pow2((exponent - 1) as nat)
    }
}

/// Larger magnitude bits stand for a larger absolute value.
pub proof fn lemma_scaled_magnitude_increases(low: int, high: int)
    requires
        0 <= low < high,
    ensures
        0 <= scaled_magnitude(low) < scaled_magnitude(high),
{
    let span = FRACTION_SPAN as int;
    let low_exponent = low / span;
    let low_fraction = low % span;
    let high_exponent = high / span;
    let high_fraction = high % span;
    assert(0 <= low_exponent <= high_exponent);
    if low_exponent == 0 {
        if high_exponent != 0 {
            let high_power = pow2((high_exponent - 1) as nat) as int;
            lemma_pow2_pos((high_exponent - 1) as nat);
            assert(span <= (span + high_fraction) * high_power) by (nonlinear_arith)
                requires
                    high_power >= 1,
                    high_fraction >= 0,
                    span > 0,
            ;
        }
    } else {
        let low_power = pow2((low_exponent - 1) as nat) as int;
        let high_power = pow2((high_exponent - 1) as nat) as int;
        lemma_pow2_pos((low_exponent - 1) as nat);
        if low_exponent == high_exponent {
            assert((span + low_fraction) * low_power < (span + high_fraction) * low_power)
                by (nonlinear_arith)
                requires
                    low_fraction < high_fraction,
                    low_power >= 1,
            ;
        } else {
            lemma_pow2_unfold(low_exponent as nat);
            if low_exponent < high_exponent - 1 {
                lemma_pow2_strictly_increases(low_exponent as nat, (high_exponent - 1) as nat);
            }
            assert(2 * low_power <= high_power);
            assert((span + low_fraction) * low_power < (span + high_fraction) * high_power)
                by (nonlinear_arith)
                requires
                    0 <= low_fraction < span,
                    0 <= high_fraction,
                    low_power >= 1,
                    2 * low_power <= high_power,
            ;
        }
        assert(0 <= (span + low_fraction) * low_power) by (nonlinear_arith)
            requires
                0 <= low_fraction,
                span > 0,
                low_power >= 1,
        ;
    }
}

/// Among finite usages the rank follows the number: a larger number ranks
/// higher, and a usage that ranks at least as high as another is at least as
/// large. Only the two zeros are equal as numbers and apart in rank.
pub proof fn lemma_rank_follows_value(a: CpuUsage, b: CpuUsage)
    requires
        a.is_finite(),
        b.is_finite(),
    ensures
        a.scaled_value() < b.scaled_value() ==> a.rank() < b.rank(),
        a.rank() >= b.rank() ==> a.scaled_value() >= b.scaled_value(),
        a.scaled_value() == b.scaled_value() && a.rank() != b.rank() ==> a.magnitude() == 0
            && b.magnitude() == 0,
{
    let a_bits = a.magnitude();
    let b_bits = b.magnitude();
    if a_bits < b_bits {
        lemma_scaled_magnitude_increases(a_bits, b_bits);
    } else if b_bits < a_bits {
        lemma_scaled_magnitude_increases(b_bits, a_bits);
    }
    if a_bits > 0 {
        lemma_scaled_magnitude_increases(0, a_bits);
    }
    if b_bits > 0 {
        lemma_scaled_magnitude_increases(0, b_bits);
    }
    assert(scaled_magnitude(0) == 0);
}

/// The rank orders all usages: equal ranks mean the same pattern, or two NaNs.
pub proof fn lemma_rank_tells_apart(a: CpuUsage, b: CpuUsage)
    ensures
        a.rank() == b.rank() <==> a == b || (a.is_nan() && b.is_nan()),
{
}

/// A NaN ranks below every number, the infinities included, and level with
/// every other NaN.
pub proof fn lemma_nan_ranks_lowest(nan: CpuUsage, other: CpuUsage)
    requires
        nan.is_nan(),
    ensures
        !other.is_nan() ==> nan.rank() < other.rank(),
        other.is_nan() ==> nan.rank() == other.rank(),
{
}

/// Positive infinity ranks above every finite usage and negative infinity
/// below.
pub proof fn lemma_infinities_rank_outermost(finite: CpuUsage)
    requires
        finite.is_finite(),
    ensures
        finite.rank() < (CpuUsage { bits: INFINITY_MAGNITUDE }).rank(),
        (CpuUsage { bits: 0xff80_0000 }).rank() < finite.rank(),
{
}

} // verus!
