//! In-game time, possibly infinite durations, and non-negative scaling factors.

use vstd::prelude::*;

verus! {

/// A point in a game's internal timeline, in nanoseconds since the game began.
pub type InGameTime = u64;

/// One millisecond, in nanoseconds.
pub const MILLISECOND: u64 = 1_000_000;

/// The denominator of [`Factor`]'s fixed-point representation.
pub const FACTOR_SCALE: u64 = 1_000_000;

/// A duration in nanoseconds that may also be infinite.
#[derive(PartialEq, Eq, Structural, Clone, Copy, Debug, Hash)]
pub enum ExtDuration {
    /// A finite number of nanoseconds.
    Finite(u64),
    /// A duration longer than any finite one.
    Infinite,
}

/// A non-negative scaling factor, in millionths (`FACTOR_SCALE` is `1.0`).
#[derive(PartialEq, Eq, Structural, Clone, Copy, Debug, Hash)]
pub struct Factor {
    pub millionths: u64,
}

/// `a <= b` on extended durations (every finite duration is below `Infinite`).
pub open spec fn ext_le(a: ExtDuration, b: ExtDuration) -> bool {
    match (a, b) {
        (_, ExtDuration::Infinite) => true,
        (ExtDuration::Infinite, ExtDuration::Finite(_)) => false,
        (ExtDuration::Finite(x), ExtDuration::Finite(y)) => x <= y,
    }
}

/// The smaller of two extended durations.
pub open spec fn ext_min(a: ExtDuration, b: ExtDuration) -> ExtDuration {
    if ext_le(a, b) {
        a
    } else {
        b
    }
}

/// The larger of two extended durations.
pub open spec fn ext_max(a: ExtDuration, b: ExtDuration) -> ExtDuration {
    if ext_le(a, b) {
        b
    } else {
        a
    }
}

/// The duration in nanoseconds, with `Infinite` saturating to `u64::MAX`.
pub open spec fn saturated(d: ExtDuration) -> u64 {
    match d {
        ExtDuration::Finite(x) => x,
        ExtDuration::Infinite => u64::MAX,
    }
}

/// A finite value, or `Infinite` when it does not fit in `u64` nanoseconds.
pub open spec fn ext_of(v: int) -> ExtDuration {
    if v <= u64::MAX {
        ExtDuration::Finite(v as u64)
    } else {
        ExtDuration::Infinite
    }
}

/// The duration scaled by a factor, rounded down to whole nanoseconds.
/// An infinite duration stays infinite unless scaled by zero.
pub open spec fn ext_scaled(d: ExtDuration, f: Factor) -> ExtDuration {
    match d {
        ExtDuration::Finite(x) => ext_of(x * f.millionths / FACTOR_SCALE as int),
        ExtDuration::Infinite => if f.millionths == 0 {
            ExtDuration::Finite(0)
        } else {
            ExtDuration::Infinite
        },
    }
}

/// The duration divided by a factor, rounded down. Dividing a non-zero duration
/// by zero gives `Infinite`.
pub open spec fn ext_divided(d: ExtDuration, f: Factor) -> ExtDuration {
    match d {
        ExtDuration::Finite(x) => if x == 0 {
            ExtDuration::Finite(0)
        } else if f.millionths == 0 {
            ExtDuration::Infinite
        } else {
            ext_of(x * FACTOR_SCALE as int / f.millionths as int)
        },
        ExtDuration::Infinite => ExtDuration::Infinite,
    }
}

/// The duration multiplied by a count.
pub open spec fn ext_times(d: ExtDuration, n: nat) -> ExtDuration {
    match d {
        ExtDuration::Finite(x) => ext_of(x * n),
        ExtDuration::Infinite => if n == 0 {
            ExtDuration::Finite(0)
        } else {
            ExtDuration::Infinite
        },
    }
}

/// `a - b`, saturating at zero; an infinite minuend stays infinite unless the
/// subtrahend is infinite too.
pub open spec fn ext_minus(a: ExtDuration, b: ExtDuration) -> ExtDuration {
    match (a, b) {
        (_, ExtDuration::Infinite) => ExtDuration::Finite(0),
        (ExtDuration::Infinite, ExtDuration::Finite(_)) => ExtDuration::Infinite,
        (ExtDuration::Finite(x), ExtDuration::Finite(y)) => if x >= y {
            ExtDuration::Finite((x - y) as u64)
        } else {
            ExtDuration::Finite(0)
        },
    }
}

/// The product of two `u64` values fits in a `u128`.
proof fn lemma_u64_product_fits(a: u64, b: u64)
    ensures
        0 <= a * b <= u128::MAX,
{
    assert(0 <= a * b <= (u64::MAX as int) * (u64::MAX as int)) by (nonlinear_arith)
        requires
            0 <= a <= u64::MAX,
            0 <= b <= u64::MAX,
    ;
}

/// Converts a possibly huge product back into an extended duration.
fn ext_from_u128(v: u128) -> (r: ExtDuration)
    ensures
        r == ext_of(v as int),
{
    if v <= u64::MAX as u128 {
        ExtDuration::Finite(v as u64)
    } else {
        ExtDuration::Infinite
    }
}

impl ExtDuration {
    /// The zero duration.
    pub fn zero() -> (r: ExtDuration)
        ensures
            r == ExtDuration::Finite(0),
    {
        ExtDuration::Finite(0)
    }

    /// A finite duration of the given number of milliseconds.
    pub fn from_millis(ms: u32) -> (r: ExtDuration)
        ensures
            r == ExtDuration::Finite((ms * MILLISECOND) as u64),
    {
        ExtDuration::Finite(ms as u64 * MILLISECOND)
    }

    /// Whether the duration is zero.
    pub fn is_zero(&self) -> (r: bool)
        ensures
            r == (*self == ExtDuration::Finite(0)),
    {
        match self {
            ExtDuration::Finite(x) => *x == 0,
            ExtDuration::Infinite => false,
        }
    }

    /// `self <= other`.
    pub fn le(&self, other: &ExtDuration) -> (r: bool)
        ensures
            r == ext_le(*self, *other),
    {
        match (self, other) {
            (_, ExtDuration::Infinite) => true,
            (ExtDuration::Infinite, ExtDuration::Finite(_)) => false,
            (ExtDuration::Finite(x), ExtDuration::Finite(y)) => *x <= *y,
        }
    }

    /// The smaller of two durations.
    pub fn min(self, other: ExtDuration) -> (r: ExtDuration)
        ensures
            r == ext_min(self, other),
    {
        if self.le(&other) {
            self
        } else {
            other
        }
    }

    /// The larger of two durations.
    pub fn max(self, other: ExtDuration) -> (r: ExtDuration)
        ensures
            r == ext_max(self, other),
    {
        if self.le(&other) {
            other
        } else {
            self
        }
    }

    /// The duration in nanoseconds, with `Infinite` saturating to `u64::MAX`.
    pub fn saturating_duration(&self) -> (r: u64)
        ensures
            r == saturated(*self),
    {
        match self {
            ExtDuration::Finite(x) => *x,
            ExtDuration::Infinite => u64::MAX,
        }
    }

    /// The duration scaled by a factor (rounded down).
    pub fn mul_factor(self, f: Factor) -> (r: ExtDuration)
        ensures
            r == ext_scaled(self, f),
    {
        match self {
            ExtDuration::Finite(x) => {
                proof {
                    lemma_u64_product_fits(x, f.millionths);
                }
                let p: u128 = x as u128 * f.millionths as u128;
                ext_from_u128(p / FACTOR_SCALE as u128)
            },
            ExtDuration::Infinite => if f.millionths == 0 {
                ExtDuration::Finite(0)
            } else {
                ExtDuration::Infinite
            },
        }
    }

    /// The duration divided by a factor (rounded down).
    pub fn div_factor(self, f: Factor) -> (r: ExtDuration)
        ensures
            r == ext_divided(self, f),
    {
        match self {
            ExtDuration::Finite(x) => if x == 0 {
                ExtDuration::Finite(0)
            } else if f.millionths == 0 {
                ExtDuration::Infinite
            } else {
                proof {
                    lemma_u64_product_fits(x, FACTOR_SCALE);
                }
                let p: u128 = x as u128 * FACTOR_SCALE as u128;
                ext_from_u128(p / f.millionths as u128)
            },
            ExtDuration::Infinite => ExtDuration::Infinite,
        }
    }

    /// The duration multiplied by a count.
    pub fn mul_count(self, n: u32) -> (r: ExtDuration)
        ensures
            r == ext_times(self, n as nat),
    {
        match self {
            ExtDuration::Finite(x) => {
                proof {
                    lemma_u64_product_fits(x, n as u64);
                }
                ext_from_u128(x as u128 * n as u128)
            },
            ExtDuration::Infinite => if n == 0 {
                ExtDuration::Finite(0)
            } else {
                ExtDuration::Infinite
            },
        }
    }

    /// `self - other`, saturating at zero.
    pub fn saturating_sub(self, other: ExtDuration) -> (r: ExtDuration)
        ensures
            r == ext_minus(self, other),
    {
        match (self, other) {
            (_, ExtDuration::Infinite) => ExtDuration::Finite(0),
            (ExtDuration::Infinite, ExtDuration::Finite(_)) => ExtDuration::Infinite,
            (ExtDuration::Finite(x), ExtDuration::Finite(y)) => if x >= y {
                ExtDuration::Finite(x - y)
            } else {
                ExtDuration::Finite(0)
            },
        }
    }
}

impl Factor {
    /// The factor `1.0`.
    pub fn one() -> (r: Factor)
        ensures
            r.millionths == FACTOR_SCALE,
    {
        Factor { millionths: FACTOR_SCALE }
    }

    /// The factor `millionths / 1_000_000`.
    pub fn from_millionths(millionths: u64) -> (r: Factor)
        ensures
            r.millionths == millionths,
    {
        Factor { millionths }
    }

    /// The whole-number factor `n`.
    pub fn from_integer(n: u32) -> (r: Factor)
        ensures
            r.millionths == n * FACTOR_SCALE,
    {
        Factor { millionths: n as u64 * FACTOR_SCALE }
    }
}

} // verus!
