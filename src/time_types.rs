//! Fixed-point durations and timestamps, monotonic instants, poll intervals
//! and the frequency tolerance of the local clock.
use vstd::arithmetic::power2::{lemma2_to64, lemma2_to64_rest, lemma_pow2_strictly_increases, lemma_pow2_unfold, pow2};
use vstd::prelude::*;

verus! {

/// Clamps a mathematical integer into the range of `i64`.
pub open spec fn clamp_i64(x: int) -> int {
    if x > i64::MAX {
        i64::MAX as int
    } else if x < i64::MIN {
        i64::MIN as int
    } else {
        x
    }
}

/// Division by a positive divisor that rounds toward zero, as Rust's `/` does.
pub open spec fn div_trunc(x: int, d: int) -> int {
    if x >= 0 {
        x / d
    } else {
        -((-x) / d)
    }
}

/// `a - b` computed modulo 2^64 and read as a two's-complement `i64`.
pub open spec fn wrapping_diff(a: u64, b: u64) -> int {
    let x = a - b;
    if x >= 0x8000_0000_0000_0000 {
        x - 0x1_0000_0000_0000_0000
    } else if x < -0x8000_0000_0000_0000 {
        x + 0x1_0000_0000_0000_0000
    } else {
        x
    }
}

/// `t + d` computed modulo 2^64.
pub open spec fn wrapping_shift(t: u64, d: i64) -> int {
    let x = t + d;
    if x >= 0x1_0000_0000_0000_0000 {
        x - 0x1_0000_0000_0000_0000
    } else if x < 0 {
        x + 0x1_0000_0000_0000_0000
    } else {
        x
    }
}

/// The fixed-point value of `2^e` seconds, saturated at `i64::MAX` above and
/// rounded to zero below the format's resolution.
pub open spec fn exponent_duration(e: int) -> int {
    if e > 30 {
        i64::MAX as int
    } else if e >= -32 {
        pow2((32 + e) as nat) as int
    } else {
        0
    }
}

/// A span of `nanos` nanoseconds in the 32.32 fixed-point format, rounded
/// down and saturated at `i64::MAX`.
pub open spec fn nanos_duration(nanos: int) -> int {
    clamp_i64(nanos * 0x1_0000_0000 / 1_000_000_000)
}

/// `d` scaled by `ppm` parts per million, rounded toward zero and saturated.
pub open spec fn scaled_by_ppm(d: int, ppm: int) -> int {
    clamp_i64(div_trunc(d * ppm, 1_000_000))
}

fn clamp_to_i64(x: i128) -> (r: i64)
    ensures
        r == clamp_i64(x as int),
{
    if x > i64::MAX as i128 {
        i64::MAX
    } else if x < i64::MIN as i128 {
        i64::MIN
    } else {
        x as i64
    }
}

fn div_trunc_i128(x: i128, d: u64) -> (r: i128)
    requires
        d > 0,
        x > i128::MIN,
    ensures
        r == div_trunc(x as int, d as int),
{
    if x >= 0 {
        ((x as u128) / (d as u128)) as i128
    } else {
        let n: u128 = (-x) as u128;
        -((n / (d as u128)) as i128)
    }
}

/// Fixed-point value of the smallest dispersion a measurement carries (5 ms).
pub const MIN_DISPERSION: i64 = 21474836;

/// A signed span of time in NTP's 32.32 fixed-point format:
/// `duration / 2^32` seconds.
#[derive(Debug, Clone, Copy, PartialEq, Eq, PartialOrd, Ord, Hash, Default, Structural)]
pub struct NtpDuration {
    pub duration: i64,
}

impl NtpDuration {
    pub fn zero() -> (r: NtpDuration)
        ensures
            r.duration == 0,
    {
        NtpDuration { duration: 0 }
    }

    /// One second.
    pub fn one() -> (r: NtpDuration)
        ensures
            r.duration == 0x1_0000_0000,
    {
        NtpDuration { duration: 0x1_0000_0000 }
    }

    /// The smallest dispersion that a measurement is assumed to carry (5 ms).
    pub fn min_dispersion() -> (r: NtpDuration)
        ensures
            r.duration == MIN_DISPERSION,
    {
        NtpDuration { duration: MIN_DISPERSION }
    }

    pub fn from_fixed_int(duration: i64) -> (r: NtpDuration)
        ensures
            r.duration == duration,
    {
        NtpDuration { duration }
    }

    pub fn to_fixed_int(self) -> (r: i64)
        ensures
            r == self.duration,
    {
        self.duration
    }

    /// `2^exponent` seconds, as far as the fixed-point format holds it.
    pub fn from_exponent(exponent: i8) -> (r: NtpDuration)
        ensures
            r.duration == exponent_duration(exponent as int),
    {
        if exponent > 30 {
            return NtpDuration { duration: i64::MAX };
        }
        if exponent < -32 {
            return NtpDuration { duration: 0 };
        }
        proof {
            lemma2_to64();
        }
        let mut value: i64 = 1;
        let mut e: i8 = -32;
        while e < exponent
            invariant
                -32 <= e <= exponent <= 30,
                value == pow2((32 + e) as nat),
            decreases exponent - e,
        {
            proof {
                lemma2_to64_rest();
                lemma_pow2_strictly_increases((32 + e) as nat, 62);
                lemma_pow2_unfold((32 + e + 1) as nat);
            }
            value = value * 2;
            e = e + 1;
        }
        NtpDuration { duration: value }
    }

    /// Sum of two durations, saturated to the range of the format.
    pub fn saturating_add(self, other: NtpDuration) -> (r: NtpDuration)
        ensures
            r.duration == clamp_i64(self.duration + other.duration),
    {
        NtpDuration { duration: clamp_to_i64(self.duration as i128 + other.duration as i128) }
    }

    /// Difference of two durations, saturated to the range of the format.
    pub fn saturating_sub(self, other: NtpDuration) -> (r: NtpDuration)
        ensures
            r.duration == clamp_i64(self.duration - other.duration),
    {
        NtpDuration { duration: clamp_to_i64(self.duration as i128 - other.duration as i128) }
    }

    /// Half of the duration, rounded toward zero.
    pub fn half(self) -> (r: NtpDuration)
        ensures
            r.duration == div_trunc(self.duration as int, 2),
    {
        NtpDuration { duration: div_trunc_i128(self.duration as i128, 2) as i64 }
    }

    /// The mean of two durations, rounded toward zero; it always fits.
    pub fn mean(self, other: NtpDuration) -> (r: NtpDuration)
        ensures
            r.duration == div_trunc(self.duration + other.duration, 2),
    {
        NtpDuration {
            duration: div_trunc_i128(self.duration as i128 + other.duration as i128, 2) as i64,
        }
    }

    /// The longer of the two durations.
    pub fn larger(self, other: NtpDuration) -> (r: NtpDuration)
        ensures
            r.duration == if self.duration >= other.duration {
                self.duration
            } else {
                other.duration
            },
    {
        if self.duration >= other.duration {
            self
        } else {
            other
        }
    }

    /// The drift that a clock with the given tolerance may build up over this
    /// duration.
    pub fn mul_tolerance(self, tolerance: FrequencyTolerance) -> (r: NtpDuration)
        ensures
            r.duration == scaled_by_ppm(self.duration as int, tolerance.ppm as int),
    {
        let d = self.duration as i128;
        let ppm = tolerance.ppm as i128;
        proof {
            assert(-0x8000_0000_0000_0000 * 0x1_0000_0000 <= d * ppm <= 0x8000_0000_0000_0000 * 0x1_0000_0000)
                by (nonlinear_arith)
                requires
                    -0x8000_0000_0000_0000 <= d <= 0x8000_0000_0000_0000,
                    0 <= ppm < 0x1_0000_0000,
            ;
        }
        let product: i128 = d * ppm;
        NtpDuration { duration: clamp_to_i64(div_trunc_i128(product, 1_000_000)) }
    }
}

/// A point in time in NTP's 32.32 fixed-point format, which wraps around.
#[derive(Debug, Clone, Copy, PartialEq, Eq, PartialOrd, Ord, Hash, Default, Structural)]
pub struct NtpTimestamp {
    pub timestamp: u64,
}

impl NtpTimestamp {
    pub fn from_fixed_int(timestamp: u64) -> (r: NtpTimestamp)
        ensures
            r.timestamp == timestamp,
    {
        NtpTimestamp { timestamp }
    }

    /// `self - earlier` on the wrapping timestamp scale.
    pub fn since(self, earlier: NtpTimestamp) -> (r: NtpDuration)
        ensures
            r.duration == wrapping_diff(self.timestamp, earlier.timestamp),
    {
        let x: i128 = self.timestamp as i128 - earlier.timestamp as i128;
        let w: i128 = if x >= 0x8000_0000_0000_0000 {
            x - 0x1_0000_0000_0000_0000
        } else if x < -0x8000_0000_0000_0000 {
            x + 0x1_0000_0000_0000_0000
        } else {
            x
        };
        NtpDuration { duration: w as i64 }
    }

    /// The timestamp `d` later (or earlier, for a negative `d`), wrapping.
    pub fn shifted(self, d: NtpDuration) -> (r: NtpTimestamp)
        ensures
            r.timestamp == wrapping_shift(self.timestamp, d.duration),
    {
        let x: i128 = self.timestamp as i128 + d.duration as i128;
        let w: i128 = if x >= 0x1_0000_0000_0000_0000 {
            x - 0x1_0000_0000_0000_0000
        } else if x < 0 {
            x + 0x1_0000_0000_0000_0000
        } else {
            x
        };
        NtpTimestamp { timestamp: w as u64 }
    }
}

#[verifier::external_type_specification]
#[verifier::external_body]
pub struct ExInstant(std::time::Instant);

/// Relies on `std::time::Instant::now`: a reading of the monotonic clock,
/// which is opaque.
#[verifier::external_body]
pub(crate) fn monotonic_now() -> (r: std::time::Instant) {
    std::time::Instant::now()
}

/// Relies on `std::time::Instant::elapsed`: the time of the monotonic clock
/// since `origin` (zero if `origin` lies ahead); nothing more is known.
#[verifier::external_body]
fn elapsed_since(origin: &std::time::Instant) -> (r: std::time::Duration) {
    origin.elapsed()
}

/// Relies on `std::time::Duration::as_nanos`: the whole nanoseconds of `d`.
#[verifier::external_body]
fn duration_nanos(d: std::time::Duration) -> (r: u128) {
    d.as_nanos()
}

/// An instant of a monotonic clock, in nanoseconds from that clock's origin.
#[derive(Debug, Clone, Copy, PartialEq, Eq, PartialOrd, Ord, Hash, Default, Structural)]
pub struct NtpInstant {
    pub nanos: u64,
}

impl NtpInstant {
    /// The present instant of the monotonic clock whose origin is `origin`,
    /// saturating at the end of the representable range.
    pub fn since_origin(origin: &std::time::Instant) -> (r: NtpInstant) {
        let n = duration_nanos(elapsed_since(origin));
        if n > u64::MAX as u128 {
            NtpInstant { nanos: u64::MAX }
        } else {
            NtpInstant { nanos: n as u64 }
        }
    }

    pub fn from_nanos(nanos: u64) -> (r: NtpInstant)
        ensures
            r.nanos == nanos,
    {
        NtpInstant { nanos }
    }

    /// The instant `nanos` nanoseconds later, saturating at the end of the
    /// representable range.
    pub fn add_nanos(self, nanos: u64) -> (r: NtpInstant)
        ensures
            r.nanos == if self.nanos + nanos > u64::MAX {
                u64::MAX as int
            } else {
                self.nanos + nanos
            },
    {
        if nanos > u64::MAX - self.nanos {
            NtpInstant { nanos: u64::MAX }
        } else {
            NtpInstant { nanos: self.nanos + nanos }
        }
    }

    /// The distance between two instants, whichever comes first.
    pub fn abs_diff(a: NtpInstant, b: NtpInstant) -> (r: NtpDuration)
        ensures
            r.duration == nanos_duration(
                if a.nanos >= b.nanos {
                    a.nanos - b.nanos
                } else {
                    b.nanos - a.nanos
                },
            ),
    {
        let n: u64 = if a.nanos >= b.nanos {
            a.nanos - b.nanos
        } else {
            b.nanos - a.nanos
        };
        let scaled: u128 = (n as u128 * 0x1_0000_0000) / 1_000_000_000;
        if scaled > i64::MAX as u128 {
            NtpDuration { duration: i64::MAX }
        } else {
            NtpDuration { duration: scaled as i64 }
        }
    }
}

/// A poll interval of `2^self.0` seconds.
#[derive(Debug, Clone, Copy, PartialEq, Eq, PartialOrd, Ord, Hash, Structural)]
pub struct PollInterval(pub i8);

/// The bounds between which the poll interval is kept.
#[derive(Debug, Clone, Copy, PartialEq, Eq, Hash, Structural)]
pub struct PollIntervalLimits {
    pub min: PollInterval,
    pub max: PollInterval,
}

impl Default for PollIntervalLimits {
    fn default() -> (r: PollIntervalLimits)
        ensures
            r.min.0 == 4,
            r.max.0 == 10,
    {
        PollIntervalLimits { min: PollInterval(4), max: PollInterval(10) }
    }
}

/// One step of `inc`: up by one while below the limit, else unchanged.
pub open spec fn stepped(p: PollInterval, limits: PollIntervalLimits) -> PollInterval {
    if p.0 < limits.max.0 {
        PollInterval((p.0 + 1) as i8)
    } else {
        p
    }
}

/// The longer of two poll intervals.
pub open spec fn longer(a: PollInterval, b: PollInterval) -> PollInterval {
    if a.0 >= b.0 {
        a
    } else {
        b
    }
}

impl Default for PollInterval {
    fn default() -> (r: PollInterval)
        ensures
            r.0 == 4,
    {
        PollInterval(4)
    }
}

impl PollInterval {
    /// One step longer, but not past the configured maximum; an interval
    /// already at or above the maximum stays as it is.
    pub fn inc(self, limits: PollIntervalLimits) -> (r: PollInterval)
        ensures
            r == stepped(self, limits),
            r.0 >= self.0,
    {
        if self.0 < limits.max.0 {
            PollInterval(self.0 + 1)
        } else {
            self
        }
    }

    /// The longer of the two intervals.
    pub fn longer(self, other: PollInterval) -> (r: PollInterval)
        ensures
            r == longer(self, other),
    {
        if self.0 >= other.0 {
            self
        } else {
            other
        }
    }

    /// The interval as a duration: `2^self.0` seconds.
    pub fn as_duration(self) -> (r: NtpDuration)
        ensures
            r.duration == exponent_duration(self.0 as int),
    {
        NtpDuration::from_exponent(self.0)
    }
}

/// The largest rate error of the local clock, in parts per million.
#[derive(Debug, Clone, Copy, PartialEq, Eq, Hash, Structural)]
pub struct FrequencyTolerance {
    pub ppm: u32,
}

impl FrequencyTolerance {
    pub fn ppm(ppm: u32) -> (r: FrequencyTolerance)
        ensures
            r.ppm == ppm,
    {
        FrequencyTolerance { ppm }
    }
}

} // verus!
