//! The NTP timestamp codec: a 64-bit fixed-point protocol timestamp
//! (whole seconds since 1900 plus a binary fraction with denominator 2^32)
//! converted to and from an absolute instant in nanoseconds since the Unix
//! epoch, truncating toward zero.

use vstd::prelude::*;
use vstd::arithmetic::div_mod::{
    lemma_div_is_ordered, lemma_fundamental_div_mod, lemma_fundamental_div_mod_converse_div,
    lemma_fundamental_div_mod_converse_mod,
};

verus! {

/// Seconds between the NTP epoch (1900-01-01) and the Unix epoch (1970-01-01).
pub const NTP_TO_UNIX_SECONDS: i64 = 2_208_988_800;

/// An NTP wire timestamp: whole seconds since the NTP epoch, and a binary
/// fraction of a second with denominator 2^32.
#[derive(Debug, Default, Clone, Copy, PartialEq, Eq, Structural)]
pub struct NTPTimestamp {
    pub seconds: u32,
    pub fraction: u32,
}

/// Nanoseconds named by a binary fraction of a second: `fraction / 2^32`
/// of a second, truncated toward zero.
pub open spec fn frac_to_nanos(fraction: int) -> int {
    fraction * 1_000_000_000 / 4_294_967_296
}

/// The inverse direction: a sub-second nanosecond count as a binary
/// fraction with denominator 2^32, truncated.
pub open spec fn nanos_to_frac(nanos: int) -> int {
    nanos * 4_294_967_296 / 1_000_000_000
}

/// The absolute instant an NTP timestamp denotes, in nanoseconds since the
/// Unix epoch.
pub open spec fn ntp_to_unix_nanos(ts: NTPTimestamp) -> int {
    (ts.seconds - NTP_TO_UNIX_SECONDS) * 1_000_000_000 + frac_to_nanos(ts.fraction as int)
}

/// The NTP timestamp denoting an absolute instant given in nanoseconds since
/// the Unix epoch. Meaningful only within the supported era, where the
/// second count fits an unsigned 32-bit value.
pub open spec fn unix_nanos_to_ntp(nanos: int) -> NTPTimestamp {
    NTPTimestamp {
        seconds: (nanos / 1_000_000_000 + NTP_TO_UNIX_SECONDS) as u32,
        fraction: nanos_to_frac(nanos % 1_000_000_000) as u32,
    }
}

/// Smallest instant of the supported era, in Unix nanoseconds: NTP second 0.
pub const ERA_MIN_UNIX_NANOS: i64 = -2_208_988_800_000_000_000;

/// One past the largest instant of the supported era, in Unix nanoseconds:
/// NTP second 2^32.
pub const ERA_END_UNIX_NANOS: i64 = 2_085_978_496_000_000_000;

impl NTPTimestamp {
    /// Converts this NTP timestamp to nanoseconds since the Unix epoch.
    /// Total over all unsigned 32-bit second/fraction pairs.
    pub fn to_unix_nanos(&self) -> (r: i64)
        ensures
            r == ntp_to_unix_nanos(*self),
            ERA_MIN_UNIX_NANOS <= r < ERA_END_UNIX_NANOS,
    {
        proof {
            lemma_frac_to_nanos_bounds(self.fraction as int);
        }
        let secs: i64 = self.seconds as i64 - 2_208_988_800;
        let frac_nanos: u64 = (self.fraction as u64 * 1_000_000_000) / 4_294_967_296;
        secs * 1_000_000_000 + (frac_nanos as i64)
    }

    /// Converts an instant in nanoseconds since the Unix epoch to an NTP
    /// timestamp, truncating the sub-nanosecond part of the fraction. The
    /// instant must lie within the supported era.
    pub fn from_unix_nanos(nanos: i64) -> (r: NTPTimestamp)
        requires
            ERA_MIN_UNIX_NANOS <= nanos < ERA_END_UNIX_NANOS,
        ensures
            r == unix_nanos_to_ntp(nanos as int),
    {
        let shifted: u64 = (nanos + 2_208_988_800_000_000_000) as u64;
        let secs: u64 = shifted / 1_000_000_000;
        let subsec: u64 = shifted % 1_000_000_000;
        proof {
            lemma_shift_div_mod(nanos as int);
            lemma_nanos_to_frac_bounds(subsec as int);
        }
        let fraction: u64 = (subsec * 4_294_967_296) / 1_000_000_000;
        NTPTimestamp { seconds: secs as u32, fraction: fraction as u32 }
    }
}

/// A fraction of a second converts to fewer than a full second's nanoseconds.
pub proof fn lemma_frac_to_nanos_bounds(fraction: int)
    requires
        0 <= fraction < 4_294_967_296,
    ensures
        0 <= frac_to_nanos(fraction) < 1_000_000_000,
{
    lemma_div_is_ordered(0, fraction * 1_000_000_000, 4_294_967_296);
    lemma_div_is_ordered(
        fraction * 1_000_000_000,
        4_294_967_295_000_000_000,
        4_294_967_296,
    );
}

/// A sub-second nanosecond count converts to a fraction below 2^32.
pub proof fn lemma_nanos_to_frac_bounds(nanos: int)
    requires
        0 <= nanos < 1_000_000_000,
    ensures
        0 <= nanos_to_frac(nanos) < 4_294_967_296,
{
    lemma_div_is_ordered(0, nanos * 4_294_967_296, 1_000_000_000);
    lemma_div_is_ordered(
        nanos * 4_294_967_296,
        4_294_967_291_705_032_704,
        1_000_000_000,
    );
}

/// Shifting an era instant by the epoch difference leaves its split into
/// whole seconds and sub-second nanoseconds aligned: the shifted value's
/// quotient is the instant's quotient plus the epoch offset, and the
/// remainders agree.
proof fn lemma_shift_div_mod(nanos: int)
    requires
        ERA_MIN_UNIX_NANOS <= nanos < ERA_END_UNIX_NANOS,
    ensures
        (nanos + 2_208_988_800_000_000_000) / 1_000_000_000
            == nanos / 1_000_000_000 + 2_208_988_800,
        (nanos + 2_208_988_800_000_000_000) % 1_000_000_000 == nanos % 1_000_000_000,
        0 <= nanos % 1_000_000_000 < 1_000_000_000,
        0 <= nanos / 1_000_000_000 + 2_208_988_800 < 4_294_967_296,
{
    let q = nanos / 1_000_000_000;
    let r = nanos % 1_000_000_000;
    lemma_fundamental_div_mod(nanos, 1_000_000_000);
    lemma_mod_range(nanos, 1_000_000_000);
    let shifted = nanos + 2_208_988_800_000_000_000;
    assert(shifted == (q + 2_208_988_800) * 1_000_000_000 + r) by {
        assert((q + 2_208_988_800) * 1_000_000_000 == q * 1_000_000_000 + 2_208_988_800_000_000_000);
    }
    lemma_fundamental_div_mod_converse_div(shifted, 1_000_000_000, q + 2_208_988_800, r);
    lemma_fundamental_div_mod_converse_mod(shifted, 1_000_000_000, q + 2_208_988_800, r);
    lemma_div_is_ordered(0, shifted, 1_000_000_000);
    lemma_div_is_ordered(shifted, 4_294_967_295_999_999_999, 1_000_000_000);
}

/// The remainder of a division by a positive constant lies below the divisor.
proof fn lemma_mod_range(x: int, d: int)
    requires
        0 < d,
    ensures
        0 <= x % d < d,
{
    lemma_fundamental_div_mod(x, d);
    vstd::arithmetic::div_mod::lemma_mod_bound(x, d);
}

/// Round trip of the codec: converting an NTP timestamp to an absolute
/// instant, back to an NTP timestamp, and to an absolute instant once more
/// keeps the seconds exactly and loses at most one nanosecond to fraction
/// truncation.
pub proof fn lemma_codec_round_trip(ts: NTPTimestamp)
    ensures
        unix_nanos_to_ntp(ntp_to_unix_nanos(ts)).seconds == ts.seconds,
        ntp_to_unix_nanos(unix_nanos_to_ntp(ntp_to_unix_nanos(ts))) <= ntp_to_unix_nanos(ts),
        ntp_to_unix_nanos(ts) - 1 <= ntp_to_unix_nanos(unix_nanos_to_ntp(ntp_to_unix_nanos(ts))),
{
    let s = ts.seconds as int;
    let f = ts.fraction as int;
    let n = frac_to_nanos(f);
    lemma_frac_to_nanos_bounds(f);
    let a = ntp_to_unix_nanos(ts);
    assert(a == (s - 2_208_988_800) * 1_000_000_000 + n);
    lemma_fundamental_div_mod_converse_div(a, 1_000_000_000, s - 2_208_988_800, n);
    lemma_fundamental_div_mod_converse_mod(a, 1_000_000_000, s - 2_208_988_800, n);
    assert(a / 1_000_000_000 + 2_208_988_800 == s);
    assert(unix_nanos_to_ntp(a).seconds == ts.seconds);

    let fr = nanos_to_frac(n);
    lemma_nanos_to_frac_bounds(n);
    assert(unix_nanos_to_ntp(a).fraction == fr);

    // n * 2^32 = fr * 10^9 + rr with 0 <= rr < 10^9.
    lemma_fundamental_div_mod(n * 4_294_967_296, 1_000_000_000);
    lemma_mod_range(n * 4_294_967_296, 1_000_000_000);
    let rr = (n * 4_294_967_296) % 1_000_000_000;
    assert(fr * 1_000_000_000 == n * 4_294_967_296 - rr);

    let n2 = frac_to_nanos(fr);
    if rr == 0 {
        lemma_fundamental_div_mod_converse_div(fr * 1_000_000_000, 4_294_967_296, n, 0);
        assert(n2 == n);
    } else {
        assert(fr * 1_000_000_000 == (n - 1) * 4_294_967_296 + (4_294_967_296 - rr)) by {
            assert((n - 1) * 4_294_967_296 == n * 4_294_967_296 - 4_294_967_296);
        }
        lemma_fundamental_div_mod_converse_div(
            fr * 1_000_000_000,
            4_294_967_296,
            n - 1,
            4_294_967_296 - rr,
        );
        assert(n2 == n - 1);
    }
    assert(ntp_to_unix_nanos(unix_nanos_to_ntp(a))
        == (s - 2_208_988_800) * 1_000_000_000 + n2);
}

} // verus!
