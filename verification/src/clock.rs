//! The clock abstraction: an immutable point in time held as whole seconds
//! since the Unix epoch, sub-second nanoseconds, and a fixed timezone
//! offset. Reading the OS clock, parsing the standard text formats, and
//! rendering them are delegated to chrono behind trusted wrappers; the
//! arithmetic that applies a millisecond correction is verified here.

use vstd::prelude::*;
use crate::errors::{DateTimeFormat, LunartickError};

verus! {

/// Largest second count the clock invariant admits, comfortably past the
/// range chrono can represent.
pub const MAX_CLOCK_SECS: i64 = 10_000_000_000_000;

/// Largest second count chrono itself can hold; what the OS clock reader
/// and the text parsers may return.
pub const MAX_CHRONO_SECS: i64 = 8_400_000_000_000;

/// Largest second count the sub-second-precision formatters accept without
/// leaving chrono's calendar range.
pub const MAX_FORMAT_SECS: i64 = 8_200_000_000_000;

/// An immutable point in time with a fixed timezone offset: `secs` whole
/// seconds since the Unix epoch (of the instant, not of the local
/// rendering), `nanos` sub-second nanoseconds (values of a second billion
/// and above represent a leap second), and `offset_secs` seconds east of
/// UTC.
#[derive(Debug, Clone, Copy, PartialEq, Eq, Structural)]
pub struct Clock {
    pub secs: i64,
    pub nanos: u32,
    pub offset_secs: i32,
}

/// The absolute instant a clock denotes, in nanoseconds since the Unix
/// epoch.
pub open spec fn instant_nanos(c: Clock) -> int {
    c.secs * 1_000_000_000 + c.nanos
}

/// What parsing an RFC 2822 text yields: the instant's Unix seconds, its
/// sub-second nanoseconds, and the text's timezone offset in seconds, or
/// nothing for malformed text. Relied on to depend on the text alone.
pub uninterp spec fn rfc2822_parsed(s: Seq<char>) -> Option<(i64, u32, i32)>;

/// What parsing an RFC 3339 text yields, in the same shape.
pub uninterp spec fn rfc3339_parsed(s: Seq<char>) -> Option<(i64, u32, i32)>;

/// The RFC 2822 rendering of an instant at a timezone offset.
pub uninterp spec fn rfc2822_text_of(secs: i64, nanos: u32, offset_secs: i32) -> Seq<char>;

/// The RFC 3339 rendering of an instant at a timezone offset.
pub uninterp spec fn rfc3339_text_of(secs: i64, nanos: u32, offset_secs: i32) -> Seq<char>;

/// The debug rendering of an instant at a timezone offset: the local naive
/// time followed by the numeric offset.
pub uninterp spec fn clock_text_of(secs: i64, nanos: u32, offset_secs: i32) -> Seq<char>;

/// Relies on chrono::Local::now, chrono::DateTime::timestamp,
/// timestamp_subsec_nanos and FixedOffset::local_minus_utc: reads the OS
/// clock. Nothing is promised of the instant itself, only that it lies in
/// chrono's representable range and that the offset is a valid timezone
/// offset.
#[verifier::external_body]
fn read_local_now() -> (r: (i64, u32, i32))
    ensures
        -MAX_CHRONO_SECS <= r.0 <= MAX_CHRONO_SECS,
        r.1 < 2_000_000_000,
        -86_400 < r.2 < 86_400,
{
    let now = chrono::Local::now();
    (now.timestamp(), now.timestamp_subsec_nanos(), now.offset().local_minus_utc())
}

/// Relies on chrono::DateTime::parse_from_rfc2822: the result is a function
/// of the text alone; a parsed value is a valid chrono instant with a valid
/// timezone offset.
#[verifier::external_body]
fn parse_rfc2822_text(s: &str) -> (r: Option<(i64, u32, i32)>)
    ensures
        r == rfc2822_parsed(s@),
        r matches Some(v) ==> -MAX_CHRONO_SECS <= v.0 <= MAX_CHRONO_SECS && v.1 < 2_000_000_000
            && -86_400 < v.2 < 86_400,
{
    match chrono::DateTime::parse_from_rfc2822(s) {
        Ok(dt) => Some((dt.timestamp(), dt.timestamp_subsec_nanos(), dt.offset().local_minus_utc())),
        Err(_) => None,
    }
}

/// Relies on chrono::DateTime::parse_from_rfc3339, in the same way.
#[verifier::external_body]
fn parse_rfc3339_text(s: &str) -> (r: Option<(i64, u32, i32)>)
    ensures
        r == rfc3339_parsed(s@),
        r matches Some(v) ==> -MAX_CHRONO_SECS <= v.0 <= MAX_CHRONO_SECS && v.1 < 2_000_000_000
            && -86_400 < v.2 < 86_400,
{
    match chrono::DateTime::parse_from_rfc3339(s) {
        Ok(dt) => Some((dt.timestamp(), dt.timestamp_subsec_nanos(), dt.offset().local_minus_utc())),
        Err(_) => None,
    }
}

/// Relies on chrono::FixedOffset::east_opt, TimeZone::timestamp_opt and
/// DateTime::to_rfc2822: the text is a function of the instant and offset
/// alone. The bounds keep the reconstructed value inside the range RFC 2822
/// can carry (years 1 through 9999), where the calls cannot fail.
#[verifier::external_body]
fn format_rfc2822_text(secs: i64, nanos: u32, offset_secs: i32) -> (r: String)
    requires
        -62_000_000_000 <= secs <= 253_000_000_000,
        nanos < 2_000_000_000,
        -86_400 < offset_secs < 86_400,
    ensures
        r@ == rfc2822_text_of(secs, nanos, offset_secs),
{
    let tz = chrono::FixedOffset::east_opt(offset_secs).unwrap();
    let dt = chrono::TimeZone::timestamp_opt(&tz, secs, nanos).unwrap();
    dt.to_rfc2822()
}

/// Relies on chrono::FixedOffset::east_opt, TimeZone::timestamp_opt and
/// DateTime::to_rfc3339: the text is a function of the instant and offset
/// alone. The bounds keep the value inside chrono's calendar range, where
/// the calls cannot fail.
#[verifier::external_body]
fn format_rfc3339_text(secs: i64, nanos: u32, offset_secs: i32) -> (r: String)
    requires
        -MAX_FORMAT_SECS <= secs <= MAX_FORMAT_SECS,
        nanos < 2_000_000_000,
        -86_400 < offset_secs < 86_400,
    ensures
        r@ == rfc3339_text_of(secs, nanos, offset_secs),
{
    let tz = chrono::FixedOffset::east_opt(offset_secs).unwrap();
    let dt = chrono::TimeZone::timestamp_opt(&tz, secs, nanos).unwrap();
    dt.to_rfc3339()
}

/// Relies on chrono::FixedOffset::east_opt, TimeZone::timestamp_opt and the
/// Display renderings of NaiveDateTime and FixedOffset: the text is a
/// function of the instant and offset alone, the local naive time followed
/// by the numeric offset.
#[verifier::external_body]
fn format_clock_text(secs: i64, nanos: u32, offset_secs: i32) -> (r: String)
    requires
        -MAX_FORMAT_SECS <= secs <= MAX_FORMAT_SECS,
        nanos < 2_000_000_000,
        -86_400 < offset_secs < 86_400,
    ensures
        r@ == clock_text_of(secs, nanos, offset_secs),
{
    let tz = chrono::FixedOffset::east_opt(offset_secs).unwrap();
    let dt = chrono::TimeZone::timestamp_opt(&tz, secs, nanos).unwrap();
    format!("{} {}", dt.naive_local(), dt.offset())
}

impl Clock {
    /// Seconds within the supported range, nanoseconds below two seconds'
    /// worth (the upper billion represents a leap second), and a valid
    /// timezone offset.
    pub open spec fn wf(self) -> bool {
        &&& -MAX_CLOCK_SECS <= self.secs <= MAX_CLOCK_SECS
        &&& self.nanos < 2_000_000_000
        &&& -86_400 < self.offset_secs < 86_400
    }

    /// A clock over the given instant and timezone offset.
    pub fn new(secs: i64, nanos: u32, offset_secs: i32) -> (r: Clock)
        requires
            -MAX_CLOCK_SECS <= secs <= MAX_CLOCK_SECS,
            nanos < 2_000_000_000,
            -86_400 < offset_secs < 86_400,
        ensures
            r == (Clock { secs, nanos, offset_secs }),
            r.wf(),
    {
        Clock { secs, nanos, offset_secs }
    }

    /// The current local time, read from the OS clock.
    pub fn now() -> (r: Clock)
        ensures
            r.wf(),
            -MAX_CHRONO_SECS <= r.secs <= MAX_CHRONO_SECS,
    {
        let (secs, nanos, offset_secs) = read_local_now();
        Clock { secs, nanos, offset_secs }
    }

    /// This clock shifted by a signed number of milliseconds: the same
    /// timezone offset, the instant moved by exactly the given amount.
    pub fn plus_millis(self, offset_ms: i64) -> (r: Clock)
        requires
            self.wf(),
            -9_000_000_000_000 <= self.secs <= 9_000_000_000_000,
            -1_000_000_000_000 <= offset_ms <= 1_000_000_000_000,
        ensures
            r.wf(),
            r.offset_secs == self.offset_secs,
            instant_nanos(r) == instant_nanos(self) + offset_ms * 1_000_000,
    {
        if offset_ms >= 0 {
            let add_ms = offset_ms as u64;
            let add_secs: i64 = (add_ms / 1000) as i64;
            let add_nanos: u64 = (add_ms % 1000) * 1_000_000;
            proof {
                vstd::arithmetic::div_mod::lemma_fundamental_div_mod(add_ms as int, 1000);
                vstd::arithmetic::div_mod::lemma_mod_bound(add_ms as int, 1000);
                vstd::arithmetic::div_mod::lemma_div_is_ordered(0, add_ms as int, 1000);
                vstd::arithmetic::div_mod::lemma_div_is_ordered(
                    add_ms as int,
                    1_000_000_000_000,
                    1000,
                );
            }
            let total_nanos: u64 = self.nanos as u64 + add_nanos;
            let carry: i64 = (total_nanos / 1_000_000_000) as i64;
            let rest: u64 = total_nanos % 1_000_000_000;
            proof {
                vstd::arithmetic::div_mod::lemma_fundamental_div_mod(
                    total_nanos as int,
                    1_000_000_000,
                );
                vstd::arithmetic::div_mod::lemma_mod_bound(total_nanos as int, 1_000_000_000);
                vstd::arithmetic::div_mod::lemma_div_is_ordered(0, total_nanos as int, 1_000_000_000);
                vstd::arithmetic::div_mod::lemma_div_is_ordered(
                    total_nanos as int,
                    2_999_000_000,
                    1_000_000_000,
                );
            }
            Clock {
                secs: self.secs + add_secs + carry,
                nanos: rest as u32,
                offset_secs: self.offset_secs,
            }
        } else {
            let sub_ms = (-offset_ms) as u64;
            let sub_secs: i64 = (sub_ms / 1000) as i64;
            let sub_nanos: u64 = (sub_ms % 1000) * 1_000_000;
            proof {
                vstd::arithmetic::div_mod::lemma_fundamental_div_mod(sub_ms as int, 1000);
                vstd::arithmetic::div_mod::lemma_mod_bound(sub_ms as int, 1000);
                vstd::arithmetic::div_mod::lemma_div_is_ordered(0, sub_ms as int, 1000);
                vstd::arithmetic::div_mod::lemma_div_is_ordered(
                    sub_ms as int,
                    1_000_000_000_000,
                    1000,
                );
            }
            if self.nanos as u64 >= sub_nanos {
                Clock {
                    secs: self.secs - sub_secs,
                    nanos: (self.nanos as u64 - sub_nanos) as u32,
                    offset_secs: self.offset_secs,
                }
            } else {
                Clock {
                    secs: self.secs - sub_secs - 1,
                    nanos: (self.nanos as u64 + 1_000_000_000 - sub_nanos) as u32,
                    offset_secs: self.offset_secs,
                }
            }
        }
    }

    /// The current local time shifted by the given signed millisecond
    /// correction.
    pub fn now_with_offset(offset_ms: i64) -> (r: Clock)
        requires
            -1_000_000_000_000 <= offset_ms <= 1_000_000_000_000,
        ensures
            r.wf(),
    {
        let now = Clock::now();
        now.plus_millis(offset_ms)
    }

    /// Parses an RFC 2822 text into a clock; malformed text is rejected
    /// with a `ParseDateTimeError` naming the format.
    pub fn from_rfc2822(dt: String) -> (r: Result<Clock, LunartickError>)
        ensures
            match r {
                Ok(c) => {
                    &&& rfc2822_parsed(dt@) == Some((c.secs, c.nanos, c.offset_secs))
                    &&& c.wf()
                },
                Err(e) => {
                    &&& rfc2822_parsed(dt@) is None
                    &&& e == LunartickError::ParseDateTimeError(DateTimeFormat::RFC2822)
                },
            },
    {
        match parse_rfc2822_text(dt.as_str()) {
            Some((secs, nanos, offset_secs)) => Ok(Clock { secs, nanos, offset_secs }),
            None => Err(LunartickError::ParseDateTimeError(DateTimeFormat::RFC2822)),
        }
    }

    /// Parses an RFC 3339 text into a clock, in the same way.
    pub fn from_rfc3339(dt: String) -> (r: Result<Clock, LunartickError>)
        ensures
            match r {
                Ok(c) => {
                    &&& rfc3339_parsed(dt@) == Some((c.secs, c.nanos, c.offset_secs))
                    &&& c.wf()
                },
                Err(e) => {
                    &&& rfc3339_parsed(dt@) is None
                    &&& e == LunartickError::ParseDateTimeError(DateTimeFormat::RFC3339)
                },
            },
    {
        match parse_rfc3339_text(dt.as_str()) {
            Some((secs, nanos, offset_secs)) => Ok(Clock { secs, nanos, offset_secs }),
            None => Err(LunartickError::ParseDateTimeError(DateTimeFormat::RFC3339)),
        }
    }

    /// The debug rendering: local naive time followed by the numeric
    /// timezone offset.
    pub fn to_string(&self) -> (r: String)
        requires
            self.wf(),
            -MAX_FORMAT_SECS <= self.secs <= MAX_FORMAT_SECS,
        ensures
            r@ == clock_text_of(self.secs, self.nanos, self.offset_secs),
    {
        format_clock_text(self.secs, self.nanos, self.offset_secs)
    }

    /// The instant's whole seconds since the Unix epoch.
    pub fn get_timestamp(&self) -> (r: i64)
        ensures
            r == self.secs,
    {
        self.secs
    }

    /// The RFC 2822 rendering. The instant must lie in the year range RFC
    /// 2822 can carry.
    pub fn get_rfc2822(&self) -> (r: String)
        requires
            self.wf(),
            -62_000_000_000 <= self.secs <= 253_000_000_000,
        ensures
            r@ == rfc2822_text_of(self.secs, self.nanos, self.offset_secs),
    {
        format_rfc2822_text(self.secs, self.nanos, self.offset_secs)
    }

    /// The RFC 3339 rendering.
    pub fn get_rfc3339(&self) -> (r: String)
        requires
            self.wf(),
            -MAX_FORMAT_SECS <= self.secs <= MAX_FORMAT_SECS,
        ensures
            r@ == rfc3339_text_of(self.secs, self.nanos, self.offset_secs),
    {
        format_rfc3339_text(self.secs, self.nanos, self.offset_secs)
    }
}

} // verus!
