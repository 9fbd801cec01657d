//! One round-trip probe result: the four captured timestamps and the
//! delay/offset arithmetic derived from them.

use vstd::prelude::*;
use crate::codec::NTPTimestamp;
use crate::codec::ntp_to_unix_nanos;
use crate::errors::LunartickError;
use crate::message::{NTPMessage, NTP_MESSAGE_LENGTH, timestamp_at};

verus! {

/// Largest instant magnitude, in nanoseconds since the Unix epoch, that a
/// probe timestamp may carry. Wide enough for every NTP-era instant, and
/// small enough that the four-timestamp difference cannot overflow 64 bits.
pub const MAX_INSTANT_NANOS: i64 = 2_300_000_000_000_000_000;

/// The four timestamps of one request/response exchange, each in
/// nanoseconds since the Unix epoch: local send (`t1`), server receive
/// (`t2`), server transmit (`t3`), local receive (`t4`).
#[derive(Debug, Clone, Copy, PartialEq, Eq, Structural)]
pub struct NTPResult {
    pub t1: i64,
    pub t2: i64,
    pub t3: i64,
    pub t4: i64,
}

/// Division truncating toward zero, as the millisecond conversions use it.
pub open spec fn trunc_div(a: int, b: int) -> int {
    if a >= 0 {
        a / b
    } else {
        -((-a) / b)
    }
}

impl NTPResult {
    /// Every timestamp lies within the supported instant range.
    pub open spec fn wf(self) -> bool {
        &&& -MAX_INSTANT_NANOS <= self.t1 <= MAX_INSTANT_NANOS
        &&& -MAX_INSTANT_NANOS <= self.t2 <= MAX_INSTANT_NANOS
        &&& -MAX_INSTANT_NANOS <= self.t3 <= MAX_INSTANT_NANOS
        &&& -MAX_INSTANT_NANOS <= self.t4 <= MAX_INSTANT_NANOS
    }

    /// The round-trip delay in whole milliseconds: the full local round trip
    /// minus the server's processing time, `(t4 - t1) - (t3 - t2)`. May be
    /// negative under clock skew.
    pub open spec fn delay_spec(self) -> int {
        trunc_div((self.t4 - self.t1) - (self.t3 - self.t2), 1_000_000)
    }

    /// The offset estimate in whole milliseconds: half the delay magnitude.
    /// Non-negative by construction; the sign of the correction is not
    /// recovered here.
    pub open spec fn offset_spec(self) -> int {
        (if self.delay_spec() >= 0 {
            self.delay_spec()
        } else {
            -self.delay_spec()
        }) / 2
    }

    /// Computes the round-trip delay in whole milliseconds.
    pub fn delay(&self) -> (d: i64)
        requires
            self.wf(),
        ensures
            d == self.delay_spec(),
            -9_200_000_000_000 <= d <= 9_200_000_000_000,
    {
        let delta: i64 = (self.t4 - self.t1) - (self.t3 - self.t2);
        if delta >= 0 {
            proof {
                vstd::arithmetic::div_mod::lemma_div_is_ordered(0, delta as int, 1_000_000);
                vstd::arithmetic::div_mod::lemma_div_is_ordered(
                    delta as int,
                    9_200_000_000_000_000_000,
                    1_000_000,
                );
            }
            ((delta as u64) / 1_000_000) as i64
        } else {
            let mag: u64 = (-delta) as u64;
            proof {
                vstd::arithmetic::div_mod::lemma_div_is_ordered(0, mag as int, 1_000_000);
                vstd::arithmetic::div_mod::lemma_div_is_ordered(
                    mag as int,
                    9_200_000_000_000_000_000,
                    1_000_000,
                );
            }
            -((mag / 1_000_000) as i64)
        }
    }

    /// Computes the offset estimate in whole milliseconds.
    pub fn offset(&self) -> (o: i64)
        requires
            self.wf(),
        ensures
            o == self.offset_spec(),
            0 <= o <= 4_600_000_000_000,
    {
        let d = self.delay();
        let mag: u64 = if d >= 0 {
            d as u64
        } else {
            (-d) as u64
        };
        proof {
            vstd::arithmetic::div_mod::lemma_div_is_ordered(0, mag as int, 2);
            vstd::arithmetic::div_mod::lemma_div_is_ordered(mag as int, 9_200_000_000_000, 2);
        }
        (mag / 2) as i64
    }

    /// Builds the sample of one exchange from the locally captured send and
    /// receive instants and the decoded server response: `t2` and `t3` come
    /// from the response's receive and transmit timestamps through the
    /// codec. A response shorter than 48 bytes fails with a
    /// `ParseTimestampError`.
    pub fn from_exchange(t1: i64, t4: i64, response: &NTPMessage) -> (r: Result<
        NTPResult,
        LunartickError,
    >)
        requires
            -MAX_INSTANT_NANOS <= t1 <= MAX_INSTANT_NANOS,
            -MAX_INSTANT_NANOS <= t4 <= MAX_INSTANT_NANOS,
        ensures
            match r {
                Ok(s) => {
                    &&& response.data@.len() >= NTP_MESSAGE_LENGTH
                    &&& s.t1 == t1
                    &&& s.t4 == t4
                    &&& s.t2 == ntp_to_unix_nanos(timestamp_at(response.data@, 32))
                    &&& s.t3 == ntp_to_unix_nanos(timestamp_at(response.data@, 40))
                    &&& s.wf()
                },
                Err(e) => response.data@.len() < NTP_MESSAGE_LENGTH && e is ParseTimestampError,
            },
    {
        let (rx, tx) = response.decode_response()?;
        let t2 = rx.to_unix_nanos();
        let t3 = tx.to_unix_nanos();
        Ok(NTPResult { t1, t2, t3, t4 })
    }
}

} // verus!
