//! The 48-byte NTP probe message: building the client request and decoding
//! the two big-endian timestamps a server response carries at byte offsets
//! 32 and 40.

use vstd::prelude::*;
use crate::codec::NTPTimestamp;
use crate::errors::LunartickError;

verus! {

/// Length of every NTP packet this library builds or decodes.
pub const NTP_MESSAGE_LENGTH: usize = 48;

/// Byte 0 of a client request: protocol version 3 in bits 3-5 and
/// mode 3 ("client") in bits 0-2.
pub const CLIENT_FLAGS_BYTE: u8 = 0x1b;

/// An NTP packet. A well-formed one holds exactly 48 bytes; a shorter
/// buffer is kept so that decoding can reject it defensively.
pub struct NTPMessage {
    pub data: Vec<u8>,
}

/// The big-endian 32-bit word starting at byte `i`.
pub open spec fn be_word(s: Seq<u8>, i: int) -> int {
    s[i] * 0x1000000 + s[i + 1] * 0x10000 + s[i + 2] * 0x100 + s[i + 3]
}

/// The timestamp whose seconds stand big-endian at byte `i` and whose
/// fraction stands big-endian at byte `i + 4`.
pub open spec fn timestamp_at(s: Seq<u8>, i: int) -> NTPTimestamp {
    NTPTimestamp { seconds: be_word(s, i) as u32, fraction: be_word(s, i + 4) as u32 }
}

/// Reads a big-endian 32-bit word from four bytes.
fn read_be_u32(data: &Vec<u8>, i: usize) -> (r: u32)
    requires
        i + 4 <= data.len(),
    ensures
        r == be_word(data@, i as int),
{
    (data[i] as u32) * 0x1000000 + (data[i + 1] as u32) * 0x10000 + (data[i + 2] as u32) * 0x100
        + (data[i + 3] as u32)
}

impl NTPMessage {
    /// A packet of 48 zero bytes.
    pub fn new() -> (r: NTPMessage)
        ensures
            r.data@.len() == NTP_MESSAGE_LENGTH,
            forall|i: int| 0 <= i < NTP_MESSAGE_LENGTH ==> r.data@[i] == 0u8,
    {
        let mut data: Vec<u8> = Vec::new();
        while data.len() < 48
            invariant
                data@.len() <= 48,
                forall|i: int| 0 <= i < data@.len() ==> data@[i] == 0u8,
            decreases 48 - data@.len(),
        {
            data.push(0u8);
        }
        NTPMessage { data }
    }

    /// The outgoing client request: version 3 and mode 3 encoded into
    /// byte 0, every other byte zero.
    pub fn client() -> (r: NTPMessage)
        ensures
            r.data@.len() == NTP_MESSAGE_LENGTH,
            r.data@[0] == CLIENT_FLAGS_BYTE,
            forall|i: int| 1 <= i < NTP_MESSAGE_LENGTH ==> r.data@[i] == 0u8,
    {
        let mut msg = NTPMessage::new();
        msg.data.set(0, CLIENT_FLAGS_BYTE);
        msg
    }

    /// Decodes the timestamp at byte offset `i`: its seconds as a big-endian
    /// word at `i`, its fraction at `i + 4`. A buffer too short for the
    /// eight bytes is a decode failure.
    pub fn parse_timestamp(&self, i: usize) -> (r: Result<NTPTimestamp, LunartickError>)
        ensures
            match r {
                Ok(ts) => i + 8 <= self.data@.len() && ts == timestamp_at(self.data@, i as int),
                Err(e) => i + 8 > self.data@.len() && e is ParseTimestampError,
            },
    {
        if self.data.len() >= 8 && i <= self.data.len() - 8 {
            let seconds = read_be_u32(&self.data, i);
            let fraction = read_be_u32(&self.data, i + 4);
            Ok(NTPTimestamp { seconds, fraction })
        } else {
            Err(LunartickError::ParseTimestampError)
        }
    }

    /// The server receive timestamp, at byte offset 32.
    pub fn rx_time(&self) -> (r: Result<NTPTimestamp, LunartickError>)
        ensures
            match r {
                Ok(ts) => self.data@.len() >= 40 && ts == timestamp_at(self.data@, 32),
                Err(e) => self.data@.len() < 40 && e is ParseTimestampError,
            },
    {
        self.parse_timestamp(32)
    }

    /// The server transmit timestamp, at byte offset 40.
    pub fn tx_time(&self) -> (r: Result<NTPTimestamp, LunartickError>)
        ensures
            match r {
                Ok(ts) => self.data@.len() >= 48 && ts == timestamp_at(self.data@, 40),
                Err(e) => self.data@.len() < 48 && e is ParseTimestampError,
            },
    {
        self.parse_timestamp(40)
    }

    /// Decodes a server response: the receive and transmit timestamps, in
    /// that order. Any buffer shorter than 48 bytes is rejected with a
    /// `ParseTimestampError`.
    pub fn decode_response(&self) -> (r: Result<(NTPTimestamp, NTPTimestamp), LunartickError>)
        ensures
            match r {
                Ok(pair) => {
                    &&& self.data@.len() >= NTP_MESSAGE_LENGTH
                    &&& pair.0 == timestamp_at(self.data@, 32)
                    &&& pair.1 == timestamp_at(self.data@, 40)
                },
                Err(e) => self.data@.len() < NTP_MESSAGE_LENGTH && e is ParseTimestampError,
            },
    {
        let rx = self.rx_time()?;
        let tx = self.tx_time()?;
        Ok((rx, tx))
    }
}

} // verus!
