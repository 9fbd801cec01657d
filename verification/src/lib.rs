//! NTP clock synchronization core: the timestamp codec, the 48-byte probe
//! message, round-trip delay/offset arithmetic, the multi-server sampler
//! policy, the weighted combiner, and a fixed-offset clock value.

pub mod errors;
pub mod codec;
pub mod message;
pub mod sample;
pub mod sampler;
pub mod combiner;
pub mod clock;

pub use clock::Clock;
pub use errors::{DateTimeFormat, LunartickError};
pub use codec::NTPTimestamp;
pub use message::NTPMessage;
pub use sample::NTPResult;
pub use sampler::{NTPClient, TestResults};
