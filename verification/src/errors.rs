//! Error kinds shared by the whole library, and the classification rules
//! that the sampler and the OS-clock committer apply to them.

use vstd::prelude::*;

verus! {

/// The two text formats the clock parser understands.
#[derive(Debug, Clone, Copy, PartialEq, Eq, Structural)]
pub enum DateTimeFormat {
    RFC2822,
    RFC3339,
}

/// Every failure the library reports.
///
/// `ConnectionError` and `ParseTimestampError` are fatal to a whole sampling
/// batch; an `IO` failure only degrades one server's entry to "no result".
#[derive(Debug)]
pub enum LunartickError {
    /// Malformed input to the clock text parser.
    ParseDateTimeError(DateTimeFormat),
    /// The OS rejected the clock-set call; the payload is its message.
    SetError(String),
    /// A transport or timeout failure, carried as the OS message text.
    IO(String),
    /// A server address could not be resolved or connected.
    ConnectionError,
    /// A response packet could not be decoded.
    ParseTimestampError,
}

/// An error that aborts an entire sampling batch, rather than degrading a
/// single server's entry.
pub open spec fn is_fatal_spec(e: LunartickError) -> bool {
    e is ConnectionError || e is ParseTimestampError
}

/// Decides whether a per-server failure aborts the whole batch.
pub fn is_fatal(e: &LunartickError) -> (r: bool)
    ensures
        r == is_fatal_spec(*e),
{
    match e {
        LunartickError::ConnectionError => true,
        LunartickError::ParseTimestampError => true,
        _ => false,
    }
}

/// Maps the OS error code reported after a clock-set call: code 0 or no code
/// at all is success, any other code is a `SetError` carrying the message.
pub fn catch_os_error(code: Option<i32>, message: String) -> (r: Result<(), LunartickError>)
    ensures
        match r {
            Ok(_) => code is None || code == Some(0i32),
            Err(e) => {
                &&& e == LunartickError::SetError(message)
                &&& code is Some
                &&& code != Some(0i32)
            },
        },
{
    match code {
        Some(0) => Ok(()),
        Some(_) => Err(LunartickError::SetError(message)),
        None => Ok(()),
    }
}

impl LunartickError {
    /// An owned copy of this error, equal to it.
    pub fn duplicate(&self) -> (r: LunartickError)
        ensures
            r == *self,
    {
        match self {
            LunartickError::ParseDateTimeError(f) => LunartickError::ParseDateTimeError(*f),
            LunartickError::SetError(m) => LunartickError::SetError(m.clone()),
            LunartickError::IO(m) => LunartickError::IO(m.clone()),
            LunartickError::ConnectionError => LunartickError::ConnectionError,
            LunartickError::ParseTimestampError => LunartickError::ParseTimestampError,
        }
    }

    /// A short description of the error, in place of a `Display` impl.
    pub fn message(&self) -> (r: String)
        ensures
            self is SetError ==> r@ == self->SetError_0@,
            self is IO ==> r@ == self->IO_0@,
    {
        match self {
            LunartickError::ParseDateTimeError(DateTimeFormat::RFC2822) => {
                String::from_str("error parsing RFC2822")
            },
            LunartickError::ParseDateTimeError(DateTimeFormat::RFC3339) => {
                String::from_str("error parsing RFC3339")
            },
            LunartickError::SetError(m) => m.clone(),
            LunartickError::IO(m) => m.clone(),
            LunartickError::ConnectionError => String::from_str("error connecting to server"),
            LunartickError::ParseTimestampError => String::from_str("error parsing timestamp"),
        }
    }
}

} // verus!
