//! Validation of the watch arguments: baud rate and open-timeout, each a
//! decimal numeral that must lie in a fixed inclusive range, and the
//! configuration record built from them.
use crate::decimal::{parse_u64, parseable_u64, parsed_u64};
use vstd::prelude::*;

verus! {

/// Lowest accepted baud rate.
pub const BAUD_MIN: u64 = 50;

/// Highest accepted baud rate.
pub const BAUD_MAX: u64 = 921600;

/// Lowest accepted open-timeout, in milliseconds.
pub const TIMEOUT_MIN: u64 = 10;

/// Highest accepted open-timeout, in milliseconds.
pub const TIMEOUT_MAX: u64 = 30000;

/// Why a textual argument was rejected.
#[derive(Clone, Copy, Debug, PartialEq, Eq, Structural)]
pub enum ValidationError {
    /// The text is not a decimal numeral the machine can hold.
    NotANumber,
    /// The text is a numeral, but its value lies outside the accepted range.
    OutOfRange,
}

/// `s` denotes a baud rate the tool accepts.
pub open spec fn baud_ok(s: Seq<char>) -> bool {
    parseable_u64(s) && BAUD_MIN <= parsed_u64(s) <= BAUD_MAX
}

/// `s` denotes an open-timeout the tool accepts.
pub open spec fn timeout_ok(s: Seq<char>) -> bool {
    parseable_u64(s) && TIMEOUT_MIN <= parsed_u64(s) <= TIMEOUT_MAX
}

/// Accept a baud argument exactly when it parses as a non-negative integer
/// within `[BAUD_MIN, BAUD_MAX]`.
pub fn baud_in_range(s: &str) -> (r: Result<u32, ValidationError>)
    ensures
        r is Ok <==> baud_ok(s@),
        r matches Ok(b) ==> b == parsed_u64(s@),
        !parseable_u64(s@) ==> r == Err::<u32, ValidationError>(ValidationError::NotANumber),
        parseable_u64(s@) && !(BAUD_MIN <= parsed_u64(s@) <= BAUD_MAX) ==> r == Err::<
            u32,
            ValidationError,
        >(ValidationError::OutOfRange),
{
    match parse_u64(s) {
        None => Err(ValidationError::NotANumber),
        Some(v) => {
            if BAUD_MIN <= v && v <= BAUD_MAX {
                Ok(v as u32)
            } else {
                Err(ValidationError::OutOfRange)
            }
        },
    }
}

/// Accept a timeout argument exactly when it parses as a non-negative
/// integer within `[TIMEOUT_MIN, TIMEOUT_MAX]`.
pub fn timeout_in_range(s: &str) -> (r: Result<u64, ValidationError>)
    ensures
        r is Ok <==> timeout_ok(s@),
        r matches Ok(t) ==> t == parsed_u64(s@),
        !parseable_u64(s@) ==> r == Err::<u64, ValidationError>(ValidationError::NotANumber),
        parseable_u64(s@) && !(TIMEOUT_MIN <= parsed_u64(s@) <= TIMEOUT_MAX) ==> r == Err::<
            u64,
            ValidationError,
        >(ValidationError::OutOfRange),
{
    match parse_u64(s) {
        None => Err(ValidationError::NotANumber),
        Some(v) => {
            if TIMEOUT_MIN <= v && v <= TIMEOUT_MAX {
                Ok(v)
            } else {
                Err(ValidationError::OutOfRange)
            }
        },
    }
}

/// The arguments of one watch invocation, validated before use: an invalid
/// baud rate or timeout never reaches the open step.
pub struct WatchConfig {
    /// Platform path or symbolic name of the port to open.
    pub port_name: String,
    /// Baud rate to open the port at.
    pub baud_rate: u32,
    /// Per-read timeout, in milliseconds.
    pub open_timeout_ms: u64,
}

impl WatchConfig {
    /// Both numeric fields lie in their accepted ranges.
    pub open spec fn wf(self) -> bool {
        &&& BAUD_MIN <= self.baud_rate <= BAUD_MAX
        &&& TIMEOUT_MIN <= self.open_timeout_ms <= TIMEOUT_MAX
    }

    /// Build a configuration, accepting exactly the in-range values.
    pub fn new(port_name: String, baud_rate: u32, open_timeout_ms: u64) -> (r: Result<
        WatchConfig,
        ValidationError,
    >)
        ensures
            r is Ok <==> (BAUD_MIN <= baud_rate <= BAUD_MAX && TIMEOUT_MIN <= open_timeout_ms
                <= TIMEOUT_MAX),
            r matches Ok(c) ==> c.wf() && c.port_name@ == port_name@ && c.baud_rate == baud_rate
                && c.open_timeout_ms == open_timeout_ms,
            r is Err ==> r == Err::<WatchConfig, ValidationError>(ValidationError::OutOfRange),
    {
        if BAUD_MIN <= baud_rate as u64 && baud_rate as u64 <= BAUD_MAX && TIMEOUT_MIN
            <= open_timeout_ms && open_timeout_ms <= TIMEOUT_MAX {
            Ok(WatchConfig { port_name, baud_rate, open_timeout_ms })
        } else {
            Err(ValidationError::OutOfRange)
        }
    }
}

} // verus!
