//! Dual-representation configuration values: the raw string exactly as
//! supplied beside the numeric value it names. A value is only ever
//! built by decoding, so the two can never disagree.

use vstd::prelude::*;

use crate::errors::ParseError;
use crate::parse::{
    byte_size_value, duration_value_ms, parse_byte_size, parse_duration, valid_byte_size,
    valid_duration,
};

verus! {

/// A byte-size field: the raw string as supplied, and the byte count it
/// names.
#[derive(Debug, Clone)]
pub struct ByteConfig {
    /// The original string, verbatim, never normalized.
    pub raw: String,
    /// The byte count `raw` names.
    pub parsed: u64,
}

impl ByteConfig {
    /// The invariant: `parsed` is the faithful decoding of `raw` under
    /// the byte-size grammar.
    pub open spec fn wf(self) -> bool {
        valid_byte_size(self.raw@) && byte_size_value(self.raw@) == self.parsed as int
    }

    /// Decode a raw byte-size string, keeping it verbatim beside its
    /// value. Fails exactly when the unit parser fails.
    pub fn decode(raw: String) -> (r: Result<ByteConfig, ParseError>)
        ensures
            match r {
                Ok(c) => c.wf() && c.raw@ == raw@ && valid_byte_size(raw@) && byte_size_value(raw@)
                    <= u64::MAX,
                Err(e) => match e {
                    ParseError::InvalidFormat => !valid_byte_size(raw@),
                    ParseError::Overflow => valid_byte_size(raw@) && byte_size_value(raw@)
                        > u64::MAX,
                },
            },
    {
        match parse_byte_size(raw.as_str()) {
            Ok(v) => Ok(ByteConfig { raw, parsed: v }),
            Err(e) => Err(e),
        }
    }
}

/// A duration field: the raw string as supplied, and the span it names
/// in milliseconds.
#[derive(Debug, Clone)]
pub struct TimeConfig {
    /// The original string, verbatim, never normalized.
    pub raw: String,
    /// The milliseconds `raw` names.
    pub parsed: u64,
}

impl TimeConfig {
    /// The invariant: `parsed` is the faithful decoding of `raw` under
    /// the duration grammar.
    pub open spec fn wf(self) -> bool {
        valid_duration(self.raw@) && duration_value_ms(self.raw@) == self.parsed as int
    }

    /// Decode a raw duration string, keeping it verbatim beside its
    /// value. Fails exactly when the unit parser fails.
    pub fn decode(raw: String) -> (r: Result<TimeConfig, ParseError>)
        ensures
            match r {
                Ok(c) => c.wf() && c.raw@ == raw@ && valid_duration(raw@) && duration_value_ms(raw@)
                    <= u64::MAX,
                Err(e) => match e {
                    ParseError::InvalidFormat => !valid_duration(raw@),
                    ParseError::Overflow => valid_duration(raw@) && duration_value_ms(raw@)
                        > u64::MAX,
                },
            },
    {
        match parse_duration(raw.as_str()) {
            Ok(v) => Ok(TimeConfig { raw, parsed: v }),
            Err(e) => Err(e),
        }
    }
}

} // verus!
