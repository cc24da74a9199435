//! Error taxonomy for unit parsing and configuration decoding.

use vstd::prelude::*;

verus! {

/// Why a raw size or duration string was rejected by the unit parser.
#[derive(Clone, Copy, Debug, PartialEq, Eq, Structural)]
pub enum ParseError {
    /// The string does not match the `<number><unit>` grammar.
    InvalidFormat,
    /// The string matches the grammar but its value does not fit in `u64`.
    Overflow,
}

/// Why a recognized configuration field was rejected.
#[derive(Clone, Copy, Debug, PartialEq, Eq, Structural)]
pub enum FieldCause {
    /// The field held a value of the wrong shape, e.g. a number where a
    /// string was expected.
    WrongType,
    /// The field held a size or duration string that the unit parser
    /// rejected.
    Parse(ParseError),
}

/// A failed decode of one feature section. Decoding is all-or-nothing:
/// the first offending field is reported and no partial configuration is
/// returned.
#[derive(Clone, Debug, PartialEq, Eq)]
pub enum ConfigDecodeError {
    /// A field with no declared default was absent from the input.
    MissingField { field: String },
    /// A present field was rejected; `field` names it and `cause` says why.
    FieldError { field: String, cause: FieldCause },
}

impl ParseError {
    /// The words of the failure.
    pub open spec fn spec_describe(self) -> Seq<char> {
        match self {
            ParseError::InvalidFormat => "invalid format"@,
            ParseError::Overflow => "value out of range"@,
        }
    }

    /// The failure as a human-readable phrase.
    pub fn describe(&self) -> (s: String)
        ensures
            s@ == self.spec_describe(),
    {
        match self {
            ParseError::InvalidFormat => "invalid format".to_owned(),
            ParseError::Overflow => "value out of range".to_owned(),
        }
    }
}

impl FieldCause {
    /// The words of the cause.
    pub open spec fn spec_describe(self) -> Seq<char> {
        match self {
            FieldCause::WrongType => "wrong type"@,
            FieldCause::Parse(p) => p.spec_describe(),
        }
    }

    /// The cause as a human-readable phrase.
    pub fn describe(&self) -> (s: String)
        ensures
            s@ == self.spec_describe(),
    {
        match self {
            FieldCause::WrongType => "wrong type".to_owned(),
            FieldCause::Parse(p) => p.describe(),
        }
    }
}

impl ConfigDecodeError {
    /// The words of the decode failure: always naming the field.
    pub open spec fn spec_describe(self) -> Seq<char> {
        match self {
            ConfigDecodeError::MissingField { field } => "missing field `"@ + field@ + "`"@,
            ConfigDecodeError::FieldError { field, cause } => "invalid field `"@ + field@ + "`: "@
                + cause.spec_describe(),
        }
    }

    /// The failure as one human-readable line naming the field, for the
    /// startup message of a caller that aborts on it.
    pub fn describe(&self) -> (s: String)
        ensures
            s@ == self.spec_describe(),
    {
        match self {
            ConfigDecodeError::MissingField { field } => {
                let mut s = "missing field `".to_owned();
                s.append(field.as_str());
                s.append("`");
                s
            },
            ConfigDecodeError::FieldError { field, cause } => {
                let mut s = "invalid field `".to_owned();
                s.append(field.as_str());
                s.append("`: ");
                let c = cause.describe();
                s.append(c.as_str());
                s
            },
        }
    }
}

} // verus!
