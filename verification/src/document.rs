//! The generic configuration document and its typed field readers.
//!
//! A document is an ordered list of key-value entries, as a file loader
//! would hand it over. Reading a key consults the last entry with that
//! name (last value wins); unrecognized keys are simply never consulted.
//! Every reader either returns a fully-decoded value or an error naming
//! the offending field — never a partial result.

use vstd::prelude::*;

use crate::errors::{ConfigDecodeError, FieldCause, ParseError};
use crate::parse::{byte_size_value, duration_value_ms, valid_byte_size, valid_duration};
use crate::strutil::str_eq;
use crate::values::{ByteConfig, TimeConfig};

verus! {

/// One untyped value in a configuration document.
#[derive(Debug, Clone)]
pub enum ConfigValue {
    Bool(bool),
    UInt(u64),
    Str(String),
    StrList(Vec<String>),
}

/// A generic key-value configuration document.
#[derive(Debug, Clone)]
pub struct ConfigDoc {
    pub entries: Vec<(String, ConfigValue)>,
}

/// The value the document holds for a key: the last entry with that
/// name, if any.
pub open spec fn doc_get(entries: Seq<(String, ConfigValue)>, key: Seq<char>) -> Option<ConfigValue>
    decreases entries.len(),
{
    if entries.len() == 0 {
        None
    } else if entries.last().0@ == key {
        Some(entries.last().1)
    } else {
        doc_get(entries.drop_last(), key)
    }
}

/// `e` names field `k` with cause `c`.
pub open spec fn is_field_err(e: ConfigDecodeError, k: Seq<char>, c: FieldCause) -> bool {
    match e {
        ConfigDecodeError::FieldError { field, cause } => field@ == k && cause == c,
        _ => false,
    }
}

/// `e` reports field `k` as missing.
pub open spec fn is_missing_err(e: ConfigDecodeError, k: Seq<char>) -> bool {
    match e {
        ConfigDecodeError::MissingField { field } => field@ == k,
        _ => false,
    }
}

/// An optional boolean field is well-typed: absent, or a boolean.
pub open spec fn bool_ok(d: Seq<(String, ConfigValue)>, k: Seq<char>) -> bool {
    match doc_get(d, k) {
        None => true,
        Some(ConfigValue::Bool(_)) => true,
        Some(_) => false,
    }
}

/// The boolean a field names, or the default when absent.
pub open spec fn bool_or(d: Seq<(String, ConfigValue)>, k: Seq<char>, dflt: bool) -> bool {
    match doc_get(d, k) {
        Some(ConfigValue::Bool(b)) => b,
        _ => dflt,
    }
}

/// The boolean an optional field names, when present.
pub open spec fn bool_opt(d: Seq<(String, ConfigValue)>, k: Seq<char>) -> Option<bool> {
    match doc_get(d, k) {
        Some(ConfigValue::Bool(b)) => Some(b),
        _ => None,
    }
}

/// An optional unsigned field is well-typed: absent, or a number.
pub open spec fn uint_ok(d: Seq<(String, ConfigValue)>, k: Seq<char>) -> bool {
    match doc_get(d, k) {
        None => true,
        Some(ConfigValue::UInt(_)) => true,
        Some(_) => false,
    }
}

/// The number an optional field names, when present.
pub open spec fn uint_opt(d: Seq<(String, ConfigValue)>, k: Seq<char>) -> Option<u64> {
    match doc_get(d, k) {
        Some(ConfigValue::UInt(x)) => Some(x),
        _ => None,
    }
}

/// An optional string field is well-typed: absent, or a string.
pub open spec fn str_ok(d: Seq<(String, ConfigValue)>, k: Seq<char>) -> bool {
    match doc_get(d, k) {
        None => true,
        Some(ConfigValue::Str(_)) => true,
        Some(_) => false,
    }
}

/// The string a field names, or the default when absent.
pub open spec fn str_or(d: Seq<(String, ConfigValue)>, k: Seq<char>, dflt: Seq<char>) -> Seq<char> {
    match doc_get(d, k) {
        Some(ConfigValue::Str(s)) => s@,
        _ => dflt,
    }
}

/// The string an optional field names, when present.
pub open spec fn str_opt(d: Seq<(String, ConfigValue)>, k: Seq<char>) -> Option<Seq<char>> {
    match doc_get(d, k) {
        Some(ConfigValue::Str(s)) => Some(s@),
        _ => None,
    }
}

/// An optional string-list field is well-typed: absent, or a list.
pub open spec fn list_ok(d: Seq<(String, ConfigValue)>, k: Seq<char>) -> bool {
    match doc_get(d, k) {
        None => true,
        Some(ConfigValue::StrList(_)) => true,
        Some(_) => false,
    }
}

/// The list an optional field names, when present, as character
/// sequences.
pub open spec fn list_opt(d: Seq<(String, ConfigValue)>, k: Seq<char>) -> Option<Seq<Seq<char>>> {
    match doc_get(d, k) {
        Some(ConfigValue::StrList(l)) => Some(crate::strutil::str_views(l@)),
        _ => None,
    }
}

/// An optional byte-size field decodes: absent, or a string the
/// byte-size grammar accepts with a value that fits.
pub open spec fn byte_ok(d: Seq<(String, ConfigValue)>, k: Seq<char>) -> bool {
    match doc_get(d, k) {
        None => true,
        Some(ConfigValue::Str(s)) => valid_byte_size(s@) && byte_size_value(s@) <= u64::MAX,
        Some(_) => false,
    }
}

/// The raw byte-size string a field names, or the default when absent.
pub open spec fn byte_raw_or(d: Seq<(String, ConfigValue)>, k: Seq<char>, dflt: Seq<char>) -> Seq<
    char,
> {
    match doc_get(d, k) {
        Some(ConfigValue::Str(s)) => s@,
        _ => dflt,
    }
}

/// Why a present byte-size field was rejected.
pub open spec fn byte_cause(d: Seq<(String, ConfigValue)>, k: Seq<char>) -> FieldCause {
    match doc_get(d, k) {
        Some(ConfigValue::Str(s)) => if !valid_byte_size(s@) {
            FieldCause::Parse(ParseError::InvalidFormat)
        } else {
            FieldCause::Parse(ParseError::Overflow)
        },
        _ => FieldCause::WrongType,
    }
}

/// An optional duration field decodes: absent, or a string the duration
/// grammar accepts with a value that fits.
pub open spec fn time_ok(d: Seq<(String, ConfigValue)>, k: Seq<char>) -> bool {
    match doc_get(d, k) {
        None => true,
        Some(ConfigValue::Str(s)) => valid_duration(s@) && duration_value_ms(s@) <= u64::MAX,
        Some(_) => false,
    }
}

/// The raw duration string a field names, or the default when absent.
pub open spec fn time_raw_or(d: Seq<(String, ConfigValue)>, k: Seq<char>, dflt: Seq<char>) -> Seq<
    char,
> {
    match doc_get(d, k) {
        Some(ConfigValue::Str(s)) => s@,
        _ => dflt,
    }
}

/// Why a present duration field was rejected.
pub open spec fn time_cause(d: Seq<(String, ConfigValue)>, k: Seq<char>) -> FieldCause {
    match doc_get(d, k) {
        Some(ConfigValue::Str(s)) => if !valid_duration(s@) {
            FieldCause::Parse(ParseError::InvalidFormat)
        } else {
            FieldCause::Parse(ParseError::Overflow)
        },
        _ => FieldCause::WrongType,
    }
}

impl ConfigDoc {
    /// An empty document.
    pub fn new() -> (d: ConfigDoc)
        ensures
            d.entries@.len() == 0,
    {
        ConfigDoc { entries: Vec::new() }
    }

    /// Append one entry. A repeated key shadows the earlier entry: the
    /// last value wins.
    pub fn insert(&mut self, key: String, value: ConfigValue)
        ensures
            final(self).entries@ == old(self).entries@.push((key, value)),
    {
        self.entries.push((key, value));
    }

    /// The entry a key names, if any: the last one with that name.
    pub fn get(&self, key: &str) -> (r: Option<&ConfigValue>)
        ensures
            ({
                let g = doc_get(self.entries@, key@);
                match r {
                    Some(rv) => g == Some(*rv),
                    None => g is None,
                }
            }),
    {
        let n = self.entries.len();
        let mut i = n;
        proof {
            assert(self.entries@.take(n as int) =~= self.entries@);
        }
        while i > 0
            invariant
                0 <= i <= n,
                n == self.entries@.len(),
                doc_get(self.entries@, key@) == doc_get(self.entries@.take(i as int), key@),
            decreases i,
        {
            let e = &self.entries[i - 1];
            proof {
                assert(self.entries@.take(i as int).last() == self.entries@[i - 1]);
                assert(self.entries@.take(i as int).drop_last() =~= self.entries@.take(i - 1));
            }
            if str_eq(e.0.as_str(), key) {
                return Some(&e.1);
            }
            i -= 1;
        }
        proof {
            assert(self.entries@.take(0) =~= Seq::<(String, ConfigValue)>::empty());
        }
        None
    }

    /// Read an optional boolean field, with its default.
    pub fn get_bool_or(&self, key: &str, dflt: bool) -> (r: Result<bool, ConfigDecodeError>)
        ensures
            match r {
                Ok(b) => bool_ok(self.entries@, key@) && b == bool_or(self.entries@, key@, dflt),
                Err(e) => !bool_ok(self.entries@, key@) && is_field_err(
                    e,
                    key@,
                    FieldCause::WrongType,
                ),
            },
    {
        match self.get(key) {
            None => Ok(dflt),
            Some(ConfigValue::Bool(b)) => Ok(*b),
            Some(_) => Err(
                ConfigDecodeError::FieldError { field: key.to_owned(), cause: FieldCause::WrongType },
            ),
        }
    }

    /// Read a required boolean field.
    pub fn get_bool_req(&self, key: &str) -> (r: Result<bool, ConfigDecodeError>)
        ensures
            match r {
                Ok(b) => doc_get(self.entries@, key@) == Some(ConfigValue::Bool(b)),
                Err(e) => match doc_get(self.entries@, key@) {
                    None => is_missing_err(e, key@),
                    Some(v) => !(v is Bool) && is_field_err(e, key@, FieldCause::WrongType),
                },
            },
    {
        match self.get(key) {
            None => Err(ConfigDecodeError::MissingField { field: key.to_owned() }),
            Some(ConfigValue::Bool(b)) => Ok(*b),
            Some(_) => Err(
                ConfigDecodeError::FieldError { field: key.to_owned(), cause: FieldCause::WrongType },
            ),
        }
    }

    /// Read an optional boolean field with no default.
    pub fn get_bool_opt(&self, key: &str) -> (r: Result<Option<bool>, ConfigDecodeError>)
        ensures
            match r {
                Ok(x) => bool_ok(self.entries@, key@) && x == bool_opt(self.entries@, key@),
                Err(e) => !bool_ok(self.entries@, key@) && is_field_err(
                    e,
                    key@,
                    FieldCause::WrongType,
                ),
            },
    {
        match self.get(key) {
            None => Ok(None),
            Some(ConfigValue::Bool(b)) => Ok(Some(*b)),
            Some(_) => Err(
                ConfigDecodeError::FieldError { field: key.to_owned(), cause: FieldCause::WrongType },
            ),
        }
    }

    /// Read an optional unsigned field.
    pub fn get_uint_opt(&self, key: &str) -> (r: Result<Option<u64>, ConfigDecodeError>)
        ensures
            match r {
                Ok(x) => uint_ok(self.entries@, key@) && x == uint_opt(self.entries@, key@),
                Err(e) => !uint_ok(self.entries@, key@) && is_field_err(
                    e,
                    key@,
                    FieldCause::WrongType,
                ),
            },
    {
        match self.get(key) {
            None => Ok(None),
            Some(ConfigValue::UInt(x)) => Ok(Some(*x)),
            Some(_) => Err(
                ConfigDecodeError::FieldError { field: key.to_owned(), cause: FieldCause::WrongType },
            ),
        }
    }

    /// Read an optional unsigned field, with its default.
    pub fn get_uint_or(&self, key: &str, dflt: u64) -> (r: Result<u64, ConfigDecodeError>)
        ensures
            match r {
                Ok(x) => uint_ok(self.entries@, key@) && x == (match uint_opt(self.entries@, key@) {
                    Some(g) => g,
                    None => dflt,
                }),
                Err(e) => !uint_ok(self.entries@, key@) && is_field_err(
                    e,
                    key@,
                    FieldCause::WrongType,
                ),
            },
    {
        match self.get(key) {
            None => Ok(dflt),
            Some(ConfigValue::UInt(x)) => Ok(*x),
            Some(_) => Err(
                ConfigDecodeError::FieldError { field: key.to_owned(), cause: FieldCause::WrongType },
            ),
        }
    }

    /// Read an optional string field, with its default.
    pub fn get_str_or(&self, key: &str, dflt: &str) -> (r: Result<String, ConfigDecodeError>)
        ensures
            match r {
                Ok(s) => str_ok(self.entries@, key@) && s@ == str_or(self.entries@, key@, dflt@),
                Err(e) => !str_ok(self.entries@, key@) && is_field_err(
                    e,
                    key@,
                    FieldCause::WrongType,
                ),
            },
    {
        match self.get(key) {
            None => Ok(dflt.to_owned()),
            Some(ConfigValue::Str(s)) => Ok(s.clone()),
            Some(_) => Err(
                ConfigDecodeError::FieldError { field: key.to_owned(), cause: FieldCause::WrongType },
            ),
        }
    }

    /// Read an optional string field with no default.
    pub fn get_str_opt(&self, key: &str) -> (r: Result<Option<String>, ConfigDecodeError>)
        ensures
            match r {
                Ok(s) => str_ok(self.entries@, key@) && ({
                    match (s, str_opt(self.entries@, key@)) {
                        (Some(sv), Some(gv)) => sv@ == gv,
                        (None, None) => true,
                        _ => false,
                    }
                }),
                Err(e) => !str_ok(self.entries@, key@) && is_field_err(
                    e,
                    key@,
                    FieldCause::WrongType,
                ),
            },
    {
        match self.get(key) {
            None => Ok(None),
            Some(ConfigValue::Str(s)) => Ok(Some(s.clone())),
            Some(_) => Err(
                ConfigDecodeError::FieldError { field: key.to_owned(), cause: FieldCause::WrongType },
            ),
        }
    }

    /// Read a required string field.
    pub fn get_str_req(&self, key: &str) -> (r: Result<String, ConfigDecodeError>)
        ensures
            match r {
                Ok(s) => str_opt(self.entries@, key@) == Some(s@),
                Err(e) => match doc_get(self.entries@, key@) {
                    None => is_missing_err(e, key@),
                    Some(v) => !(v is Str) && is_field_err(e, key@, FieldCause::WrongType),
                },
            },
    {
        match self.get(key) {
            None => Err(ConfigDecodeError::MissingField { field: key.to_owned() }),
            Some(ConfigValue::Str(s)) => Ok(s.clone()),
            Some(_) => Err(
                ConfigDecodeError::FieldError { field: key.to_owned(), cause: FieldCause::WrongType },
            ),
        }
    }

    /// Read an optional string-list field with no default.
    pub fn get_list_opt(&self, key: &str) -> (r: Result<Option<Vec<String>>, ConfigDecodeError>)
        ensures
            match r {
                Ok(s) => list_ok(self.entries@, key@) && ({
                    match (s, list_opt(self.entries@, key@)) {
                        (Some(sv), Some(gv)) => crate::strutil::str_views(sv@) == gv,
                        (None, None) => true,
                        _ => false,
                    }
                }),
                Err(e) => !list_ok(self.entries@, key@) && is_field_err(
                    e,
                    key@,
                    FieldCause::WrongType,
                ),
            },
    {
        match self.get(key) {
            None => Ok(None),
            Some(ConfigValue::StrList(l)) => Ok(Some(crate::strutil::clone_str_list(l))),
            Some(_) => Err(
                ConfigDecodeError::FieldError { field: key.to_owned(), cause: FieldCause::WrongType },
            ),
        }
    }

    /// Read an optional string-list field that defaults to no entries.
    pub fn get_list_or_empty(&self, key: &str) -> (r: Result<Vec<String>, ConfigDecodeError>)
        ensures
            match r {
                Ok(s) => list_ok(self.entries@, key@) && ({
                    match list_opt(self.entries@, key@) {
                        Some(gv) => crate::strutil::str_views(s@) == gv,
                        None => s@.len() == 0,
                    }
                }),
                Err(e) => !list_ok(self.entries@, key@) && is_field_err(
                    e,
                    key@,
                    FieldCause::WrongType,
                ),
            },
    {
        match self.get(key) {
            None => Ok(Vec::new()),
            Some(ConfigValue::StrList(l)) => Ok(crate::strutil::clone_str_list(l)),
            Some(_) => Err(
                ConfigDecodeError::FieldError { field: key.to_owned(), cause: FieldCause::WrongType },
            ),
        }
    }

    /// Read an optional byte-size field, with its default raw string.
    pub fn get_byte_or(&self, key: &str, dflt: &str) -> (r: Result<ByteConfig, ConfigDecodeError>)
        requires
            valid_byte_size(dflt@),
            byte_size_value(dflt@) <= u64::MAX,
        ensures
            match r {
                Ok(c) => byte_ok(self.entries@, key@) && c.wf() && c.raw@ == byte_raw_or(
                    self.entries@,
                    key@,
                    dflt@,
                ),
                Err(e) => !byte_ok(self.entries@, key@) && is_field_err(
                    e,
                    key@,
                    byte_cause(self.entries@, key@),
                ),
            },
    {
        match self.get(key) {
            None => {
                match ByteConfig::decode(dflt.to_owned()) {
                    Ok(c) => Ok(c),
                    Err(_) => unreached(),
                }
            },
            Some(ConfigValue::Str(s)) => {
                match ByteConfig::decode(s.clone()) {
                    Ok(c) => Ok(c),
                    Err(pe) => Err(
                        ConfigDecodeError::FieldError {
                            field: key.to_owned(),
                            cause: FieldCause::Parse(pe),
                        },
                    ),
                }
            },
            Some(_) => Err(
                ConfigDecodeError::FieldError { field: key.to_owned(), cause: FieldCause::WrongType },
            ),
        }
    }

    /// Read an optional byte-size field with no default.
    pub fn get_byte_opt(&self, key: &str) -> (r: Result<Option<ByteConfig>, ConfigDecodeError>)
        ensures
            match r {
                Ok(c) => byte_ok(self.entries@, key@) && ({
                    match (c, doc_get(self.entries@, key@)) {
                        (Some(cv), Some(ConfigValue::Str(s))) => cv.wf() && cv.raw@ == s@,
                        (None, None) => true,
                        _ => false,
                    }
                }),
                Err(e) => !byte_ok(self.entries@, key@) && is_field_err(
                    e,
                    key@,
                    byte_cause(self.entries@, key@),
                ),
            },
    {
        match self.get(key) {
            None => Ok(None),
            Some(ConfigValue::Str(s)) => {
                match ByteConfig::decode(s.clone()) {
                    Ok(c) => Ok(Some(c)),
                    Err(pe) => Err(
                        ConfigDecodeError::FieldError {
                            field: key.to_owned(),
                            cause: FieldCause::Parse(pe),
                        },
                    ),
                }
            },
            Some(_) => Err(
                ConfigDecodeError::FieldError { field: key.to_owned(), cause: FieldCause::WrongType },
            ),
        }
    }

    /// Read a required byte-size field.
    pub fn get_byte_req(&self, key: &str) -> (r: Result<ByteConfig, ConfigDecodeError>)
        ensures
            match r {
                Ok(c) => c.wf() && ({
                    match doc_get(self.entries@, key@) {
                        Some(ConfigValue::Str(s)) => c.raw@ == s@,
                        _ => false,
                    }
                }),
                Err(e) => match doc_get(self.entries@, key@) {
                    None => is_missing_err(e, key@),
                    Some(v) => !byte_ok(self.entries@, key@) && is_field_err(
                        e,
                        key@,
                        byte_cause(self.entries@, key@),
                    ),
                },
            },
    {
        match self.get(key) {
            None => Err(ConfigDecodeError::MissingField { field: key.to_owned() }),
            Some(ConfigValue::Str(s)) => {
                match ByteConfig::decode(s.clone()) {
                    Ok(c) => Ok(c),
                    Err(pe) => Err(
                        ConfigDecodeError::FieldError {
                            field: key.to_owned(),
                            cause: FieldCause::Parse(pe),
                        },
                    ),
                }
            },
            Some(_) => Err(
                ConfigDecodeError::FieldError { field: key.to_owned(), cause: FieldCause::WrongType },
            ),
        }
    }

    /// Read an optional duration field, with its default raw string.
    pub fn get_time_or(&self, key: &str, dflt: &str) -> (r: Result<TimeConfig, ConfigDecodeError>)
        requires
            valid_duration(dflt@),
            duration_value_ms(dflt@) <= u64::MAX,
        ensures
            match r {
                Ok(c) => time_ok(self.entries@, key@) && c.wf() && c.raw@ == time_raw_or(
                    self.entries@,
                    key@,
                    dflt@,
                ),
                Err(e) => !time_ok(self.entries@, key@) && is_field_err(
                    e,
                    key@,
                    time_cause(self.entries@, key@),
                ),
            },
    {
        match self.get(key) {
            None => {
                match TimeConfig::decode(dflt.to_owned()) {
                    Ok(c) => Ok(c),
                    Err(_) => unreached(),
                }
            },
            Some(ConfigValue::Str(s)) => {
                match TimeConfig::decode(s.clone()) {
                    Ok(c) => Ok(c),
                    Err(pe) => Err(
                        ConfigDecodeError::FieldError {
                            field: key.to_owned(),
                            cause: FieldCause::Parse(pe),
                        },
                    ),
                }
            },
            Some(_) => Err(
                ConfigDecodeError::FieldError { field: key.to_owned(), cause: FieldCause::WrongType },
            ),
        }
    }

    /// Read an optional duration field with no default.
    pub fn get_time_opt(&self, key: &str) -> (r: Result<Option<TimeConfig>, ConfigDecodeError>)
        ensures
            match r {
                Ok(c) => time_ok(self.entries@, key@) && ({
                    match (c, doc_get(self.entries@, key@)) {
                        (Some(cv), Some(ConfigValue::Str(s))) => cv.wf() && cv.raw@ == s@,
                        (None, None) => true,
                        _ => false,
                    }
                }),
                Err(e) => !time_ok(self.entries@, key@) && is_field_err(
                    e,
                    key@,
                    time_cause(self.entries@, key@),
                ),
            },
    {
        match self.get(key) {
            None => Ok(None),
            Some(ConfigValue::Str(s)) => {
                match TimeConfig::decode(s.clone()) {
                    Ok(c) => Ok(Some(c)),
                    Err(pe) => Err(
                        ConfigDecodeError::FieldError {
                            field: key.to_owned(),
                            cause: FieldCause::Parse(pe),
                        },
                    ),
                }
            },
            Some(_) => Err(
                ConfigDecodeError::FieldError { field: key.to_owned(), cause: FieldCause::WrongType },
            ),
        }
    }

    /// Read a required duration field.
    pub fn get_time_req(&self, key: &str) -> (r: Result<TimeConfig, ConfigDecodeError>)
        ensures
            match r {
                Ok(c) => c.wf() && ({
                    match doc_get(self.entries@, key@) {
                        Some(ConfigValue::Str(s)) => c.raw@ == s@,
                        _ => false,
                    }
                }),
                Err(e) => match doc_get(self.entries@, key@) {
                    None => is_missing_err(e, key@),
                    Some(v) => !time_ok(self.entries@, key@) && is_field_err(
                        e,
                        key@,
                        time_cause(self.entries@, key@),
                    ),
                },
            },
    {
        match self.get(key) {
            None => Err(ConfigDecodeError::MissingField { field: key.to_owned() }),
            Some(ConfigValue::Str(s)) => {
                match TimeConfig::decode(s.clone()) {
                    Ok(c) => Ok(c),
                    Err(pe) => Err(
                        ConfigDecodeError::FieldError {
                            field: key.to_owned(),
                            cause: FieldCause::Parse(pe),
                        },
                    ),
                }
            },
            Some(_) => Err(
                ConfigDecodeError::FieldError { field: key.to_owned(), cause: FieldCause::WrongType },
            ),
        }
    }
}

} // verus!
