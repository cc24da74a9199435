//! The body-limit feature: a ceiling on request body sizes.
//!
//! The product default is on, with a ten-megabyte ceiling: a deployment
//! that writes nothing still gets a limit.

use vstd::prelude::*;

use crate::DisplayConfig;
use crate::document::{
    bool_ok, bool_or, byte_cause, byte_ok, byte_raw_or, doc_get, ConfigDoc, ConfigValue,
};
use crate::errors::{ConfigDecodeError, FieldCause};
use crate::parse::{
    byte_size_value, lemma_byte_size_of, lemma_digits_val_small, lemma_pow_tables, pow_of,
    unit_mult, valid_byte_size,
};
use crate::values::ByteConfig;

verus! {

/// `10MB` names ten million bytes: the decimal convention.
pub proof fn lemma_default_max_size()
    ensures
        valid_byte_size("10MB"@),
        byte_size_value("10MB"@) == 10_000_000,
{
    reveal_strlit("10MB");
    let ds = seq!['1', '0'];
    let us = seq!['M', 'B'];
    assert("10MB"@ =~= ds + us);
    lemma_digits_val_small('1', '0');
    lemma_pow_tables();
    assert(unit_mult(us) == Some(pow_of(1000, 2)));
    lemma_byte_size_of(ds, us, pow_of(1000, 2));
}

/// ### Body Limit Configuration
///
/// Configuration for the Body Limit Layer
/// This configuration allows you to set a maximum size for request bodies.
#[derive(Debug, Clone)]
pub struct BodyLimitConfig {
    /// Whether the limit is enforced. Defaults to true.
    pub enabled: bool,
    /// The maximum allowed size for request bodies (e.g., "1MB", "500KB").
    /// Defaults to "10MB".
    pub max_size: ByteConfig,
    /// Whether to display the configuration details. Defaults to false.
    pub display: bool,
}

/// Every field the decode consults is well-typed and parses.
pub open spec fn body_limit_fields_ok(d: Seq<(String, ConfigValue)>) -> bool {
    bool_ok(d, "enabled"@) && byte_ok(d, "max-size"@) && bool_ok(d, "display"@)
}

/// What decode produces for a document: each field from its entry, or
/// its declared default when absent.
pub open spec fn body_limit_decoded(d: Seq<(String, ConfigValue)>, c: BodyLimitConfig) -> bool {
    c.enabled == bool_or(d, "enabled"@, true) && c.max_size.wf() && c.max_size.raw@ == byte_raw_or(
        d,
        "max-size"@,
        "10MB"@,
    ) && c.display == bool_or(d, "display"@, false)
}

/// The error decode reports: the first field, in declared order, that
/// does not decode.
pub open spec fn body_limit_err(d: Seq<(String, ConfigValue)>, e: ConfigDecodeError) -> bool {
    let ok1 = bool_ok(d, "enabled"@);
    let ok2 = byte_ok(d, "max-size"@);
    let ok3 = bool_ok(d, "display"@);
    (!ok1 && crate::document::is_field_err(e, "enabled"@, FieldCause::WrongType)) || (ok1 && !ok2
        && crate::document::is_field_err(e, "max-size"@, byte_cause(d, "max-size"@))) || (ok1 && ok2
        && !ok3 && crate::document::is_field_err(e, "display"@, FieldCause::WrongType))
}

/// The size line of the diagnostics: always the raw string, verbatim.
pub open spec fn body_limit_size_line(c: BodyLimitConfig) -> Seq<char> {
    "  ->  Max Body Size: "@ + c.max_size.raw@
}

/// The diagnostic lines of a body-limit configuration: nothing when
/// `display` is off.
pub open spec fn body_limit_lines(c: BodyLimitConfig) -> Seq<Seq<char>> {
    if !c.display {
        Seq::empty()
    } else {
        seq!["Body Limit Configuration:"@, body_limit_size_line(c)]
    }
}

impl BodyLimitConfig {
    /// The parsed size faithfully decodes the raw string.
    pub open spec fn wf(self) -> bool {
        self.max_size.wf()
    }

    /// Decode a body-limit section: all fields or the first offending
    /// one, nothing partial.
    pub fn decode(doc: &ConfigDoc) -> (r: Result<BodyLimitConfig, ConfigDecodeError>)
        ensures
            match r {
                Ok(c) => body_limit_fields_ok(doc.entries@) && body_limit_decoded(doc.entries@, c)
                    && c.wf(),
                Err(e) => !body_limit_fields_ok(doc.entries@) && body_limit_err(doc.entries@, e),
            },
    {
        proof {
            lemma_default_max_size();
        }
        let enabled = match doc.get_bool_or("enabled", true) {
            Ok(v) => v,
            Err(e) => {
                return Err(e);
            },
        };
        let max_size = match doc.get_byte_or("max-size", "10MB") {
            Ok(v) => v,
            Err(e) => {
                return Err(e);
            },
        };
        let display = match doc.get_bool_or("display", crate::default_display()) {
            Ok(v) => v,
            Err(e) => {
                return Err(e);
            },
        };
        Ok(BodyLimitConfig { enabled, max_size, display })
    }

    /// The diagnostic lines: nothing when `display` is off, otherwise a
    /// heading and the size line showing the raw string verbatim.
    pub fn display_lines(&self) -> (r: Vec<String>)
        ensures
            crate::strutil::str_views(r@) == body_limit_lines(*self),
    {
        let mut r: Vec<String> = Vec::new();
        if self.display {
            r.push("Body Limit Configuration:".to_owned());
            let mut line = "  ->  Max Body Size: ".to_owned();
            line.append(self.max_size.raw.as_str());
            r.push(line);
        }
        proof {
            assert(crate::strutil::str_views(r@) =~~= body_limit_lines(*self));
        }
        r
    }
}

impl Default for BodyLimitConfig {
    /// The declared defaults: enforced, ten megabytes, diagnostics off.
    fn default() -> (c: Self)
        ensures
            c.enabled == true,
            c.max_size.raw@ == "10MB"@,
            c.max_size.parsed == 10_000_000,
            c.display == false,
            c.wf(),
    {
        proof {
            lemma_default_max_size();
        }
        let max_size = match ByteConfig::decode("10MB".to_owned()) {
            Ok(v) => v,
            Err(_) => unreached(),
        };
        BodyLimitConfig { enabled: true, max_size, display: false }
    }
}

impl DisplayConfig for BodyLimitConfig {
    open spec fn display_spec(&self) -> Seq<Seq<char>> {
        body_limit_lines(*self)
    }

    fn display(&self) -> Vec<String> {
        self.display_lines()
    }
}

/// Decoding an empty document gives exactly the declared default row:
/// enabled, `10MB` parsed as ten million bytes, diagnostics off.
pub proof fn lemma_body_limit_empty_decode(d: Seq<(String, ConfigValue)>, c: BodyLimitConfig)
    requires
        d.len() == 0,
        body_limit_decoded(d, c),
    ensures
        body_limit_fields_ok(d),
        c.enabled == true,
        c.max_size.raw@ == "10MB"@,
        c.max_size.parsed == 10_000_000,
        c.display == false,
{
    lemma_default_max_size();
}

/// What the diagnostics show for the size is the document's raw string,
/// verbatim: a decoded value never displays a re-rendered form.
pub proof fn lemma_body_limit_display_verbatim(
    d: Seq<(String, ConfigValue)>,
    c: BodyLimitConfig,
    raw: String,
)
    requires
        body_limit_decoded(d, c),
        doc_get(d, "max-size"@) == Some(ConfigValue::Str(raw)),
    ensures
        c.max_size.raw@ == raw@,
        body_limit_size_line(c) == "  ->  Max Body Size: "@ + raw@,
{
}

} // verus!
