//! The request-timeout feature: a ceiling on request handling time.

use vstd::prelude::*;

use crate::DisplayConfig;
use crate::document::{
    bool_ok, bool_or, doc_get, is_field_err, time_cause, time_ok, time_raw_or, ConfigDoc,
    ConfigValue,
};
use crate::errors::{ConfigDecodeError, FieldCause};
use crate::parse::{
    duration_value_ms, lemma_digits_val_small, lemma_duration_of, valid_duration,
};
use crate::values::TimeConfig;

verus! {

/// `15s` names fifteen thousand milliseconds.
pub proof fn lemma_default_timeout()
    ensures
        valid_duration("15s"@),
        duration_value_ms("15s"@) == 15_000,
{
    reveal_strlit("15s");
    let ds = seq!['1', '5'];
    let us = seq!['s'];
    assert("15s"@ =~= ds + us);
    lemma_digits_val_small('1', '5');
    lemma_duration_of(ds, us, 1000);
}

/// ### Request Timeout Configuration
///
/// Configuration for the Request Timeout Layer
/// This configuration allows you to set a maximum duration for request handling.
#[derive(Debug, Clone)]
pub struct RequestTimeoutConfig {
    /// Boolean indicating if request timeout is enabled. Defaults to false.
    pub enabled: bool,
    /// The timeout duration as a string (e.g., "30s", "1m"). Defaults to "15s".
    pub timeout: TimeConfig,
    /// Whether to display the configuration details. Defaults to false.
    pub display: bool,
}

/// Every field the decode consults is well-typed and parses.
pub open spec fn req_timeout_fields_ok(d: Seq<(String, ConfigValue)>) -> bool {
    bool_ok(d, "enabled"@) && time_ok(d, "timeout"@) && bool_ok(d, "display"@)
}

/// What decode produces for a document: each field from its entry, or
/// its declared default when absent.
pub open spec fn req_timeout_decoded(d: Seq<(String, ConfigValue)>, c: RequestTimeoutConfig) -> bool {
    c.enabled == bool_or(d, "enabled"@, false) && c.timeout.wf() && c.timeout.raw@ == time_raw_or(
        d,
        "timeout"@,
        "15s"@,
    ) && c.display == bool_or(d, "display"@, false)
}

/// The error decode reports: the first field, in declared order, that
/// does not decode.
pub open spec fn req_timeout_err(d: Seq<(String, ConfigValue)>, e: ConfigDecodeError) -> bool {
    let ok1 = bool_ok(d, "enabled"@);
    let ok2 = time_ok(d, "timeout"@);
    let ok3 = bool_ok(d, "display"@);
    (!ok1 && is_field_err(e, "enabled"@, FieldCause::WrongType)) || (ok1 && !ok2 && is_field_err(
        e,
        "timeout"@,
        time_cause(d, "timeout"@),
    )) || (ok1 && ok2 && !ok3 && is_field_err(e, "display"@, FieldCause::WrongType))
}

/// The timeout line of the diagnostics: the raw string verbatim when
/// enabled, the word `disabled` otherwise.
pub open spec fn req_timeout_line(c: RequestTimeoutConfig) -> Seq<char> {
    if c.enabled {
        "  ->  Request Timeout: "@ + c.timeout.raw@
    } else {
        "  ->  Request Timeout: disabled"@
    }
}

/// The diagnostic lines of a request-timeout configuration: nothing
/// when `display` is off.
pub open spec fn req_timeout_lines(c: RequestTimeoutConfig) -> Seq<Seq<char>> {
    if !c.display {
        Seq::empty()
    } else {
        seq!["Request Timeout Configuration:"@, req_timeout_line(c)]
    }
}

impl RequestTimeoutConfig {
    /// The parsed duration faithfully decodes the raw string.
    pub open spec fn wf(self) -> bool {
        self.timeout.wf()
    }

    /// Decode a request-timeout section: all fields or the first
    /// offending one, nothing partial.
    pub fn decode(doc: &ConfigDoc) -> (r: Result<RequestTimeoutConfig, ConfigDecodeError>)
        ensures
            match r {
                Ok(c) => req_timeout_fields_ok(doc.entries@) && req_timeout_decoded(doc.entries@, c)
                    && c.wf(),
                Err(e) => !req_timeout_fields_ok(doc.entries@) && req_timeout_err(doc.entries@, e),
            },
    {
        proof {
            lemma_default_timeout();
        }
        let enabled = match doc.get_bool_or("enabled", false) {
            Ok(v) => v,
            Err(e) => {
                return Err(e);
            },
        };
        let timeout = match doc.get_time_or("timeout", "15s") {
            Ok(v) => v,
            Err(e) => {
                return Err(e);
            },
        };
        let display = match doc.get_bool_or("display", crate::default_display()) {
            Ok(v) => v,
            Err(e) => {
                return Err(e);
            },
        };
        Ok(RequestTimeoutConfig { enabled, timeout, display })
    }

    /// The diagnostic lines: nothing when `display` is off, otherwise a
    /// heading and the timeout line.
    pub fn display_lines(&self) -> (r: Vec<String>)
        ensures
            crate::strutil::str_views(r@) == req_timeout_lines(*self),
    {
        let mut r: Vec<String> = Vec::new();
        if self.display {
            r.push("Request Timeout Configuration:".to_owned());
            if self.enabled {
                let mut line = "  ->  Request Timeout: ".to_owned();
                line.append(self.timeout.raw.as_str());
                r.push(line);
            } else {
                r.push("  ->  Request Timeout: disabled".to_owned());
            }
        }
        proof {
            assert(crate::strutil::str_views(r@) =~~= req_timeout_lines(*self));
        }
        r
    }
}

impl Default for RequestTimeoutConfig {
    /// The declared defaults: off, fifteen seconds, diagnostics off.
    fn default() -> (c: Self)
        ensures
            c.enabled == false,
            c.timeout.raw@ == "15s"@,
            c.timeout.parsed == 15_000,
            c.display == false,
            c.wf(),
    {
        proof {
            lemma_default_timeout();
        }
        let timeout = match TimeConfig::decode("15s".to_owned()) {
            Ok(v) => v,
            Err(_) => unreached(),
        };
        RequestTimeoutConfig { enabled: false, timeout, display: false }
    }
}

impl DisplayConfig for RequestTimeoutConfig {
    open spec fn display_spec(&self) -> Seq<Seq<char>> {
        req_timeout_lines(*self)
    }

    fn display(&self) -> Vec<String> {
        self.display_lines()
    }
}

/// Decoding an empty document gives exactly the declared default row:
/// off, `15s` parsed as fifteen thousand milliseconds, diagnostics off.
pub proof fn lemma_req_timeout_empty_decode(d: Seq<(String, ConfigValue)>, c: RequestTimeoutConfig)
    requires
        d.len() == 0,
        req_timeout_decoded(d, c),
    ensures
        req_timeout_fields_ok(d),
        c.enabled == false,
        c.timeout.raw@ == "15s"@,
        c.timeout.parsed == 15_000,
        c.display == false,
{
    lemma_default_timeout();
}

/// What the diagnostics show for the timeout is the document's raw
/// string, verbatim, whenever the feature is enabled.
pub proof fn lemma_req_timeout_display_verbatim(
    d: Seq<(String, ConfigValue)>,
    c: RequestTimeoutConfig,
    raw: String,
)
    requires
        req_timeout_decoded(d, c),
        doc_get(d, "timeout"@) == Some(ConfigValue::Str(raw)),
        c.enabled,
    ensures
        c.timeout.raw@ == raw@,
        req_timeout_line(c) == "  ->  Request Timeout: "@ + raw@,
{
}

} // verus!
