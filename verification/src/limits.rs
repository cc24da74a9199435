//! The flat limit sections: body-size and timeout configurations that
//! keep the raw string and its parsed value as plain side-by-side
//! fields, read from sections keyed `max_size` and `duration`. Every
//! recognized key is optional; absence means the declared default.

use vstd::prelude::*;

use crate::document::{
    bool_ok, bool_or, byte_cause, byte_ok, byte_raw_or, doc_get, is_field_err, time_cause,
    time_ok, time_raw_or, ConfigDoc, ConfigValue,
};
use crate::errors::{ConfigDecodeError, FieldCause};
use crate::parse::{byte_size_value, duration_value_ms, valid_byte_size, valid_duration};
use crate::req_timeout::lemma_default_timeout;
use crate::values::{ByteConfig, TimeConfig};

verus! {

/// A body-size limit whose raw string and byte count sit side by side.
#[derive(Debug, Clone)]
pub struct BodyLimit {
    /// Whether the limit is enforced. Defaults to true.
    pub enabled: bool,
    /// The raw size string, verbatim. Defaults to "10MB".
    pub max_size: String,
    /// The byte count `max_size` names.
    pub parsed: u64,
    /// Whether to display the configuration details. Defaults to false.
    pub display: bool,
}

/// Every field the decode consults is well-typed and parses.
pub open spec fn body_limit_flat_ok(d: Seq<(String, ConfigValue)>) -> bool {
    bool_ok(d, "enabled"@) && byte_ok(d, "max_size"@) && bool_ok(d, "display"@)
}

/// What decode produces for a document: each field from its entry, or
/// its declared default when absent.
pub open spec fn body_limit_flat_decoded(d: Seq<(String, ConfigValue)>, c: BodyLimit) -> bool {
    c.enabled == bool_or(d, "enabled"@, true) && c.max_size@ == byte_raw_or(
        d,
        "max_size"@,
        "10MB"@,
    ) && valid_byte_size(c.max_size@) && byte_size_value(c.max_size@) == c.parsed as int
        && c.display == bool_or(d, "display"@, false)
}

/// The error decode reports: the first field, in declared order, that
/// does not decode.
pub open spec fn body_limit_flat_err(d: Seq<(String, ConfigValue)>, e: ConfigDecodeError) -> bool {
    let ok1 = bool_ok(d, "enabled"@);
    let ok2 = byte_ok(d, "max_size"@);
    let ok3 = bool_ok(d, "display"@);
    (!ok1 && is_field_err(e, "enabled"@, FieldCause::WrongType)) || (ok1 && !ok2 && is_field_err(
        e,
        "max_size"@,
        byte_cause(d, "max_size"@),
    )) || (ok1 && ok2 && !ok3 && is_field_err(e, "display"@, FieldCause::WrongType))
}

/// The body line of the diagnostics: the raw size verbatim when
/// enabled, the word `disabled` otherwise.
pub open spec fn body_limit_flat_line(c: BodyLimit) -> Seq<char> {
    if c.enabled {
        "  ->  Max Body Size: "@ + c.max_size@
    } else {
        "  ->  Max Body Size: disabled"@
    }
}

/// The diagnostic lines of a flat body limit: nothing when `display`
/// is off.
pub open spec fn body_limit_flat_lines(c: BodyLimit) -> Seq<Seq<char>> {
    if !c.display {
        Seq::empty()
    } else {
        seq![body_limit_flat_line(c)]
    }
}

impl BodyLimit {
    /// The parsed size faithfully decodes the raw string.
    pub open spec fn wf(self) -> bool {
        valid_byte_size(self.max_size@) && byte_size_value(self.max_size@) == self.parsed as int
    }

    /// Decode a flat body-limit section: all fields or the first
    /// offending one, nothing partial.
    pub fn decode(doc: &ConfigDoc) -> (r: Result<BodyLimit, ConfigDecodeError>)
        ensures
            match r {
                Ok(c) => body_limit_flat_ok(doc.entries@) && body_limit_flat_decoded(
                    doc.entries@,
                    c,
                ) && c.wf(),
                Err(e) => !body_limit_flat_ok(doc.entries@) && body_limit_flat_err(doc.entries@, e),
            },
    {
        proof {
            crate::body_limit::lemma_default_max_size();
        }
        let enabled = match doc.get_bool_or("enabled", true) {
            Ok(v) => v,
            Err(e) => {
                return Err(e);
            },
        };
        let max_size = match doc.get_byte_or("max_size", "10MB") {
            Ok(v) => v,
            Err(e) => {
                return Err(e);
            },
        };
        let display = match doc.get_bool_or("display", crate::default_display()) {
            Ok(v) => v,
            Err(e) => {
                return Err(e);
            },
        };
        Ok(BodyLimit { enabled, max_size: max_size.raw, parsed: max_size.parsed, display })
    }

    /// The diagnostic lines: nothing when `display` is off, otherwise
    /// the body line.
    pub fn display_lines(&self) -> (r: Vec<String>)
        ensures
            crate::strutil::str_views(r@) == body_limit_flat_lines(*self),
    {
        let mut r: Vec<String> = Vec::new();
        if self.display {
            if self.enabled {
                let mut line = "  ->  Max Body Size: ".to_owned();
                line.append(self.max_size.as_str());
                r.push(line);
            } else {
                r.push("  ->  Max Body Size: disabled".to_owned());
            }
        }
        proof {
            assert(crate::strutil::str_views(r@) =~~= body_limit_flat_lines(*self));
        }
        r
    }
}

impl Default for BodyLimit {
    /// The declared defaults: enforced, ten megabytes, diagnostics off.
    fn default() -> (c: Self)
        ensures
            c.enabled == true,
            c.max_size@ == "10MB"@,
            c.parsed == 10_000_000,
            c.display == false,
            c.wf(),
    {
        proof {
            crate::body_limit::lemma_default_max_size();
        }
        let max_size = match ByteConfig::decode("10MB".to_owned()) {
            Ok(v) => v,
            Err(_) => unreached(),
        };
        BodyLimit { enabled: true, max_size: max_size.raw, parsed: max_size.parsed, display: false }
    }
}

/// A request timeout whose raw string and millisecond count sit side by
/// side.
#[derive(Debug, Clone)]
pub struct TimeoutLimit {
    /// Whether the timeout is enforced. Defaults to false.
    pub enabled: bool,
    /// The raw duration string, verbatim. Defaults to "15s".
    pub duration: String,
    /// The milliseconds `duration` names.
    pub parsed: u64,
    /// Whether to display the configuration details. Defaults to false.
    pub display: bool,
}

/// Every field the decode consults is well-typed and parses.
pub open spec fn timeout_flat_ok(d: Seq<(String, ConfigValue)>) -> bool {
    bool_ok(d, "enabled"@) && time_ok(d, "duration"@) && bool_ok(d, "display"@)
}

/// What decode produces for a document: each field from its entry, or
/// its declared default when absent.
pub open spec fn timeout_flat_decoded(d: Seq<(String, ConfigValue)>, c: TimeoutLimit) -> bool {
    c.enabled == bool_or(d, "enabled"@, false) && c.duration@ == time_raw_or(
        d,
        "duration"@,
        "15s"@,
    ) && valid_duration(c.duration@) && duration_value_ms(c.duration@) == c.parsed as int
        && c.display == bool_or(d, "display"@, false)
}

/// The error decode reports: the first field, in declared order, that
/// does not decode.
pub open spec fn timeout_flat_err(d: Seq<(String, ConfigValue)>, e: ConfigDecodeError) -> bool {
    let ok1 = bool_ok(d, "enabled"@);
    let ok2 = time_ok(d, "duration"@);
    let ok3 = bool_ok(d, "display"@);
    (!ok1 && is_field_err(e, "enabled"@, FieldCause::WrongType)) || (ok1 && !ok2 && is_field_err(
        e,
        "duration"@,
        time_cause(d, "duration"@),
    )) || (ok1 && ok2 && !ok3 && is_field_err(e, "display"@, FieldCause::WrongType))
}

/// The body line of the diagnostics: the raw duration verbatim when
/// enabled, the word `disabled` otherwise.
pub open spec fn timeout_flat_line(c: TimeoutLimit) -> Seq<char> {
    if c.enabled {
        "  ->  Request Timeout: "@ + c.duration@
    } else {
        "  ->  Request Timeout: disabled"@
    }
}

/// The diagnostic lines of a flat timeout: nothing when `display` is
/// off.
pub open spec fn timeout_flat_lines(c: TimeoutLimit) -> Seq<Seq<char>> {
    if !c.display {
        Seq::empty()
    } else {
        seq![timeout_flat_line(c)]
    }
}

impl TimeoutLimit {
    /// The parsed duration faithfully decodes the raw string.
    pub open spec fn wf(self) -> bool {
        valid_duration(self.duration@) && duration_value_ms(self.duration@) == self.parsed as int
    }

    /// Decode a flat timeout section: all fields or the first offending
    /// one, nothing partial.
    pub fn decode(doc: &ConfigDoc) -> (r: Result<TimeoutLimit, ConfigDecodeError>)
        ensures
            match r {
                Ok(c) => timeout_flat_ok(doc.entries@) && timeout_flat_decoded(doc.entries@, c)
                    && c.wf(),
                Err(e) => !timeout_flat_ok(doc.entries@) && timeout_flat_err(doc.entries@, e),
            },
    {
        proof {
            lemma_default_timeout();
        }
        let enabled = match doc.get_bool_or("enabled", false) {
            Ok(v) => v,
            Err(e) => {
                return Err(e);
            },
        };
        let duration = match doc.get_time_or("duration", "15s") {
            Ok(v) => v,
            Err(e) => {
                return Err(e);
            },
        };
        let display = match doc.get_bool_or("display", crate::default_display()) {
            Ok(v) => v,
            Err(e) => {
                return Err(e);
            },
        };
        Ok(TimeoutLimit { enabled, duration: duration.raw, parsed: duration.parsed, display })
    }

    /// The diagnostic lines: nothing when `display` is off, otherwise
    /// the body line.
    pub fn display_lines(&self) -> (r: Vec<String>)
        ensures
            crate::strutil::str_views(r@) == timeout_flat_lines(*self),
    {
        let mut r: Vec<String> = Vec::new();
        if self.display {
            if self.enabled {
                let mut line = "  ->  Request Timeout: ".to_owned();
                line.append(self.duration.as_str());
                r.push(line);
            } else {
                r.push("  ->  Request Timeout: disabled".to_owned());
            }
        }
        proof {
            assert(crate::strutil::str_views(r@) =~~= timeout_flat_lines(*self));
        }
        r
    }
}

impl Default for TimeoutLimit {
    /// The declared defaults: off, fifteen seconds, diagnostics off.
    fn default() -> (c: Self)
        ensures
            c.enabled == false,
            c.duration@ == "15s"@,
            c.parsed == 15_000,
            c.display == false,
            c.wf(),
    {
        proof {
            lemma_default_timeout();
        }
        let duration = match TimeConfig::decode("15s".to_owned()) {
            Ok(v) => v,
            Err(_) => unreached(),
        };
        TimeoutLimit { enabled: false, duration: duration.raw, parsed: duration.parsed, display: false }
    }
}

/// Decoding an empty document gives exactly the declared default row:
/// enforced, `10MB` parsed as ten million bytes, diagnostics off.
pub proof fn lemma_body_limit_flat_empty_decode(d: Seq<(String, ConfigValue)>, c: BodyLimit)
    requires
        d.len() == 0,
        body_limit_flat_decoded(d, c),
    ensures
        body_limit_flat_ok(d),
        c.enabled == true,
        c.max_size@ == "10MB"@,
        c.parsed == 10_000_000,
        c.display == false,
{
    crate::body_limit::lemma_default_max_size();
}

/// Decoding an empty document gives exactly the declared default row:
/// off, `15s` parsed as fifteen thousand milliseconds, diagnostics off.
pub proof fn lemma_timeout_flat_empty_decode(d: Seq<(String, ConfigValue)>, c: TimeoutLimit)
    requires
        d.len() == 0,
        timeout_flat_decoded(d, c),
    ensures
        timeout_flat_ok(d),
        c.enabled == false,
        c.duration@ == "15s"@,
        c.parsed == 15_000,
        c.display == false,
{
    lemma_default_timeout();
}

/// What the diagnostics show for an enabled limit is the document's raw
/// size string, verbatim: never a re-rendered form.
pub proof fn lemma_body_limit_flat_display_verbatim(
    d: Seq<(String, ConfigValue)>,
    c: BodyLimit,
    raw: String,
)
    requires
        body_limit_flat_decoded(d, c),
        doc_get(d, "max_size"@) == Some(ConfigValue::Str(raw)),
        c.enabled,
    ensures
        c.max_size@ == raw@,
        body_limit_flat_line(c) == "  ->  Max Body Size: "@ + raw@,
{
}

/// What the diagnostics show for an enabled timeout is the document's
/// raw duration string, verbatim.
pub proof fn lemma_timeout_flat_display_verbatim(
    d: Seq<(String, ConfigValue)>,
    c: TimeoutLimit,
    raw: String,
)
    requires
        timeout_flat_decoded(d, c),
        doc_get(d, "duration"@) == Some(ConfigValue::Str(raw)),
        c.enabled,
    ensures
        c.duration@ == raw@,
        timeout_flat_line(c) == "  ->  Request Timeout: "@ + raw@,
{
}

} // verus!
