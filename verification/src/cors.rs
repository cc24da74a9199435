//! The CORS feature: cross-origin resource sharing policies.

use vstd::prelude::*;

use crate::DisplayConfig;
use crate::document::{
    bool_ok, bool_opt, bool_or, is_field_err, list_ok, list_opt, uint_ok, uint_opt, ConfigDoc,
    ConfigValue,
};
use crate::errors::{ConfigDecodeError, FieldCause};
use crate::strutil::{
    bool_seq, bool_str, dec_digits, join_spec, join_strings, str_views, u64_to_dec,
};

verus! {

/// ### CORS Configuration
/// Configuration for the CORS Layer
/// This configuration allows you to control cross-origin resource sharing policies.
#[derive(Debug, Clone)]
pub struct CorsConfig {
    /// Boolean indicating if CORS is enabled. Defaults to false.
    pub enabled: bool,
    /// A list of allowed origins for cross-origin requests.
    pub allow_origins: Option<Vec<String>>,
    /// A list of allowed HTTP methods (e.g., "GET", "POST").
    pub allow_methods: Option<Vec<String>>,
    /// A list of allowed HTTP headers.
    pub allow_headers: Option<Vec<String>>,
    /// A boolean indicating if credentials are allowed in cross-origin requests.
    pub allow_credentials: Option<bool>,
    /// The maximum age in seconds for CORS preflight responses.
    pub max_age: Option<u64>,
    /// Whether to display the configuration details. Defaults to false.
    pub display: bool,
}

/// Every field the decode consults is well-typed.
pub open spec fn cors_fields_ok(d: Seq<(String, ConfigValue)>) -> bool {
    bool_ok(d, "enabled"@) && list_ok(d, "allow-origins"@) && list_ok(d, "allow-methods"@)
        && list_ok(d, "allow-headers"@) && bool_ok(d, "allow-credentials"@) && uint_ok(
        d,
        "max-age"@,
    ) && bool_ok(d, "display"@)
}

/// An optional string list of the configuration equals what the
/// document holds for its key.
pub open spec fn opt_list_matches(c: Option<Vec<String>>, g: Option<Seq<Seq<char>>>) -> bool {
    match (c, g) {
        (Some(v), Some(gl)) => str_views(v@) == gl,
        (None, None) => true,
        _ => false,
    }
}

/// What decode produces for a document.
pub open spec fn cors_decoded(d: Seq<(String, ConfigValue)>, c: CorsConfig) -> bool {
    c.enabled == bool_or(d, "enabled"@, false) && opt_list_matches(
        c.allow_origins,
        list_opt(d, "allow-origins"@),
    ) && opt_list_matches(c.allow_methods, list_opt(d, "allow-methods"@)) && opt_list_matches(
        c.allow_headers,
        list_opt(d, "allow-headers"@),
    ) && c.allow_credentials == bool_opt(d, "allow-credentials"@) && c.max_age == uint_opt(
        d,
        "max-age"@,
    ) && c.display == bool_or(d, "display"@, false)
}

/// The error decode reports: the first field, in declared order, that
/// is not well-typed.
pub open spec fn cors_err(d: Seq<(String, ConfigValue)>, e: ConfigDecodeError) -> bool {
    let ok1 = bool_ok(d, "enabled"@);
    let ok2 = list_ok(d, "allow-origins"@);
    let ok3 = list_ok(d, "allow-methods"@);
    let ok4 = list_ok(d, "allow-headers"@);
    let ok5 = bool_ok(d, "allow-credentials"@);
    let ok6 = uint_ok(d, "max-age"@);
    let ok7 = bool_ok(d, "display"@);
    (!ok1 && is_field_err(e, "enabled"@, FieldCause::WrongType)) || (ok1 && !ok2 && is_field_err(
        e,
        "allow-origins"@,
        FieldCause::WrongType,
    )) || (ok1 && ok2 && !ok3 && is_field_err(e, "allow-methods"@, FieldCause::WrongType)) || (ok1
        && ok2 && ok3 && !ok4 && is_field_err(e, "allow-headers"@, FieldCause::WrongType)) || (ok1
        && ok2 && ok3 && ok4 && !ok5 && is_field_err(e, "allow-credentials"@, FieldCause::WrongType))
        || (ok1 && ok2 && ok3 && ok4 && ok5 && !ok6 && is_field_err(
        e,
        "max-age"@,
        FieldCause::WrongType,
    )) || (ok1 && ok2 && ok3 && ok4 && ok5 && ok6 && !ok7 && is_field_err(
        e,
        "display"@,
        FieldCause::WrongType,
    ))
}

/// The diagnostic lines of a CORS configuration.
pub open spec fn cors_lines(c: CorsConfig) -> Seq<Seq<char>> {
    if !c.display {
        Seq::empty()
    } else {
        seq!["CORS Configuration:"@, "  ->  Enabled: "@ + bool_seq(c.enabled)] + (
        match c.allow_origins {
            Some(l) => seq!["  ->  Allowed Origins: "@ + join_spec(str_views(l@), ", "@)],
            None => Seq::empty(),
        }) + (match c.allow_methods {
            Some(l) => seq!["  ->  Allowed Methods: "@ + join_spec(str_views(l@), ", "@)],
            None => Seq::empty(),
        }) + (match c.allow_headers {
            Some(l) => seq!["  ->  Allowed Headers: "@ + join_spec(str_views(l@), ", "@)],
            None => Seq::empty(),
        }) + (match c.allow_credentials {
            Some(b) => seq!["  ->  Allow Credentials: "@ + bool_seq(b)],
            None => Seq::empty(),
        }) + (match c.max_age {
            Some(n) => seq!["  ->  Max Age: "@ + dec_digits(n as nat) + seq!['s']],
            None => Seq::empty(),
        })
    }
}

impl CorsConfig {
    /// Decode a CORS section: all fields or the first offending one,
    /// nothing partial.
    pub fn decode(doc: &ConfigDoc) -> (r: Result<CorsConfig, ConfigDecodeError>)
        ensures
            match r {
                Ok(c) => cors_fields_ok(doc.entries@) && cors_decoded(doc.entries@, c),
                Err(e) => !cors_fields_ok(doc.entries@) && cors_err(doc.entries@, e),
            },
    {
        let enabled = match doc.get_bool_or("enabled", false) {
            Ok(v) => v,
            Err(e) => {
                return Err(e);
            },
        };
        let allow_origins = match doc.get_list_opt("allow-origins") {
            Ok(v) => v,
            Err(e) => {
                return Err(e);
            },
        };
        let allow_methods = match doc.get_list_opt("allow-methods") {
            Ok(v) => v,
            Err(e) => {
                return Err(e);
            },
        };
        let allow_headers = match doc.get_list_opt("allow-headers") {
            Ok(v) => v,
            Err(e) => {
                return Err(e);
            },
        };
        let allow_credentials = match doc.get_bool_opt("allow-credentials") {
            Ok(v) => v,
            Err(e) => {
                return Err(e);
            },
        };
        let max_age = match doc.get_uint_opt("max-age") {
            Ok(v) => v,
            Err(e) => {
                return Err(e);
            },
        };
        let display = match doc.get_bool_or("display", crate::default_display()) {
            Ok(v) => v,
            Err(e) => {
                return Err(e);
            },
        };
        Ok(
            CorsConfig {
                enabled,
                allow_origins,
                allow_methods,
                allow_headers,
                allow_credentials,
                max_age,
                display,
            },
        )
    }

    /// The diagnostic lines: nothing when `display` is off, otherwise a
    /// heading, the enabled flag, and one line per configured policy.
    pub fn display_lines(&self) -> (r: Vec<String>)
        ensures
            str_views(r@) == cors_lines(*self),
    {
        let mut r: Vec<String> = Vec::new();
        if self.display {
            r.push("CORS Configuration:".to_owned());
            let mut enabled_line = "  ->  Enabled: ".to_owned();
            enabled_line.append(bool_str(self.enabled));
            r.push(enabled_line);
            match &self.allow_origins {
                Some(l) => {
                    let mut line = "  ->  Allowed Origins: ".to_owned();
                    let joined = join_strings(l, ", ");
                    line.append(joined.as_str());
                    r.push(line);
                },
                None => {},
            }
            match &self.allow_methods {
                Some(l) => {
                    let mut line = "  ->  Allowed Methods: ".to_owned();
                    let joined = join_strings(l, ", ");
                    line.append(joined.as_str());
                    r.push(line);
                },
                None => {},
            }
            match &self.allow_headers {
                Some(l) => {
                    let mut line = "  ->  Allowed Headers: ".to_owned();
                    let joined = join_strings(l, ", ");
                    line.append(joined.as_str());
                    r.push(line);
                },
                None => {},
            }
            match self.allow_credentials {
                Some(b) => {
                    let mut line = "  ->  Allow Credentials: ".to_owned();
                    line.append(bool_str(b));
                    r.push(line);
                },
                None => {},
            }
            match self.max_age {
                Some(n) => {
                    let mut line = "  ->  Max Age: ".to_owned();
                    let digits = u64_to_dec(n);
                    line.append(digits.as_str());
                    line.append("s");
                    proof {
                        reveal_strlit("s");
                        assert(line@ =~= "  ->  Max Age: "@ + dec_digits(n as nat) + seq!['s']);
                    }
                    r.push(line);
                },
                None => {},
            }
        }
        proof {
            assert(str_views(r@) =~~= cors_lines(*self));
        }
        r
    }
}

impl Default for CorsConfig {
    /// The declared defaults: off, no policies configured, diagnostics
    /// off.
    fn default() -> (c: Self)
        ensures
            c.enabled == false,
            c.allow_origins is None,
            c.allow_methods is None,
            c.allow_headers is None,
            c.allow_credentials is None,
            c.max_age is None,
            c.display == false,
    {
        CorsConfig {
            enabled: false,
            allow_origins: None,
            allow_methods: None,
            allow_headers: None,
            allow_credentials: None,
            max_age: None,
            display: false,
        }
    }
}

impl DisplayConfig for CorsConfig {
    open spec fn display_spec(&self) -> Seq<Seq<char>> {
        cors_lines(*self)
    }

    fn display(&self) -> Vec<String> {
        self.display_lines()
    }
}

/// Decoding an empty document gives exactly the declared default row.
pub proof fn lemma_cors_empty_decode(d: Seq<(String, ConfigValue)>, c: CorsConfig)
    requires
        d.len() == 0,
        cors_decoded(d, c),
    ensures
        cors_fields_ok(d),
        c.enabled == false,
        c.allow_origins is None,
        c.allow_methods is None,
        c.allow_headers is None,
        c.allow_credentials is None,
        c.max_age is None,
        c.display == false,
{
}

} // verus!
