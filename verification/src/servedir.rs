//! The static-serving feature: which directory is served where, with
//! what precompression, chunking and fallback page.

use vstd::prelude::*;

use crate::DisplayConfig;
use crate::document::{
    bool_ok, bool_or, byte_cause, byte_ok, doc_get, is_field_err, str_ok, str_opt, str_or,
    ConfigDoc, ConfigValue,
};
use crate::errors::{ConfigDecodeError, FieldCause};
use crate::strutil::{bool_seq, bool_str, join_spec, join_strings, str_views};
use crate::values::ByteConfig;

verus! {

/// ### Serve Directory Configuration
///
/// Configuration for the Serve Directory Layer
/// This configuration allows you to set up static file serving.
#[derive(Debug, Clone)]
pub struct ServeDirConfig {
    /// Whether static serving is enabled. Defaults to false.
    pub enabled: bool,
    /// The directory path containing static files to serve. Defaults to "public".
    pub static_dir: String,
    /// The route path where static files will be accessible. Defaults to "/static".
    pub router_path: String,
    /// The compression algorithm to use for serving files (e.g., "gzip", "br").
    pub compression_algorithm: Option<String>,
    /// The chunk size for streaming files (e.g., "64KB").
    pub chunk_size: Option<ByteConfig>,
    /// The custom 404 file path to serve when a file is not found.
    pub not_found_file: Option<String>,
    /// Whether to display the configuration details. Defaults to false.
    pub display: bool,
}

/// Every field the decode consults is well-typed and parses.
pub open spec fn servedir_fields_ok(d: Seq<(String, ConfigValue)>) -> bool {
    bool_ok(d, "enabled"@) && str_ok(d, "static-dir"@) && str_ok(d, "router-path"@) && str_ok(
        d,
        "compression-algorithm"@,
    ) && byte_ok(d, "chunk-size"@) && str_ok(d, "not-found-file"@) && bool_ok(d, "display"@)
}

/// An optional string of the configuration equals what the document
/// holds for its key.
pub open spec fn opt_str_matches(c: Option<String>, g: Option<Seq<char>>) -> bool {
    match (c, g) {
        (Some(v), Some(gs)) => v@ == gs,
        (None, None) => true,
        _ => false,
    }
}

/// What decode produces for a document.
pub open spec fn servedir_decoded(d: Seq<(String, ConfigValue)>, c: ServeDirConfig) -> bool {
    c.enabled == bool_or(d, "enabled"@, false) && c.static_dir@ == str_or(
        d,
        "static-dir"@,
        "public"@,
    ) && c.router_path@ == str_or(d, "router-path"@, "/static"@) && opt_str_matches(
        c.compression_algorithm,
        str_opt(d, "compression-algorithm"@),
    ) && (match (c.chunk_size, doc_get(d, "chunk-size"@)) {
        (Some(b), Some(ConfigValue::Str(s))) => b.wf() && b.raw@ == s@,
        (None, None) => true,
        _ => false,
    }) && opt_str_matches(c.not_found_file, str_opt(d, "not-found-file"@)) && c.display == bool_or(
        d,
        "display"@,
        false,
    )
}

/// The error decode reports: the first field, in declared order, that
/// does not decode.
pub open spec fn servedir_err(d: Seq<(String, ConfigValue)>, e: ConfigDecodeError) -> bool {
    let ok1 = bool_ok(d, "enabled"@);
    let ok2 = str_ok(d, "static-dir"@);
    let ok3 = str_ok(d, "router-path"@);
    let ok4 = str_ok(d, "compression-algorithm"@);
    let ok5 = byte_ok(d, "chunk-size"@);
    let ok6 = str_ok(d, "not-found-file"@);
    let ok7 = bool_ok(d, "display"@);
    (!ok1 && is_field_err(e, "enabled"@, FieldCause::WrongType)) || (ok1 && !ok2 && is_field_err(
        e,
        "static-dir"@,
        FieldCause::WrongType,
    )) || (ok1 && ok2 && !ok3 && is_field_err(e, "router-path"@, FieldCause::WrongType)) || (ok1
        && ok2 && ok3 && !ok4 && is_field_err(e, "compression-algorithm"@, FieldCause::WrongType))
        || (ok1 && ok2 && ok3 && ok4 && !ok5 && is_field_err(
        e,
        "chunk-size"@,
        byte_cause(d, "chunk-size"@),
    )) || (ok1 && ok2 && ok3 && ok4 && ok5 && !ok6 && is_field_err(
        e,
        "not-found-file"@,
        FieldCause::WrongType,
    )) || (ok1 && ok2 && ok3 && ok4 && ok5 && ok6 && !ok7 && is_field_err(
        e,
        "display"@,
        FieldCause::WrongType,
    ))
}

/// The option items of the diagnostics, one per configured option.
pub open spec fn servedir_option_items(c: ServeDirConfig) -> Seq<Seq<char>> {
    (match c.compression_algorithm {
        Some(a) => seq!["compression: "@ + a@],
        None => Seq::empty(),
    }) + (match c.chunk_size {
        Some(b) => seq!["chunk size: "@ + b.raw@],
        None => Seq::empty(),
    }) + (match c.not_found_file {
        Some(f) => seq!["404 file: "@ + f@],
        None => Seq::empty(),
    })
}

/// The diagnostic lines of a static-serving configuration.
pub open spec fn servedir_lines(c: ServeDirConfig) -> Seq<Seq<char>> {
    if !c.display {
        Seq::empty()
    } else {
        let items = servedir_option_items(c);
        seq![
            "Serve Directory Configuration:"@,
            "  ->  Enabled: "@ + bool_seq(c.enabled),
            "  ->  Paths: static: "@ + c.static_dir@ + " - router: "@ + c.router_path@,
        ] + (if items.len() == 0 {
            Seq::<Seq<char>>::empty()
        } else {
            seq!["  ->  Options: "@ + join_spec(items, " - "@)]
        })
    }
}

impl ServeDirConfig {
    /// The parsed chunk size, when given, faithfully decodes its raw
    /// string.
    pub open spec fn wf(self) -> bool {
        match self.chunk_size {
            Some(b) => b.wf(),
            None => true,
        }
    }

    /// Decode a static-serving section: all fields or the first
    /// offending one, nothing partial.
    pub fn decode(doc: &ConfigDoc) -> (r: Result<ServeDirConfig, ConfigDecodeError>)
        ensures
            match r {
                Ok(c) => servedir_fields_ok(doc.entries@) && servedir_decoded(doc.entries@, c)
                    && c.wf(),
                Err(e) => !servedir_fields_ok(doc.entries@) && servedir_err(doc.entries@, e),
            },
    {
        let enabled = match doc.get_bool_or("enabled", false) {
            Ok(v) => v,
            Err(e) => {
                return Err(e);
            },
        };
        let static_dir = match doc.get_str_or("static-dir", "public") {
            Ok(v) => v,
            Err(e) => {
                return Err(e);
            },
        };
        let router_path = match doc.get_str_or("router-path", "/static") {
            Ok(v) => v,
            Err(e) => {
                return Err(e);
            },
        };
        let compression_algorithm = match doc.get_str_opt("compression-algorithm") {
            Ok(v) => v,
            Err(e) => {
                return Err(e);
            },
        };
        let chunk_size = match doc.get_byte_opt("chunk-size") {
            Ok(v) => v,
            Err(e) => {
                return Err(e);
            },
        };
        let not_found_file = match doc.get_str_opt("not-found-file") {
            Ok(v) => v,
            Err(e) => {
                return Err(e);
            },
        };
        let display = match doc.get_bool_or("display", crate::default_display()) {
            Ok(v) => v,
            Err(e) => {
                return Err(e);
            },
        };
        Ok(
            ServeDirConfig {
                enabled,
                static_dir,
                router_path,
                compression_algorithm,
                chunk_size,
                not_found_file,
                display,
            },
        )
    }

    /// The diagnostic lines: nothing when `display` is off, otherwise a
    /// heading, the enabled flag, the two paths, and the configured
    /// options on one line.
    pub fn display_lines(&self) -> (r: Vec<String>)
        ensures
            str_views(r@) == servedir_lines(*self),
    {
        let mut r: Vec<String> = Vec::new();
        if self.display {
            r.push("Serve Directory Configuration:".to_owned());
            let mut enabled_line = "  ->  Enabled: ".to_owned();
            enabled_line.append(bool_str(self.enabled));
            r.push(enabled_line);
            let mut paths_line = "  ->  Paths: static: ".to_owned();
            paths_line.append(self.static_dir.as_str());
            paths_line.append(" - router: ");
            paths_line.append(self.router_path.as_str());
            r.push(paths_line);
            let mut options: Vec<String> = Vec::new();
            match &self.compression_algorithm {
                Some(a) => {
                    let mut item = "compression: ".to_owned();
                    item.append(a.as_str());
                    options.push(item);
                },
                None => {},
            }
            match &self.chunk_size {
                Some(b) => {
                    let mut item = "chunk size: ".to_owned();
                    item.append(b.raw.as_str());
                    options.push(item);
                },
                None => {},
            }
            match &self.not_found_file {
                Some(f) => {
                    let mut item = "404 file: ".to_owned();
                    item.append(f.as_str());
                    options.push(item);
                },
                None => {},
            }
            proof {
                assert(str_views(options@) =~~= servedir_option_items(*self));
            }
            if options.len() > 0 {
                let mut line = "  ->  Options: ".to_owned();
                let joined = join_strings(&options, " - ");
                line.append(joined.as_str());
                r.push(line);
            }
        }
        proof {
            assert(str_views(r@) =~~= servedir_lines(*self));
        }
        r
    }
}

impl Default for ServeDirConfig {
    /// The declared defaults: off, serving "public" under "/static",
    /// no options, diagnostics off.
    fn default() -> (c: Self)
        ensures
            c.enabled == false,
            c.static_dir@ == "public"@,
            c.router_path@ == "/static"@,
            c.compression_algorithm is None,
            c.chunk_size is None,
            c.not_found_file is None,
            c.display == false,
    {
        ServeDirConfig {
            enabled: false,
            static_dir: "public".to_owned(),
            router_path: "/static".to_owned(),
            compression_algorithm: None,
            chunk_size: None,
            not_found_file: None,
            display: false,
        }
    }
}

impl DisplayConfig for ServeDirConfig {
    open spec fn display_spec(&self) -> Seq<Seq<char>> {
        servedir_lines(*self)
    }

    fn display(&self) -> Vec<String> {
        self.display_lines()
    }
}

/// Decoding an empty document gives exactly the declared default row:
/// off, serving "public" under "/static", no options, diagnostics off.
pub proof fn lemma_servedir_empty_decode(d: Seq<(String, ConfigValue)>, c: ServeDirConfig)
    requires
        d.len() == 0,
        servedir_decoded(d, c),
    ensures
        servedir_fields_ok(d),
        c.enabled == false,
        c.static_dir@ == "public"@,
        c.router_path@ == "/static"@,
        c.compression_algorithm is None,
        c.chunk_size is None,
        c.not_found_file is None,
        c.display == false,
{
}

/// What the diagnostics show for a configured chunk size is the
/// document's raw string, verbatim: the options line carries an item
/// built from it unchanged.
pub proof fn lemma_servedir_display_verbatim(
    d: Seq<(String, ConfigValue)>,
    c: ServeDirConfig,
    raw: String,
)
    requires
        servedir_decoded(d, c),
        doc_get(d, "chunk-size"@) == Some(ConfigValue::Str(raw)),
    ensures
        c.chunk_size matches Some(b) && b.raw@ == raw@,
        exists|i: int|
            0 <= i < servedir_option_items(c).len() && #[trigger] servedir_option_items(c)[i]
                == "chunk size: "@ + raw@,
{
    let items = servedir_option_items(c);
    let a: int = match c.compression_algorithm {
        Some(_) => 1,
        None => 0,
    };
    assert(items[a] == "chunk size: "@ + raw@);
}

/// A precompressed-variant choice for served files.
#[derive(Clone, Copy, Debug, PartialEq, Eq, Structural)]
pub enum Precompression {
    Brotli,
    Gzip,
    Deflate,
    Zstd,
}

/// The precompression an algorithm name selects; unknown names select
/// none.
pub open spec fn precompression_of(a: Seq<char>) -> Option<Precompression> {
    if a == "br"@ {
        Some(Precompression::Brotli)
    } else if a == "gzip"@ {
        Some(Precompression::Gzip)
    } else if a == "deflate"@ {
        Some(Precompression::Deflate)
    } else if a == "zstd"@ {
        Some(Precompression::Zstd)
    } else {
        None
    }
}

/// The fallback page served when a file is not found: the configured
/// page inside the static directory, or `404.html` there.
pub open spec fn fallback_path_spec(c: ServeDirConfig) -> Seq<char> {
    c.static_dir@ + "/"@ + (match c.not_found_file {
        Some(f) => f@,
        None => "404.html"@,
    })
}

/// What the static-serving middleware is to be built from: everything
/// the configuration decides, with nothing left to interpret.
pub struct ServeDirPlan {
    /// The fallback page's path.
    pub fallback: String,
    /// The precompressed variant to prefer, if any.
    pub precompression: Option<Precompression>,
    /// The streaming chunk size in bytes, if configured.
    pub chunk: Option<u64>,
}

/// `p` is the plan configuration `c` decides.
pub open spec fn servedir_plan_decoded(c: ServeDirConfig, p: ServeDirPlan) -> bool {
    p.fallback@ == fallback_path_spec(c) && p.precompression == (match c.compression_algorithm {
        Some(a) => precompression_of(a@),
        None => None::<Precompression>,
    }) && p.chunk == (match c.chunk_size {
        Some(b) => Some(b.parsed),
        None => None::<u64>,
    })
}

fn build_plan(config: &ServeDirConfig) -> (p: ServeDirPlan)
    ensures
        servedir_plan_decoded(*config, p),
{
    let mut fallback = config.static_dir.clone();
    fallback.append("/");
    match &config.not_found_file {
        Some(f) => fallback.append(f.as_str()),
        None => fallback.append("404.html"),
    }
    let precompression = match &config.compression_algorithm {
        Some(a) => {
            if crate::strutil::str_eq(a.as_str(), "br") {
                Some(Precompression::Brotli)
            } else if crate::strutil::str_eq(a.as_str(), "gzip") {
                Some(Precompression::Gzip)
            } else if crate::strutil::str_eq(a.as_str(), "deflate") {
                Some(Precompression::Deflate)
            } else if crate::strutil::str_eq(a.as_str(), "zstd") {
                Some(Precompression::Zstd)
            } else {
                None
            }
        },
        None => None,
    };
    let chunk = match &config.chunk_size {
        Some(b) => Some(b.parsed),
        None => None,
    };
    ServeDirPlan { fallback, precompression, chunk }
}

/// ### Serve Directory Layer
///
/// The decision half of the static-serving middleware: the fallback
/// page, the precompression choice and the chunk size the configuration
/// names. The service itself is built outside from this plan.
pub struct ServeDirLayer;

impl ServeDirLayer {
    /// The plan a configuration decides.
    pub fn new(config: &ServeDirConfig) -> (p: ServeDirPlan)
        ensures
            servedir_plan_decoded(*config, p),
    {
        build_plan(config)
    }
}

/// The same decision, taking the configuration by value.
pub struct ServeDirMiddleware;

impl ServeDirMiddleware {
    /// The plan a configuration decides.
    pub fn new(config: ServeDirConfig) -> (p: ServeDirPlan)
        ensures
            servedir_plan_decoded(config, p),
    {
        build_plan(&config)
    }
}

} // verus!
