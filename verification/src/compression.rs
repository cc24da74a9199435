//! The compression feature: which response-compression algorithms are
//! switched on.

use vstd::prelude::*;

use crate::DisplayConfig;
use crate::document::{bool_ok, bool_or, is_field_err, list_ok, list_opt, ConfigDoc, ConfigValue};
use crate::errors::{ConfigDecodeError, FieldCause};
use crate::strutil::{join_spec, join_strings, lower_seq, str_ci_is, str_views};

verus! {

/// ### Compression Configuration
///
/// Configuration for the Compression Layer
/// This configuration allows you to enable or disable compression
/// and specify which algorithms to use.
#[derive(Debug, Clone)]
pub struct CompressionConfig {
    /// A boolean indicating if compression is enabled. Defaults to false.
    pub enabled: bool,
    /// The compression algorithms to use (e.g., "gzip", "deflate", "br",
    /// "zstd"), case-insensitive. Defaults to none.
    pub algorithms: Vec<String>,
    /// Whether to display the configuration details. Defaults to false.
    pub display: bool,
}

/// Every field the decode consults is well-typed.
pub open spec fn compression_fields_ok(d: Seq<(String, ConfigValue)>) -> bool {
    bool_ok(d, "enabled"@) && list_ok(d, "algorithms"@) && bool_ok(d, "display"@)
}

/// What decode produces for a document.
pub open spec fn compression_decoded(d: Seq<(String, ConfigValue)>, c: CompressionConfig) -> bool {
    c.enabled == bool_or(d, "enabled"@, false) && (match list_opt(d, "algorithms"@) {
        Some(g) => str_views(c.algorithms@) == g,
        None => c.algorithms@.len() == 0,
    }) && c.display == bool_or(d, "display"@, false)
}

/// The error decode reports: the first field, in declared order, that
/// is not well-typed.
pub open spec fn compression_err(d: Seq<(String, ConfigValue)>, e: ConfigDecodeError) -> bool {
    let ok1 = bool_ok(d, "enabled"@);
    let ok2 = list_ok(d, "algorithms"@);
    let ok3 = bool_ok(d, "display"@);
    (!ok1 && is_field_err(e, "enabled"@, FieldCause::WrongType)) || (ok1 && !ok2 && is_field_err(
        e,
        "algorithms"@,
        FieldCause::WrongType,
    )) || (ok1 && ok2 && !ok3 && is_field_err(e, "display"@, FieldCause::WrongType))
}

/// The diagnostic lines of a compression configuration: nothing when
/// `display` is off.
pub open spec fn compression_lines(c: CompressionConfig) -> Seq<Seq<char>> {
    if !c.display {
        Seq::empty()
    } else {
        seq!["Compression Configuration:"@, compression_body_line(c)]
    }
}

/// The body line of the compression diagnostics.
pub open spec fn compression_body_line(c: CompressionConfig) -> Seq<char> {
    if !c.enabled {
        "  ->  Compression: disabled"@
    } else if c.algorithms@.len() == 0 {
        "  ->  No algorithms enabled"@
    } else {
        "  ->  Algorithms: "@ + join_spec(str_views(c.algorithms@), ", "@)
    }
}

impl CompressionConfig {
    /// Decode a compression section: all fields or the first offending
    /// one, nothing partial.
    pub fn decode(doc: &ConfigDoc) -> (r: Result<CompressionConfig, ConfigDecodeError>)
        ensures
            match r {
                Ok(c) => compression_fields_ok(doc.entries@) && compression_decoded(
                    doc.entries@,
                    c,
                ),
                Err(e) => !compression_fields_ok(doc.entries@) && compression_err(doc.entries@, e),
            },
    {
        let enabled = match doc.get_bool_or("enabled", false) {
            Ok(v) => v,
            Err(e) => {
                return Err(e);
            },
        };
        let algorithms = match doc.get_list_or_empty("algorithms") {
            Ok(v) => v,
            Err(e) => {
                return Err(e);
            },
        };
        let display = match doc.get_bool_or("display", crate::default_display()) {
            Ok(v) => v,
            Err(e) => {
                return Err(e);
            },
        };
        Ok(CompressionConfig { enabled, algorithms, display })
    }

    /// The diagnostic lines: nothing when `display` is off, otherwise a
    /// heading and the body line.
    pub fn display_lines(&self) -> (r: Vec<String>)
        ensures
            crate::strutil::str_views(r@) == compression_lines(*self),
    {
        let mut r: Vec<String> = Vec::new();
        if self.display {
            r.push("Compression Configuration:".to_owned());
            r.push(compression_line(self));
        }
        proof {
            assert(crate::strutil::str_views(r@) =~~= compression_lines(*self));
        }
        r
    }
}

/// Build the body line of the compression diagnostics.
fn compression_line(c: &CompressionConfig) -> (r: String)
    ensures
        r@ == compression_body_line(*c),
{
    if !c.enabled {
        "  ->  Compression: disabled".to_owned()
    } else if c.algorithms.len() == 0 {
        "  ->  No algorithms enabled".to_owned()
    } else {
        let mut line = "  ->  Algorithms: ".to_owned();
        let joined = join_strings(&c.algorithms, ", ");
        line.append(joined.as_str());
        line
    }
}

impl Default for CompressionConfig {
    /// The declared defaults: off, no algorithms, diagnostics off.
    fn default() -> (c: Self)
        ensures
            c.enabled == false,
            c.algorithms@.len() == 0,
            c.display == false,
    {
        CompressionConfig { enabled: false, algorithms: Vec::new(), display: false }
    }
}

impl DisplayConfig for CompressionConfig {
    open spec fn display_spec(&self) -> Seq<Seq<char>> {
        compression_lines(*self)
    }

    fn display(&self) -> Vec<String> {
        self.display_lines()
    }
}

/// A compression section together with a separate record of the
/// `display` wish; diagnostics are rendered only when it is set.
#[derive(Debug, Clone)]
pub struct CompressionMiddlewareConfig {
    /// The compression settings, read from the same section.
    pub compression: CompressionConfig,
    /// Whether to display the configuration details. Defaults to false.
    pub display: bool,
}

/// The diagnostic lines of a compression middleware configuration:
/// nothing when `display` is off.
pub open spec fn compression_middleware_lines(c: CompressionMiddlewareConfig) -> Seq<Seq<char>> {
    if !c.display {
        Seq::empty()
    } else {
        seq!["Compression Configuration:"@, compression_body_line(c.compression)]
    }
}

impl CompressionMiddlewareConfig {
    /// Decode a compression middleware section: the compression fields
    /// and the `display` flag come from one flat section.
    pub fn decode(doc: &ConfigDoc) -> (r: Result<CompressionMiddlewareConfig, ConfigDecodeError>)
        ensures
            match r {
                Ok(c) => compression_fields_ok(doc.entries@) && compression_decoded(
                    doc.entries@,
                    c.compression,
                ) && c.display == bool_or(doc.entries@, "display"@, false),
                Err(e) => !compression_fields_ok(doc.entries@) && compression_err(doc.entries@, e),
            },
    {
        let compression = match CompressionConfig::decode(doc) {
            Ok(v) => v,
            Err(e) => {
                return Err(e);
            },
        };
        let display = compression.display;
        Ok(CompressionMiddlewareConfig { compression, display })
    }

    /// The diagnostic lines: nothing when `display` is off, otherwise a
    /// heading and the body line.
    pub fn display_lines(&self) -> (r: Vec<String>)
        ensures
            crate::strutil::str_views(r@) == compression_middleware_lines(*self),
    {
        let mut r: Vec<String> = Vec::new();
        if self.display {
            r.push("Compression Configuration:".to_owned());
            r.push(compression_line(&self.compression));
        }
        proof {
            assert(crate::strutil::str_views(r@) =~~= compression_middleware_lines(*self));
        }
        r
    }
}

impl DisplayConfig for CompressionMiddlewareConfig {
    open spec fn display_spec(&self) -> Seq<Seq<char>> {
        compression_middleware_lines(*self)
    }

    fn display(&self) -> Vec<String> {
        self.display_lines()
    }
}

impl Default for CompressionMiddlewareConfig {
    /// The declared defaults: off, no algorithms, diagnostics off.
    fn default() -> (c: Self)
        ensures
            c.compression.enabled == false,
            c.compression.algorithms@.len() == 0,
            c.display == false,
    {
        CompressionMiddlewareConfig { compression: Default::default(), display: false }
    }
}

/// Decoding an empty document gives exactly the declared default row:
/// off, no algorithms, diagnostics off.
pub proof fn lemma_compression_empty_decode(d: Seq<(String, ConfigValue)>, c: CompressionConfig)
    requires
        d.len() == 0,
        compression_decoded(d, c),
    ensures
        compression_fields_ok(d),
        c.enabled == false,
        c.algorithms@.len() == 0,
        c.display == false,
{
}

/// Which algorithms a configuration switches on.
#[derive(Clone, Copy, Debug, PartialEq, Eq, Structural)]
pub struct AlgorithmSet {
    pub gzip: bool,
    pub deflate: bool,
    pub br: bool,
    pub zstd: bool,
}

/// Some entry of the list names the keyword, case-insensitively.
pub open spec fn algs_enable(l: Seq<Seq<char>>, kw: Seq<char>) -> bool {
    exists|i: int| 0 <= i < l.len() && lower_seq(#[trigger] l[i]) == kw
}

/// ### Compression Layer
///
/// The decision half of the compression middleware: which algorithms
/// the configured names switch on. Unknown names are ignored; `br` and
/// `brotli` both name Brotli. The transport layer itself is built
/// outside from this answer.
pub struct CompressionLayer;

impl CompressionLayer {
    /// The algorithms a name list switches on.
    pub fn algorithm_set(algorithms: &Vec<String>) -> (r: AlgorithmSet)
        ensures
            r.gzip == algs_enable(str_views(algorithms@), "gzip"@),
            r.deflate == algs_enable(str_views(algorithms@), "deflate"@),
            r.br == (algs_enable(str_views(algorithms@), "br"@) || algs_enable(
                str_views(algorithms@),
                "brotli"@,
            )),
            r.zstd == algs_enable(str_views(algorithms@), "zstd"@),
    {
        let ghost l = str_views(algorithms@);
        let mut gzip = false;
        let mut deflate = false;
        let mut br = false;
        let mut zstd = false;
        let mut i: usize = 0;
        while i < algorithms.len()
            invariant
                0 <= i <= algorithms@.len(),
                l == str_views(algorithms@),
                gzip == algs_enable(l.take(i as int), "gzip"@),
                deflate == algs_enable(l.take(i as int), "deflate"@),
                br == (algs_enable(l.take(i as int), "br"@) || algs_enable(
                    l.take(i as int),
                    "brotli"@,
                )),
                zstd == algs_enable(l.take(i as int), "zstd"@),
            decreases algorithms@.len() - i,
        {
            let a = &algorithms[i];
            let m_gzip = str_ci_is(a.as_str(), "gzip");
            let m_deflate = str_ci_is(a.as_str(), "deflate");
            let m_br = str_ci_is(a.as_str(), "br");
            let m_brotli = str_ci_is(a.as_str(), "brotli");
            let m_zstd = str_ci_is(a.as_str(), "zstd");
            proof {
                assert(l[i as int] == algorithms@[i as int]@);
                assert forall|kw: Seq<char>|
                    #[trigger] algs_enable(l.take(i + 1), kw) == (algs_enable(l.take(i as int), kw)
                        || lower_seq(l[i as int]) == kw) by {
                    if algs_enable(l.take(i as int), kw) {
                        let w = choose|w: int|
                            0 <= w < i && lower_seq(#[trigger] l.take(i as int)[w]) == kw;
                        assert(l.take(i + 1)[w] == l.take(i as int)[w]);
                        assert(algs_enable(l.take(i + 1), kw));
                    }
                    if lower_seq(l[i as int]) == kw {
                        assert(l.take(i + 1)[i as int] == l[i as int]);
                        assert(algs_enable(l.take(i + 1), kw));
                    }
                    if algs_enable(l.take(i + 1), kw) {
                        let w = choose|w: int|
                            0 <= w < i + 1 && lower_seq(#[trigger] l.take(i + 1)[w]) == kw;
                        if w < i {
                            assert(l.take(i as int)[w] == l.take(i + 1)[w]);
                            assert(algs_enable(l.take(i as int), kw));
                        } else {
                            assert(l.take(i + 1)[w] == l[i as int]);
                        }
                    }
                }
            }
            gzip = gzip || m_gzip;
            deflate = deflate || m_deflate;
            br = br || m_br || m_brotli;
            zstd = zstd || m_zstd;
            i += 1;
        }
        proof {
            assert(l.take(algorithms@.len() as int) =~= l);
        }
        AlgorithmSet { gzip, deflate, br, zstd }
    }

    /// The decision of the compression middleware: nothing when the
    /// feature is off, otherwise the algorithm set its names switch on.
    pub fn new(config: &CompressionConfig) -> (r: Option<AlgorithmSet>)
        ensures
            !config.enabled ==> r is None,
            config.enabled ==> match r {
                Some(s) => s == CompressionLayer::spec_set(str_views(config.algorithms@)),
                None => false,
            },
    {
        if !config.enabled {
            return None;
        }
        Some(Self::algorithm_set(&config.algorithms))
    }

    /// The algorithm set a name list switches on.
    pub open spec fn spec_set(l: Seq<Seq<char>>) -> AlgorithmSet {
        AlgorithmSet {
            gzip: algs_enable(l, "gzip"@),
            deflate: algs_enable(l, "deflate"@),
            br: algs_enable(l, "br"@) || algs_enable(l, "brotli"@),
            zstd: algs_enable(l, "zstd"@),
        }
    }
}

} // verus!
