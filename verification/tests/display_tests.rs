use sword_web::body_limit::BodyLimitConfig;
use sword_web::compression::{CompressionConfig, CompressionMiddlewareConfig};
use sword_web::cors::CorsConfig;
use sword_web::document::{ConfigDoc, ConfigValue};
use sword_web::limits::{BodyLimit, TimeoutLimit};
use sword_web::req_timeout::RequestTimeoutConfig;
use sword_web::servedir::ServeDirConfig;
use sword_web::DisplayConfig;

fn doc(entries: Vec<(&str, ConfigValue)>) -> ConfigDoc {
    let mut d = ConfigDoc::new();
    for (k, v) in entries {
        d.insert(k.to_string(), v);
    }
    d
}

fn s(v: &str) -> ConfigValue {
    ConfigValue::Str(v.to_string())
}

#[test]
fn display_shows_raw_never_normalized() {
    // The input "010MB" is shown exactly as supplied, not as "10MB".
    let d = doc(vec![
        ("max-size", s("010MB")),
        ("display", ConfigValue::Bool(true)),
    ]);
    let c = BodyLimitConfig::decode(&d).unwrap();
    assert_eq!(c.max_size.parsed, 10_000_000);
    let lines = c.display_lines();
    assert_eq!(
        lines,
        vec![
            "Body Limit Configuration:".to_string(),
            "  ->  Max Body Size: 010MB".to_string(),
        ]
    );
}

#[test]
fn display_off_shows_nothing() {
    let c = BodyLimitConfig::default();
    assert!(c.display_lines().is_empty());
    assert!(c.display().is_empty());
}

#[test]
fn display_scenario_contains_one_kilobyte() {
    let d = doc(vec![
        ("max-size", s("1KB")),
        ("display", ConfigValue::Bool(true)),
    ]);
    let c = BodyLimitConfig::decode(&d).unwrap();
    let lines = c.display_lines();
    assert!(lines.iter().any(|l| l.contains("1KB")));
}

#[test]
fn req_timeout_display_lines() {
    let mut c = RequestTimeoutConfig::default();
    c.display = true;
    assert_eq!(
        c.display_lines(),
        vec![
            "Request Timeout Configuration:".to_string(),
            "  ->  Request Timeout: disabled".to_string(),
        ]
    );
    c.enabled = true;
    assert_eq!(
        c.display_lines(),
        vec![
            "Request Timeout Configuration:".to_string(),
            "  ->  Request Timeout: 15s".to_string(),
        ]
    );
}

#[test]
fn compression_display_lines() {
    let mut c = CompressionConfig::default();
    c.display = true;
    assert_eq!(
        c.display_lines(),
        vec![
            "Compression Configuration:".to_string(),
            "  ->  Compression: disabled".to_string(),
        ]
    );
    c.enabled = true;
    assert_eq!(
        c.display_lines(),
        vec![
            "Compression Configuration:".to_string(),
            "  ->  No algorithms enabled".to_string(),
        ]
    );
    c.algorithms = vec!["gzip".to_string(), "br".to_string()];
    assert_eq!(
        c.display_lines(),
        vec![
            "Compression Configuration:".to_string(),
            "  ->  Algorithms: gzip, br".to_string(),
        ]
    );
}

#[test]
fn cors_display_lines() {
    let mut c = CorsConfig::default();
    assert!(c.display_lines().is_empty());
    c.display = true;
    c.enabled = true;
    c.allow_origins = Some(vec!["https://a.test".to_string(), "https://b.test".to_string()]);
    c.allow_credentials = Some(false);
    c.max_age = Some(600);
    assert_eq!(
        c.display_lines(),
        vec![
            "CORS Configuration:".to_string(),
            "  ->  Enabled: true".to_string(),
            "  ->  Allowed Origins: https://a.test, https://b.test".to_string(),
            "  ->  Allow Credentials: false".to_string(),
            "  ->  Max Age: 600s".to_string(),
        ]
    );
}

#[test]
fn servedir_display_lines() {
    let mut c = ServeDirConfig::default();
    c.display = true;
    assert_eq!(
        c.display_lines(),
        vec![
            "Serve Directory Configuration:".to_string(),
            "  ->  Enabled: false".to_string(),
            "  ->  Paths: static: public - router: /static".to_string(),
        ]
    );
    let d = doc(vec![
        ("display", ConfigValue::Bool(true)),
        ("compression-algorithm", s("br")),
        ("chunk-size", s("64KB")),
        ("not-found-file", s("missing.html")),
    ]);
    let c2 = ServeDirConfig::decode(&d).unwrap();
    let lines = c2.display_lines();
    assert_eq!(lines.len(), 4);
    assert_eq!(
        lines[3],
        "  ->  Options: compression: br - chunk size: 64KB - 404 file: missing.html"
    );
}

#[test]
fn flat_limit_display_lines() {
    // Diagnostics are off by default; the line appears only when asked.
    let b = BodyLimit::default();
    assert!(b.display_lines().is_empty());
    let mut b2 = BodyLimit::default();
    b2.display = true;
    assert_eq!(
        b2.display_lines(),
        vec!["  ->  Max Body Size: 10MB".to_string()]
    );
    b2.enabled = false;
    assert_eq!(
        b2.display_lines(),
        vec!["  ->  Max Body Size: disabled".to_string()]
    );
    let t = TimeoutLimit::default();
    assert!(t.display_lines().is_empty());
    let mut t2 = TimeoutLimit::default();
    t2.display = true;
    assert_eq!(
        t2.display_lines(),
        vec!["  ->  Request Timeout: disabled".to_string()]
    );
    t2.enabled = true;
    assert_eq!(
        t2.display_lines(),
        vec!["  ->  Request Timeout: 15s".to_string()]
    );
}

#[test]
fn compression_middleware_display_gated() {
    // The middleware section's diagnostics are a no-op unless asked for.
    let c = CompressionMiddlewareConfig::default();
    assert!(c.display_lines().is_empty());
    let mut c2 = CompressionMiddlewareConfig::default();
    c2.display = true;
    assert_eq!(
        c2.display_lines(),
        vec![
            "Compression Configuration:".to_string(),
            "  ->  Compression: disabled".to_string(),
        ]
    );
}
