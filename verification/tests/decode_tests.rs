use sword_web::body_limit::BodyLimitConfig;
use sword_web::compression::{CompressionConfig, CompressionMiddlewareConfig};
use sword_web::cors::CorsConfig;
use sword_web::document::{ConfigDoc, ConfigValue};
use sword_web::errors::{ConfigDecodeError, FieldCause, ParseError};
use sword_web::limits::{BodyLimit, TimeoutLimit};
use sword_web::req_timeout::RequestTimeoutConfig;
use sword_web::servedir::ServeDirConfig;
use sword_web::socketio::{SocketIoServerConfig, SocketParser};
use sword_web::values::{ByteConfig, TimeConfig};

fn doc(entries: Vec<(&str, ConfigValue)>) -> ConfigDoc {
    let mut d = ConfigDoc::new();
    for (k, v) in entries {
        d.insert(k.to_string(), v);
    }
    d
}

fn s(v: &str) -> ConfigValue {
    ConfigValue::Str(v.to_string())
}

#[test]
fn byte_config_keeps_raw_verbatim() {
    let c = ByteConfig::decode("010MB".to_string()).unwrap();
    assert_eq!(c.raw, "010MB");
    assert_eq!(c.parsed, 10_000_000);
    assert_eq!(
        ByteConfig::decode("abc".to_string()).unwrap_err(),
        ParseError::InvalidFormat
    );
}

#[test]
fn time_config_keeps_raw_verbatim() {
    let c = TimeConfig::decode("1h30m".to_string()).unwrap();
    assert_eq!(c.raw, "1h30m");
    assert_eq!(c.parsed, 5_400_000);
    assert_eq!(
        TimeConfig::decode("10".to_string()).unwrap_err(),
        ParseError::InvalidFormat
    );
}

#[test]
fn body_limit_empty_doc_is_default_row() {
    let d = ConfigDoc::new();
    let c = BodyLimitConfig::decode(&d).unwrap();
    let dflt = BodyLimitConfig::default();
    assert_eq!(c.enabled, true);
    assert_eq!(c.max_size.raw, "10MB");
    assert_eq!(c.max_size.parsed, 10_000_000);
    assert_eq!(c.display, false);
    assert_eq!(c.enabled, dflt.enabled);
    assert_eq!(c.max_size.raw, dflt.max_size.raw);
    assert_eq!(c.max_size.parsed, dflt.max_size.parsed);
    assert_eq!(c.display, dflt.display);
}

#[test]
fn body_limit_bad_size_fails_wholesale() {
    let d = doc(vec![("max-size", s("not-a-size"))]);
    let e = BodyLimitConfig::decode(&d).unwrap_err();
    assert_eq!(
        e,
        ConfigDecodeError::FieldError {
            field: "max-size".to_string(),
            cause: FieldCause::Parse(ParseError::InvalidFormat),
        }
    );
}

#[test]
fn body_limit_overflow_cause() {
    let d = doc(vec![("max-size", s("20000000000EB"))]);
    let e = BodyLimitConfig::decode(&d).unwrap_err();
    assert_eq!(
        e,
        ConfigDecodeError::FieldError {
            field: "max-size".to_string(),
            cause: FieldCause::Parse(ParseError::Overflow),
        }
    );
}

#[test]
fn body_limit_scenario_one_kilobyte() {
    // {max-size: "1KB", display: true}: parsed is 1000 and enabled
    // keeps its default of true.
    let d = doc(vec![
        ("max-size", s("1KB")),
        ("display", ConfigValue::Bool(true)),
    ]);
    let c = BodyLimitConfig::decode(&d).unwrap();
    assert_eq!(c.max_size.parsed, 1_000);
    assert_eq!(c.max_size.raw, "1KB");
    assert_eq!(c.enabled, true);
    assert_eq!(c.display, true);
}

#[test]
fn body_limit_wrong_type_names_field() {
    let d = doc(vec![("enabled", s("yes"))]);
    let e = BodyLimitConfig::decode(&d).unwrap_err();
    assert_eq!(
        e,
        ConfigDecodeError::FieldError {
            field: "enabled".to_string(),
            cause: FieldCause::WrongType,
        }
    );
}

#[test]
fn decode_is_last_value_wins() {
    // A repeated key takes the last value in the document.
    let d = doc(vec![("max-size", s("1KB")), ("max-size", s("2KB"))]);
    let c = BodyLimitConfig::decode(&d).unwrap();
    assert_eq!(c.max_size.parsed, 2_000);
    assert_eq!(c.max_size.raw, "2KB");
}

#[test]
fn decode_ignores_unrecognized_keys() {
    let d = doc(vec![
        ("future-option", s("whatever")),
        ("max-size", s("3KB")),
    ]);
    let c = BodyLimitConfig::decode(&d).unwrap();
    assert_eq!(c.max_size.parsed, 3_000);
}

#[test]
fn req_timeout_empty_doc_is_default_row() {
    let d = ConfigDoc::new();
    let c = RequestTimeoutConfig::decode(&d).unwrap();
    assert_eq!(c.enabled, false);
    assert_eq!(c.timeout.raw, "15s");
    assert_eq!(c.timeout.parsed, 15_000);
    assert_eq!(c.display, false);
}

#[test]
fn req_timeout_reads_duration() {
    let d = doc(vec![
        ("enabled", ConfigValue::Bool(true)),
        ("timeout", s("1m30s")),
    ]);
    let c = RequestTimeoutConfig::decode(&d).unwrap();
    assert_eq!(c.enabled, true);
    assert_eq!(c.timeout.raw, "1m30s");
    assert_eq!(c.timeout.parsed, 90_000);
}

#[test]
fn req_timeout_bad_duration_names_field() {
    let d = doc(vec![("timeout", s("fast"))]);
    let e = RequestTimeoutConfig::decode(&d).unwrap_err();
    assert_eq!(
        e,
        ConfigDecodeError::FieldError {
            field: "timeout".to_string(),
            cause: FieldCause::Parse(ParseError::InvalidFormat),
        }
    );
}

#[test]
fn compression_empty_doc_is_default_row() {
    let d = ConfigDoc::new();
    let c = CompressionConfig::decode(&d).unwrap();
    assert_eq!(c.enabled, false);
    assert!(c.algorithms.is_empty());
    assert_eq!(c.display, false);
}

#[test]
fn compression_reads_algorithms() {
    let d = doc(vec![
        ("enabled", ConfigValue::Bool(true)),
        (
            "algorithms",
            ConfigValue::StrList(vec!["gzip".to_string(), "br".to_string()]),
        ),
    ]);
    let c = CompressionConfig::decode(&d).unwrap();
    assert_eq!(c.enabled, true);
    assert_eq!(c.algorithms, vec!["gzip".to_string(), "br".to_string()]);
}

#[test]
fn compression_middleware_decodes_flat_section() {
    let d = doc(vec![
        ("enabled", ConfigValue::Bool(true)),
        ("display", ConfigValue::Bool(true)),
    ]);
    let c = CompressionMiddlewareConfig::decode(&d).unwrap();
    assert_eq!(c.compression.enabled, true);
    assert_eq!(c.display, true);
}

#[test]
fn cors_empty_doc_is_default_row() {
    let d = ConfigDoc::new();
    let c = CorsConfig::decode(&d).unwrap();
    assert_eq!(c.enabled, false);
    assert!(c.allow_origins.is_none());
    assert!(c.allow_methods.is_none());
    assert!(c.allow_headers.is_none());
    assert!(c.allow_credentials.is_none());
    assert!(c.max_age.is_none());
    assert_eq!(c.display, false);
}

#[test]
fn cors_reads_all_fields() {
    let d = doc(vec![
        ("enabled", ConfigValue::Bool(true)),
        (
            "allow-origins",
            ConfigValue::StrList(vec!["https://example.test".to_string()]),
        ),
        (
            "allow-methods",
            ConfigValue::StrList(vec!["GET".to_string(), "POST".to_string()]),
        ),
        ("allow-credentials", ConfigValue::Bool(true)),
        ("max-age", ConfigValue::UInt(600)),
    ]);
    let c = CorsConfig::decode(&d).unwrap();
    assert_eq!(c.enabled, true);
    assert_eq!(
        c.allow_origins,
        Some(vec!["https://example.test".to_string()])
    );
    assert_eq!(
        c.allow_methods,
        Some(vec!["GET".to_string(), "POST".to_string()])
    );
    assert!(c.allow_headers.is_none());
    assert_eq!(c.allow_credentials, Some(true));
    assert_eq!(c.max_age, Some(600));
}

#[test]
fn cors_wrong_type_names_first_field() {
    let d = doc(vec![
        ("allow-origins", s("not-a-list")),
        ("max-age", s("not-a-number")),
    ]);
    let e = CorsConfig::decode(&d).unwrap_err();
    assert_eq!(
        e,
        ConfigDecodeError::FieldError {
            field: "allow-origins".to_string(),
            cause: FieldCause::WrongType,
        }
    );
}

#[test]
fn servedir_empty_doc_is_default_row() {
    let d = ConfigDoc::new();
    let c = ServeDirConfig::decode(&d).unwrap();
    assert_eq!(c.enabled, false);
    assert_eq!(c.static_dir, "public");
    assert_eq!(c.router_path, "/static");
    assert!(c.compression_algorithm.is_none());
    assert!(c.chunk_size.is_none());
    assert!(c.not_found_file.is_none());
    assert_eq!(c.display, false);
}

#[test]
fn servedir_reads_chunk_size() {
    let d = doc(vec![
        ("enabled", ConfigValue::Bool(true)),
        ("static-dir", s("assets")),
        ("chunk-size", s("64KB")),
    ]);
    let c = ServeDirConfig::decode(&d).unwrap();
    assert_eq!(c.static_dir, "assets");
    let chunk = c.chunk_size.unwrap();
    assert_eq!(chunk.raw, "64KB");
    assert_eq!(chunk.parsed, 64_000);
}

#[test]
fn servedir_bad_chunk_size_names_field() {
    let d = doc(vec![("chunk-size", s("huge"))]);
    let e = ServeDirConfig::decode(&d).unwrap_err();
    assert_eq!(
        e,
        ConfigDecodeError::FieldError {
            field: "chunk-size".to_string(),
            cause: FieldCause::Parse(ParseError::InvalidFormat),
        }
    );
}

#[test]
fn socketio_empty_doc_is_default_row() {
    let d = ConfigDoc::new();
    let c = SocketIoServerConfig::decode(&d).unwrap();
    assert_eq!(c.enabled, false);
    assert_eq!(c.ack_timeout.raw, "5s");
    assert_eq!(c.ack_timeout.parsed, 5_000);
    assert_eq!(c.connect_timeout.raw, "45s");
    assert_eq!(c.connect_timeout.parsed, 45_000);
    assert_eq!(c.max_buffer_size, 128);
    assert_eq!(c.max_payload.raw, "100KB");
    assert_eq!(c.max_payload.parsed, 100_000);
    assert_eq!(c.ping_interval.raw, "25s");
    assert_eq!(c.ping_interval.parsed, 25_000);
    assert_eq!(c.ping_timeout.raw, "20s");
    assert_eq!(c.ping_timeout.parsed, 20_000);
    assert!(c.req_path.is_none());
    assert!(c.transports.is_none());
    assert_eq!(c.parser, SocketParser::Common);
    assert_eq!(c.ws_read_buffer_size, 4_096);
}

#[test]
fn socketio_reads_fields() {
    let d = doc(vec![
        ("enabled", ConfigValue::Bool(true)),
        ("ack_timeout", s("10s")),
        ("max_buffer_size", ConfigValue::UInt(256)),
        ("max_payload", s("1MiB")),
        ("parser", s("msgpack")),
        (
            "transports",
            ConfigValue::StrList(vec!["websocket".to_string()]),
        ),
        ("req_path", s("/io")),
    ]);
    let c = SocketIoServerConfig::decode(&d).unwrap();
    assert_eq!(c.enabled, true);
    assert_eq!(c.ack_timeout.parsed, 10_000);
    assert_eq!(c.max_buffer_size, 256);
    assert_eq!(c.max_payload.parsed, 1_048_576);
    assert_eq!(c.parser, SocketParser::MsgPack);
    assert_eq!(c.transports, Some(vec!["websocket".to_string()]));
    assert_eq!(c.req_path, Some("/io".to_string()));
}

#[test]
fn socketio_unknown_parser_fails() {
    let d = doc(vec![("parser", s("fancy"))]);
    let e = SocketIoServerConfig::decode(&d).unwrap_err();
    assert_eq!(
        e,
        ConfigDecodeError::FieldError {
            field: "parser".to_string(),
            cause: FieldCause::WrongType,
        }
    );
}

#[test]
fn flat_body_limit_empty_doc_is_default_row() {
    let c = BodyLimit::decode(&ConfigDoc::new()).unwrap();
    assert_eq!(c.enabled, true);
    assert_eq!(c.max_size, "10MB");
    assert_eq!(c.parsed, 10_000_000);
    assert_eq!(c.display, false);
}

#[test]
fn flat_body_limit_bad_size_names_field() {
    let d = doc(vec![("max_size", s("plenty"))]);
    let e = BodyLimit::decode(&d).unwrap_err();
    assert_eq!(
        e,
        ConfigDecodeError::FieldError {
            field: "max_size".to_string(),
            cause: FieldCause::Parse(ParseError::InvalidFormat),
        }
    );
}

#[test]
fn flat_body_limit_decodes() {
    let d = doc(vec![
        ("enabled", ConfigValue::Bool(true)),
        ("max_size", s("2MiB")),
    ]);
    let c = BodyLimit::decode(&d).unwrap();
    assert_eq!(c.enabled, true);
    assert_eq!(c.max_size, "2MiB");
    assert_eq!(c.parsed, 2_097_152);
    assert_eq!(c.display, false);
    let dflt = BodyLimit::default();
    assert_eq!(dflt.enabled, true);
    assert_eq!(dflt.max_size, "10MB");
    assert_eq!(dflt.parsed, 10_000_000);
}

#[test]
fn flat_timeout_empty_doc_is_default_row() {
    let c = TimeoutLimit::decode(&ConfigDoc::new()).unwrap();
    assert_eq!(c.enabled, false);
    assert_eq!(c.duration, "15s");
    assert_eq!(c.parsed, 15_000);
    assert_eq!(c.display, false);
}

#[test]
fn flat_timeout_decodes() {
    let d = doc(vec![
        ("enabled", ConfigValue::Bool(true)),
        ("duration", s("45s")),
    ]);
    let c = TimeoutLimit::decode(&d).unwrap();
    assert_eq!(c.enabled, true);
    assert_eq!(c.duration, "45s");
    assert_eq!(c.parsed, 45_000);
    let dflt = TimeoutLimit::default();
    assert_eq!(dflt.enabled, false);
    assert_eq!(dflt.duration, "15s");
    assert_eq!(dflt.parsed, 15_000);
}

#[test]
fn required_readers_report_missing_fields() {
    // The document pipeline's readers for fields with no declared
    // default: absence is an error naming the field.
    let d = ConfigDoc::new();
    assert_eq!(
        d.get_bool_req("enabled").unwrap_err(),
        ConfigDecodeError::MissingField {
            field: "enabled".to_string()
        }
    );
    assert_eq!(
        d.get_str_req("name").unwrap_err(),
        ConfigDecodeError::MissingField {
            field: "name".to_string()
        }
    );
    assert_eq!(
        d.get_byte_req("size").unwrap_err(),
        ConfigDecodeError::MissingField {
            field: "size".to_string()
        }
    );
    assert_eq!(
        d.get_time_req("wait").unwrap_err(),
        ConfigDecodeError::MissingField {
            field: "wait".to_string()
        }
    );
    let d2 = doc(vec![("size", s("4KiB")), ("wait", s("2m"))]);
    assert_eq!(d2.get_byte_req("size").unwrap().parsed, 4_096);
    assert_eq!(d2.get_time_req("wait").unwrap().parsed, 120_000);
}

#[test]
fn errors_describe_name_the_field() {
    let d = doc(vec![("max-size", s("not-a-size"))]);
    let e = BodyLimitConfig::decode(&d).unwrap_err();
    assert_eq!(e.describe(), "invalid field `max-size`: invalid format");

    let e2 = ConfigDoc::new().get_bool_req("enabled").unwrap_err();
    assert_eq!(e2.describe(), "missing field `enabled`");

    let d3 = doc(vec![("enabled", s("yes"))]);
    let e3 = BodyLimitConfig::decode(&d3).unwrap_err();
    assert_eq!(e3.describe(), "invalid field `enabled`: wrong type");

    let d4 = doc(vec![("max-size", s("999999999999EB"))]);
    let e4 = BodyLimitConfig::decode(&d4).unwrap_err();
    assert_eq!(e4.describe(), "invalid field `max-size`: value out of range");
}
