use sword_web::compression::{AlgorithmSet, CompressionConfig, CompressionLayer};
use sword_web::content_type::{ContentTypeCheck, ContentTypeDecision};
use sword_web::default_display;
use sword_web::servedir::{Precompression, ServeDirConfig, ServeDirLayer, ServeDirMiddleware};
use sword_web::socketio::{SocketIoServerConfig, SocketIoServerLayer, SocketParser, TransportSet};

#[test]
fn display_defaults_off() {
    assert_eq!(default_display(), false);
}

#[test]
fn compression_algorithm_set() {
    let algs = vec!["GZip".to_string(), "br".to_string(), "junk".to_string()];
    let set = CompressionLayer::algorithm_set(&algs);
    assert_eq!(
        set,
        AlgorithmSet {
            gzip: true,
            deflate: false,
            br: true,
            zstd: false,
        }
    );
    let brotli = CompressionLayer::algorithm_set(&vec!["BROTLI".to_string()]);
    assert!(brotli.br);
    let empty = CompressionLayer::algorithm_set(&Vec::new());
    assert_eq!(
        empty,
        AlgorithmSet {
            gzip: false,
            deflate: false,
            br: false,
            zstd: false,
        }
    );
}

#[test]
fn compression_layer_gated_by_enabled() {
    let mut c = CompressionConfig::default();
    c.algorithms = vec!["zstd".to_string()];
    assert!(CompressionLayer::new(&c).is_none());
    c.enabled = true;
    let set = CompressionLayer::new(&c).unwrap();
    assert!(set.zstd);
    assert!(!set.gzip);
}

#[test]
fn socket_parser_round_trip() {
    assert_eq!(SocketParser::parse("common"), Some(SocketParser::Common));
    assert_eq!(SocketParser::parse("msgpack"), Some(SocketParser::MsgPack));
    assert_eq!(SocketParser::parse("Common"), None);
    assert_eq!(SocketParser::parse(""), None);
    assert_eq!(
        SocketParser::parse(SocketParser::Common.format()),
        Some(SocketParser::Common)
    );
    assert_eq!(
        SocketParser::parse(SocketParser::MsgPack.format()),
        Some(SocketParser::MsgPack)
    );
}

#[test]
fn socketio_transport_set() {
    let ts = vec![
        "polling".to_string(),
        "polling".to_string(),
        "websocket".to_string(),
        "carrier-pigeon".to_string(),
    ];
    let set = SocketIoServerLayer::transport_set(&ts);
    assert_eq!(
        set,
        TransportSet {
            polling: true,
            websocket: true,
        }
    );
    let none = SocketIoServerLayer::transport_set(&vec!["Polling".to_string()]);
    assert_eq!(
        none,
        TransportSet {
            polling: false,
            websocket: false,
        }
    );
}

#[test]
fn socketio_layer_transport_decision() {
    let mut c = SocketIoServerConfig::default();
    assert!(SocketIoServerLayer::new(&c).is_none());
    c.transports = Some(vec!["websocket".to_string()]);
    let set = SocketIoServerLayer::new(&c).unwrap();
    assert!(set.websocket);
    assert!(!set.polling);
}

#[test]
fn servedir_plan_fallback_path() {
    let c = ServeDirConfig::default();
    let plan = ServeDirLayer::new(&c);
    assert_eq!(plan.fallback, "public/404.html");
    assert!(plan.precompression.is_none());
    assert!(plan.chunk.is_none());

    let mut c2 = ServeDirConfig::default();
    c2.static_dir = "assets".to_string();
    c2.not_found_file = Some("missing.html".to_string());
    c2.compression_algorithm = Some("br".to_string());
    let plan2 = ServeDirMiddleware::new(c2);
    assert_eq!(plan2.fallback, "assets/missing.html");
    assert_eq!(plan2.precompression, Some(Precompression::Brotli));
}

#[test]
fn servedir_plan_precompression_choices() {
    for (name, expected) in [
        ("gzip", Some(Precompression::Gzip)),
        ("deflate", Some(Precompression::Deflate)),
        ("zstd", Some(Precompression::Zstd)),
        ("BR", None),
        ("lz4", None),
    ] {
        let mut c = ServeDirConfig::default();
        c.compression_algorithm = Some(name.to_string());
        let plan = ServeDirLayer::new(&c);
        assert_eq!(plan.precompression, expected);
    }
}

#[test]
fn content_type_check_decisions() {
    assert_eq!(
        ContentTypeCheck::evaluate(None, true),
        ContentTypeDecision::MissingHeader
    );
    assert_eq!(
        ContentTypeCheck::evaluate(None, false),
        ContentTypeDecision::MissingHeader
    );
    assert_eq!(
        ContentTypeCheck::evaluate(Some("text/plain"), true),
        ContentTypeDecision::Proceed
    );
    assert_eq!(
        ContentTypeCheck::evaluate(Some("application/json"), false),
        ContentTypeDecision::Proceed
    );
    assert_eq!(
        ContentTypeCheck::evaluate(
            Some("multipart/form-data; boundary=something"),
            false
        ),
        ContentTypeDecision::Proceed
    );
    assert_eq!(
        ContentTypeCheck::evaluate(Some("text/plain"), false),
        ContentTypeDecision::Unsupported
    );
    assert_eq!(
        ContentTypeCheck::evaluate(Some("application/json; charset=utf-8"), false),
        ContentTypeDecision::Unsupported
    );
}
