//! The Socket.IO feature: transport timeouts, buffer ceilings, the
//! message parser, and which transports are allowed.

use vstd::prelude::*;

use crate::document::{
    bool_ok, bool_or, byte_cause, byte_ok, byte_raw_or, doc_get, is_field_err, list_ok, list_opt,
    str_ok, str_opt, time_cause, time_ok, time_raw_or, uint_ok, uint_opt, ConfigDoc, ConfigValue,
};
use crate::errors::{ConfigDecodeError, FieldCause};
use crate::parse::{
    byte_size_value, duration_value_ms, lemma_byte_size_of, lemma_digits_val_small,
    lemma_digits_val_small3, lemma_duration_of, lemma_pow_tables, pow_of, unit_mult,
    valid_byte_size, valid_duration,
};
use crate::servedir::opt_str_matches;
use crate::strutil::str_views;
use crate::values::{ByteConfig, TimeConfig};

verus! {

/// The message parser of the Socket.IO server: a closed choice.
#[derive(Clone, Copy, Debug, PartialEq, Eq, Structural)]
pub enum SocketParser {
    /// The default text parser.
    Common,
    /// The MessagePack binary parser.
    MsgPack,
}

impl SocketParser {
    /// The parser a name selects, if any: `common` or `msgpack`.
    pub open spec fn spec_parse(s: Seq<char>) -> Option<SocketParser> {
        if s == "common"@ {
            Some(SocketParser::Common)
        } else if s == "msgpack"@ {
            Some(SocketParser::MsgPack)
        } else {
            None
        }
    }

    /// Parse a parser name.
    pub fn parse(s: &str) -> (r: Option<SocketParser>)
        ensures
            r == SocketParser::spec_parse(s@),
    {
        if crate::strutil::str_eq(s, "common") {
            Some(SocketParser::Common)
        } else if crate::strutil::str_eq(s, "msgpack") {
            Some(SocketParser::MsgPack)
        } else {
            None
        }
    }

    /// The name of the parser: what `parse` accepts back.
    pub fn format(&self) -> (r: &'static str)
        ensures
            SocketParser::spec_parse(r@) == Some(*self),
    {
        proof {
            reveal_strlit("common");
            reveal_strlit("msgpack");
            assert("common"@.len() != "msgpack"@.len());
        }
        match self {
            SocketParser::Common => "common",
            SocketParser::MsgPack => "msgpack",
        }
    }
}

/// The concrete values of every Socket.IO default.
pub proof fn lemma_socketio_defaults()
    ensures
        valid_duration("5s"@) && duration_value_ms("5s"@) == 5_000,
        valid_duration("45s"@) && duration_value_ms("45s"@) == 45_000,
        valid_duration("25s"@) && duration_value_ms("25s"@) == 25_000,
        valid_duration("20s"@) && duration_value_ms("20s"@) == 20_000,
        valid_byte_size("100KB"@) && byte_size_value("100KB"@) == 100_000,
        valid_byte_size("4KiB"@) && byte_size_value("4KiB"@) == 4_096,
{
    reveal_strlit("5s");
    reveal_strlit("45s");
    reveal_strlit("25s");
    reveal_strlit("20s");
    reveal_strlit("100KB");
    reveal_strlit("4KiB");
    lemma_pow_tables();
    let sec = seq!['s'];
    assert("5s"@ =~= seq!['5'] + sec);
    lemma_digits_val_small('5', '5');
    lemma_duration_of(seq!['5'], sec, 1000);
    assert("45s"@ =~= seq!['4', '5'] + sec);
    lemma_digits_val_small('4', '5');
    lemma_duration_of(seq!['4', '5'], sec, 1000);
    assert("25s"@ =~= seq!['2', '5'] + sec);
    lemma_digits_val_small('2', '5');
    lemma_duration_of(seq!['2', '5'], sec, 1000);
    assert("20s"@ =~= seq!['2', '0'] + sec);
    lemma_digits_val_small('2', '0');
    lemma_duration_of(seq!['2', '0'], sec, 1000);
    assert("100KB"@ =~= seq!['1', '0', '0'] + seq!['K', 'B']);
    lemma_digits_val_small3('1', '0', '0');
    assert(unit_mult(seq!['K', 'B']) == Some(pow_of(1000, 1)));
    lemma_byte_size_of(seq!['1', '0', '0'], seq!['K', 'B'], pow_of(1000, 1));
    assert("4KiB"@ =~= seq!['4'] + seq!['K', 'i', 'B']);
    lemma_digits_val_small('4', '4');
    assert(unit_mult(seq!['K', 'i', 'B']) == Some(pow_of(1024, 1)));
    lemma_byte_size_of(seq!['4'], seq!['K', 'i', 'B'], pow_of(1024, 1));
}

/// Configuration of the Socket.IO server. Every field is optional in
/// the input; absence means the documented default.
#[derive(Debug, Clone)]
pub struct SocketIoServerConfig {
    /// Whether to enable the Socket.IO server. Defaults to false.
    pub enabled: bool,
    /// How long the server waits for an acknowledgement from the client
    /// before closing the connection. Defaults to "5s".
    pub ack_timeout: TimeConfig,
    /// How long before disconnecting a client that has not successfully
    /// joined a namespace. Defaults to "45s".
    pub connect_timeout: TimeConfig,
    /// The maximum number of packets buffered per connection before
    /// being emitted to the client. Defaults to 128.
    pub max_buffer_size: u64,
    /// The maximum size of a payload in bytes. Defaults to "100KB".
    pub max_payload: ByteConfig,
    /// The interval at which the server pings the client. Defaults to
    /// "25s".
    pub ping_interval: TimeConfig,
    /// How long the server waits for a ping response from the client
    /// before closing the connection. Defaults to "20s".
    pub ping_timeout: TimeConfig,
    /// The path to listen for Socket.IO requests on; the transport's
    /// own default applies when absent.
    pub req_path: Option<String>,
    /// The transports to allow: "polling" and "websocket"; the
    /// transport's own default applies when absent.
    pub transports: Option<Vec<String>>,
    /// The parser for encoding and decoding messages. Defaults to the
    /// common parser.
    pub parser: SocketParser,
    /// The size of the websocket read buffer in bytes. Defaults to 4096.
    pub ws_read_buffer_size: u64,
}

/// The parser field is absent or names a known parser.
pub open spec fn parser_ok(d: Seq<(String, ConfigValue)>) -> bool {
    match doc_get(d, "parser"@) {
        None => true,
        Some(ConfigValue::Str(s)) => SocketParser::spec_parse(s@) is Some,
        Some(_) => false,
    }
}

/// The parser the document selects, or the common parser when absent.
pub open spec fn parser_or_common(d: Seq<(String, ConfigValue)>) -> SocketParser {
    match doc_get(d, "parser"@) {
        Some(ConfigValue::Str(s)) => match SocketParser::spec_parse(s@) {
            Some(p) => p,
            None => SocketParser::Common,
        },
        _ => SocketParser::Common,
    }
}

/// Every field the decode consults is well-typed and parses.
pub open spec fn socketio_fields_ok(d: Seq<(String, ConfigValue)>) -> bool {
    bool_ok(d, "enabled"@) && time_ok(d, "ack_timeout"@) && time_ok(d, "connect_timeout"@)
        && uint_ok(d, "max_buffer_size"@) && byte_ok(d, "max_payload"@) && time_ok(
        d,
        "ping_interval"@,
    ) && time_ok(d, "ping_timeout"@) && str_ok(d, "req_path"@) && list_ok(d, "transports"@)
        && parser_ok(d) && uint_ok(d, "ws_read_buffer_size"@)
}

/// What decode produces for a document: each field from its entry, or
/// its documented default when absent.
pub open spec fn socketio_decoded(d: Seq<(String, ConfigValue)>, c: SocketIoServerConfig) -> bool {
    c.enabled == bool_or(d, "enabled"@, false) && c.ack_timeout.wf() && c.ack_timeout.raw@
        == time_raw_or(d, "ack_timeout"@, "5s"@) && c.connect_timeout.wf() && c.connect_timeout.raw@
        == time_raw_or(d, "connect_timeout"@, "45s"@) && c.max_buffer_size == (match uint_opt(
        d,
        "max_buffer_size"@,
    ) {
        Some(g) => g,
        None => 128u64,
    }) && c.max_payload.wf() && c.max_payload.raw@ == byte_raw_or(d, "max_payload"@, "100KB"@)
        && c.ping_interval.wf() && c.ping_interval.raw@ == time_raw_or(d, "ping_interval"@, "25s"@)
        && c.ping_timeout.wf() && c.ping_timeout.raw@ == time_raw_or(d, "ping_timeout"@, "20s"@)
        && opt_str_matches(c.req_path, str_opt(d, "req_path"@)) && (match (
        c.transports,
        list_opt(d, "transports"@),
    ) {
        (Some(v), Some(g)) => str_views(v@) == g,
        (None, None) => true,
        _ => false,
    }) && c.parser == parser_or_common(d) && c.ws_read_buffer_size == (match uint_opt(
        d,
        "ws_read_buffer_size"@,
    ) {
        Some(g) => g,
        None => 4096u64,
    })
}

/// The error decode reports: the first field, in declared order, that
/// does not decode.
pub open spec fn socketio_err(d: Seq<(String, ConfigValue)>, e: ConfigDecodeError) -> bool {
    let ok1 = bool_ok(d, "enabled"@);
    let ok2 = time_ok(d, "ack_timeout"@);
    let ok3 = time_ok(d, "connect_timeout"@);
    let ok4 = uint_ok(d, "max_buffer_size"@);
    let ok5 = byte_ok(d, "max_payload"@);
    let ok6 = time_ok(d, "ping_interval"@);
    let ok7 = time_ok(d, "ping_timeout"@);
    let ok8 = str_ok(d, "req_path"@);
    let ok9 = list_ok(d, "transports"@);
    let ok10 = parser_ok(d);
    let ok11 = uint_ok(d, "ws_read_buffer_size"@);
    (!ok1 && is_field_err(e, "enabled"@, FieldCause::WrongType)) || (ok1 && !ok2 && is_field_err(
        e,
        "ack_timeout"@,
        time_cause(d, "ack_timeout"@),
    )) || (ok1 && ok2 && !ok3 && is_field_err(e, "connect_timeout"@, time_cause(d, "connect_timeout"@)))
        || (ok1 && ok2 && ok3 && !ok4 && is_field_err(e, "max_buffer_size"@, FieldCause::WrongType))
        || (ok1 && ok2 && ok3 && ok4 && !ok5 && is_field_err(
        e,
        "max_payload"@,
        byte_cause(d, "max_payload"@),
    )) || (ok1 && ok2 && ok3 && ok4 && ok5 && !ok6 && is_field_err(
        e,
        "ping_interval"@,
        time_cause(d, "ping_interval"@),
    )) || (ok1 && ok2 && ok3 && ok4 && ok5 && ok6 && !ok7 && is_field_err(
        e,
        "ping_timeout"@,
        time_cause(d, "ping_timeout"@),
    )) || (ok1 && ok2 && ok3 && ok4 && ok5 && ok6 && ok7 && !ok8 && is_field_err(
        e,
        "req_path"@,
        FieldCause::WrongType,
    )) || (ok1 && ok2 && ok3 && ok4 && ok5 && ok6 && ok7 && ok8 && !ok9 && is_field_err(
        e,
        "transports"@,
        FieldCause::WrongType,
    )) || (ok1 && ok2 && ok3 && ok4 && ok5 && ok6 && ok7 && ok8 && ok9 && !ok10 && is_field_err(
        e,
        "parser"@,
        FieldCause::WrongType,
    )) || (ok1 && ok2 && ok3 && ok4 && ok5 && ok6 && ok7 && ok8 && ok9 && ok10 && !ok11
        && is_field_err(e, "ws_read_buffer_size"@, FieldCause::WrongType))
}

impl SocketIoServerConfig {
    /// The parsed values faithfully decode their raw strings.
    pub open spec fn wf(self) -> bool {
        self.ack_timeout.wf() && self.connect_timeout.wf() && self.ping_interval.wf()
            && self.ping_timeout.wf() && self.max_payload.wf()
    }

    /// Decode a Socket.IO section: all fields or the first offending
    /// one, nothing partial.
    pub fn decode(doc: &ConfigDoc) -> (r: Result<SocketIoServerConfig, ConfigDecodeError>)
        ensures
            match r {
                Ok(c) => socketio_fields_ok(doc.entries@) && socketio_decoded(doc.entries@, c)
                    && c.wf(),
                Err(e) => !socketio_fields_ok(doc.entries@) && socketio_err(doc.entries@, e),
            },
    {
        proof {
            lemma_socketio_defaults();
        }
        let enabled = match doc.get_bool_or("enabled", false) {
            Ok(v) => v,
            Err(e) => {
                return Err(e);
            },
        };
        let ack_timeout = match doc.get_time_or("ack_timeout", "5s") {
            Ok(v) => v,
            Err(e) => {
                return Err(e);
            },
        };
        let connect_timeout = match doc.get_time_or("connect_timeout", "45s") {
            Ok(v) => v,
            Err(e) => {
                return Err(e);
            },
        };
        let max_buffer_size = match doc.get_uint_or("max_buffer_size", 128) {
            Ok(v) => v,
            Err(e) => {
                return Err(e);
            },
        };
        let max_payload = match doc.get_byte_or("max_payload", "100KB") {
            Ok(v) => v,
            Err(e) => {
                return Err(e);
            },
        };
        let ping_interval = match doc.get_time_or("ping_interval", "25s") {
            Ok(v) => v,
            Err(e) => {
                return Err(e);
            },
        };
        let ping_timeout = match doc.get_time_or("ping_timeout", "20s") {
            Ok(v) => v,
            Err(e) => {
                return Err(e);
            },
        };
        let req_path = match doc.get_str_opt("req_path") {
            Ok(v) => v,
            Err(e) => {
                return Err(e);
            },
        };
        let transports = match doc.get_list_opt("transports") {
            Ok(v) => v,
            Err(e) => {
                return Err(e);
            },
        };
        let parser_name = match doc.get_str_opt("parser") {
            Ok(v) => v,
            Err(e) => {
                return Err(e);
            },
        };
        let parser = match parser_name {
            None => SocketParser::Common,
            Some(name) => match SocketParser::parse(name.as_str()) {
                Some(p) => p,
                None => {
                    return Err(
                        ConfigDecodeError::FieldError {
                            field: "parser".to_owned(),
                            cause: FieldCause::WrongType,
                        },
                    );
                },
            },
        };
        let ws_read_buffer_size = match doc.get_uint_or("ws_read_buffer_size", 4096) {
            Ok(v) => v,
            Err(e) => {
                return Err(e);
            },
        };
        Ok(
            SocketIoServerConfig {
                enabled,
                ack_timeout,
                connect_timeout,
                max_buffer_size,
                max_payload,
                ping_interval,
                ping_timeout,
                req_path,
                transports,
                parser,
                ws_read_buffer_size,
            },
        )
    }
}

impl Default for SocketIoServerConfig {
    /// The documented default row: disabled, 5s ack, 45s connect, 128
    /// packets, 100KB payloads, 25s ping interval, 20s ping timeout,
    /// the common parser and a 4096-byte read buffer.
    fn default() -> (c: Self)
        ensures
            c.enabled == false,
            c.ack_timeout.raw@ == "5s"@ && c.ack_timeout.parsed == 5_000,
            c.connect_timeout.raw@ == "45s"@ && c.connect_timeout.parsed == 45_000,
            c.max_buffer_size == 128,
            c.max_payload.raw@ == "100KB"@ && c.max_payload.parsed == 100_000,
            c.ping_interval.raw@ == "25s"@ && c.ping_interval.parsed == 25_000,
            c.ping_timeout.raw@ == "20s"@ && c.ping_timeout.parsed == 20_000,
            c.req_path is None,
            c.transports is None,
            c.parser == SocketParser::Common,
            c.ws_read_buffer_size == 4096,
            c.wf(),
    {
        proof {
            lemma_socketio_defaults();
        }
        let ack_timeout = match TimeConfig::decode("5s".to_owned()) {
            Ok(v) => v,
            Err(_) => unreached(),
        };
        let connect_timeout = match TimeConfig::decode("45s".to_owned()) {
            Ok(v) => v,
            Err(_) => unreached(),
        };
        let max_payload = match ByteConfig::decode("100KB".to_owned()) {
            Ok(v) => v,
            Err(_) => unreached(),
        };
        let ping_interval = match TimeConfig::decode("25s".to_owned()) {
            Ok(v) => v,
            Err(_) => unreached(),
        };
        let ping_timeout = match TimeConfig::decode("20s".to_owned()) {
            Ok(v) => v,
            Err(_) => unreached(),
        };
        SocketIoServerConfig {
            enabled: false,
            ack_timeout,
            connect_timeout,
            max_buffer_size: 128,
            max_payload,
            ping_interval,
            ping_timeout,
            req_path: None,
            transports: None,
            parser: SocketParser::Common,
            ws_read_buffer_size: 4096,
        }
    }
}

/// Which transports a name list allows.
#[derive(Clone, Copy, Debug, PartialEq, Eq, Structural)]
pub struct TransportSet {
    pub polling: bool,
    pub websocket: bool,
}

/// Some entry of the list is exactly the keyword.
pub open spec fn names_transport(l: Seq<Seq<char>>, kw: Seq<char>) -> bool {
    exists|i: int| 0 <= i < l.len() && #[trigger] l[i] == kw
}

/// ### Socket.IO Server Layer
///
/// The decision half of the Socket.IO middleware: which of the two
/// transports the configured names allow. Unknown names are ignored and
/// repeated names count once. The server itself is built outside from
/// this answer.
pub struct SocketIoServerLayer;

impl SocketIoServerLayer {
    /// The transports a name list allows.
    pub fn transport_set(transports: &Vec<String>) -> (r: TransportSet)
        ensures
            r.polling == names_transport(str_views(transports@), "polling"@),
            r.websocket == names_transport(str_views(transports@), "websocket"@),
    {
        let ghost l = str_views(transports@);
        let mut polling = false;
        let mut websocket = false;
        let mut i: usize = 0;
        while i < transports.len()
            invariant
                0 <= i <= transports@.len(),
                l == str_views(transports@),
                polling == names_transport(l.take(i as int), "polling"@),
                websocket == names_transport(l.take(i as int), "websocket"@),
            decreases transports@.len() - i,
        {
            let t = &transports[i];
            let m_polling = crate::strutil::str_eq(t.as_str(), "polling");
            let m_websocket = crate::strutil::str_eq(t.as_str(), "websocket");
            proof {
                assert(l[i as int] == transports@[i as int]@);
                assert forall|kw: Seq<char>|
                    #[trigger] names_transport(l.take(i + 1), kw) == (names_transport(
                        l.take(i as int),
                        kw,
                    ) || l[i as int] == kw) by {
                    if names_transport(l.take(i as int), kw) {
                        let w = choose|w: int| 0 <= w < i && #[trigger] l.take(i as int)[w] == kw;
                        assert(l.take(i + 1)[w] == l.take(i as int)[w]);
                        assert(names_transport(l.take(i + 1), kw));
                    }
                    if l[i as int] == kw {
                        assert(l.take(i + 1)[i as int] == l[i as int]);
                        assert(names_transport(l.take(i + 1), kw));
                    }
                    if names_transport(l.take(i + 1), kw) {
                        let w = choose|w: int| 0 <= w < i + 1 && #[trigger] l.take(i + 1)[w] == kw;
                        if w < i {
                            assert(l.take(i as int)[w] == l.take(i + 1)[w]);
                            assert(names_transport(l.take(i as int), kw));
                        } else {
                            assert(l.take(i + 1)[w] == l[i as int]);
                        }
                    }
                }
            }
            polling = polling || m_polling;
            websocket = websocket || m_websocket;
            i += 1;
        }
        proof {
            assert(l.take(transports@.len() as int) =~= l);
        }
        TransportSet { polling, websocket }
    }

    /// The transport decision of the Socket.IO middleware: nothing when
    /// no transports are configured, otherwise the set the names allow.
    pub fn new(config: &SocketIoServerConfig) -> (r: Option<TransportSet>)
        ensures
            config.transports is None ==> r is None,
            match (config.transports, r) {
                (Some(ts), Some(s)) => s.polling == names_transport(str_views(ts@), "polling"@)
                    && s.websocket == names_transport(str_views(ts@), "websocket"@),
                (None, None) => true,
                _ => false,
            },
    {
        match &config.transports {
            None => None,
            Some(ts) => Some(Self::transport_set(ts)),
        }
    }
}

/// Decoding an empty document gives exactly the documented default row.
pub proof fn lemma_socketio_empty_decode(d: Seq<(String, ConfigValue)>, c: SocketIoServerConfig)
    requires
        d.len() == 0,
        socketio_decoded(d, c),
    ensures
        socketio_fields_ok(d),
        c.enabled == false,
        c.ack_timeout.raw@ == "5s"@ && c.ack_timeout.parsed == 5_000,
        c.connect_timeout.raw@ == "45s"@ && c.connect_timeout.parsed == 45_000,
        c.max_buffer_size == 128,
        c.max_payload.raw@ == "100KB"@ && c.max_payload.parsed == 100_000,
        c.ping_interval.raw@ == "25s"@ && c.ping_interval.parsed == 25_000,
        c.ping_timeout.raw@ == "20s"@ && c.ping_timeout.parsed == 20_000,
        c.req_path is None,
        c.transports is None,
        c.parser == SocketParser::Common,
        c.ws_read_buffer_size == 4096,
{
    lemma_socketio_defaults();
}

} // verus!
