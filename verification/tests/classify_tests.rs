use proxy::classify::{
    classify, process_chunk, Classification, Direction, HttpRender, PostgresRender, ProtocolEvent,
};
use proxy::protocol::{effective_protocol, Protocol};

#[test]
fn http_message_splits_into_headers_and_body() {
    let input = b"GET /x HTTP/1.1\r\nHost: a\r\n\r\nbody";
    match classify(Protocol::Http, input) {
        Classification::Http(HttpRender::Split { headers, body }) => {
            assert_eq!(headers, vec!["GET /x HTTP/1.1".to_string(), "Host: a".to_string()]);
            assert_eq!(body.as_deref(), Some("body"));
        },
        _ => panic!("expected a split HTTP rendering"),
    }
}

#[test]
fn http_message_with_empty_body_omits_it() {
    let input = b"GET / HTTP/1.1\r\nHost: a\r\n\r\n";
    match classify(Protocol::Http, input) {
        Classification::Http(HttpRender::Split { headers, body }) => {
            assert_eq!(headers, vec!["GET / HTTP/1.1".to_string(), "Host: a".to_string()]);
            assert!(body.is_none());
        },
        _ => panic!("expected a split HTTP rendering"),
    }
}

#[test]
fn http_message_without_separator_is_unsplit() {
    let input = b"HTTP/1.1 200 OK";
    match classify(Protocol::Http, input) {
        Classification::Http(HttpRender::Unsplit { text }) => {
            assert_eq!(text, "HTTP/1.1 200 OK");
        },
        _ => panic!("expected an unsplit HTTP rendering"),
    }
}

#[test]
fn http_without_method_prefix_falls_back_to_tcp() {
    let input = b"FOO bar";
    match classify(Protocol::Http, input) {
        Classification::Tcp(t) => {
            assert_eq!(t.total_len, 7);
            assert_eq!(t.hex_preview, "464f4f20626172");
        },
        _ => panic!("expected the TCP fallback"),
    }
}

#[test]
fn http_with_invalid_utf8_falls_back_to_tcp() {
    let input = [0x47u8, 0x45, 0x54, 0x20, 0xff, 0xfe]; // "GET " then invalid bytes
    match classify(Protocol::Http, &input) {
        Classification::Tcp(t) => {
            assert_eq!(t.hex_preview, "47455420fffe");
            assert!(t.text_preview.is_none());
        },
        _ => panic!("expected the TCP fallback"),
    }
}

#[test]
fn postgres_query_is_decoded_and_trimmed() {
    let mut input = vec![b'Q'];
    input.extend_from_slice(&9u32.to_be_bytes());
    input.extend_from_slice(b"SELECT 1\0");
    match classify(Protocol::Postgres, &input) {
        Classification::Postgres(PostgresRender::Query { text }) => {
            assert_eq!(text.as_deref(), Some("SELECT 1"));
        },
        _ => panic!("expected a query rendering"),
    }
}

#[test]
fn postgres_short_chunk_falls_back_to_tcp_hex() {
    let input = [0x01u8, 0x02, 0x03];
    match classify(Protocol::Postgres, &input) {
        Classification::Tcp(t) => {
            assert_eq!(t.hex_preview, "010203");
            assert_eq!(t.total_len, 3);
        },
        _ => panic!("a chunk under five bytes must fall back to TCP"),
    }
}

#[test]
fn postgres_empty_chunk_falls_back_to_tcp() {
    match classify(Protocol::Postgres, b"") {
        Classification::Tcp(t) => {
            assert_eq!(t.total_len, 0);
            assert_eq!(t.hex_preview, "");
            assert_eq!(t.text_preview.as_deref(), Some(""));
            assert_eq!(t.suppressed, 0);
        },
        _ => panic!("an empty chunk must fall back to TCP like any chunk under five bytes"),
    }
}

#[test]
fn postgres_framed_messages_carry_their_length() {
    let mut input = vec![b'P'];
    input.extend_from_slice(&77u32.to_be_bytes());
    input.push(0);
    match classify(Protocol::Postgres, &input) {
        Classification::Postgres(PostgresRender::Parse { length }) => assert_eq!(length, 77),
        _ => panic!("expected a parse rendering"),
    }

    let mut ready = vec![b'Z'];
    ready.extend_from_slice(&5u32.to_be_bytes());
    assert!(matches!(
        classify(Protocol::Postgres, &ready),
        Classification::Postgres(PostgresRender::ReadyForQuery)
    ));

    let mut terminate = vec![b'X'];
    terminate.extend_from_slice(&4u32.to_be_bytes());
    assert!(matches!(
        classify(Protocol::Postgres, &terminate),
        Classification::Postgres(PostgresRender::Terminate)
    ));
}

#[test]
fn postgres_unknown_tag_shows_hex_preview() {
    let mut input = vec![b'#'];
    input.extend_from_slice(&258u32.to_be_bytes());
    match classify(Protocol::Postgres, &input) {
        Classification::Postgres(PostgresRender::Unknown { tag, length, hex_preview }) => {
            assert_eq!(tag, b'#');
            assert_eq!(length, 258);
            assert_eq!(hex_preview, "2300000102");
        },
        _ => panic!("expected an unknown-tag rendering"),
    }
}

#[test]
fn tcp_preview_escapes_line_breaks() {
    let input = b"a\r\nb";
    match classify(Protocol::Tcp, input) {
        Classification::Tcp(t) => {
            assert_eq!(t.total_len, 4);
            assert_eq!(t.hex_preview, "610d0a62");
            assert_eq!(t.text_preview.as_deref(), Some("a\\r\\nb"));
            assert_eq!(t.suppressed, 0);
        },
        _ => panic!("expected a TCP rendering"),
    }
}

#[test]
fn tcp_preview_omits_text_for_unprintable_bytes() {
    let input = [0x00u8, 0x61];
    match classify(Protocol::Tcp, &input) {
        Classification::Tcp(t) => {
            assert_eq!(t.hex_preview, "0061");
            assert!(t.text_preview.is_none());
        },
        _ => panic!("expected a TCP rendering"),
    }
}

#[test]
fn tcp_preview_stops_at_one_hundred_bytes() {
    let input = vec![b'x'; 130];
    match classify(Protocol::Tcp, &input) {
        Classification::Tcp(t) => {
            assert_eq!(t.total_len, 130);
            assert_eq!(t.hex_preview.len(), 200);
            assert_eq!(t.hex_preview, "78".repeat(100));
            assert_eq!(t.text_preview.as_deref(), Some("x".repeat(100).as_str()));
            assert_eq!(t.suppressed, 30);
        },
        _ => panic!("expected a TCP rendering"),
    }
}

#[test]
fn classification_never_alters_the_chunk() {
    let chunks: Vec<Vec<u8>> = vec![
        b"GET /x HTTP/1.1\r\nHost: a\r\n\r\nbody".to_vec(),
        vec![0xff, 0xfe, 0x00],
        b"Q\x00\x00\x00\x09SELECT 1\0".to_vec(),
        Vec::new(),
        vec![b'x'; 9000],
    ];
    for protocol in [Protocol::Tcp, Protocol::Http, Protocol::Postgres] {
        for chunk in &chunks {
            for direction in [Direction::Request, Direction::Response] {
                let (ev, forwarded) = process_chunk(direction, protocol, chunk.clone());
                assert_eq!(&forwarded, chunk);
                assert_eq!(ev.direction, direction);
                assert_eq!(ev.protocol, protocol);
            }
        }
    }
}

#[test]
fn events_carry_direction_protocol_and_timestamp() {
    let ev = ProtocolEvent::at(
        Direction::Request,
        Protocol::Tcp,
        "2024-01-01 00:00:00.000 UTC".to_string(),
        b"hi",
    );
    assert_eq!(ev.timestamp, "2024-01-01 00:00:00.000 UTC");
    assert_eq!(ev.direction, Direction::Request);
    let observed = ProtocolEvent::observe(Direction::Response, Protocol::Tcp, b"hi");
    assert_eq!(observed.direction, Direction::Response);
    assert!(matches!(observed.classification, Classification::Tcp(_)));
}

#[test]
fn rendered_tcp_record_has_exact_lines() {
    let ev = ProtocolEvent::at(
        Direction::Request,
        Protocol::Tcp,
        "ts".to_string(),
        b"a\nb",
    );
    let lines = proxy::classify::render_lines(&ev);
    assert_eq!(
        lines,
        vec![
            "[ts] -> REQUEST TCP Message (3 bytes):".to_string(),
            "   Hex: 610a62".to_string(),
            "   Text: a\\nb".to_string(),
        ]
    );
}

#[test]
fn rendered_http_record_has_exact_lines() {
    let ev = ProtocolEvent::at(
        Direction::Response,
        Protocol::Http,
        "ts".to_string(),
        b"HTTP/1.1 200 OK\r\nHost: a\r\n\r\nhello",
    );
    let lines = proxy::classify::render_lines(&ev);
    assert_eq!(
        lines,
        vec![
            "[ts] <- RESPONSE HTTP Message:".to_string(),
            "   Headers:".to_string(),
            "     HTTP/1.1 200 OK".to_string(),
            "     Host: a".to_string(),
            "   Body:".to_string(),
            "     hello".to_string(),
        ]
    );
}

#[test]
fn rendered_postgres_record_has_exact_lines() {
    let mut input = vec![b'Q'];
    input.extend_from_slice(&9u32.to_be_bytes());
    input.extend_from_slice(b"SELECT 1\0");
    let ev = ProtocolEvent::at(Direction::Request, Protocol::Postgres, "ts".to_string(), &input);
    let lines = proxy::classify::render_lines(&ev);
    assert_eq!(
        lines,
        vec![
            "[ts] -> REQUEST PostgreSQL Message:".to_string(),
            "   Query: SELECT 1".to_string(),
        ]
    );

    let empty = ProtocolEvent::at(Direction::Request, Protocol::Postgres, "ts".to_string(), b"");
    assert_eq!(
        proxy::classify::render_lines(&empty),
        vec![
            "[ts] -> REQUEST TCP Message (0 bytes):".to_string(),
            "   Hex: ".to_string(),
            "   Text: ".to_string(),
        ]
    );

    let mut unknown = vec![b'#'];
    unknown.extend_from_slice(&258u32.to_be_bytes());
    let ev = ProtocolEvent::at(Direction::Request, Protocol::Postgres, "ts".to_string(), &unknown);
    assert_eq!(
        proxy::classify::render_lines(&ev),
        vec![
            "[ts] -> REQUEST PostgreSQL Message:".to_string(),
            "   Unknown message type '#' (length: 258)".to_string(),
            "   Raw data: 2300000102".to_string(),
        ]
    );
}

#[test]
fn protocol_names_parse_case_insensitively() {
    assert_eq!(Protocol::parse("HTTP"), Protocol::Http);
    assert_eq!(Protocol::parse("http"), Protocol::Http);
    assert_eq!(Protocol::parse("Postgres"), Protocol::Postgres);
    assert_eq!(Protocol::parse("postgresql"), Protocol::Postgres);
    assert_eq!(Protocol::parse("tcp"), Protocol::Tcp);
    assert_eq!(Protocol::from("pOsTgReS"), Protocol::Postgres);
}

#[test]
fn unrecognized_protocol_names_resolve_to_tcp() {
    assert_eq!(Protocol::parse("quic"), Protocol::Tcp);
    assert_eq!(Protocol::parse(""), Protocol::Tcp);
    assert_eq!(Protocol::parse("httpx"), Protocol::Tcp);
}

#[test]
fn protocol_override_wins_over_configuration() {
    let over = Some("http".to_string());
    let cfg = Some("postgres".to_string());
    assert_eq!(effective_protocol(&over, &cfg), Protocol::Http);
    assert_eq!(effective_protocol(&None, &cfg), Protocol::Postgres);
    assert_eq!(effective_protocol(&None, &None), Protocol::Tcp);
}
