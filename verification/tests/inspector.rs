use request_inspector::body::{decode_body, DecodedBody};
use request_inspector::client_ip::resolve_client_ip;
use request_inspector::multipart::{decode_multipart, MultipartPart, PartContent};
use request_inspector::response::{
    inspect, wants_multipart, BodyOutcome, DiagnosticResponse, RequestMeta,
};

fn meta_with(forwarded_for: &str, real_ip: &str, content_type: &str) -> RequestMeta {
    RequestMeta {
        method: "POST".to_string(),
        protocol: "HTTP/1.1".to_string(),
        uri: "/probe".to_string(),
        forwarded_for: forwarded_for.to_string(),
        real_ip: real_ip.to_string(),
        content_type: content_type.to_string(),
        peer_ip: "192.168.1.9".to_string(),
        peer_port: 443,
    }
}

fn run_inspect(meta: RequestMeta, outcome: BodyOutcome) -> DiagnosticResponse {
    inspect(
        meta,
        outcome,
        "request_inspector/0.1.0".to_string(),
        "test-host".to_string(),
        std::time::Instant::now(),
    )
}

#[test]
fn empty_body_is_empty_for_any_content_type() {
    for ct in ["application/json", "text/plain", "application/octet-stream", ""] {
        let body = decode_body(ct, Some(Vec::new()));
        assert!(matches!(body, DecodedBody::Empty));
    }
}

#[test]
fn json_body_round_trips_parsed_structure() {
    let bytes = br#"{"a":[1,"two",true,null],"b":{"c":2.5}}"#.to_vec();
    let body = decode_body("application/json", Some(bytes));
    let mut inner = serde_json::Map::new();
    inner.insert("c".to_string(), serde_json::Value::from(2.5));
    let mut expected = serde_json::Map::new();
    expected.insert(
        "a".to_string(),
        serde_json::Value::Array(vec![
            serde_json::Value::from(1),
            serde_json::Value::from("two"),
            serde_json::Value::from(true),
            serde_json::Value::Null,
        ]),
    );
    expected.insert("b".to_string(), serde_json::Value::Object(inner));
    match body {
        DecodedBody::Json { content } => assert_eq!(content, serde_json::Value::Object(expected)),
        _ => panic!("expected a Json body"),
    }
}

#[test]
fn malformed_json_reports_error_and_raw_content() {
    let bytes = b"{\"a\": oops}".to_vec();
    let expected_details = serde_json::from_slice::<serde_json::Value>(&bytes)
        .unwrap_err()
        .to_string();
    let body = decode_body("application/json", Some(bytes.clone()));
    match body {
        DecodedBody::JsonError { details, raw } => {
            assert_eq!(details, expected_details);
            assert_eq!(raw, String::from_utf8_lossy(&bytes));
        }
        _ => panic!("expected a JsonError body"),
    }
}

#[test]
fn malformed_json_with_invalid_utf8_raw_is_lossy() {
    let bytes = vec![0xff, b'{', b'x'];
    let body = decode_body("application/json", Some(bytes));
    match body {
        DecodedBody::JsonError { raw, .. } => assert_eq!(raw, "\u{fffd}{x"),
        _ => panic!("expected a JsonError body"),
    }
}

#[test]
fn forwarded_for_first_entry_wins() {
    let ip = resolve_client_ip("10.0.0.5, 10.0.0.1", "", "192.168.1.9");
    assert_eq!(ip, "10.0.0.5");
}

#[test]
fn forwarded_for_entry_is_trimmed() {
    let ip = resolve_client_ip("  10.0.0.5\t , 10.0.0.1", "", "192.168.1.9");
    assert_eq!(ip, "10.0.0.5");
}

#[test]
fn empty_forwarded_entry_falls_back_to_real_ip() {
    let ip = resolve_client_ip(" , 10.0.0.1", "172.16.0.2", "192.168.1.9");
    assert_eq!(ip, "172.16.0.2");
}

#[test]
fn no_forwarding_headers_means_client_is_peer() {
    let meta = meta_with("", "", "");
    let resp = run_inspect(meta, BodyOutcome::Bytes(Some(Vec::new())));
    assert_eq!(resp.ip_details.client_ip, resp.ip_details.peer_ip);
    assert_eq!(resp.ip_details.peer_ip, "192.168.1.9");
    assert_eq!(resp.ip_details.port, 443);
}

#[test]
fn forwarded_headers_reach_ip_details() {
    let meta = meta_with("10.0.0.5, 10.0.0.1", "", "application/json");
    let resp = run_inspect(meta, BodyOutcome::Bytes(Some(Vec::new())));
    assert_eq!(resp.ip_details.client_ip, "10.0.0.5");
    assert_eq!(resp.ip_details.peer_ip, "192.168.1.9");
}

#[test]
fn multipart_text_and_file_fields_are_separated() {
    let parts = vec![
        MultipartPart {
            name: Some("name".to_string()),
            content: PartContent::Text { value: "bar".to_string() },
        },
        MultipartPart {
            name: Some("upload".to_string()),
            content: PartContent::File { filename: "a.txt".to_string() },
        },
    ];
    let body = decode_multipart(Ok(parts));
    match body {
        DecodedBody::Multipart { text_fields, files_ignored } => {
            assert_eq!(text_fields, vec![("name".to_string(), "bar".to_string())]);
            assert_eq!(files_ignored, vec![("upload".to_string(), "a.txt".to_string())]);
        }
        _ => panic!("expected a Multipart body"),
    }
}

#[test]
fn multipart_later_text_value_overwrites_earlier() {
    let parts = vec![
        MultipartPart {
            name: Some("k".to_string()),
            content: PartContent::Text { value: "first".to_string() },
        },
        MultipartPart {
            name: Some("k".to_string()),
            content: PartContent::Text { value: "second".to_string() },
        },
    ];
    let body = decode_multipart(Ok(parts));
    match body {
        DecodedBody::Multipart { text_fields, .. } => {
            assert_eq!(text_fields, vec![("k".to_string(), "second".to_string())]);
        }
        _ => panic!("expected a Multipart body"),
    }
}

#[test]
fn multipart_unnamed_text_field_gets_placeholder() {
    let parts = vec![MultipartPart {
        name: None,
        content: PartContent::Text { value: "v".to_string() },
    }];
    let body = decode_multipart(Ok(parts));
    match body {
        DecodedBody::Multipart { text_fields, .. } => {
            assert_eq!(text_fields, vec![("unnamed_field".to_string(), "v".to_string())]);
        }
        _ => panic!("expected a Multipart body"),
    }
}

#[test]
fn multipart_undecodable_text_field_is_skipped() {
    let parts = vec![
        MultipartPart { name: Some("bad".to_string()), content: PartContent::Undecodable },
        MultipartPart {
            name: Some("good".to_string()),
            content: PartContent::Text { value: "ok".to_string() },
        },
    ];
    let body = decode_multipart(Ok(parts));
    match body {
        DecodedBody::Multipart { text_fields, files_ignored } => {
            assert_eq!(text_fields, vec![("good".to_string(), "ok".to_string())]);
            assert!(files_ignored.is_empty());
        }
        _ => panic!("expected a Multipart body"),
    }
}

#[test]
fn multipart_framing_failure_is_reported_as_data() {
    let body = decode_multipart(Err("Invalid multipart request: bad boundary".to_string()));
    match body {
        DecodedBody::MultipartError { details } => {
            assert_eq!(details, "Invalid multipart request: bad boundary");
        }
        _ => panic!("expected a MultipartError body"),
    }
}

#[test]
fn octet_stream_body_reports_binary_metadata_only() {
    let body = decode_body("application/octet-stream", Some(vec![1, 2, 3, 4, 5]));
    match body {
        DecodedBody::Binary { content_type, size_bytes } => {
            assert_eq!(content_type, "application/octet-stream");
            assert_eq!(size_bytes, 5);
        }
        _ => panic!("expected a Binary body"),
    }
}

#[test]
fn mime_type_is_normalized_to_lower_case() {
    let body = decode_body("IMAGE/PNG", Some(vec![0x89, 0x50]));
    match body {
        DecodedBody::Binary { content_type, size_bytes } => {
            assert_eq!(content_type, "image/png");
            assert_eq!(size_bytes, 2);
        }
        _ => panic!("expected a Binary body"),
    }
}

#[test]
fn unparseable_content_type_defaults_to_octet_stream() {
    let body = decode_body("not a mime type", Some(vec![7, 7]));
    match body {
        DecodedBody::Binary { content_type, size_bytes } => {
            assert_eq!(content_type, "application/octet-stream");
            assert_eq!(size_bytes, 2);
        }
        _ => panic!("expected a Binary body"),
    }
}

#[test]
fn form_body_decodes_with_last_value_winning() {
    let body = decode_body(
        "application/x-www-form-urlencoded",
        Some(b"a=1&b=two%20words&a=3".to_vec()),
    );
    match body {
        DecodedBody::Form { mut fields } => {
            fields.sort();
            assert_eq!(
                fields,
                vec![
                    ("a".to_string(), "3".to_string()),
                    ("b".to_string(), "two words".to_string()),
                ]
            );
        }
        _ => panic!("expected a Form body"),
    }
}

#[test]
fn xml_body_is_reported_verbatim() {
    let body = decode_body("text/xml", Some(b"<a><b/></a>".to_vec()));
    match body {
        DecodedBody::Xml { raw } => assert_eq!(raw, "<a><b/></a>"),
        _ => panic!("expected an Xml body"),
    }
    let body = decode_body("application/xml; charset=utf-8", Some(b"<c/>".to_vec()));
    assert!(matches!(body, DecodedBody::Xml { .. }));
}

#[test]
fn json_content_type_with_parameters_still_parses_json() {
    let body = decode_body("application/json; charset=utf-8", Some(b"[1,2]".to_vec()));
    match body {
        DecodedBody::Json { content } => {
            let expected = serde_json::Value::Array(vec![
                serde_json::Value::from(1),
                serde_json::Value::from(2),
            ]);
            assert_eq!(content, expected);
        }
        _ => panic!("expected a Json body"),
    }
}

#[test]
fn text_body_with_invalid_utf8_uses_replacement_character() {
    let body = decode_body("text/plain", Some(vec![b'h', b'i', 0xc3]));
    match body {
        DecodedBody::Text { raw } => assert_eq!(raw, "hi\u{fffd}"),
        _ => panic!("expected a Text body"),
    }
}

#[test]
fn plain_text_body_is_decoded_lossily() {
    let body = decode_body("text/plain; charset=utf-8", Some(b"hello there".to_vec()));
    match body {
        DecodedBody::Text { raw } => assert_eq!(raw, "hello there"),
        _ => panic!("expected a Text body"),
    }
}

#[test]
fn unreadable_body_is_a_read_error() {
    let body = decode_body("text/plain", None);
    assert!(matches!(body, DecodedBody::ReadError));
}

#[test]
fn multipart_content_type_is_detected_by_prefix() {
    assert!(wants_multipart("multipart/form-data"));
    assert!(wants_multipart("multipart/form-data; boundary=xyz"));
    assert!(!wants_multipart("application/json"));
    assert!(!wants_multipart("multipart/mixed"));
    assert!(!wants_multipart(""));
}

#[test]
fn processing_time_stays_within_outer_measurement() {
    let outer = std::time::Instant::now();
    let meta = meta_with("", "", "application/json");
    let resp = run_inspect(meta, BodyOutcome::Bytes(Some(b"{\"k\":1}".to_vec())));
    let outer_micros = outer.elapsed().as_micros() as u64;
    assert!(resp.processing_micros <= outer_micros);
}

#[test]
fn distinct_requests_get_distinct_request_ids() {
    let first = run_inspect(meta_with("", "", ""), BodyOutcome::Bytes(Some(Vec::new())));
    let second = run_inspect(meta_with("", "", ""), BodyOutcome::Bytes(Some(Vec::new())));
    assert_eq!(first.request_id.len(), 36);
    assert_eq!(second.request_id.len(), 36);
    assert_ne!(first.request_id, second.request_id);
}

#[test]
fn response_echoes_request_line_and_identity() {
    let meta = meta_with("", "", "");
    let resp = run_inspect(meta, BodyOutcome::Bytes(Some(Vec::new())));
    assert_eq!(resp.method, "POST");
    assert_eq!(resp.protocol, "HTTP/1.1");
    assert_eq!(resp.uri, "/probe");
    assert_eq!(resp.server, "request_inspector/0.1.0");
    assert_eq!(resp.hostname, "test-host");
    assert!(matches!(resp.body, DecodedBody::Empty));
}
