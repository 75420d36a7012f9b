use dashpipe::json::{get_string_field, parse_json};
use dashpipe::proto::{
    client_header_bytes, header_to_bytes, parse_browser_header, parse_cli_header,
    parse_header_prefix, server_address, ProtocolError, ProtocolHeader, PROTOCOL_VERSION,
};

#[test]
fn server_address_names_loopback_and_port() {
    assert_eq!(server_address(3030), "127.0.0.1:3030");
    assert_eq!(server_address(0), "127.0.0.1:0");
    assert_eq!(server_address(65535), "127.0.0.1:65535");
    assert_eq!(server_address(10), "127.0.0.1:10");
}

#[test]
fn client_header_frames_version_length_and_json() {
    let json = br#"{"kind":"data"}"#;
    let bytes = client_header_bytes(json);
    assert_eq!(&bytes[0..4], &[0u8, 1, 0, 15]);
    assert_eq!(&bytes[4..], &json[..]);
}

#[test]
fn header_to_bytes_writes_big_endian_fields() {
    let text = r#"{"dashboard":"d"}"#;
    let header = ProtocolHeader {
        version: 0x0102,
        json_buffer: text.as_bytes().to_vec(),
        json: parse_json(text).ok().unwrap(),
    };
    let bytes = header_to_bytes(&header);
    assert_eq!(bytes.len(), text.len() + 4);
    assert_eq!(&bytes[0..4], &[1u8, 2, 0, 17]);
    assert_eq!(&bytes[4..], text.as_bytes());
}

#[test]
fn header_length_field_wraps_for_long_json() {
    let mut json = vec![b' '; 65536 + 3];
    json[0] = b'1';
    let bytes = client_header_bytes(&json);
    assert_eq!(&bytes[0..4], &[0u8, 1, 0, 3]);
    assert_eq!(bytes.len(), json.len() + 4);
}

#[test]
fn header_round_trip_with_trailing_data() {
    let json = br#"{"kind":"data","dashboard":"sales"}"#;
    let mut bytes = client_header_bytes(json);
    bytes.extend_from_slice(b"1,2,3\n");
    let (header, n) = parse_cli_header(&bytes).ok().unwrap();
    assert_eq!(header.version, PROTOCOL_VERSION);
    assert_eq!(header.json_buffer, json.to_vec());
    assert_eq!(n, json.len() + 4);
    assert_eq!(&bytes[n..], b"1,2,3\n");
    assert_eq!(get_string_field(&header.json, "dashboard"), Some("sales".to_string()));
    assert_eq!(get_string_field(&header.json, "kind"), Some("data".to_string()));
}

#[test]
fn header_prefix_reads_both_fields() {
    assert_eq!(parse_header_prefix(&[0, 1, 1, 2, 9]), Some((1, 258)));
    assert_eq!(parse_header_prefix(&[0, 1, 1]), None);
    assert_eq!(parse_header_prefix(&[]), None);
}

#[test]
fn truncated_header_is_unexpected_end() {
    let json = br#"{"a":1}"#;
    let bytes = client_header_bytes(json);
    for cut in [0usize, 2, 3, 4, bytes.len() - 1] {
        let r = parse_cli_header(&bytes[..cut]);
        assert!(matches!(r, Err(ProtocolError::UnexpectedEnd)), "cut {}", cut);
    }
}

#[test]
fn header_with_bad_json_is_a_json_error() {
    let bytes = client_header_bytes(b"{not json");
    assert!(matches!(parse_cli_header(&bytes), Err(ProtocolError::Json(_))));
}

#[test]
fn empty_json_text_is_a_json_error() {
    let bytes = client_header_bytes(b"");
    assert_eq!(bytes, vec![0u8, 1, 0, 0]);
    assert!(matches!(parse_cli_header(&bytes), Err(ProtocolError::Json(_))));
}

#[test]
fn browser_header_reads_dashboard_and_id() {
    let h = parse_browser_header(r#"{"currentDashboard":"main","browserId":"b7"}"#)
        .ok()
        .unwrap();
    assert_eq!(h.current_dashboard, Some("main".to_string()));
    assert_eq!(h.browser_id, Some("b7".to_string()));
}

#[test]
fn browser_header_ignores_non_string_members() {
    let h = parse_browser_header(r#"{"currentDashboard":3}"#).ok().unwrap();
    assert_eq!(h.current_dashboard, None);
    assert_eq!(h.browser_id, None);
    let h = parse_browser_header(r#"["currentDashboard"]"#).ok().unwrap();
    assert_eq!(h.current_dashboard, None);
}

#[test]
fn browser_header_refuses_bad_json() {
    assert!(matches!(parse_browser_header("{"), Err(ProtocolError::Json(_))));
}

#[test]
fn string_field_lookup() {
    let v = parse_json(r#"{"a":"some string","b":false,"c":{"d":"x"}}"#).ok().unwrap();
    assert_eq!(get_string_field(&v, "a"), Some("some string".to_string()));
    assert_eq!(get_string_field(&v, "b"), None);
    assert_eq!(get_string_field(&v, "c"), None);
    assert_eq!(get_string_field(&v, "d"), None);
    let s = parse_json(r#""a""#).ok().unwrap();
    assert_eq!(get_string_field(&s, "a"), None);
}
