use go_client::exchange::{
    encode_request, outbound_buffer, request_for, response_text, DecodeError,
};
use go_client::identity::{hex_dump, ConnectionId};
use go_client::settings::{
    bind_address, AddressFamily, ConnectionSettings, SetupFailure, HTTP_REQ_STREAM_ID,
    MAX_DATAGRAM_SIZE, RECEIVE_BUFFER_SIZE,
};

#[test]
fn request_is_one_line() {
    assert_eq!(encode_request("/"), b"GET /\r\n");
    assert_eq!(encode_request("/index.html"), b"GET /index.html\r\n");
    assert_eq!(encode_request(""), b"GET \r\n");
}

#[test]
fn request_keeps_the_path_in_utf8() {
    assert_eq!(encode_request("/caf\u{e9}"), b"GET /caf\xc3\xa9\r\n");
}

#[test]
fn request_for_a_url_takes_its_path() {
    assert_eq!(request_for("https://example.com/index.html"), Some(b"GET /index.html\r\n".to_vec()));
    assert_eq!(request_for("https://example.com"), Some(b"GET /\r\n".to_vec()));
    assert_eq!(request_for("https://127.0.0.1:4433/a/b?x=1#frag"), Some(b"GET /a/b\r\n".to_vec()));
    assert_eq!(
        request_for("https://example.com/countries/vi\u{1ec7}t nam"),
        Some(b"GET /countries/vi%E1%BB%87t%20nam\r\n".to_vec())
    );
}

#[test]
fn request_for_what_is_no_url() {
    assert_eq!(request_for("not a url"), None);
    assert_eq!(request_for(""), None);
    assert_eq!(request_for("/only/a/path"), None);
}

#[test]
fn response_text_takes_valid_utf8() {
    assert_eq!(response_text(b"Hello quic"), Ok("Hello quic"));
    assert_eq!(response_text(b""), Ok(""));
    assert_eq!(response_text("caf\u{e9}".as_bytes()), Ok("caf\u{e9}"));
}

#[test]
fn response_text_refuses_what_is_not_utf8() {
    assert_eq!(response_text(&[0xff, 0xfe]), Err(DecodeError));
    assert_eq!(response_text(&[b'a', 0xc3]), Err(DecodeError));
    assert_eq!(response_text(&[0xed, 0xa0, 0x80]), Err(DecodeError));
    assert_eq!(response_text(&[0xc0, 0x80]), Err(DecodeError));
    assert_eq!(response_text(&[0xf4, 0x90, 0x80, 0x80]), Err(DecodeError));
    assert_eq!(response_text(&[0x80]), Err(DecodeError));
    assert_eq!(response_text(&[0xf0, 0x9f, 0x98, 0x80]), Ok("\u{1f600}"));
}

#[test]
fn hex_dump_writes_two_digits_a_byte() {
    assert_eq!(hex_dump(&[]), "");
    assert_eq!(hex_dump(&[0x00, 0x0f, 0xa0, 0xff, 0x5c]), "000fa0ff5c");
}

#[test]
fn connection_id_lengths() {
    assert!(ConnectionId::new(vec![0; 7]).is_none());
    assert!(ConnectionId::new(vec![0; 21]).is_none());
    let id = ConnectionId::new(vec![1, 2, 3, 4, 5, 6, 7, 0xab]).unwrap();
    assert_eq!(id.as_bytes(), &[1, 2, 3, 4, 5, 6, 7, 0xab]);
    assert_eq!(id.to_hex(), "01020304050607ab");
    assert!(ConnectionId::new(vec![9; 20]).is_some());
}

#[test]
fn random_connection_ids_are_long_and_differ() {
    let a = ConnectionId::random().unwrap();
    let b = ConnectionId::random().unwrap();
    assert_eq!(a.as_bytes().len(), 20);
    assert_eq!(b.as_bytes().len(), 20);
    assert_ne!(a.as_bytes(), b.as_bytes());
    assert_ne!(a.as_bytes(), &[0u8; 20]);
    assert_eq!(a.to_hex().len(), 40);
}

#[test]
fn bind_address_follows_the_peer_family() {
    assert_eq!(bind_address(AddressFamily::V4), "0.0.0.0:0");
    assert_eq!(bind_address(AddressFamily::V6), "[::]:0");
}

#[test]
fn client_settings() {
    let settings = ConnectionSettings::client();
    assert!(!settings.verify_peer);
    assert_eq!(
        settings.application_protos,
        vec!["hq-interop", "hq-29", "hq-28", "hq-27", "http/0.9", "http/1.1"]
    );
    assert_eq!(settings.trust_anchor_dir, "./");
    assert_eq!(settings.cert_chain_file, "cert.crt");
    assert_eq!(settings.private_key_file, "cert.key");
    assert_eq!(settings.max_idle_timeout, 5000);
    assert_eq!(settings.max_recv_udp_payload_size, 1350);
    assert_eq!(settings.max_send_udp_payload_size, 1350);
    assert_eq!(settings.initial_max_data, 10_000_000);
    assert_eq!(settings.initial_max_stream_data_bidi_local, 1_000_000);
    assert_eq!(settings.initial_max_stream_data_bidi_remote, 1_000_000);
    assert_eq!(settings.initial_max_streams_bidi, 100);
    assert_eq!(settings.initial_max_streams_uni, 100);
    assert!(settings.disable_active_migration);
}

#[test]
fn constants() {
    assert_eq!(MAX_DATAGRAM_SIZE, 1350);
    assert_eq!(RECEIVE_BUFFER_SIZE, 65535);
    assert_eq!(HTTP_REQ_STREAM_ID, 4);
}

#[test]
fn only_certificate_failures_are_survived() {
    assert!(!SetupFailure::TrustAnchors.is_fatal());
    assert!(!SetupFailure::CertificateChain.is_fatal());
    assert!(!SetupFailure::PrivateKey.is_fatal());
    for failure in [
        SetupFailure::Address,
        SetupFailure::Resolution,
        SetupFailure::Notifier,
        SetupFailure::Bind,
        SetupFailure::Configuration,
        SetupFailure::Identifier,
        SetupFailure::Connect,
    ] {
        assert!(failure.is_fatal());
    }
}

#[test]
fn outbound_buffer_starts_with_zeros_or_a_body_of_its_length() {
    assert_eq!(outbound_buffer(b"Hello quic"), [0u8; 1350]);
    assert_eq!(outbound_buffer(b""), [0u8; 1350]);
    assert_eq!(outbound_buffer(&[7u8; 1351]), [0u8; 1350]);
    assert_eq!(outbound_buffer(&[7u8; 1349]), [0u8; 1350]);
    let body: Vec<u8> = (0..1350).map(|i| (i % 251) as u8).collect();
    assert_eq!(outbound_buffer(&body).to_vec(), body);
}

#[test]
fn connection_id_from_a_fill() {
    let id = ConnectionId::from_fill(vec![0x5a; 20], true).unwrap();
    assert_eq!(id.as_bytes(), &[0x5a; 20]);
    assert!(ConnectionId::from_fill(vec![0x5a; 20], false).is_none());
    assert!(ConnectionId::from_fill(vec![0x5a; 7], true).is_none());
    assert!(ConnectionId::from_fill(vec![0x5a; 21], true).is_none());
    assert!(ConnectionId::from_fill(vec![0x5a; 8], true).is_some());
}
