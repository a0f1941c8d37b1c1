use std::io::Write;

use flate2::write::DeflateEncoder;
use flate2::Compression;
use os_transport::compression::{decompress_deflate_body, is_deflate_compressed, CompressionError, DEFLATE_HEADER};
use os_transport::frame::{decode_frame, encode_message, DecodedFrame, FrameError};
use os_transport::status::TransportStatus;
use os_transport::tcp_header::{TcpHeader, TcpHeaderError, HEADER_SIZE};
use os_transport::variable_header::{RequestVariableHeader, ResponseVariableHeader};
use os_transport::version::{opensearch_3_0_0, Version};
use os_transport::{TransportMessage, PING_FRAME};

fn deflate(bytes: &[u8]) -> Vec<u8> {
    let mut encoder = DeflateEncoder::new(Vec::new(), Compression::fast());
    encoder.write_all(bytes).unwrap();
    encoder.finish().unwrap()
}

#[test]
fn mirrors_opensearch_status_bits() {
    let request = TransportStatus::request();
    assert!(request.is_request());
    assert_eq!(request.bits(), 0);

    let response = TransportStatus::response()
        .with_error()
        .with_compress()
        .with_handshake();
    assert!(response.is_response());
    assert!(response.is_error());
    assert!(response.is_compressed());
    assert!(response.is_handshake());
    assert_eq!(response.bits(), 0b1111);
}

#[test]
fn status_flags_leave_other_bits_alone() {
    let status = TransportStatus::from_bits(0b1000).with_error();
    assert_eq!(status.bits(), 0b1010);
    assert!(status.is_request());
    assert!(status.is_handshake());
    assert!(!status.is_compressed());
}

#[test]
fn ping_frame_matches_opensearch_marker_and_zero_length() {
    assert_eq!(&PING_FRAME, b"ES\0\0\0\0");
}

#[test]
fn builds_request_header_from_message() {
    let message = TransportMessage {
        request_id: 7,
        status: TransportStatus::request().with_handshake(),
        version: opensearch_3_0_0(),
        variable_header: b"abc".to_vec(),
        body: b"body".to_vec(),
    };

    let header = message.header();

    assert_eq!(header.request_id, 7);
    assert_eq!(header.status, 0b1000);
    assert_eq!(header.content_size, 7);
    assert_eq!(header.variable_header_size, 3);
}

#[test]
fn encodes_and_decodes_header() {
    let header = TcpHeader {
        request_id: 42,
        status: 0,
        version: Version::from_id(3000099),
        content_size: 128,
        variable_header_size: 7,
    };

    let mut bytes = Vec::new();
    header.encode(&mut bytes);

    assert_eq!(bytes.len(), HEADER_SIZE);
    assert_eq!(TcpHeader::decode(&bytes).unwrap(), header);
}

#[test]
fn header_decode_rejects_short_input_and_bad_marker() {
    assert_eq!(
        TcpHeader::decode(b"ES\0\0"),
        Err(TcpHeaderError::TooShort { actual: 4, required: HEADER_SIZE })
    );
    let mut bytes = Vec::new();
    TcpHeader {
        request_id: 1,
        status: 0,
        version: Version::from_id(1),
        content_size: 17,
        variable_header_size: 0,
    }
    .encode(&mut bytes);
    bytes[0] = b'X';
    assert_eq!(TcpHeader::decode(&bytes), Err(TcpHeaderError::InvalidPrefix));
}

#[test]
fn header_encoding_is_big_endian_after_marker() {
    let mut bytes = Vec::new();
    TcpHeader {
        request_id: 0x0102030405060708,
        status: 9,
        version: Version::from_id(0x0a0b0c0d),
        content_size: 0x11121314,
        variable_header_size: 0x21222324,
    }
    .encode(&mut bytes);
    assert_eq!(
        bytes,
        vec![
            b'E', b'S', 0x11, 0x12, 0x13, 0x25, 1, 2, 3, 4, 5, 6, 7, 8, 9, 0x0a, 0x0b, 0x0c, 0x0d,
            0x21, 0x22, 0x23, 0x24
        ]
    );
}

#[test]
fn decodes_ping_frame() {
    let mut bytes = PING_FRAME.to_vec();
    assert_eq!(decode_frame(&mut bytes).unwrap(), Some(DecodedFrame::Ping));
    assert!(bytes.is_empty());
}

#[test]
fn returns_none_for_partial_frame() {
    let mut bytes = b"ES\0".to_vec();
    assert_eq!(decode_frame(&mut bytes).unwrap(), None);
    assert_eq!(&bytes[..], b"ES\0");
}

#[test]
fn frame_decode_rejects_bad_prefix_and_negative_size() {
    let mut bytes = b"XS\0\0\0\0".to_vec();
    assert_eq!(decode_frame(&mut bytes), Err(FrameError::InvalidPrefix));
    let mut bytes = vec![b'E', b'S', 0xff, 0xff, 0xff, 0xfe];
    assert_eq!(decode_frame(&mut bytes), Err(FrameError::NegativeMessageSize(-2)));
}

#[test]
fn message_frame_roundtrips() {
    let message = TransportMessage {
        request_id: 123,
        status: TransportStatus::request().with_handshake(),
        version: opensearch_3_0_0(),
        variable_header: b"headers".to_vec(),
        body: b"payload".to_vec(),
    };
    let mut bytes = encode_message(&message);

    assert_eq!(
        decode_frame(&mut bytes).unwrap(),
        Some(DecodedFrame::Message(message))
    );
    assert!(bytes.is_empty());
}

#[test]
fn message_frame_leaves_following_bytes() {
    let message = TransportMessage {
        request_id: 5,
        status: TransportStatus::response(),
        version: opensearch_3_0_0(),
        variable_header: Vec::new(),
        body: b"x".to_vec(),
    };
    let mut bytes = encode_message(&message);
    bytes.extend_from_slice(b"ES");
    assert_eq!(decode_frame(&mut bytes).unwrap(), Some(DecodedFrame::Message(message)));
    assert_eq!(bytes, b"ES".to_vec());
}

#[test]
fn decodes_compressed_message_body() {
    let compressed = deflate(b"payload");

    let mut compressed_body = Vec::new();
    compressed_body.extend_from_slice(&DEFLATE_HEADER);
    compressed_body.extend_from_slice(&compressed);

    let message = TransportMessage {
        request_id: 123,
        status: TransportStatus::response().with_compress(),
        version: opensearch_3_0_0(),
        variable_header: b"headers".to_vec(),
        body: compressed_body,
    };
    let mut bytes = encode_message(&message);

    let DecodedFrame::Message(decoded) = decode_frame(&mut bytes).unwrap().unwrap() else {
        panic!("expected message frame");
    };

    assert!(decoded.status.is_compressed());
    assert_eq!(&decoded.variable_header[..], b"headers");
    assert_eq!(&decoded.body[..], b"payload");
    assert!(bytes.is_empty());
}

#[test]
fn detects_deflate_header() {
    assert!(is_deflate_compressed(b"DFL\0payload"));
    assert!(!is_deflate_compressed(b"payload"));
    assert!(!is_deflate_compressed(b"DFL"));
}

#[test]
fn decompresses_raw_deflate_body_after_opensearch_header() {
    let compressed = deflate(b"hello transport");

    let mut body = Vec::new();
    body.extend_from_slice(&DEFLATE_HEADER);
    body.extend_from_slice(&compressed);

    assert_eq!(
        &decompress_deflate_body(&body).unwrap()[..],
        b"hello transport"
    );
}

#[test]
fn decompression_refuses_missing_header_and_bad_stream() {
    assert_eq!(
        decompress_deflate_body(b"payload"),
        Err(CompressionError::MissingDeflateHeader)
    );
    let mut body = DEFLATE_HEADER.to_vec();
    body.extend_from_slice(&[0xff, 0xff, 0xff]);
    assert_eq!(decompress_deflate_body(&body), Err(CompressionError::Inflate));
}

#[test]
fn request_variable_header_roundtrips() {
    let mut header = RequestVariableHeader::new("internal:transport/handshake");
    header.features = vec!["feature-a".to_string(), "feature-b".to_string()];

    let decoded = RequestVariableHeader::read(header.to_bytes()).unwrap();

    assert_eq!(decoded, header);
}

#[test]
fn request_variable_header_bytes_are_exact() {
    let header = RequestVariableHeader::new("a:b");
    assert_eq!(header.to_bytes(), vec![0, 0, 0, 3, b'a', b':', b'b']);
}

#[test]
fn response_variable_header_roundtrips_empty() {
    let header = ResponseVariableHeader::default();
    let bytes = header.to_bytes();
    assert_eq!(bytes, vec![0, 0]);
    assert_eq!(ResponseVariableHeader::read(bytes).unwrap(), header);
}
