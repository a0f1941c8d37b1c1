use os_transport::error::{opensearch_exception_class_name, TransportError, TransportErrorDecodeError};
use os_transport::stream::{StreamInput, StreamInputError, StreamOutput};

#[test]
fn every_exception_class_lies_in_the_opensearch_package() {
    for id in -3..200 {
        assert!(opensearch_exception_class_name(id).starts_with("org.opensearch."));
    }
}

#[test]
fn the_base_exception_comes_back_for_its_own_id_and_for_ids_without_a_class() {
    let base = "org.opensearch.OpenSearchException";
    assert_eq!(opensearch_exception_class_name(68), base);
    assert_eq!(opensearch_exception_class_name(22), base);
    assert_eq!(opensearch_exception_class_name(148), base);
    assert_eq!(opensearch_exception_class_name(-1), base);
    assert_eq!(opensearch_exception_class_name(178), base);
    assert_ne!(opensearch_exception_class_name(4), base);
    assert_ne!(opensearch_exception_class_name(177), base);
}

#[test]
fn stream_readers_report_which_error() {
    assert_eq!(StreamInput::new(vec![]).read_bool(), Err(StreamInputError::UnexpectedEof));
    assert_eq!(StreamInput::new(vec![7]).read_bool(), Err(StreamInputError::InvalidBool(7)));
    assert_eq!(StreamInput::new(vec![0x80, 0x80]).read_vint(), Err(StreamInputError::UnexpectedEof));
    assert_eq!(
        StreamInput::new(vec![0x80, 0x80, 0x80, 0x80, 0x80]).read_vint(),
        Err(StreamInputError::InvalidVarInt)
    );
    let mut negative = StreamOutput::new();
    negative.write_vint(-3);
    assert_eq!(StreamInput::new(negative.freeze()).read_string(), Err(StreamInputError::NegativeLength(-3)));
    assert_eq!(StreamInput::new(vec![2, 0xff, 0x41]).read_string(), Err(StreamInputError::InvalidUtf8));
    assert_eq!(StreamInput::new(vec![2, 0x41]).read_string(), Err(StreamInputError::UnexpectedEof));
}

#[test]
fn an_error_body_cut_short_reports_the_stream_error() {
    assert_eq!(
        TransportError::read(vec![]),
        Err(TransportErrorDecodeError::Stream(StreamInputError::UnexpectedEof))
    );
    assert_eq!(
        TransportError::read(vec![9]),
        Err(TransportErrorDecodeError::Stream(StreamInputError::InvalidBool(9)))
    );
    // an OpenSearch exception whose message flag is not a boolean
    assert_eq!(
        TransportError::read(vec![1, 0, 4, 5]),
        Err(TransportErrorDecodeError::Stream(StreamInputError::InvalidBool(5)))
    );
}
