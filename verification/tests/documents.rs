use os_transport::action_names::{
    OPENSEARCH_INDEX_ACTION_NAME, OPENSEARCH_UPDATE_ACTION_NAME, STEELSEARCH_RECOVERY_CANCEL_ACTION_NAME,
    STEELSEARCH_RECOVERY_START_ACTION_NAME,
};
use os_transport::dispatch::{classify_opensearch_transport_request_message, OpenSearchTransportActionDisposition};
use os_transport::engine_responses::{
    BulkWriteItemResponse, BulkWriteResponse, DocumentMetadata, GetDocumentResponse, IndexDocumentResponse,
    WriteOperationKind, WriteResult,
};
use os_transport::bulk_response::{build_opensearch_bulk_response_message, read_opensearch_bulk_response_message};
use os_transport::cluster_state::ClusterStateResponseWire;
use os_transport::smap::StringMap;
use os_transport::get_response::{
    build_opensearch_get_response_message, read_opensearch_get_response_message, OpenSearchGetResponseWire,
};
use os_transport::multi_get_response::{
    build_opensearch_multi_get_response_message, read_opensearch_multi_get_response_message,
    OpenSearchMultiGetItemResponseWire, OpenSearchMultiGetResponseWire,
};
use os_transport::json_messages::{
    build_steelsearch_json_request_message, build_steelsearch_json_response_message,
    read_steelsearch_json_request_message, read_steelsearch_json_response_message,
};
use os_transport::action_wire::TransportActionWireError;
use os_transport::document_messages::{
    build_opensearch_delete_request_message, build_opensearch_delete_response_message,
    build_opensearch_get_request_message, build_opensearch_index_request_message,
    build_opensearch_multi_get_request_message, read_opensearch_multi_get_request_message,
    build_opensearch_bulk_request_message, read_opensearch_bulk_request_message,
    build_opensearch_index_response_message, build_opensearch_update_request_message,
    build_opensearch_update_response_message, read_opensearch_delete_request_message,
    read_opensearch_delete_response_message, read_opensearch_get_request_message,
    read_opensearch_index_request_message, read_opensearch_index_response_message,
    read_opensearch_update_request_message, read_opensearch_update_response_message,
};
use os_transport::document_requests::{
    OpenSearchDeleteRequestWire, OpenSearchDeleteResponseWire, OpenSearchGetRequestWire, OpenSearchIndexRequestWire,
    OpenSearchIndexResponseWire, OpenSearchUpdateResponseWire, OpenSearchBulkItemResponseWire,
    OpenSearchBulkRequestItemWire, OpenSearchBulkRequestWire, OpenSearchBulkResponseWire,
    OpenSearchMultiGetItemRequestWire, OpenSearchMultiGetRequestWire, OpenSearchUpdateRequestWire,
};
use os_transport::engine_requests::{
    BulkWriteOperation, BulkWriteRequest, DeleteDocumentRequest, GetDocumentRequest, IndexDocumentRequest,
    UpdateDocumentRequest,
};
use os_transport::frame::{decode_frame, DecodedFrame};
use os_transport::json_section::check_json_document;
use os_transport::stream::StreamOutput;
use os_transport::variable_header::RequestVariableHeader;
use os_transport::version::opensearch_3_7_0_transport;

fn hello() -> Vec<u8> {
    br#"{"message":"hello","tenant":"tenant-a"}"#.to_vec()
}

fn shape_of<T: std::fmt::Debug>(r: Result<T, TransportActionWireError>) -> &'static str {
    match r.unwrap_err() {
        TransportActionWireError::UnsupportedWireShape { shape, .. } => shape,
        other => panic!("unexpected error {other:?}"),
    }
}

#[test]
fn opensearch_get_request_wire_round_trips_and_maps_to_engine_request() {
    let request = OpenSearchGetRequestWire {
        parent_task_node: "node-a".into(),
        parent_task_id: Some(42),
        ..OpenSearchGetRequestWire::new("logs-000001".into(), "doc-1".into())
    };

    let mut output = StreamOutput::new();
    request.write(&mut output).unwrap();
    let decoded = OpenSearchGetRequestWire::read(output.freeze()).unwrap();

    assert_eq!(decoded, request);
    assert_eq!(
        decoded.to_engine_request().unwrap(),
        GetDocumentRequest { index: "logs-000001".into(), id: "doc-1".into() }
    );
}

#[test]
fn opensearch_get_request_rejects_unsupported_engine_mapping_options() {
    let request = OpenSearchGetRequestWire {
        routing: Some("tenant-a".into()),
        ..OpenSearchGetRequestWire::new("logs-000001".into(), "doc-1".into())
    };
    assert_eq!(shape_of(request.to_engine_request()), "get request routing");
}

#[test]
fn get_request_without_index_is_missing_a_field() {
    let request = OpenSearchGetRequestWire {
        index: None,
        ..OpenSearchGetRequestWire::new("logs-000001".into(), "doc-1".into())
    };
    match request.to_engine_request().unwrap_err() {
        TransportActionWireError::MissingRequiredField { field } => assert_eq!(field, "index"),
        other => panic!("unexpected error {other:?}"),
    }
    let request = OpenSearchGetRequestWire {
        realtime: false,
        ..OpenSearchGetRequestWire::new("logs-000001".into(), "doc-1".into())
    };
    assert_eq!(shape_of(request.to_engine_request()), "get request realtime flag");
}

#[test]
fn opensearch_multi_get_request_rejects_unsupported_engine_mapping_options() {
    let request = OpenSearchMultiGetRequestWire {
        preference: Some("_primary".into()),
        items: vec![OpenSearchMultiGetItemRequestWire::new("logs-000001".into(), "doc-1".into())],
        ..OpenSearchMultiGetRequestWire::new(Vec::new())
    };
    assert_eq!(shape_of(request.to_engine_requests()), "multi-get request preference");

    let request = OpenSearchMultiGetRequestWire::new(vec![OpenSearchMultiGetItemRequestWire {
        routing: Some("tenant-a".into()),
        ..OpenSearchMultiGetItemRequestWire::new("logs-000001".into(), "doc-1".into())
    }]);
    assert_eq!(shape_of(request.to_engine_requests()), "multi-get request item routing");
}

#[test]
fn multi_get_maps_every_item_in_order_or_refuses_at_the_first_unserved_one() {
    let request = OpenSearchMultiGetRequestWire::new(vec![
        OpenSearchMultiGetItemRequestWire::new("logs-000001".into(), "doc-1".into()),
        OpenSearchMultiGetItemRequestWire::new("metrics-000001".into(), "doc-2".into()),
    ]);
    assert_eq!(
        request.to_engine_requests().unwrap(),
        vec![
            GetDocumentRequest { index: "logs-000001".into(), id: "doc-1".into() },
            GetDocumentRequest { index: "metrics-000001".into(), id: "doc-2".into() },
        ]
    );
    let request = OpenSearchMultiGetRequestWire::new(vec![
        OpenSearchMultiGetItemRequestWire::new("logs-000001".into(), "doc-1".into()),
        OpenSearchMultiGetItemRequestWire {
            version: 5,
            ..OpenSearchMultiGetItemRequestWire::new("logs-000001".into(), "doc-2".into())
        },
        OpenSearchMultiGetItemRequestWire {
            routing: Some("tenant-a".into()),
            ..OpenSearchMultiGetItemRequestWire::new("logs-000001".into(), "doc-3".into())
        },
    ]);
    assert_eq!(shape_of(request.to_engine_requests()), "multi-get request item versioning");
}

#[test]
fn opensearch_index_request_wire_round_trips_and_maps_to_engine_request() {
    let request = OpenSearchIndexRequestWire {
        parent_task_node: "node-a".into(),
        parent_task_id: Some(42),
        ..OpenSearchIndexRequestWire::new("logs-000001".into(), "doc-1".into(), hello())
    };

    let mut output = StreamOutput::new();
    request.write(&mut output).unwrap();
    let decoded = OpenSearchIndexRequestWire::read(output.freeze()).unwrap();

    assert_eq!(decoded, request);
    assert_eq!(
        decoded.to_engine_request().unwrap(),
        IndexDocumentRequest { index: "logs-000001".into(), id: "doc-1".into(), source: hello() }
    );
}

#[test]
fn opensearch_index_request_rejects_unsupported_engine_mapping_options() {
    let base = || OpenSearchIndexRequestWire::new("logs-000001".into(), "doc-1".into(), br#"{"message":"hello"}"#.to_vec());
    let request = OpenSearchIndexRequestWire { routing: Some("tenant-a".into()), ..base() };
    assert_eq!(shape_of(request.to_engine_request()), "index request routing");

    let request = OpenSearchIndexRequestWire { op_type: 1, ..base() };
    assert_eq!(shape_of(request.to_engine_request()), "index request op type");

    let request = OpenSearchIndexRequestWire { pipeline: Some("logs-pipeline".into()), ..base() };
    assert_eq!(shape_of(request.to_engine_request()), "index request pipeline");

    let request = OpenSearchIndexRequestWire { id: None, ..base() };
    match request.to_engine_request().unwrap_err() {
        TransportActionWireError::MissingRequiredField { field } => assert_eq!(field, "id"),
        other => panic!("unexpected error {other:?}"),
    }

    let request = OpenSearchIndexRequestWire { content_type: Some("application/cbor".into()), ..base() };
    assert_eq!(shape_of(request.to_engine_request()), "index request content type");
}

#[test]
fn index_request_refuses_shard_ids_and_invalid_json_sources() {
    let request = OpenSearchIndexRequestWire {
        shard_id_present: true,
        ..OpenSearchIndexRequestWire::new("logs-000001".into(), "doc-1".into(), hello())
    };
    let mut output = StreamOutput::new();
    assert_eq!(shape_of(request.write(&mut output)), "index request shard id");

    let request = OpenSearchIndexRequestWire::new("logs-000001".into(), "doc-1".into(), b"{not json".to_vec());
    let mut output = StreamOutput::new();
    request.write(&mut output).unwrap();
    assert_eq!(
        OpenSearchIndexRequestWire::read(output.freeze()).unwrap_err(),
        TransportActionWireError::JsonDecode
    );
    assert!(check_json_document(b"[1, 2, 3]").is_ok());
    assert_eq!(check_json_document(b"{\"a\":").unwrap_err(), TransportActionWireError::JsonDecode);
}

#[test]
fn index_and_update_requests_travel_in_their_action_frames() {
    let request = OpenSearchIndexRequestWire::new("logs-000001".into(), "doc-1".into(), hello());
    let mut frame = build_opensearch_index_request_message(24, opensearch_3_7_0_transport(), &request).unwrap();
    let DecodedFrame::Message(message) = decode_frame(&mut frame).unwrap().unwrap() else {
        panic!("expected message frame");
    };
    assert_eq!(message.request_id, 24);
    assert!(message.status.is_request());
    let header = RequestVariableHeader::read(message.variable_header.clone()).unwrap();
    assert_eq!(header.action, OPENSEARCH_INDEX_ACTION_NAME);
    assert_eq!(read_opensearch_index_request_message(&message).unwrap(), request);
    match read_opensearch_update_request_message(&message).unwrap_err() {
        TransportActionWireError::UnexpectedAction { expected, actual } => {
            assert_eq!(expected, OPENSEARCH_UPDATE_ACTION_NAME);
            assert_eq!(actual, OPENSEARCH_INDEX_ACTION_NAME);
        }
        other => panic!("unexpected error {other:?}"),
    }

    let request = OpenSearchUpdateRequestWire::new("logs-000001".into(), "doc-1".into(), hello());
    let mut frame = build_opensearch_update_request_message(25, opensearch_3_7_0_transport(), &request).unwrap();
    let DecodedFrame::Message(message) = decode_frame(&mut frame).unwrap().unwrap() else {
        panic!("expected message frame");
    };
    assert_eq!(read_opensearch_update_request_message(&message).unwrap(), request);
}

#[test]
fn opensearch_update_request_wire_round_trips_and_maps_to_engine_request() {
    let request = OpenSearchUpdateRequestWire {
        parent_task_node: "node-a".into(),
        parent_task_id: Some(42),
        ..OpenSearchUpdateRequestWire::new("logs-000001".into(), "doc-1".into(), br#"{"message":"patched"}"#.to_vec())
    };

    let mut output = StreamOutput::new();
    request.write(&mut output).unwrap();
    let decoded = OpenSearchUpdateRequestWire::read(output.freeze()).unwrap();

    assert_eq!(decoded, request);
    assert_eq!(
        decoded.to_engine_request().unwrap(),
        UpdateDocumentRequest {
            index: "logs-000001".into(),
            id: "doc-1".into(),
            doc: br#"{"message":"patched"}"#.to_vec(),
            doc_as_upsert: false,
        }
    );
}

#[test]
fn opensearch_update_request_rejects_unsupported_engine_mapping_options() {
    let base = || OpenSearchUpdateRequestWire::new("logs-000001".into(), "doc-1".into(), br#"{"message":"patched"}"#.to_vec());
    let request = OpenSearchUpdateRequestWire { routing: Some("tenant-a".into()), ..base() };
    assert_eq!(shape_of(request.to_engine_request()), "update request routing");

    let request = OpenSearchUpdateRequestWire { retry_on_conflict: 1, ..base() };
    assert_eq!(shape_of(request.to_engine_request()), "update request retry on conflict");

    let request = OpenSearchUpdateRequestWire {
        upsert: Some(OpenSearchIndexRequestWire::new(
            "logs-000001".into(),
            "doc-1".into(),
            br#"{"message":"upsert"}"#.to_vec(),
        )),
        ..base()
    };
    assert_eq!(shape_of(request.to_engine_request()), "update request upsert");

    let request = OpenSearchUpdateRequestWire { doc: None, ..base() };
    match request.to_engine_request().unwrap_err() {
        TransportActionWireError::MissingRequiredField { field } => assert_eq!(field, "doc"),
        other => panic!("unexpected error {other:?}"),
    }
}

#[test]
fn update_request_refuses_a_nested_document_for_another_id() {
    let request = OpenSearchUpdateRequestWire {
        doc: Some(OpenSearchIndexRequestWire::new("logs-000001".into(), "doc-2".into(), hello())),
        ..OpenSearchUpdateRequestWire::new("logs-000001".into(), "doc-1".into(), hello())
    };
    assert_eq!(shape_of(request.to_engine_request()), "update request doc identity");

    let request = OpenSearchUpdateRequestWire {
        doc: Some(OpenSearchIndexRequestWire {
            routing: Some("r".into()),
            ..OpenSearchIndexRequestWire::new("logs-000001".into(), "doc-1".into(), hello())
        }),
        ..OpenSearchUpdateRequestWire::new("logs-000001".into(), "doc-1".into(), hello())
    };
    assert_eq!(shape_of(request.to_engine_request()), "index request routing");

    let request = OpenSearchUpdateRequestWire {
        doc: Some(OpenSearchIndexRequestWire {
            extra_field_values_present: true,
            ..OpenSearchIndexRequestWire::new("logs-000001".into(), "doc-1".into(), hello())
        }),
        ..OpenSearchUpdateRequestWire::new("logs-000001".into(), "doc-1".into(), hello())
    };
    let mut output = StreamOutput::new();
    assert_eq!(shape_of(request.write(&mut output)), "index request extra field values");
}

#[test]
fn opensearch_delete_request_wire_round_trips_and_maps_to_engine_request() {
    let request = OpenSearchDeleteRequestWire {
        parent_task_node: "node-a".into(),
        parent_task_id: Some(42),
        ..OpenSearchDeleteRequestWire::new("logs-000001".into(), "doc-1".into())
    };

    let mut output = StreamOutput::new();
    request.write(&mut output).unwrap();
    let decoded = OpenSearchDeleteRequestWire::read(output.freeze()).unwrap();

    assert_eq!(decoded, request);
    assert_eq!(
        decoded.to_engine_request().unwrap(),
        DeleteDocumentRequest { index: "logs-000001".into(), id: "doc-1".into() }
    );
}

#[test]
fn opensearch_delete_request_rejects_unsupported_engine_mapping_options() {
    let request = OpenSearchDeleteRequestWire {
        routing: Some("tenant-a".into()),
        ..OpenSearchDeleteRequestWire::new("logs-000001".into(), "doc-1".into())
    };
    assert_eq!(shape_of(request.to_engine_request()), "delete request routing");

    let request = OpenSearchDeleteRequestWire {
        refresh_policy: 1,
        ..OpenSearchDeleteRequestWire::new("logs-000001".into(), "doc-1".into())
    };
    assert_eq!(shape_of(request.to_engine_request()), "delete request refresh policy");

    let request = OpenSearchDeleteRequestWire {
        if_seq_no: 7,
        if_primary_term: 2,
        ..OpenSearchDeleteRequestWire::new("logs-000001".into(), "doc-1".into())
    };
    assert_eq!(shape_of(request.to_engine_request()), "delete request optimistic concurrency");
}

fn metadata(id: &str, version: u64, seq_no: i64, primary_term: u64) -> DocumentMetadata {
    DocumentMetadata { id: id.into(), version, seq_no, primary_term }
}

#[test]
fn opensearch_get_response_wire_round_trips_found_and_missing_documents() {
    let found = OpenSearchGetResponseWire::found("logs-000001".into(), metadata("doc-1", 3, 7, 2), hello());

    let mut output = StreamOutput::new();
    found.write(&mut output).unwrap();
    let decoded = OpenSearchGetResponseWire::read(output.freeze()).unwrap();

    assert_eq!(decoded, found);
    assert_eq!(
        decoded.into_engine_response().unwrap(),
        GetDocumentResponse {
            index: "logs-000001".into(),
            metadata: metadata("doc-1", 3, 7, 2),
            source: hello(),
            found: true,
        }
    );

    let missing = OpenSearchGetResponseWire::not_found("logs-000001".into(), "doc-404".into());
    let mut output = StreamOutput::new();
    missing.write(&mut output).unwrap();
    assert_eq!(OpenSearchGetResponseWire::read(output.freeze()).unwrap().into_engine_response(), None);
}

#[test]
fn get_response_needs_a_source_when_found_and_maps_from_the_engine() {
    let broken = OpenSearchGetResponseWire { source: None, ..OpenSearchGetResponseWire::found("i".into(), metadata("d", 1, 0, 1), hello()) };
    let mut output = StreamOutput::new();
    match broken.write(&mut output).unwrap_err() {
        TransportActionWireError::MissingRequiredField { field } => assert_eq!(field, "source"),
        other => panic!("unexpected error {other:?}"),
    }
    assert_eq!(broken.clone().into_engine_response().unwrap().source, b"null".to_vec());
    assert_eq!(
        OpenSearchGetResponseWire::from_engine_response("i".into(), "d".into(), None),
        OpenSearchGetResponseWire::not_found("i".into(), "d".into())
    );
    let engine = GetDocumentResponse { index: "i".into(), metadata: metadata("d", 4, 5, 6), source: hello(), found: true };
    assert_eq!(
        OpenSearchGetResponseWire::from_engine_response("x".into(), "y".into(), Some(engine)),
        OpenSearchGetResponseWire::found("i".into(), metadata("d", 4, 5, 6), hello())
    );
}

#[test]
fn opensearch_get_transport_messages_bind_action_frames() {
    let request = OpenSearchGetRequestWire::new("logs-000001".into(), "doc-1".into());
    let mut frame = build_opensearch_get_request_message(21, opensearch_3_7_0_transport(), &request).unwrap();
    let DecodedFrame::Message(message) = decode_frame(&mut frame).unwrap().unwrap() else {
        panic!("expected message frame");
    };
    assert_eq!(message.request_id, 21);
    assert!(message.status.is_request());
    assert_eq!(
        classify_opensearch_transport_request_message(&message).unwrap().disposition,
        OpenSearchTransportActionDisposition::Implemented
    );
    assert_eq!(read_opensearch_get_request_message(&message).unwrap(), request);

    let response = OpenSearchGetResponseWire::found("logs-000001".into(), metadata("doc-1", 1, 0, 1), br#"{"message":"hello"}"#.to_vec());
    let mut frame = build_opensearch_get_response_message(21, opensearch_3_7_0_transport(), &response).unwrap();
    let DecodedFrame::Message(message) = decode_frame(&mut frame).unwrap().unwrap() else {
        panic!("expected message frame");
    };
    assert_eq!(message.request_id, 21);
    assert!(message.status.is_response());
    assert_eq!(read_opensearch_get_response_message(&message).unwrap(), response);
}

#[test]
fn opensearch_index_response_wire_round_trips_created_and_updated_documents() {
    let created = OpenSearchIndexResponseWire::created("logs-000001".into(), metadata("doc-1", 1, 7, 2));
    let mut output = StreamOutput::new();
    created.write(&mut output);
    assert_eq!(OpenSearchIndexResponseWire::read(output.freeze()).unwrap(), created);

    let updated = OpenSearchIndexResponseWire::updated("logs-000001".into(), metadata("doc-1", 2, 8, 2));
    let mut output = StreamOutput::new();
    updated.write(&mut output);
    assert_eq!(OpenSearchIndexResponseWire::read(output.freeze()).unwrap(), updated);
}

#[test]
fn opensearch_index_response_maps_from_engine_created_and_updated_responses() {
    let created = IndexDocumentResponse { index: "logs-000001".into(), metadata: metadata("doc-1", 1, 7, 2), result: WriteResult::Created };
    assert_eq!(
        OpenSearchIndexResponseWire::from_engine_response(created).unwrap(),
        OpenSearchIndexResponseWire::created("logs-000001".into(), metadata("doc-1", 1, 7, 2))
    );
    let updated = IndexDocumentResponse { index: "logs-000001".into(), metadata: metadata("doc-1", 2, 8, 2), result: WriteResult::Updated };
    assert_eq!(
        OpenSearchIndexResponseWire::from_engine_response(updated).unwrap(),
        OpenSearchIndexResponseWire::updated("logs-000001".into(), metadata("doc-1", 2, 8, 2))
    );
    let deleted = IndexDocumentResponse { index: "logs-000001".into(), metadata: metadata("doc-1", 3, 9, 2), result: WriteResult::Deleted };
    assert_eq!(shape_of(OpenSearchIndexResponseWire::from_engine_response(deleted.clone())), "index response write result");
    assert_eq!(shape_of(OpenSearchUpdateResponseWire::from_engine_response(deleted)), "update response write result");
}

#[test]
fn opensearch_index_transport_messages_bind_action_frames() {
    let request = OpenSearchIndexRequestWire::new("logs-000001".into(), "doc-1".into(), br#"{"message":"hello"}"#.to_vec());
    let mut frame = build_opensearch_index_request_message(24, opensearch_3_7_0_transport(), &request).unwrap();
    let DecodedFrame::Message(message) = decode_frame(&mut frame).unwrap().unwrap() else {
        panic!("expected message frame");
    };
    assert_eq!(message.request_id, 24);
    assert!(message.status.is_request());
    assert_eq!(
        classify_opensearch_transport_request_message(&message).unwrap().disposition,
        OpenSearchTransportActionDisposition::Implemented
    );
    assert_eq!(read_opensearch_index_request_message(&message).unwrap(), request);

    let response = OpenSearchIndexResponseWire::created("logs-000001".into(), metadata("doc-1", 1, 0, 1));
    let mut frame = build_opensearch_index_response_message(24, opensearch_3_7_0_transport(), &response).unwrap();
    let DecodedFrame::Message(message) = decode_frame(&mut frame).unwrap().unwrap() else {
        panic!("expected message frame");
    };
    assert_eq!(message.request_id, 24);
    assert!(message.status.is_response());
    assert_eq!(read_opensearch_index_response_message(&message).unwrap(), response);
}

#[test]
fn opensearch_update_response_wire_round_trips_updated_and_created_documents() {
    let updated = OpenSearchUpdateResponseWire::updated("logs-000001".into(), metadata("doc-1", 2, 8, 2));
    let mut output = StreamOutput::new();
    updated.write(&mut output).unwrap();
    assert_eq!(OpenSearchUpdateResponseWire::read(output.freeze()).unwrap(), updated);

    let created = OpenSearchUpdateResponseWire::created("logs-000001".into(), metadata("doc-2", 1, 9, 2));
    let mut output = StreamOutput::new();
    created.write(&mut output).unwrap();
    assert_eq!(OpenSearchUpdateResponseWire::read(output.freeze()).unwrap(), created);
}

#[test]
fn opensearch_update_response_maps_from_engine_updated_response() {
    let response = IndexDocumentResponse { index: "logs-000001".into(), metadata: metadata("doc-1", 2, 8, 2), result: WriteResult::Updated };
    assert_eq!(
        OpenSearchUpdateResponseWire::from_engine_response(response).unwrap(),
        OpenSearchUpdateResponseWire::updated("logs-000001".into(), metadata("doc-1", 2, 8, 2))
    );
}

#[test]
fn opensearch_update_transport_messages_bind_action_frames() {
    let request = OpenSearchUpdateRequestWire::new("logs-000001".into(), "doc-1".into(), br#"{"message":"patched"}"#.to_vec());
    let mut frame = build_opensearch_update_request_message(26, opensearch_3_7_0_transport(), &request).unwrap();
    let DecodedFrame::Message(message) = decode_frame(&mut frame).unwrap().unwrap() else {
        panic!("expected message frame");
    };
    assert_eq!(message.request_id, 26);
    assert!(message.status.is_request());
    assert_eq!(
        classify_opensearch_transport_request_message(&message).unwrap().disposition,
        OpenSearchTransportActionDisposition::Implemented
    );
    assert_eq!(read_opensearch_update_request_message(&message).unwrap(), request);

    let response = OpenSearchUpdateResponseWire::updated("logs-000001".into(), metadata("doc-1", 2, 1, 1));
    let mut frame = build_opensearch_update_response_message(26, opensearch_3_7_0_transport(), &response).unwrap();
    let DecodedFrame::Message(message) = decode_frame(&mut frame).unwrap().unwrap() else {
        panic!("expected message frame");
    };
    assert_eq!(message.request_id, 26);
    assert!(message.status.is_response());
    assert_eq!(read_opensearch_update_response_message(&message).unwrap(), response);
}

#[test]
fn opensearch_delete_response_wire_round_trips_deleted_and_missing_documents() {
    let deleted = OpenSearchDeleteResponseWire::deleted("logs-000001".into(), metadata("doc-1", 3, 7, 2));
    let mut output = StreamOutput::new();
    deleted.write(&mut output);
    assert_eq!(OpenSearchDeleteResponseWire::read(output.freeze()).unwrap(), deleted);

    let missing = OpenSearchDeleteResponseWire::not_found("logs-000001".into(), "doc-404".into());
    let mut output = StreamOutput::new();
    missing.write(&mut output);
    assert_eq!(OpenSearchDeleteResponseWire::read(output.freeze()).unwrap(), missing);
}

#[test]
fn opensearch_delete_response_maps_from_engine_deleted_response() {
    let response = IndexDocumentResponse { index: "logs-000001".into(), metadata: metadata("doc-1", 3, 7, 2), result: WriteResult::Deleted };
    assert_eq!(
        OpenSearchDeleteResponseWire::from_engine_response(response).unwrap(),
        OpenSearchDeleteResponseWire::deleted("logs-000001".into(), metadata("doc-1", 3, 7, 2))
    );
    let created = IndexDocumentResponse { index: "logs-000001".into(), metadata: metadata("doc-1", 3, 7, 2), result: WriteResult::Created };
    assert_eq!(shape_of(OpenSearchDeleteResponseWire::from_engine_response(created)), "delete response write result");
}

#[test]
fn opensearch_delete_transport_messages_bind_action_frames() {
    let request = OpenSearchDeleteRequestWire::new("logs-000001".into(), "doc-1".into());
    let mut frame = build_opensearch_delete_request_message(23, opensearch_3_7_0_transport(), &request).unwrap();
    let DecodedFrame::Message(message) = decode_frame(&mut frame).unwrap().unwrap() else {
        panic!("expected message frame");
    };
    assert_eq!(message.request_id, 23);
    assert!(message.status.is_request());
    assert_eq!(
        classify_opensearch_transport_request_message(&message).unwrap().disposition,
        OpenSearchTransportActionDisposition::Implemented
    );
    assert_eq!(read_opensearch_delete_request_message(&message).unwrap(), request);

    let response = OpenSearchDeleteResponseWire::deleted("logs-000001".into(), metadata("doc-1", 1, 0, 1));
    let mut frame = build_opensearch_delete_response_message(23, opensearch_3_7_0_transport(), &response).unwrap();
    let DecodedFrame::Message(message) = decode_frame(&mut frame).unwrap().unwrap() else {
        panic!("expected message frame");
    };
    assert_eq!(message.request_id, 23);
    assert!(message.status.is_response());
    assert_eq!(read_opensearch_delete_response_message(&message).unwrap(), response);
}

#[test]
fn json_messages_carry_one_json_document() {
    let json = br#"{"recovery_id":"r-1"}"#.to_vec();
    let mut frame = build_steelsearch_json_request_message(31, opensearch_3_7_0_transport(), STEELSEARCH_RECOVERY_START_ACTION_NAME, &json);
    let DecodedFrame::Message(message) = decode_frame(&mut frame).unwrap().unwrap() else {
        panic!("expected message frame");
    };
    assert_eq!(read_steelsearch_json_request_message(&message, STEELSEARCH_RECOVERY_START_ACTION_NAME).unwrap(), json);
    match read_steelsearch_json_request_message(&message, STEELSEARCH_RECOVERY_CANCEL_ACTION_NAME).unwrap_err() {
        TransportActionWireError::UnexpectedAction { expected, .. } => assert_eq!(expected, STEELSEARCH_RECOVERY_CANCEL_ACTION_NAME),
        other => panic!("unexpected error {other:?}"),
    }
    assert!(read_steelsearch_json_response_message(&message).is_err());

    let mut frame = build_steelsearch_json_response_message(31, opensearch_3_7_0_transport(), b"not json");
    let DecodedFrame::Message(message) = decode_frame(&mut frame).unwrap().unwrap() else {
        panic!("expected message frame");
    };
    assert_eq!(read_steelsearch_json_response_message(&message).unwrap_err(), TransportActionWireError::JsonDecode);
}

#[test]
fn opensearch_multi_get_request_wire_round_trips_and_maps_to_engine_requests() {
    let request = OpenSearchMultiGetRequestWire {
        parent_task_node: "node-a".into(),
        parent_task_id: Some(42),
        items: vec![
            OpenSearchMultiGetItemRequestWire::new("logs-000001".into(), "doc-1".into()),
            OpenSearchMultiGetItemRequestWire::new("metrics-000001".into(), "doc-2".into()),
        ],
        ..OpenSearchMultiGetRequestWire::new(Vec::new())
    };

    let mut output = StreamOutput::new();
    request.write(&mut output).unwrap();
    let decoded = OpenSearchMultiGetRequestWire::read(output.freeze()).unwrap();

    assert_eq!(decoded, request);
    assert_eq!(
        decoded.to_engine_requests().unwrap(),
        vec![
            GetDocumentRequest { index: "logs-000001".into(), id: "doc-1".into() },
            GetDocumentRequest { index: "metrics-000001".into(), id: "doc-2".into() },
        ]
    );
}

#[test]
fn multi_get_item_with_source_filtering_is_refused_both_ways() {
    let request = OpenSearchMultiGetRequestWire::new(vec![
        OpenSearchMultiGetItemRequestWire::new("logs-000001".into(), "doc-1".into()),
        OpenSearchMultiGetItemRequestWire {
            fetch_source_context_present: true,
            ..OpenSearchMultiGetItemRequestWire::new("logs-000001".into(), "doc-2".into())
        },
    ]);
    let mut output = StreamOutput::new();
    assert_eq!(shape_of(request.write(&mut output)), "multi-get request item fetch source context");

    let mut body = StreamOutput::new();
    body.write_string("");
    body.write_bool(false);
    body.write_bool(false);
    body.write_bool(true);
    body.write_vint(1);
    body.write_string("logs-000001");
    body.write_string("doc-1");
    body.write_bool(false);
    body.write_bool(false);
    body.write_i64(-3);
    body.write_byte(0);
    body.write_bool(true);
    match OpenSearchMultiGetRequestWire::read(body.freeze()).unwrap_err() {
        TransportActionWireError::UnsupportedWireShape { shape, reason } => {
            assert_eq!(shape, "multi-get request item fetch source context");
            assert_eq!(reason, "fetch source context decoding is not implemented by the multi-get adapter yet");
        }
        other => panic!("unexpected error {other:?}"),
    }
}

#[test]
fn opensearch_multi_get_response_wire_round_trips_successful_items() {
    let response = OpenSearchMultiGetResponseWire {
        items: vec![
            OpenSearchMultiGetItemResponseWire {
                response: OpenSearchGetResponseWire::found("logs-000001".into(), metadata("doc-1", 3, 7, 2), br#"{"message":"hello"}"#.to_vec()),
            },
            OpenSearchMultiGetItemResponseWire {
                response: OpenSearchGetResponseWire::not_found("logs-000001".into(), "doc-404".into()),
            },
        ],
    };

    let mut output = StreamOutput::new();
    response.write(&mut output).unwrap();
    assert_eq!(OpenSearchMultiGetResponseWire::read(output.freeze()).unwrap(), response);
}

#[test]
fn multi_get_response_refuses_failure_items() {
    let mut body = StreamOutput::new();
    body.write_vint(1);
    body.write_bool(true);
    assert_eq!(shape_of(OpenSearchMultiGetResponseWire::read(body.freeze())), "multi-get failure item");
}

#[test]
fn opensearch_multi_get_transport_messages_bind_action_frames() {
    let request = OpenSearchMultiGetRequestWire::new(vec![
        OpenSearchMultiGetItemRequestWire::new("logs-000001".into(), "doc-1".into()),
        OpenSearchMultiGetItemRequestWire::new("logs-000001".into(), "doc-2".into()),
    ]);
    let mut frame = build_opensearch_multi_get_request_message(22, opensearch_3_7_0_transport(), &request).unwrap();
    let DecodedFrame::Message(message) = decode_frame(&mut frame).unwrap().unwrap() else {
        panic!("expected message frame");
    };
    assert_eq!(message.request_id, 22);
    assert!(message.status.is_request());
    assert_eq!(
        classify_opensearch_transport_request_message(&message).unwrap().disposition,
        OpenSearchTransportActionDisposition::Implemented
    );
    assert_eq!(read_opensearch_multi_get_request_message(&message).unwrap(), request);

    let response = OpenSearchMultiGetResponseWire {
        items: vec![OpenSearchMultiGetItemResponseWire {
            response: OpenSearchGetResponseWire::found("logs-000001".into(), metadata("doc-1", 1, 0, 1), br#"{"message":"hello"}"#.to_vec()),
        }],
    };
    let mut frame = build_opensearch_multi_get_response_message(22, opensearch_3_7_0_transport(), &response).unwrap();
    let DecodedFrame::Message(message) = decode_frame(&mut frame).unwrap().unwrap() else {
        panic!("expected message frame");
    };
    assert_eq!(message.request_id, 22);
    assert!(message.status.is_response());
    assert_eq!(read_opensearch_multi_get_response_message(&message).unwrap(), response);
}

fn created_source() -> Vec<u8> {
    br#"{"message":"created"}"#.to_vec()
}

#[test]
fn opensearch_bulk_request_wire_round_trips_and_maps_to_engine_request() {
    let request = OpenSearchBulkRequestWire {
        parent_task_node: "node-a".into(),
        parent_task_id: Some(42),
        items: vec![
            OpenSearchBulkRequestItemWire::Index(OpenSearchIndexRequestWire::new("logs-000001".into(), "doc-1".into(), created_source())),
            OpenSearchBulkRequestItemWire::Delete(OpenSearchDeleteRequestWire::new("logs-000001".into(), "doc-2".into())),
        ],
        ..OpenSearchBulkRequestWire::new(Vec::new())
    };

    let mut output = StreamOutput::new();
    request.write(&mut output).unwrap();
    let decoded = OpenSearchBulkRequestWire::read(output.freeze()).unwrap();

    assert_eq!(decoded, request);
    assert_eq!(
        decoded.to_engine_request().unwrap(),
        BulkWriteRequest {
            operations: vec![
                BulkWriteOperation::Index(IndexDocumentRequest { index: "logs-000001".into(), id: "doc-1".into(), source: created_source() }),
                BulkWriteOperation::Delete(DeleteDocumentRequest { index: "logs-000001".into(), id: "doc-2".into() }),
            ],
        }
    );
}

#[test]
fn opensearch_bulk_request_rejects_unsupported_engine_mapping_options() {
    let request = OpenSearchBulkRequestWire {
        refresh_policy: 1,
        items: vec![OpenSearchBulkRequestItemWire::Index(OpenSearchIndexRequestWire::new(
            "logs-000001".into(),
            "doc-1".into(),
            created_source(),
        ))],
        ..OpenSearchBulkRequestWire::new(Vec::new())
    };
    assert_eq!(shape_of(request.to_engine_request()), "bulk request refresh policy");

    let request = OpenSearchBulkRequestWire::new(vec![OpenSearchBulkRequestItemWire::Index(OpenSearchIndexRequestWire {
        routing: Some("tenant-a".into()),
        ..OpenSearchIndexRequestWire::new("logs-000001".into(), "doc-1".into(), created_source())
    })]);
    assert_eq!(shape_of(request.to_engine_request()), "index request routing");
}

#[test]
fn bulk_request_refuses_update_and_unknown_items_and_stops_at_the_first_failing_write() {
    let mut body = StreamOutput::new();
    body.write_string("");
    body.write_i32(-2);
    body.write_vint(1);
    body.write_byte(2);
    assert_eq!(shape_of(OpenSearchBulkRequestWire::read(body.freeze())), "bulk request update item");

    let mut body = StreamOutput::new();
    body.write_string("");
    body.write_i32(-2);
    body.write_vint(1);
    body.write_byte(9);
    assert_eq!(shape_of(OpenSearchBulkRequestWire::read(body.freeze())), "bulk request item type");

    let request = OpenSearchBulkRequestWire::new(vec![
        OpenSearchBulkRequestItemWire::Delete(OpenSearchDeleteRequestWire::new("logs-000001".into(), "doc-2".into())),
        OpenSearchBulkRequestItemWire::Index(OpenSearchIndexRequestWire { id: None, ..OpenSearchIndexRequestWire::new("logs-000001".into(), "doc-1".into(), created_source()) }),
        OpenSearchBulkRequestItemWire::Delete(OpenSearchDeleteRequestWire { refresh_policy: 1, ..OpenSearchDeleteRequestWire::new("logs-000001".into(), "doc-3".into()) }),
    ]);
    match request.to_engine_request().unwrap_err() {
        TransportActionWireError::MissingRequiredField { field } => assert_eq!(field, "id"),
        other => panic!("unexpected error {other:?}"),
    }

    let request = OpenSearchBulkRequestWire::new(vec![OpenSearchBulkRequestItemWire::Delete(OpenSearchDeleteRequestWire {
        shard_id_present: true,
        ..OpenSearchDeleteRequestWire::new("logs-000001".into(), "doc-2".into())
    })]);
    let mut output = StreamOutput::new();
    assert_eq!(shape_of(request.write(&mut output)), "delete request shard id");
}

fn bulk_success() -> OpenSearchBulkResponseWire {
    OpenSearchBulkResponseWire::success(vec![
        OpenSearchBulkItemResponseWire::index(0, OpenSearchIndexResponseWire::created("logs-000001".into(), metadata("doc-1", 1, 7, 2))),
        OpenSearchBulkItemResponseWire::delete(1, OpenSearchDeleteResponseWire::deleted("logs-000001".into(), metadata("doc-2", 2, 8, 2))),
    ])
}

#[test]
fn opensearch_bulk_response_wire_round_trips_successful_items() {
    let response = bulk_success();
    let mut output = StreamOutput::new();
    response.write(&mut output);
    assert_eq!(OpenSearchBulkResponseWire::read(output.freeze()).unwrap(), response);
}

fn engine_item(operation: WriteOperationKind, id: &str, result: WriteResult, version: u64, seq_no: i64) -> BulkWriteItemResponse {
    BulkWriteItemResponse {
        operation,
        index: "logs-000001".into(),
        id: id.into(),
        status: 200,
        result: Some(result),
        metadata: Some(metadata(id, version, seq_no, 2)),
        error_type: None,
        reason: None,
    }
}

#[test]
fn opensearch_bulk_response_maps_from_engine_response() {
    let response = BulkWriteResponse {
        errors: false,
        items: vec![
            engine_item(WriteOperationKind::Index, "doc-1", WriteResult::Created, 1, 7),
            engine_item(WriteOperationKind::Delete, "doc-2", WriteResult::Deleted, 2, 8),
        ],
    };
    assert_eq!(OpenSearchBulkResponseWire::from_engine_response(response).unwrap(), bulk_success());
}

#[test]
fn bulk_response_from_engine_refuses_failures_and_other_kinds() {
    let mut failed = engine_item(WriteOperationKind::Index, "doc-1", WriteResult::Created, 1, 7);
    failed.error_type = Some("version_conflict".into());
    let response = BulkWriteResponse { errors: true, items: vec![failed] };
    assert_eq!(shape_of(OpenSearchBulkResponseWire::from_engine_response(response)), "bulk response failure item");

    let response = BulkWriteResponse { errors: false, items: vec![engine_item(WriteOperationKind::Update, "doc-1", WriteResult::Updated, 1, 7)] };
    assert_eq!(shape_of(OpenSearchBulkResponseWire::from_engine_response(response)), "bulk response operation kind");

    let mut missing = engine_item(WriteOperationKind::Delete, "doc-1", WriteResult::Deleted, 1, 7);
    missing.metadata = None;
    match OpenSearchBulkResponseWire::from_engine_response(BulkWriteResponse { errors: false, items: vec![missing] }).unwrap_err() {
        TransportActionWireError::MissingRequiredField { field } => assert_eq!(field, "metadata"),
        other => panic!("unexpected error {other:?}"),
    }
}

#[test]
fn opensearch_bulk_transport_messages_bind_action_frames() {
    let request = OpenSearchBulkRequestWire::new(vec![
        OpenSearchBulkRequestItemWire::Index(OpenSearchIndexRequestWire::new("logs-000001".into(), "doc-1".into(), created_source())),
        OpenSearchBulkRequestItemWire::Delete(OpenSearchDeleteRequestWire::new("logs-000001".into(), "doc-2".into())),
    ]);
    let mut frame = build_opensearch_bulk_request_message(25, opensearch_3_7_0_transport(), &request).unwrap();
    let DecodedFrame::Message(message) = decode_frame(&mut frame).unwrap().unwrap() else {
        panic!("expected message frame");
    };
    assert_eq!(message.request_id, 25);
    assert!(message.status.is_request());
    assert_eq!(
        classify_opensearch_transport_request_message(&message).unwrap().disposition,
        OpenSearchTransportActionDisposition::Implemented
    );
    assert_eq!(read_opensearch_bulk_request_message(&message).unwrap(), request);

    let response = OpenSearchBulkResponseWire::success(vec![OpenSearchBulkItemResponseWire::index(
        0,
        OpenSearchIndexResponseWire::created("logs-000001".into(), metadata("doc-1", 1, 0, 1)),
    )]);
    let mut frame = build_opensearch_bulk_response_message(25, opensearch_3_7_0_transport(), &response).unwrap();
    let DecodedFrame::Message(message) = decode_frame(&mut frame).unwrap().unwrap() else {
        panic!("expected message frame");
    };
    assert_eq!(message.request_id, 25);
    assert!(message.status.is_response());
    assert_eq!(read_opensearch_bulk_response_message(&message).unwrap(), response);
}

#[test]
fn cluster_state_response_wire_round_trips_json_sections() {
    let response = ClusterStateResponseWire {
        cluster_name: "steelsearch".to_string(),
        cluster_uuid: "uuid-1".to_string(),
        state_uuid: "state-1".to_string(),
        version: 7,
        sections: StringMap::from_pairs(vec![
            ("nodes".to_string(), br#"{"node-a":{"name":"node-a"}}"#.to_vec()),
            ("metadata".to_string(), br#"{"indices":{}}"#.to_vec()),
        ]),
    };
    let mut output = StreamOutput::new();
    response.write(&mut output).unwrap();

    assert_eq!(ClusterStateResponseWire::read(output.freeze()).unwrap(), response);
}

#[test]
fn cluster_state_sections_must_be_json_documents() {
    let mut body = StreamOutput::new();
    body.write_string("c");
    body.write_string("u");
    body.write_string("s");
    body.write_i64(1);
    body.write_vint(1);
    body.write_string("nodes");
    body.write_bytes_reference(b"{oops");
    assert_eq!(ClusterStateResponseWire::read(body.freeze()).unwrap_err(), TransportActionWireError::JsonDecode);
}
