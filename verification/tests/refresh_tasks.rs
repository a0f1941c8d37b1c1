use os_transport::document_requests::{OpenSearchRefreshRequestWire, OpenSearchRefreshResponseWire};
use os_transport::engine_requests::{RefreshRequest, RefreshResponse};
use os_transport::frame::frame_is_decodable;
use os_transport::indices_options::OpenSearchIndicesOptionsWire;
use os_transport::stream::StreamOutput;
use os_transport::task_requests::{
    PendingClusterTaskWire, PendingClusterTasksRequestWire, PendingClusterTasksResponseWire,
};

#[test]
fn opensearch_refresh_request_wire_round_trips_and_maps_to_engine_request() {
    let request = OpenSearchRefreshRequestWire {
        parent_task_node: "node-a".into(),
        parent_task_id: Some(42),
        indices: vec!["logs-000001".into(), "metrics-000001".into()],
        indices_options: OpenSearchIndicesOptionsWire::strict_expand_open_forbid_closed(),
    };

    let mut output = StreamOutput::new();
    request.write(&mut output);
    let decoded = OpenSearchRefreshRequestWire::read(output.freeze()).unwrap();

    assert_eq!(decoded, request);
    assert_eq!(
        decoded.to_engine_request(),
        RefreshRequest {
            indices: vec!["logs-000001".into(), "metrics-000001".into()],
        }
    );
}

#[test]
fn opensearch_refresh_response_wire_round_trips_and_maps_to_engine_response() {
    let response = OpenSearchRefreshResponseWire {
        total_shards: 3,
        successful_shards: 3,
        failed_shards: 0,
    };

    let mut output = StreamOutput::new();
    response.write(&mut output);
    let decoded = OpenSearchRefreshResponseWire::read(output.freeze()).unwrap();

    assert_eq!(decoded, response);
    assert_eq!(decoded.to_engine_response(), RefreshResponse { refreshed: true });
}

#[test]
fn refresh_response_with_a_failed_shard_is_not_refreshed() {
    let response = OpenSearchRefreshResponseWire {
        total_shards: 3,
        successful_shards: 2,
        failed_shards: 1,
    };
    assert_eq!(response.to_engine_response(), RefreshResponse { refreshed: false });
}

#[test]
fn pending_cluster_tasks_wire_round_trips() {
    let request = PendingClusterTasksRequestWire {
        local: true,
        ..PendingClusterTasksRequestWire::default()
    };
    let mut output = StreamOutput::new();
    request.write(&mut output);
    assert_eq!(
        PendingClusterTasksRequestWire::read(output.freeze()).unwrap(),
        request
    );

    let response = PendingClusterTasksResponseWire {
        tasks: vec![PendingClusterTaskWire {
            insert_order: 1,
            priority: "URGENT".to_string(),
            source: "create-index [logs]".to_string(),
            executing: false,
            time_in_queue_millis: 15,
        }],
    };
    let mut output = StreamOutput::new();
    response.write(&mut output);
    assert_eq!(
        PendingClusterTasksResponseWire::read(output.freeze()).unwrap(),
        response
    );
}

#[test]
fn pending_cluster_tasks_response_refuses_trailing_bytes() {
    let response = PendingClusterTasksResponseWire { tasks: vec![] };
    let mut output = StreamOutput::new();
    response.write(&mut output);
    let mut bytes = output.freeze();
    assert_eq!(bytes, vec![0u8]);
    bytes.push(7);
    assert!(PendingClusterTasksResponseWire::read(bytes).is_err());
}

#[test]
fn frame_is_decodable_only_refuses_a_frame_too_short_for_its_header() {
    assert!(frame_is_decodable(&[]));
    assert!(frame_is_decodable(&[69, 83, 0, 0]));
    // a whole frame that announces five bytes: too few for a message header
    assert!(!frame_is_decodable(&[69, 83, 0, 0, 0, 5, 1, 2, 3, 4, 5]));
    // the same announcement with the body not yet arrived
    assert!(frame_is_decodable(&[69, 83, 0, 0, 0, 5, 1, 2]));
    // a ping announces no body at all
    assert!(frame_is_decodable(&[69, 83, 0, 0, 0, 0]));
    // a negative size is for decode_frame to refuse
    assert!(frame_is_decodable(&[69, 83, 255, 255, 255, 255]));
    // another marker is for decode_frame to refuse
    assert!(frame_is_decodable(&[70, 83, 0, 0, 0, 5, 1, 2, 3, 4, 5]));
}
