use os_transport::frame::{decode_frame, DecodedFrame};
use os_transport::handshake::{
    build_tcp_handshake_request, build_transport_handshake_request, DiscoveryNode, HandshakeDecodeError,
    IpAddr, TransportHandshakeResponse, TCP_HANDSHAKE_ACTION, TRANSPORT_HANDSHAKE_ACTION,
};
use os_transport::node_roles::{DiscoveryNodeRole, DiscoveryNodeRoles};
use os_transport::replication::{
    validate_replica_operation_request_progress, validate_replica_operation_response,
    ReplicaReplicationValidationError, SteelsearchReplicaOperationRequestWire, SteelsearchReplicaOperationWire,
};
use os_transport::steelsearch::{SteelsearchReplicaOperationKindWire, SteelsearchReplicaOperationResponseWire};
use os_transport::stream::{StreamInput, StreamInputError, StreamOutput};
use os_transport::variable_header::RequestVariableHeader;
use os_transport::version::Version;

#[test]
fn builds_tcp_handshake_request() {
    let mut frame = build_tcp_handshake_request(1, Version::from_id(3000099), Version::from_id(3000099));
    let DecodedFrame::Message(message) = decode_frame(&mut frame).unwrap().unwrap() else {
        panic!("expected message frame");
    };
    let variable_header = RequestVariableHeader::read(message.variable_header.clone()).unwrap();
    assert_eq!(variable_header.action, TCP_HANDSHAKE_ACTION);

    let mut body = StreamInput::new(message.body.clone());
    assert_eq!(body.read_string().unwrap(), "");
    let mut version_bytes = StreamInput::new(body.read_bytes_reference().unwrap());
    assert_eq!(version_bytes.read_vint().unwrap(), 3000099);
}

#[test]
fn builds_transport_handshake_request() {
    let mut frame = build_transport_handshake_request(2, Version::from_id(3000099));
    let DecodedFrame::Message(message) = decode_frame(&mut frame).unwrap().unwrap() else {
        panic!("expected message frame");
    };
    let variable_header = RequestVariableHeader::read(message.variable_header.clone()).unwrap();
    assert_eq!(variable_header.action, TRANSPORT_HANDSHAKE_ACTION);

    let mut body = StreamInput::new(message.body.clone());
    assert_eq!(body.read_string().unwrap(), "");
    assert_eq!(body.remaining(), 0);
}

#[test]
fn handshake_request_starts_with_es_marker() {
    let frame = build_tcp_handshake_request(1, Version::from_id(1), Version::from_id(1));
    assert_eq!(&frame[..2], b"ES");
}

fn node_body(version: Version, role_count: i32) -> StreamOutput {
    let mut body = StreamOutput::new();
    body.write_bool(true);
    body.write_string("node-a");
    body.write_string("node-id");
    body.write_string("ephemeral-id");
    body.write_string("127.0.0.1");
    body.write_string("127.0.0.1");
    body.write_byte(4);
    for byte in [127, 0, 0, 1] {
        body.write_byte(byte);
    }
    body.write_string("127.0.0.1");
    body.write_i32(9300);
    body.write_bool(false);
    body.write_vint(1);
    body.write_string("testattr");
    body.write_string("test");
    body.write_vint(role_count);
    body
}

#[test]
fn decodes_transport_handshake_response_body() {
    let version = Version::from_id(137287827);
    let mut body = node_body(version, 1);
    body.write_string("data");
    body.write_string("d");
    body.write_bool(true);
    body.write_vint(version.id());
    body.write_string("cluster-a");
    body.write_vint(version.id());

    let response = TransportHandshakeResponse::read(body.freeze(), version).unwrap();

    assert_eq!(response.cluster_name, "cluster-a");
    assert_eq!(response.version, version);
    let node = response.discovery_node.unwrap();
    assert_eq!(node.name, "node-a");
    assert_eq!(node.address.host, "127.0.0.1");
    assert_eq!(node.address.port, 9300);
    assert_eq!(node.attributes.get("testattr").unwrap(), "test");
    assert!(node.roles.items().iter().any(|role| role.name == "data"));
}

#[test]
fn handshake_response_without_node_and_with_trailing_bytes() {
    let version = Version::from_id(137287827);
    let mut body = StreamOutput::new();
    body.write_bool(false);
    body.write_string("cluster-b");
    body.write_vint(version.id());
    let bytes = body.freeze();
    let response = TransportHandshakeResponse::read(bytes.clone(), version).unwrap();
    assert!(response.discovery_node.is_none());
    assert_eq!(response.cluster_name, "cluster-b");

    let mut longer = bytes;
    longer.push(7);
    longer.push(8);
    assert_eq!(
        TransportHandshakeResponse::read(longer, version).unwrap_err(),
        HandshakeDecodeError::TrailingBytes(2)
    );
}

#[test]
fn handshake_response_refuses_bad_ip_length_and_negative_role_count() {
    let version = Version::from_id(137287827);
    let mut body = StreamOutput::new();
    body.write_bool(true);
    for text in ["n", "i", "e", "h", "a"] {
        body.write_string(text);
    }
    body.write_byte(5);
    for byte in [1, 2, 3, 4, 5] {
        body.write_byte(byte);
    }
    assert_eq!(
        TransportHandshakeResponse::read(body.freeze(), version).unwrap_err(),
        HandshakeDecodeError::InvalidIpLength(5)
    );

    let body = node_body(version, -2);
    assert_eq!(
        TransportHandshakeResponse::read(body.freeze(), version).unwrap_err(),
        HandshakeDecodeError::NegativeRoleCount(-2)
    );

    let mut short = StreamOutput::new();
    short.write_bool(true);
    short.write_string("n");
    assert_eq!(
        TransportHandshakeResponse::read(short.freeze(), version).unwrap_err(),
        HandshakeDecodeError::Stream(StreamInputError::UnexpectedEof)
    );
}

#[test]
fn older_nodes_send_no_stream_address_and_ipv6_reads() {
    let version = Version::from_id(137217827);
    let mut body = StreamOutput::new();
    body.write_string("n");
    body.write_string("i");
    body.write_string("e");
    body.write_string("h");
    body.write_string("a");
    body.write_byte(16);
    for byte in 0..16u8 {
        body.write_byte(byte);
    }
    body.write_string("::1");
    body.write_i32(9301);
    body.write_vint(0);
    body.write_vint(2);
    for (name, abbreviation, data) in [("master", "m", false), ("data", "d", true)] {
        body.write_string(name);
        body.write_string(abbreviation);
        body.write_bool(data);
    }
    body.write_vint(version.id());
    let mut input = StreamInput::new(body.freeze());
    let node = DiscoveryNode::read(&mut input, version).unwrap();
    assert_eq!(input.remaining(), 0);
    assert!(node.stream_address.is_none());
    let mut octets = [0u8; 16];
    for (i, octet) in octets.iter_mut().enumerate() {
        *octet = i as u8;
    }
    assert_eq!(node.address.ip, IpAddr::V6(octets));
    let names: Vec<&str> = node.roles.items().iter().map(|r| r.name.as_str()).collect();
    assert_eq!(names, vec!["data", "master"]);
}

#[test]
fn role_set_keeps_one_of_each_role_in_order() {
    let mut roles = DiscoveryNodeRoles::new();
    for (name, abbreviation, data) in [("ingest", "i", false), ("data", "d", true), ("data", "d", false), ("data", "d", true)] {
        roles.insert(DiscoveryNodeRole {
            name: name.to_string(),
            abbreviation: abbreviation.to_string(),
            can_contain_data: data,
        });
    }
    let seen: Vec<(String, bool)> = roles.items().iter().map(|r| (r.name.clone(), r.can_contain_data)).collect();
    assert_eq!(
        seen,
        vec![("data".to_string(), false), ("data".to_string(), true), ("ingest".to_string(), false)]
    );
    assert_eq!(roles.len(), 3);
}

fn replica_request(primary_term: u64, seq_no: i64) -> SteelsearchReplicaOperationRequestWire {
    SteelsearchReplicaOperationRequestWire {
        index: "logs-000001".to_string(),
        shard_id: 0,
        target_node: "node-b".to_string(),
        primary_node: "node-a".to_string(),
        allocation_id: "alloc".to_string(),
        seq_no,
        primary_term,
        version: 1,
        global_checkpoint: 0,
        local_checkpoint: 0,
        retention_leases: Vec::new(),
        operation: SteelsearchReplicaOperationWire {
            op_type: SteelsearchReplicaOperationKindWire::Index,
            id: "doc-1".to_string(),
            source: Some("{\"message\":\"hello\"}".to_string()),
            noop_reason: None,
        },
    }
}

#[test]
fn replica_progress_refuses_stale_terms_and_sequence_numbers() {
    assert_eq!(
        validate_replica_operation_request_progress(&replica_request(2, 10), 3, 5),
        Err(ReplicaReplicationValidationError::StalePrimaryTerm { local: 3, remote: 2 })
    );
    assert_eq!(
        validate_replica_operation_request_progress(&replica_request(3, 5), 3, 5),
        Err(ReplicaReplicationValidationError::StaleSeqNo { checkpoint: 5, remote: 5 })
    );
    assert_eq!(validate_replica_operation_request_progress(&replica_request(3, 6), 3, 5), Ok(()));
    assert_eq!(validate_replica_operation_request_progress(&replica_request(4, 1), 3, 5), Ok(()));
}

fn replica_response(applied: bool, failure: Option<&str>) -> SteelsearchReplicaOperationResponseWire {
    SteelsearchReplicaOperationResponseWire {
        index: "logs-000001".to_string(),
        shard_id: 0,
        target_node: "node-b".to_string(),
        seq_no: 43,
        primary_term: 3,
        version: 7,
        global_checkpoint: 42,
        applied,
        result: "created".to_string(),
        failure: failure.map(|f| f.to_string()),
    }
}

#[test]
fn replica_response_must_be_applied_without_failure() {
    assert_eq!(validate_replica_operation_response(&replica_response(true, None)), Ok(()));
    assert_eq!(
        validate_replica_operation_response(&replica_response(false, None)),
        Err(ReplicaReplicationValidationError::PartialReplication { result: "created".to_string(), failure: None })
    );
    assert_eq!(
        validate_replica_operation_response(&replica_response(true, Some("disk full"))),
        Err(ReplicaReplicationValidationError::PartialReplication {
            result: "created".to_string(),
            failure: Some("disk full".to_string()),
        })
    );
}
