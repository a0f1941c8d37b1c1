use os_transport::error::{
    write_illegal_argument_exception, write_illegal_state_exception, write_incompatible_cluster_state_version_exception,
    write_index_closed_exception, write_index_not_found_exception, write_invalid_index_name_exception,
    write_rejected_execution_exception, write_resource_not_found_exception, write_search_context_missing_exception,
    write_search_phase_execution_exception_for_missing_context, write_shard_not_found_exception, TransportError,
    TransportErrorDecodeError, TransportErrorSearchContextId,
};
use os_transport::stream::StreamOutput;


#[test]
fn decodes_jvm_exception_message() {
    let mut output = StreamOutput::new();
    output.write_bool(true);
    output.write_vint(14);
    output.write_optional_string(Some("boom"));
    output.write_bool(false);
    write_empty_stack_trace(&mut output);

    let error = TransportError::read(output.freeze()).unwrap().unwrap();

    assert_eq!(error.class_name, "java.lang.IllegalStateException");
    assert_eq!(error.message.as_deref(), Some("boom"));
    assert!(error.cause.is_none());
    assert!(error.search_context_id.is_none());
}

#[test]
fn writes_jvm_illegal_argument_exception_message() {
    let mut output = StreamOutput::new();
    write_illegal_argument_exception(&mut output, Some("bad request"));

    let error = TransportError::read(output.freeze()).unwrap().unwrap();

    assert_eq!(error.class_name, "java.lang.IllegalArgumentException");
    assert_eq!(error.message.as_deref(), Some("bad request"));
    assert!(error.cause.is_none());
    assert!(error.search_context_id.is_none());
}

#[test]
fn writes_jvm_illegal_state_exception_message() {
    let mut output = StreamOutput::new();
    write_illegal_state_exception(&mut output, Some("bad state"));

    let error = TransportError::read(output.freeze()).unwrap().unwrap();

    assert_eq!(error.class_name, "java.lang.IllegalStateException");
    assert_eq!(error.message.as_deref(), Some("bad state"));
    assert!(error.cause.is_none());
}

#[test]
fn writes_opensearch_rejected_execution_exception_message() {
    let mut output = StreamOutput::new();
    write_rejected_execution_exception(&mut output, Some("too many contexts"));

    let error = TransportError::read(output.freeze()).unwrap().unwrap();

    assert_eq!(
        error.class_name,
        "org.opensearch.common.util.concurrent.OpenSearchRejectedExecutionException"
    );
    assert_eq!(error.message.as_deref(), Some("too many contexts"));
    assert!(error.cause.is_none());
}

#[test]
fn writes_opensearch_resource_not_found_exception_message() {
    let mut output = StreamOutput::new();
    write_resource_not_found_exception(
        &mut output,
        Some("the task with id persistent-task-1 doesn't exist"),
    );

    let error = TransportError::read(output.freeze()).unwrap().unwrap();

    assert_eq!(error.class_name, "org.opensearch.ResourceNotFoundException");
    assert_eq!(
        error.message.as_deref(),
        Some("the task with id persistent-task-1 doesn't exist")
    );
    assert!(error.cause.is_none());
    assert!(error.search_context_id.is_none());
}

#[test]
fn writes_opensearch_search_context_missing_exception_message() {
    let mut output = StreamOutput::new();
    write_search_context_missing_exception(
        &mut output,
        Some("No search context found for id [42]"),
        "session-a",
        42,
    );

    let error = TransportError::read(output.freeze()).unwrap().unwrap();

    assert_eq!(
        error.class_name,
        "org.opensearch.search.SearchContextMissingException"
    );
    assert_eq!(
        error.message.as_deref(),
        Some("No search context found for id [42]")
    );
    assert!(error.cause.is_none());
    assert_eq!(
        error.search_context_id,
        Some(TransportErrorSearchContextId {
            session_id: "session-a".to_string(),
            id: 42,
        })
    );
}

#[test]
fn writes_search_phase_execution_exception_for_missing_context() {
    let mut output = StreamOutput::new();
    write_search_phase_execution_exception_for_missing_context(
        &mut output,
        "query",
        "all shards failed",
        "No search context found for id [77]",
        "scroll-session",
        77,
    );

    let error = TransportError::read(output.freeze()).unwrap().unwrap();

    assert_eq!(
        error.class_name,
        "org.opensearch.action.search.SearchPhaseExecutionException"
    );
    assert_eq!(error.message.as_deref(), Some("all shards failed"));
    let cause = error.cause.as_ref().expect("search phase cause");
    assert_eq!(
        cause.class_name,
        "org.opensearch.search.SearchContextMissingException"
    );
    assert_eq!(
        cause.message.as_deref(),
        Some("No search context found for id [77]")
    );
    assert_eq!(
        cause.search_context_id,
        Some(TransportErrorSearchContextId {
            session_id: "scroll-session".to_string(),
            id: 77,
        })
    );
}

#[test]
fn writes_opensearch_index_not_found_exception_message() {
    let mut output = StreamOutput::new();
    write_index_not_found_exception(&mut output, "logs-missing");

    let error = TransportError::read(output.freeze()).unwrap().unwrap();

    assert_eq!(
        error.class_name,
        "org.opensearch.index.IndexNotFoundException"
    );
    assert_eq!(
        error.message.as_deref(),
        Some("no such index [logs-missing]")
    );
    assert!(error.cause.is_none());
}

#[test]
fn writes_opensearch_shard_not_found_exception_message() {
    let mut output = StreamOutput::new();
    write_shard_not_found_exception(&mut output, "logs", "uuid-logs", 2);

    let error = TransportError::read(output.freeze()).unwrap().unwrap();

    assert_eq!(
        error.class_name,
        "org.opensearch.index.shard.ShardNotFoundException"
    );
    assert_eq!(error.message.as_deref(), Some("no such shard"));
    assert!(error.cause.is_none());
}

#[test]
fn writes_opensearch_invalid_index_name_exception_message() {
    let mut output = StreamOutput::new();
    write_invalid_index_name_exception(&mut output, "_bad", "must not start with '_'.");

    let error = TransportError::read(output.freeze()).unwrap().unwrap();

    assert_eq!(
        error.class_name,
        "org.opensearch.indices.InvalidIndexNameException"
    );
    assert_eq!(
        error.message.as_deref(),
        Some("Invalid index name [_bad], must not start with '_'.")
    );
    assert!(error.cause.is_none());
}

#[test]
fn writes_opensearch_index_closed_exception_message() {
    let mut output = StreamOutput::new();
    write_index_closed_exception(&mut output, "logs-closed");

    let error = TransportError::read(output.freeze()).unwrap().unwrap();

    assert_eq!(
        error.class_name,
        "org.opensearch.indices.IndexClosedException"
    );
    assert_eq!(error.message.as_deref(), Some("closed"));
    assert!(error.cause.is_none());
}

#[test]
fn decodes_remote_transport_exception_with_cause() {
    let mut output = StreamOutput::new();
    output.write_bool(true);
    output.write_vint(0);
    output.write_vint(103);
    output.write_optional_string(Some("[node][127.0.0.1:9300][missing:action]"));
    output.write_bool(true);
    output.write_vint(14);
    output.write_optional_string(Some("missing handler"));
    output.write_bool(false);
    write_empty_stack_trace(&mut output);
    write_empty_stack_trace(&mut output);
    output.write_vint(0);
    output.write_vint(0);
    output.write_bool(false);
    output.write_optional_string(Some("missing:action"));

    let error = TransportError::read(output.freeze()).unwrap().unwrap();

    assert_eq!(
        error.class_name,
        "org.opensearch.transport.RemoteTransportException"
    );
    assert_eq!(
        error.cause.as_ref().unwrap().class_name,
        "java.lang.IllegalStateException"
    );
    assert!(error.summary().contains("missing handler"));
}

#[test]
fn maps_unknown_exception_key_to_unknown_transport_exception() {
    let mut output = StreamOutput::new();
    output.write_bool(true);
    output.write_vint(999);
    output.write_optional_string(Some("unsupported payload"));

    let error = TransportError::read(output.freeze()).unwrap().unwrap();

    assert_eq!(
        error.class_name,
        "org.opensearch.transport.UnknownTransportException"
    );
    assert!(error
        .message
        .as_deref()
        .expect("should include fallback message")
        .contains("unsupported transport exception key 999"));
    assert_eq!(error.cause, None);
}

#[test]
fn maps_unknown_exception_key_with_nonnormal_payload_to_unknown_transport_exception() {
    let mut output = StreamOutput::new();
    output.write_bool(true);
    output.write_vint(999);
    output.write_vint(17);
    output.write_vint(42);

    let error = TransportError::read(output.freeze()).unwrap().unwrap();

    assert_eq!(
        error.class_name,
        "org.opensearch.transport.UnknownTransportException"
    );
    assert_eq!(
        error.message.as_deref(),
        Some("unsupported transport exception key 999")
    );
}

#[test]
fn maps_action_not_found_exception_id_to_transport_exception_class() {
    let mut output = StreamOutput::new();
    output.write_bool(true);
    output.write_vint(0);
    output.write_vint(101);
    output.write_optional_string(Some("missing action"));
    output.write_bool(false);
    write_empty_stack_trace(&mut output);
    output.write_vint(0);
    output.write_vint(0);
    output.write_optional_string(Some("internal:transport/foobar"));

    let error = TransportError::read(output.freeze()).unwrap().unwrap();

    assert_eq!(
        error.class_name,
        "org.opensearch.transport.ActionNotFoundTransportException"
    );
    assert_eq!(error.message.as_deref(), Some("missing action"));
}

#[test]
fn maps_transport_serialization_exception_id_to_transport_exception_class() {
    let mut output = StreamOutput::new();
    output.write_bool(true);
    output.write_vint(0);
    output.write_vint(102);
    output.write_optional_string(Some("failed to serialize request"));
    output.write_bool(false);
    write_empty_stack_trace(&mut output);
    output.write_vint(0);
    output.write_vint(0);

    let error = TransportError::read(output.freeze()).unwrap().unwrap();

    assert_eq!(
        error.class_name,
        "org.opensearch.transport.TransportSerializationException"
    );
    assert_eq!(
        error.message.as_deref(),
        Some("failed to serialize request")
    );
}

#[test]
fn maps_source_derived_super_only_opensearch_exception_ids() {
    for (id, class_name) in [
        (
            3,
            "org.opensearch.discovery.ClusterManagerNotDiscoveredException",
        ),
        (
            2,
            "org.opensearch.common.util.CancellableThreads.ExecutionCancelledException",
        ),
        (4, "org.opensearch.OpenSearchSecurityException"),
        (
            13,
            "org.opensearch.transport.NotSerializableTransportException",
        ),
        (56, "org.opensearch.common.settings.SettingsException"),
        (84, "org.opensearch.transport.NodeDisconnectedException"),
        (
            107,
            "org.opensearch.repositories.RepositoryMissingException",
        ),
        (
            117,
            "org.opensearch.action.support.replication.ReplicationOperation.RetryOnPrimaryException",
        ),
        (
            125,
            "org.opensearch.transport.TcpTransport.HttpRequestOnTransportException",
        ),
        (134, "org.opensearch.transport.NodeNotConnectedException"),
        (
            136,
            "org.opensearch.action.support.replication.TransportReplicationAction.RetryOnReplicaException",
        ),
        (
            142,
            "org.opensearch.cluster.action.shard.ShardStateAction.NoLongerPrimaryShardException",
        ),
        (
            140,
            "org.opensearch.cluster.coordination.FailedToCommitClusterStateException",
        ),
        (146, "org.opensearch.core.tasks.TaskCancelledException"),
        (
            153,
            "org.opensearch.index.seqno.RetentionLeaseAlreadyExistsException",
        ),
        (
            154,
            "org.opensearch.index.seqno.RetentionLeaseNotFoundException",
        ),
        (157, "org.opensearch.ingest.IngestProcessorException"),
        (
            172,
            "org.opensearch.action.admin.indices.view.ViewNotFoundException",
        ),
        (
            173,
            "org.opensearch.action.admin.indices.view.ViewAlreadyExistsException",
        ),
        (
            170,
            "org.opensearch.search.pipeline.SearchPipelineProcessingException",
        ),
    ] {
        let mut output = StreamOutput::new();
        write_base_opensearch_exception(&mut output, id, Some("source-derived failure"));

        let error = TransportError::read(output.freeze()).unwrap().unwrap();

        assert_eq!(error.class_name, class_name, "id {id}");
        assert_eq!(error.message.as_deref(), Some("source-derived failure"));
        assert!(error.cause.is_none(), "id {id}");
        assert!(error.search_context_id.is_none(), "id {id}");
    }
}

#[test]
fn skips_source_derived_simple_extension_fields() {
    for case in [
        SimpleExtensionCase::new(40, "org.opensearch.core.common.ParsingException")
            .with_i32(12)
            .with_i32(34),
        SimpleExtensionCase::new(12, "org.opensearch.transport.ConnectTransportException")
            .with_optional_transport_address(false)
            .with_optional_string(Some("internal:transport/handshake"))
            .with_optional_discovery_node(false),
        SimpleExtensionCase::new(12, "org.opensearch.transport.ConnectTransportException")
            .with_optional_transport_address(false)
            .with_optional_string(Some("internal:transport/handshake"))
            .with_optional_discovery_node(true),
        SimpleExtensionCase::new(20, "org.opensearch.transport.ActionTransportException")
            .with_optional_transport_address(true)
            .with_optional_string(Some("indices:data/read/search")),
        SimpleExtensionCase::new(30, "org.opensearch.snapshots.SnapshotException")
            .with_optional_string(Some("repo-a"))
            .with_optional_string(Some("snapshot-1")),
        SimpleExtensionCase::new(36, "org.opensearch.search.SearchException")
            .with_optional_search_shard_target(true),
        SimpleExtensionCase::new(
            42,
            "org.opensearch.indices.recovery.RecoverFilesRecoveryException",
        )
        .with_i32(3)
        .with_byte_size_value(4096, 0),
        SimpleExtensionCase::new(49, "org.opensearch.cluster.block.ClusterBlockException")
            .with_cluster_block(),
        SimpleExtensionCase::new(57, "org.opensearch.indices.IndexTemplateMissingException")
            .with_optional_string(Some("missing-template")),
        SimpleExtensionCase::new(
            62,
            "org.opensearch.core.common.io.stream.NotSerializableExceptionWrapper",
        )
        .with_string("runtime_exception")
        .with_byte(0),
        SimpleExtensionCase::new(71, "org.opensearch.action.FailedNodeException")
            .with_optional_string(Some("node-a")),
        SimpleExtensionCase::new(72, "org.opensearch.search.SearchParseException")
            .with_i32(3)
            .with_i32(9),
        SimpleExtensionCase::new(76, "org.opensearch.index.engine.RecoveryEngineException")
            .with_i32(2),
        SimpleExtensionCase::new(78, "org.opensearch.action.TimestampParsingException")
            .with_optional_string(Some("2026-07-03T00:00:00Z")),
        SimpleExtensionCase::new(79, "org.opensearch.action.RoutingMissingException")
            .with_string("_doc")
            .with_string("doc-1"),
        SimpleExtensionCase::new(82, "org.opensearch.repositories.RepositoryException")
            .with_optional_string(Some("repo-a")),
        SimpleExtensionCase::new(
            83,
            "org.opensearch.transport.ReceiveTimeoutTransportException",
        )
        .with_optional_transport_address(false)
        .with_optional_string(Some("cluster:monitor/nodes/info")),
        SimpleExtensionCase::new(88, "org.opensearch.indices.InvalidIndexTemplateException")
            .with_optional_string(Some("template-a")),
        SimpleExtensionCase::new(
            97,
            "org.opensearch.index.shard.IllegalIndexShardStateException",
        )
        .with_byte(1),
        SimpleExtensionCase::new(
            17,
            "org.opensearch.cluster.routing.IllegalShardRoutingStateException",
        )
        .with_byte(2),
        SimpleExtensionCase::new(
            133,
            "org.opensearch.core.common.breaker.CircuitBreakingException",
        )
        .with_i64(1024)
        .with_i64(2048)
        .with_vint(1),
        SimpleExtensionCase::new(143, "org.opensearch.script.ScriptException")
            .with_string_array(&["ctx._source.count += params.inc"])
            .with_string("inline")
            .with_string("painless")
            .with_optional_script_position(true),
        SimpleExtensionCase::new(145, "org.opensearch.OpenSearchStatusException").with_byte(3),
        SimpleExtensionCase::new(
            149,
            "org.opensearch.search.aggregations.MultiBucketConsumerService.TooManyBucketsException",
        )
        .with_i32(10000),
        SimpleExtensionCase::new(
            155,
            "org.opensearch.index.shard.ShardNotInPrimaryModeException",
        )
        .with_byte(1),
        SimpleExtensionCase::new(
            163,
            "org.opensearch.cluster.decommission.DecommissioningFailedException",
        )
        .with_string("zone")
        .with_string("us-east-1a"),
        SimpleExtensionCase::new(171, "org.opensearch.crypto.CryptoRegistryException")
            .with_string("crypto-a")
            .with_string("kms")
            .with_i32(500),
        SimpleExtensionCase::new(
            175,
            "org.opensearch.common.breaker.ResponseLimitBreachedException",
        )
        .with_vint(1000)
        .with_vint(2),
        SimpleExtensionCase::new(177, "org.opensearch.transport.stream.StreamException")
            .with_byte(3),
    ] {
        let mut output = StreamOutput::new();
        write_base_opensearch_exception(&mut output, case.id, Some("extended failure"));
        for field in &case.fields {
            field.write_to(&mut output);
        }

        let error = TransportError::read(output.freeze()).unwrap().unwrap();

        assert_eq!(error.class_name, case.class_name, "id {}", case.id);
        assert_eq!(error.message.as_deref(), Some("extended failure"));
    }
}

fn write_empty_stack_trace(output: &mut StreamOutput) {
    output.write_vint(0);
    output.write_vint(0);
}

fn write_base_opensearch_exception(output: &mut StreamOutput, id: i32, message: Option<&str>) {
    output.write_bool(true);
    output.write_vint(0);
    output.write_vint(id);
    output.write_optional_string(message);
    output.write_bool(false);
    write_empty_stack_trace(output);
    output.write_vint(0);
    output.write_vint(0);
}

struct SimpleExtensionCase {
    id: i32,
    class_name: &'static str,
    fields: Vec<SimpleExtensionField>,
}

impl SimpleExtensionCase {
    fn new(id: i32, class_name: &'static str) -> Self {
        Self {
            id,
            class_name,
            fields: Vec::new(),
        }
    }

    fn with_i32(mut self, value: i32) -> Self {
        self.fields.push(SimpleExtensionField::I32(value));
        self
    }

    fn with_i64(mut self, value: i64) -> Self {
        self.fields.push(SimpleExtensionField::I64(value));
        self
    }

    fn with_vint(mut self, value: i32) -> Self {
        self.fields.push(SimpleExtensionField::VInt(value));
        self
    }

    fn with_byte(mut self, value: u8) -> Self {
        self.fields.push(SimpleExtensionField::Byte(value));
        self
    }

    fn with_string(mut self, value: &'static str) -> Self {
        self.fields.push(SimpleExtensionField::String(value));
        self
    }

    fn with_optional_string(mut self, value: Option<&'static str>) -> Self {
        self.fields
            .push(SimpleExtensionField::OptionalString(value));
        self
    }

    fn with_optional_transport_address(mut self, present: bool) -> Self {
        self.fields
            .push(SimpleExtensionField::OptionalTransportAddress(present));
        self
    }

    fn with_optional_discovery_node(mut self, present: bool) -> Self {
        self.fields
            .push(SimpleExtensionField::OptionalDiscoveryNode(present));
        self
    }

    fn with_optional_search_shard_target(mut self, present: bool) -> Self {
        self.fields
            .push(SimpleExtensionField::OptionalSearchShardTarget(present));
        self
    }

    fn with_optional_script_position(mut self, present: bool) -> Self {
        self.fields
            .push(SimpleExtensionField::OptionalScriptPosition(present));
        self
    }

    fn with_string_array(mut self, values: &[&'static str]) -> Self {
        self.fields
            .push(SimpleExtensionField::StringArray(values.to_vec()));
        self
    }

    fn with_byte_size_value(mut self, size: i64, unit: i32) -> Self {
        self.fields
            .push(SimpleExtensionField::ByteSizeValue { size, unit });
        self
    }

    fn with_cluster_block(mut self) -> Self {
        self.fields.push(SimpleExtensionField::ClusterBlock);
        self
    }
}

enum SimpleExtensionField {
    Byte(u8),
    ByteSizeValue { size: i64, unit: i32 },
    ClusterBlock,
    I32(i32),
    I64(i64),
    OptionalDiscoveryNode(bool),
    OptionalSearchShardTarget(bool),
    OptionalScriptPosition(bool),
    OptionalString(Option<&'static str>),
    OptionalTransportAddress(bool),
    String(&'static str),
    StringArray(Vec<&'static str>),
    VInt(i32),
}

impl SimpleExtensionField {
    fn write_to(&self, output: &mut StreamOutput) {
        match self {
            Self::Byte(value) => output.write_byte(*value),
            Self::ByteSizeValue { size, unit } => {
                output.write_zlong(*size);
                output.write_vint(*unit);
            }
            Self::ClusterBlock => {
                output.write_vint(1);
                output.write_vint(1);
                output.write_optional_string(Some("block-uuid"));
                output.write_string("metadata writes are blocked");
                output.write_vint(2);
                output.write_vint(0);
                output.write_vint(1);
                output.write_bool(false);
                output.write_bool(false);
                output.write_string("FORBIDDEN");
                output.write_bool(false);
            }
            Self::I32(value) => output.write_i32(*value),
            Self::I64(value) => output.write_i64(*value),
            Self::OptionalDiscoveryNode(present) => {
                output.write_bool(*present);
                if *present {
                    output.write_string("node-a");
                    output.write_string("node-a-id");
                    output.write_string("node-a-ephemeral");
                    output.write_string("node-a.example.test");
                    output.write_string("127.0.0.1");
                    output.write_byte(4);
                    output.write_raw_bytes(&[127, 0, 0, 1]);
                    output.write_string("127.0.0.1");
                    output.write_i32(9300);
                    output.write_bool(false);
                    output.write_vint(1);
                    output.write_string("rack");
                    output.write_string("r1");
                    output.write_vint(1);
                    output.write_string("cluster_manager");
                    output.write_string("m");
                    output.write_bool(false);
                    output.write_vint(2170099);
                }
            }
            Self::OptionalSearchShardTarget(present) => {
                output.write_bool(*present);
                if *present {
                    output.write_bool(true);
                    output.write_string("node-a");
                    output.write_string("logs");
                    output.write_string("uuid-logs");
                    output.write_vint(0);
                    output.write_optional_string(Some("remote-a"));
                }
            }
            Self::OptionalScriptPosition(present) => {
                output.write_bool(*present);
                if *present {
                    output.write_i32(7);
                    output.write_i32(3);
                    output.write_i32(11);
                }
            }
            Self::OptionalString(value) => output.write_optional_string(*value),
            Self::OptionalTransportAddress(present) => {
                output.write_bool(*present);
                if *present {
                    output.write_byte(4);
                    output.write_raw_bytes(&[127, 0, 0, 1]);
                    output.write_string("127.0.0.1");
                    output.write_i32(9300);
                }
            }
            Self::String(value) => output.write_string(value),
            Self::StringArray(values) => {
                let values: Vec<String> =
                    values.iter().map(|value| value.to_string()).collect();
                output.write_string_array(&values);
            }
            Self::VInt(value) => output.write_vint(*value),
        }
    }
}

#[test]
fn read_refuses_trailing_bytes_after_exception() {
    let mut output = StreamOutput::new();
    write_illegal_state_exception(&mut output, Some("x"));
    output.write_byte(7);
    output.write_byte(8);
    assert_eq!(
        TransportError::read(output.freeze()),
        Err(TransportErrorDecodeError::TrailingBytes(2))
    );
}

#[test]
fn reads_absent_exception() {
    let mut output = StreamOutput::new();
    output.write_bool(false);
    assert_eq!(TransportError::read(output.freeze()), Ok(None));
}

#[test]
fn unknown_negative_key_message_is_decimal() {
    let mut output = StreamOutput::new();
    output.write_bool(true);
    output.write_vint(-42);
    let error = TransportError::read(output.freeze()).unwrap().unwrap();
    assert_eq!(
        error.message.as_deref(),
        Some("unsupported transport exception key -42")
    );
}

#[test]
fn incompatible_cluster_state_version_exception_reads_back() {
    let mut output = StreamOutput::new();
    write_incompatible_cluster_state_version_exception(&mut output, None);
    let error = TransportError::read(output.freeze()).unwrap().unwrap();
    assert_eq!(
        error.class_name,
        "org.opensearch.cluster.IncompatibleClusterStateVersionException"
    );
    assert_eq!(error.message, None);
}

#[test]
fn summary_joins_class_message_and_cause() {
    let mut output = StreamOutput::new();
    output.write_bool(true);
    output.write_vint(6);
    output.write_optional_string(Some("outer"));
    output.write_bool(true);
    output.write_vint(4);
    output.write_optional_string(None);
    write_empty_stack_trace(&mut output);
    write_empty_stack_trace(&mut output);
    let error = TransportError::read(output.freeze()).unwrap().unwrap();
    assert_eq!(
        error.summary(),
        "java.lang.IllegalArgumentException: outer; caused_by=java.lang.NullPointerException"
    );
}

#[test]
fn negative_stack_trace_length_is_refused() {
    let mut output = StreamOutput::new();
    output.write_bool(true);
    output.write_vint(4);
    output.write_optional_string(None);
    output.write_vint(-1);
    assert_eq!(
        TransportError::read(output.freeze()),
        Err(TransportErrorDecodeError::NegativeLength(-1))
    );
}

#[test]
fn transport_address_with_bad_ip_length_is_refused() {
    let mut output = StreamOutput::new();
    output.write_bool(true);
    output.write_vint(0);
    output.write_vint(20);
    output.write_optional_string(None);
    output.write_bool(false);
    write_empty_stack_trace(&mut output);
    output.write_vint(0);
    output.write_vint(0);
    output.write_bool(true);
    output.write_byte(5);
    assert_eq!(
        TransportError::read(output.freeze()),
        Err(TransportErrorDecodeError::InvalidIpLength(5))
    );
}

#[test]
fn shard_not_found_exception_writes_negative_shard_id_in_decimal() {
    let mut output = StreamOutput::new();
    write_shard_not_found_exception(&mut output, "i", "u", -7);
    let bytes = output.freeze();
    let tail = b"-7";
    assert_eq!(&bytes[bytes.len() - 2..], tail);
    let error = TransportError::read(bytes).unwrap().unwrap();
    assert_eq!(error.class_name, "org.opensearch.index.shard.ShardNotFoundException");
}
