//! Serialized exceptions: reading the exception a remote node sent back, and
//! writing the exceptions this library answers with.
use vstd::prelude::*;
use crate::codec::{
    lemma_vint_bounds,
    enc_bool, enc_i64, enc_optional_string, enc_string, enc_vint, parse_bool, parse_byte, parse_i32, parse_i64,
    parse_len, parse_optional_string, parse_string, parse_string_array, parse_vint, parse_zlong,
};
use crate::error_format::{
    ErrorView,
    cluster_block_item,
    decimal,
    decimal_nat,
    digit_char,
    enc_empty_stack_trace,
    enc_empty_string_list_map,
    enc_index_exception,
    enc_jvm_exception,
    enc_metadata_entries,
    enc_opensearch_head,
    enc_plain_opensearch_exception,
    enc_rejected_execution_exception,
    enc_search_context_missing_exception,
    enc_search_phase_missing_context,
    enc_shard_not_found_exception,
    extension_fields,
    fits,
    flat_extension_fields,
    index_metadata,
    index_not_found_message,
    invalid_index_name_message,
    jvm_exception,
    lemma_span_exceptions_stays_none,
    lemma_span_repeat_stays_none,
    lemma_span_repeat_step,
    lemma_span_shard_failures_stays_none,
    nested_extension_fields,
    opensearch_exception_class_name_spec,
    parse_exception,
    parse_jvm_exception,
    parse_opensearch_exception,
    parse_opensearch_extension,
    parse_opensearch_fields,
    parse_opensearch_tail,
    parse_stack_trace,
    role_item,
    span_action_transport_fields,
    span_byte_size_value,
    span_circuit_breaking_fields,
    span_cluster_block,
    span_cluster_block_head,
    span_cluster_block_tail,
    span_cluster_blocks,
    span_cluster_blocks_n,
    span_connect_transport_fields,
    span_crypto_registry_fields,
    span_discovery_node,
    span_enum_set,
    span_exceptions,
    span_node_addresses_and_attributes,
    span_node_roles_and_version,
    span_optional,
    span_optional_discovery_node,
    span_optional_script_position,
    span_optional_search_shard_target,
    span_optional_transport_address,
    span_recover_files_fields,
    span_role,
    span_roles,
    span_script_fields,
    span_search_shard_target,
    span_shard_failure_head,
    span_shard_failures,
    span_shard_id,
    span_stack_frame,
    span_stack_frames,
    span_stack_trace_and_maps,
    span_string_list_entries,
    span_string_list_entry,
    span_string_list_map,
    span_strings,
    span_transport_address,
    span_vints,
    stack_frame_item,
    string_item,
    string_list_entry_item,
    then,
    unknown_key_message,
    unknown_transport_exception_class,
    used,
    vint_item,
};
use crate::stream::{StreamInput, StreamInputError, StreamOutput};
use crate::error_failures::{
    action_transport_fields_failure, byte_size_value_failure, circuit_breaking_failure, cluster_block_failure,
    cluster_block_failure_item, cluster_block_head_failure, cluster_block_tail_failure, cluster_blocks_failure,
    connect_transport_failure, crypto_registry_failure, discovery_node_failure, enum_set_failure, exception_failure,
    extension_fields_failure, flat_extension_failure, jvm_failure, length_failure, nested_extension_failure,
    node_addresses_and_attributes_failure, node_roles_and_version_failure, opensearch_extension_failure,
    opensearch_failure, opensearch_fields_failure, opensearch_tail_failure, optional_discovery_node_failure,
    optional_script_position_failure, optional_search_shard_target_failure, optional_text_failure,
    optional_transport_address_failure, recover_files_failure, repeat_failure, role_failure, role_failure_item,
    script_failure, search_shard_target_failure, shard_failure_head_failure, shard_failures_failure, shard_id_failure,
    stack_frame_failure, stack_frame_failure_item, stack_trace_and_maps_failure, stack_trace_failure,
    string_failure_item, string_list_entry_failure, string_list_entry_failure_item, string_list_map_failure,
    transport_address_failure, vint_failure_item, lemma_repeat_failure_at, lemma_exceptions_failure_at,
    lemma_shard_failures_failure_at,
};

verus! {

/// An exception read from the wire.
#[derive(Debug, PartialEq, Eq)]
pub struct TransportError {
    pub class_name: String,
    pub message: Option<String>,
    pub cause: Option<Box<TransportError>>,
    pub search_context_id: Option<TransportErrorSearchContextId>,
}

/// The search context that a search-context-missing exception names.
#[derive(Clone, Debug, PartialEq, Eq)]
pub struct TransportErrorSearchContextId {
    pub session_id: String,
    pub id: i64,
}

/// Why an error body could not be read.
#[derive(Clone, Copy, Debug, PartialEq, Eq)]
pub enum TransportErrorDecodeError {
    /// The byte stream itself was malformed.
    Stream(StreamInputError),
    /// An exception key that cannot be read.
    UnsupportedExceptionKey(i32),
    /// A negative collection length.
    NegativeLength(i32),
    /// A transport address whose IP is neither 4 nor 16 bytes long.
    InvalidIpLength(usize),
    /// Bytes were left after the exception.
    TrailingBytes(usize),
}

/// The plain values of an exception.
pub open spec fn error_view(e: TransportError) -> ErrorView
    decreases e,
{
    ErrorView {
        class_name: e.class_name@,
        message: match e.message {
            Some(m) => Some(m@),
            None => None,
        },
        cause: match e.cause {
            Some(c) => Some(Box::new(error_view(*c))),
            None => None,
        },
        search_context_id: match e.search_context_id {
            Some(c) => Some((c.session_id@, c.id)),
            None => None,
        },
    }
}

/// The plain values of a possibly absent exception.
pub open spec fn opt_error_view(e: Option<TransportError>) -> Option<ErrorView> {
    match e {
        Some(x) => Some(error_view(x)),
        None => None,
    }
}

fn lift<T>(r: Result<T, StreamInputError>) -> (o: Result<T, TransportErrorDecodeError>)
    ensures
        r is Ok <==> o is Ok,
        r matches Ok(v) ==> o == Ok::<T, TransportErrorDecodeError>(v),
        r matches Err(e) ==> o == Err::<T, TransportErrorDecodeError>(TransportErrorDecodeError::Stream(e)),
{
    match r {
        Ok(v) => Ok(v),
        Err(e) => Err(TransportErrorDecodeError::Stream(e)),
    }
}

/// The class of the OpenSearch exception with wire id `id`.
pub fn opensearch_exception_class_name(id: i32) -> (c: &'static str)
    ensures
        c@ == opensearch_exception_class_name_spec(id),
{
    proof {
        reveal(opensearch_exception_class_name_spec);
    }
    match id {
        0 => "org.opensearch.core.index.snapshots.IndexShardSnapshotFailedException",
        1 => "org.opensearch.search.dfs.DfsPhaseExecutionException",
        2 => "org.opensearch.common.util.CancellableThreads.ExecutionCancelledException",
        3 => "org.opensearch.discovery.ClusterManagerNotDiscoveredException",
        4 => "org.opensearch.OpenSearchSecurityException",
        5 => "org.opensearch.index.snapshots.IndexShardRestoreException",
        6 => "org.opensearch.indices.IndexClosedException",
        7 => "org.opensearch.http.BindHttpException",
        8 => "org.opensearch.action.search.ReduceSearchPhaseException",
        9 => "org.opensearch.node.NodeClosedException",
        10 => "org.opensearch.index.engine.SnapshotFailedEngineException",
        11 => "org.opensearch.index.shard.ShardNotFoundException",
        12 => "org.opensearch.transport.ConnectTransportException",
        13 => "org.opensearch.transport.NotSerializableTransportException",
        14 => "org.opensearch.transport.ResponseHandlerFailureTransportException",
        15 => "org.opensearch.indices.IndexCreationException",
        16 => "org.opensearch.index.IndexNotFoundException",
        17 => "org.opensearch.cluster.routing.IllegalShardRoutingStateException",
        18 => "org.opensearch.action.support.broadcast.BroadcastShardOperationFailedException",
        19 => "org.opensearch.ResourceNotFoundException",
        20 => "org.opensearch.transport.ActionTransportException",
        21 => "org.opensearch.OpenSearchGenerationException",
        23 => "org.opensearch.index.shard.IndexShardStartedException",
        24 => "org.opensearch.search.SearchContextMissingException",
        25 => "org.opensearch.script.GeneralScriptException",
        27 => "org.opensearch.snapshots.SnapshotCreationException",
        29 => "org.opensearch.index.engine.DocumentMissingException",
        30 => "org.opensearch.snapshots.SnapshotException",
        31 => "org.opensearch.indices.InvalidAliasNameException",
        32 => "org.opensearch.indices.InvalidIndexNameException",
        33 => "org.opensearch.indices.IndexPrimaryShardNotAllocatedException",
        34 => "org.opensearch.transport.TransportException",
        35 => "org.opensearch.OpenSearchParseException",
        36 => "org.opensearch.search.SearchException",
        37 => "org.opensearch.index.mapper.MapperException",
        38 => "org.opensearch.indices.InvalidTypeNameException",
        39 => "org.opensearch.snapshots.SnapshotRestoreException",
        40 => "org.opensearch.core.common.ParsingException",
        41 => "org.opensearch.index.shard.IndexShardClosedException",
        42 => "org.opensearch.indices.recovery.RecoverFilesRecoveryException",
        43 => "org.opensearch.index.translog.TruncatedTranslogException",
        44 => "org.opensearch.indices.recovery.RecoveryFailedException",
        45 => "org.opensearch.index.shard.IndexShardRelocatedException",
        46 => "org.opensearch.transport.NodeShouldNotConnectException",
        48 => "org.opensearch.index.translog.TranslogCorruptedException",
        49 => "org.opensearch.cluster.block.ClusterBlockException",
        50 => "org.opensearch.search.fetch.FetchPhaseExecutionException",
        52 => "org.opensearch.index.engine.VersionConflictEngineException",
        53 => "org.opensearch.index.engine.EngineException",
        55 => "org.opensearch.action.NoSuchNodeException",
        56 => "org.opensearch.common.settings.SettingsException",
        57 => "org.opensearch.indices.IndexTemplateMissingException",
        58 => "org.opensearch.transport.SendRequestTransportException",
        62 => "org.opensearch.core.common.io.stream.NotSerializableExceptionWrapper",
        63 => "org.opensearch.indices.AliasFilterParsingException",
        65 => "org.opensearch.gateway.GatewayException",
        66 => "org.opensearch.index.shard.IndexShardNotRecoveringException",
        67 => "org.opensearch.http.HttpException",
        68 => "org.opensearch.OpenSearchException",
        69 => "org.opensearch.snapshots.SnapshotMissingException",
        70 => "org.opensearch.action.PrimaryMissingActionException",
        71 => "org.opensearch.action.FailedNodeException",
        72 => "org.opensearch.search.SearchParseException",
        73 => "org.opensearch.snapshots.ConcurrentSnapshotExecutionException",
        74 => "org.opensearch.common.blobstore.BlobStoreException",
        75 => "org.opensearch.cluster.IncompatibleClusterStateVersionException",
        76 => "org.opensearch.index.engine.RecoveryEngineException",
        77 => "org.opensearch.common.util.concurrent.UncategorizedExecutionException",
        78 => "org.opensearch.action.TimestampParsingException",
        79 => "org.opensearch.action.RoutingMissingException",
        81 => "org.opensearch.index.snapshots.IndexShardRestoreFailedException",
        82 => "org.opensearch.repositories.RepositoryException",
        83 => "org.opensearch.transport.ReceiveTimeoutTransportException",
        84 => "org.opensearch.transport.NodeDisconnectedException",
        86 => "org.opensearch.search.aggregations.AggregationExecutionException",
        88 => "org.opensearch.indices.InvalidIndexTemplateException",
        90 => "org.opensearch.index.engine.RefreshFailedEngineException",
        91 => "org.opensearch.search.aggregations.AggregationInitializationException",
        92 => "org.opensearch.indices.recovery.DelayRecoveryException",
        94 => "org.opensearch.transport.client.transport.NoNodeAvailableException",
        96 => "org.opensearch.snapshots.InvalidSnapshotNameException",
        97 => "org.opensearch.index.shard.IllegalIndexShardStateException",
        98 => "org.opensearch.core.index.snapshots.IndexShardSnapshotException",
        99 => "org.opensearch.index.shard.IndexShardNotStartedException",
        100 => "org.opensearch.action.search.SearchPhaseExecutionException",
        101 => "org.opensearch.transport.ActionNotFoundTransportException",
        102 => "org.opensearch.transport.TransportSerializationException",
        103 => "org.opensearch.transport.RemoteTransportException",
        104 => "org.opensearch.index.engine.EngineCreationFailureException",
        105 => "org.opensearch.cluster.routing.RoutingException",
        106 => "org.opensearch.index.shard.IndexShardRecoveryException",
        107 => "org.opensearch.repositories.RepositoryMissingException",
        109 => "org.opensearch.index.engine.DocumentSourceMissingException",
        111 => "org.opensearch.common.settings.NoClassSettingsException",
        112 => "org.opensearch.transport.BindTransportException",
        113 => "org.opensearch.rest.action.admin.indices.AliasesNotFoundException",
        114 => "org.opensearch.index.shard.IndexShardRecoveringException",
        115 => "org.opensearch.index.translog.TranslogException",
        116 => "org.opensearch.cluster.metadata.ProcessClusterEventTimeoutException",
        117 => "org.opensearch.action.support.replication.ReplicationOperation.RetryOnPrimaryException",
        118 => "org.opensearch.OpenSearchTimeoutException",
        119 => "org.opensearch.search.query.QueryPhaseExecutionException",
        120 => "org.opensearch.repositories.RepositoryVerificationException",
        121 => "org.opensearch.search.aggregations.InvalidAggregationPathException",
        123 => "org.opensearch.ResourceAlreadyExistsException",
        125 => "org.opensearch.transport.TcpTransport.HttpRequestOnTransportException",
        126 => "org.opensearch.index.mapper.MapperParsingException",
        128 => "org.opensearch.search.builder.SearchSourceBuilderException",
        130 => "org.opensearch.action.NoShardAvailableActionException",
        131 => "org.opensearch.action.UnavailableShardsException",
        132 => "org.opensearch.index.engine.FlushFailedEngineException",
        133 => "org.opensearch.core.common.breaker.CircuitBreakingException",
        134 => "org.opensearch.transport.NodeNotConnectedException",
        135 => "org.opensearch.index.mapper.StrictDynamicMappingException",
        136 => "org.opensearch.action.support.replication.TransportReplicationAction.RetryOnReplicaException",
        137 => "org.opensearch.indices.TypeMissingException",
        140 => "org.opensearch.cluster.coordination.FailedToCommitClusterStateException",
        141 => "org.opensearch.index.query.QueryShardException",
        142 => "org.opensearch.cluster.action.shard.ShardStateAction.NoLongerPrimaryShardException",
        143 => "org.opensearch.script.ScriptException",
        144 => "org.opensearch.cluster.NotClusterManagerException",
        145 => "org.opensearch.OpenSearchStatusException",
        146 => "org.opensearch.core.tasks.TaskCancelledException",
        147 => "org.opensearch.env.ShardLockObtainFailedException",
        149 => "org.opensearch.search.aggregations.MultiBucketConsumerService.TooManyBucketsException",
        150 => "org.opensearch.cluster.coordination.CoordinationStateRejectedException",
        151 => "org.opensearch.snapshots.SnapshotInProgressException",
        152 => "org.opensearch.transport.NoSuchRemoteClusterException",
        153 => "org.opensearch.index.seqno.RetentionLeaseAlreadyExistsException",
        154 => "org.opensearch.index.seqno.RetentionLeaseNotFoundException",
        155 => "org.opensearch.index.shard.ShardNotInPrimaryModeException",
        156 => "org.opensearch.index.seqno.RetentionLeaseInvalidRetainingSeqNoException",
        157 => "org.opensearch.ingest.IngestProcessorException",
        158 => "org.opensearch.indices.recovery.PeerRecoveryNotFound",
        159 => "org.opensearch.cluster.coordination.NodeHealthCheckFailureException",
        160 => "org.opensearch.transport.NoSeedNodeLeftException",
        161 => "org.opensearch.indices.replication.common.ReplicationFailedException",
        162 => "org.opensearch.index.shard.PrimaryShardClosedException",
        163 => "org.opensearch.cluster.decommission.DecommissioningFailedException",
        164 => "org.opensearch.cluster.decommission.NodeDecommissionedException",
        165 => "org.opensearch.cluster.service.ClusterManagerThrottlingException",
        166 => "org.opensearch.snapshots.SnapshotInUseDeletionException",
        167 => "org.opensearch.cluster.routing.UnsupportedWeightedRoutingStateException",
        168 => "org.opensearch.cluster.routing.PreferenceBasedSearchNotAllowedException",
        169 => "org.opensearch.cluster.routing.NodeWeighedAwayException",
        170 => "org.opensearch.search.pipeline.SearchPipelineProcessingException",
        171 => "org.opensearch.crypto.CryptoRegistryException",
        172 => "org.opensearch.action.admin.indices.view.ViewNotFoundException",
        173 => "org.opensearch.action.admin.indices.view.ViewAlreadyExistsException",
        174 => "org.opensearch.indices.InvalidIndexContextException",
        175 => "org.opensearch.common.breaker.ResponseLimitBreachedException",
        176 => "org.opensearch.index.engine.IngestionEngineException",
        177 => "org.opensearch.transport.stream.StreamException",
        _ => "org.opensearch.OpenSearchException",
    }
}

/// Ids with no exception class of their own: they name the base OpenSearch exception.
pub open spec fn is_generic_exception_id(id: i32) -> bool {
    id == 68 || id < 0 || id > 177 || id == 22 || id == 26 || id == 28 || id == 47 || id == 51 || id == 54 || id == 59 || id == 60 || id == 61 || id == 64 || id == 80 || id == 85 || id == 87 || id == 89 || id == 93 || id == 95 || id == 108 || id == 110 || id == 122 || id == 124 || id == 127 || id == 129 || id == 138 || id == 139 || id == 148
}

/// Every exception class named for a wire id lies in the OpenSearch package,
/// and the base OpenSearch exception comes back exactly for its own id and for
/// the ids that have no class of their own.
#[verifier::spinoff_prover]
#[verifier::rlimit(100)]
pub proof fn lemma_exception_class_name_law(id: i32)
    ensures
        "org.opensearch."@.is_prefix_of(opensearch_exception_class_name_spec(id)),
        (opensearch_exception_class_name_spec(id) == "org.opensearch.OpenSearchException"@) <==> is_generic_exception_id(id),
{
    reveal(opensearch_exception_class_name_spec);
    reveal_strlit("org.opensearch.");
    reveal_strlit("org.opensearch.OpenSearchException");
    match id {
        0 => {
            reveal_strlit("org.opensearch.core.index.snapshots.IndexShardSnapshotFailedException");
            assert("org.opensearch.core.index.snapshots.IndexShardSnapshotFailedException"@.len() != "org.opensearch.OpenSearchException"@.len());
        }
        1 => {
            reveal_strlit("org.opensearch.search.dfs.DfsPhaseExecutionException");
            assert("org.opensearch.search.dfs.DfsPhaseExecutionException"@.len() != "org.opensearch.OpenSearchException"@.len());
        }
        2 => {
            reveal_strlit("org.opensearch.common.util.CancellableThreads.ExecutionCancelledException");
            assert("org.opensearch.common.util.CancellableThreads.ExecutionCancelledException"@.len() != "org.opensearch.OpenSearchException"@.len());
        }
        3 => {
            reveal_strlit("org.opensearch.discovery.ClusterManagerNotDiscoveredException");
            assert("org.opensearch.discovery.ClusterManagerNotDiscoveredException"@.len() != "org.opensearch.OpenSearchException"@.len());
        }
        4 => {
            reveal_strlit("org.opensearch.OpenSearchSecurityException");
            assert("org.opensearch.OpenSearchSecurityException"@.len() != "org.opensearch.OpenSearchException"@.len());
        }
        5 => {
            reveal_strlit("org.opensearch.index.snapshots.IndexShardRestoreException");
            assert("org.opensearch.index.snapshots.IndexShardRestoreException"@.len() != "org.opensearch.OpenSearchException"@.len());
        }
        6 => {
            reveal_strlit("org.opensearch.indices.IndexClosedException");
            assert("org.opensearch.indices.IndexClosedException"@.len() != "org.opensearch.OpenSearchException"@.len());
        }
        7 => {
            reveal_strlit("org.opensearch.http.BindHttpException");
            assert("org.opensearch.http.BindHttpException"@.len() != "org.opensearch.OpenSearchException"@.len());
        }
        8 => {
            reveal_strlit("org.opensearch.action.search.ReduceSearchPhaseException");
            assert("org.opensearch.action.search.ReduceSearchPhaseException"@.len() != "org.opensearch.OpenSearchException"@.len());
        }
        9 => {
            reveal_strlit("org.opensearch.node.NodeClosedException");
            assert("org.opensearch.node.NodeClosedException"@.len() != "org.opensearch.OpenSearchException"@.len());
        }
        10 => {
            reveal_strlit("org.opensearch.index.engine.SnapshotFailedEngineException");
            assert("org.opensearch.index.engine.SnapshotFailedEngineException"@.len() != "org.opensearch.OpenSearchException"@.len());
        }
        11 => {
            reveal_strlit("org.opensearch.index.shard.ShardNotFoundException");
            assert("org.opensearch.index.shard.ShardNotFoundException"@.len() != "org.opensearch.OpenSearchException"@.len());
        }
        12 => {
            reveal_strlit("org.opensearch.transport.ConnectTransportException");
            assert("org.opensearch.transport.ConnectTransportException"@.len() != "org.opensearch.OpenSearchException"@.len());
        }
        13 => {
            reveal_strlit("org.opensearch.transport.NotSerializableTransportException");
            assert("org.opensearch.transport.NotSerializableTransportException"@.len() != "org.opensearch.OpenSearchException"@.len());
        }
        14 => {
            reveal_strlit("org.opensearch.transport.ResponseHandlerFailureTransportException");
            assert("org.opensearch.transport.ResponseHandlerFailureTransportException"@.len() != "org.opensearch.OpenSearchException"@.len());
        }
        15 => {
            reveal_strlit("org.opensearch.indices.IndexCreationException");
            assert("org.opensearch.indices.IndexCreationException"@.len() != "org.opensearch.OpenSearchException"@.len());
        }
        16 => {
            reveal_strlit("org.opensearch.index.IndexNotFoundException");
            assert("org.opensearch.index.IndexNotFoundException"@.len() != "org.opensearch.OpenSearchException"@.len());
        }
        17 => {
            reveal_strlit("org.opensearch.cluster.routing.IllegalShardRoutingStateException");
            assert("org.opensearch.cluster.routing.IllegalShardRoutingStateException"@.len() != "org.opensearch.OpenSearchException"@.len());
        }
        18 => {
            reveal_strlit("org.opensearch.action.support.broadcast.BroadcastShardOperationFailedException");
            assert("org.opensearch.action.support.broadcast.BroadcastShardOperationFailedException"@.len() != "org.opensearch.OpenSearchException"@.len());
        }
        19 => {
            reveal_strlit("org.opensearch.ResourceNotFoundException");
            assert("org.opensearch.ResourceNotFoundException"@.len() != "org.opensearch.OpenSearchException"@.len());
        }
        20 => {
            reveal_strlit("org.opensearch.transport.ActionTransportException");
            assert("org.opensearch.transport.ActionTransportException"@.len() != "org.opensearch.OpenSearchException"@.len());
        }
        21 => {
            reveal_strlit("org.opensearch.OpenSearchGenerationException");
            assert("org.opensearch.OpenSearchGenerationException"@.len() != "org.opensearch.OpenSearchException"@.len());
        }
        23 => {
            reveal_strlit("org.opensearch.index.shard.IndexShardStartedException");
            assert("org.opensearch.index.shard.IndexShardStartedException"@.len() != "org.opensearch.OpenSearchException"@.len());
        }
        24 => {
            reveal_strlit("org.opensearch.search.SearchContextMissingException");
            assert("org.opensearch.search.SearchContextMissingException"@.len() != "org.opensearch.OpenSearchException"@.len());
        }
        25 => {
            reveal_strlit("org.opensearch.script.GeneralScriptException");
            assert("org.opensearch.script.GeneralScriptException"@.len() != "org.opensearch.OpenSearchException"@.len());
        }
        27 => {
            reveal_strlit("org.opensearch.snapshots.SnapshotCreationException");
            assert("org.opensearch.snapshots.SnapshotCreationException"@.len() != "org.opensearch.OpenSearchException"@.len());
        }
        29 => {
            reveal_strlit("org.opensearch.index.engine.DocumentMissingException");
            assert("org.opensearch.index.engine.DocumentMissingException"@.len() != "org.opensearch.OpenSearchException"@.len());
        }
        30 => {
            reveal_strlit("org.opensearch.snapshots.SnapshotException");
            assert("org.opensearch.snapshots.SnapshotException"@.len() != "org.opensearch.OpenSearchException"@.len());
        }
        31 => {
            reveal_strlit("org.opensearch.indices.InvalidAliasNameException");
            assert("org.opensearch.indices.InvalidAliasNameException"@.len() != "org.opensearch.OpenSearchException"@.len());
        }
        32 => {
            reveal_strlit("org.opensearch.indices.InvalidIndexNameException");
            assert("org.opensearch.indices.InvalidIndexNameException"@.len() != "org.opensearch.OpenSearchException"@.len());
        }
        33 => {
            reveal_strlit("org.opensearch.indices.IndexPrimaryShardNotAllocatedException");
            assert("org.opensearch.indices.IndexPrimaryShardNotAllocatedException"@.len() != "org.opensearch.OpenSearchException"@.len());
        }
        34 => {
            reveal_strlit("org.opensearch.transport.TransportException");
            assert("org.opensearch.transport.TransportException"@.len() != "org.opensearch.OpenSearchException"@.len());
        }
        35 => {
            reveal_strlit("org.opensearch.OpenSearchParseException");
            assert("org.opensearch.OpenSearchParseException"@.len() != "org.opensearch.OpenSearchException"@.len());
        }
        36 => {
            reveal_strlit("org.opensearch.search.SearchException");
            assert("org.opensearch.search.SearchException"@.len() != "org.opensearch.OpenSearchException"@.len());
        }
        37 => {
            reveal_strlit("org.opensearch.index.mapper.MapperException");
            assert("org.opensearch.index.mapper.MapperException"@.len() != "org.opensearch.OpenSearchException"@.len());
        }
        38 => {
            reveal_strlit("org.opensearch.indices.InvalidTypeNameException");
            assert("org.opensearch.indices.InvalidTypeNameException"@.len() != "org.opensearch.OpenSearchException"@.len());
        }
        39 => {
            reveal_strlit("org.opensearch.snapshots.SnapshotRestoreException");
            assert("org.opensearch.snapshots.SnapshotRestoreException"@.len() != "org.opensearch.OpenSearchException"@.len());
        }
        40 => {
            reveal_strlit("org.opensearch.core.common.ParsingException");
            assert("org.opensearch.core.common.ParsingException"@.len() != "org.opensearch.OpenSearchException"@.len());
        }
        41 => {
            reveal_strlit("org.opensearch.index.shard.IndexShardClosedException");
            assert("org.opensearch.index.shard.IndexShardClosedException"@.len() != "org.opensearch.OpenSearchException"@.len());
        }
        42 => {
            reveal_strlit("org.opensearch.indices.recovery.RecoverFilesRecoveryException");
            assert("org.opensearch.indices.recovery.RecoverFilesRecoveryException"@.len() != "org.opensearch.OpenSearchException"@.len());
        }
        43 => {
            reveal_strlit("org.opensearch.index.translog.TruncatedTranslogException");
            assert("org.opensearch.index.translog.TruncatedTranslogException"@.len() != "org.opensearch.OpenSearchException"@.len());
        }
        44 => {
            reveal_strlit("org.opensearch.indices.recovery.RecoveryFailedException");
            assert("org.opensearch.indices.recovery.RecoveryFailedException"@.len() != "org.opensearch.OpenSearchException"@.len());
        }
        45 => {
            reveal_strlit("org.opensearch.index.shard.IndexShardRelocatedException");
            assert("org.opensearch.index.shard.IndexShardRelocatedException"@.len() != "org.opensearch.OpenSearchException"@.len());
        }
        46 => {
            reveal_strlit("org.opensearch.transport.NodeShouldNotConnectException");
            assert("org.opensearch.transport.NodeShouldNotConnectException"@.len() != "org.opensearch.OpenSearchException"@.len());
        }
        48 => {
            reveal_strlit("org.opensearch.index.translog.TranslogCorruptedException");
            assert("org.opensearch.index.translog.TranslogCorruptedException"@.len() != "org.opensearch.OpenSearchException"@.len());
        }
        49 => {
            reveal_strlit("org.opensearch.cluster.block.ClusterBlockException");
            assert("org.opensearch.cluster.block.ClusterBlockException"@.len() != "org.opensearch.OpenSearchException"@.len());
        }
        50 => {
            reveal_strlit("org.opensearch.search.fetch.FetchPhaseExecutionException");
            assert("org.opensearch.search.fetch.FetchPhaseExecutionException"@.len() != "org.opensearch.OpenSearchException"@.len());
        }
        52 => {
            reveal_strlit("org.opensearch.index.engine.VersionConflictEngineException");
            assert("org.opensearch.index.engine.VersionConflictEngineException"@.len() != "org.opensearch.OpenSearchException"@.len());
        }
        53 => {
            reveal_strlit("org.opensearch.index.engine.EngineException");
            assert("org.opensearch.index.engine.EngineException"@.len() != "org.opensearch.OpenSearchException"@.len());
        }
        55 => {
            reveal_strlit("org.opensearch.action.NoSuchNodeException");
            assert("org.opensearch.action.NoSuchNodeException"@.len() != "org.opensearch.OpenSearchException"@.len());
        }
        56 => {
            reveal_strlit("org.opensearch.common.settings.SettingsException");
            assert("org.opensearch.common.settings.SettingsException"@.len() != "org.opensearch.OpenSearchException"@.len());
        }
        57 => {
            reveal_strlit("org.opensearch.indices.IndexTemplateMissingException");
            assert("org.opensearch.indices.IndexTemplateMissingException"@.len() != "org.opensearch.OpenSearchException"@.len());
        }
        58 => {
            reveal_strlit("org.opensearch.transport.SendRequestTransportException");
            assert("org.opensearch.transport.SendRequestTransportException"@.len() != "org.opensearch.OpenSearchException"@.len());
        }
        62 => {
            reveal_strlit("org.opensearch.core.common.io.stream.NotSerializableExceptionWrapper");
            assert("org.opensearch.core.common.io.stream.NotSerializableExceptionWrapper"@.len() != "org.opensearch.OpenSearchException"@.len());
        }
        63 => {
            reveal_strlit("org.opensearch.indices.AliasFilterParsingException");
            assert("org.opensearch.indices.AliasFilterParsingException"@.len() != "org.opensearch.OpenSearchException"@.len());
        }
        65 => {
            reveal_strlit("org.opensearch.gateway.GatewayException");
            assert("org.opensearch.gateway.GatewayException"@.len() != "org.opensearch.OpenSearchException"@.len());
        }
        66 => {
            reveal_strlit("org.opensearch.index.shard.IndexShardNotRecoveringException");
            assert("org.opensearch.index.shard.IndexShardNotRecoveringException"@.len() != "org.opensearch.OpenSearchException"@.len());
        }
        67 => {
            reveal_strlit("org.opensearch.http.HttpException");
            assert("org.opensearch.http.HttpException"@.len() != "org.opensearch.OpenSearchException"@.len());
        }
        68 => {}
        69 => {
            reveal_strlit("org.opensearch.snapshots.SnapshotMissingException");
            assert("org.opensearch.snapshots.SnapshotMissingException"@.len() != "org.opensearch.OpenSearchException"@.len());
        }
        70 => {
            reveal_strlit("org.opensearch.action.PrimaryMissingActionException");
            assert("org.opensearch.action.PrimaryMissingActionException"@.len() != "org.opensearch.OpenSearchException"@.len());
        }
        71 => {
            reveal_strlit("org.opensearch.action.FailedNodeException");
            assert("org.opensearch.action.FailedNodeException"@.len() != "org.opensearch.OpenSearchException"@.len());
        }
        72 => {
            reveal_strlit("org.opensearch.search.SearchParseException");
            assert("org.opensearch.search.SearchParseException"@.len() != "org.opensearch.OpenSearchException"@.len());
        }
        73 => {
            reveal_strlit("org.opensearch.snapshots.ConcurrentSnapshotExecutionException");
            assert("org.opensearch.snapshots.ConcurrentSnapshotExecutionException"@.len() != "org.opensearch.OpenSearchException"@.len());
        }
        74 => {
            reveal_strlit("org.opensearch.common.blobstore.BlobStoreException");
            assert("org.opensearch.common.blobstore.BlobStoreException"@.len() != "org.opensearch.OpenSearchException"@.len());
        }
        75 => {
            reveal_strlit("org.opensearch.cluster.IncompatibleClusterStateVersionException");
            assert("org.opensearch.cluster.IncompatibleClusterStateVersionException"@.len() != "org.opensearch.OpenSearchException"@.len());
        }
        76 => {
            reveal_strlit("org.opensearch.index.engine.RecoveryEngineException");
            assert("org.opensearch.index.engine.RecoveryEngineException"@.len() != "org.opensearch.OpenSearchException"@.len());
        }
        77 => {
            reveal_strlit("org.opensearch.common.util.concurrent.UncategorizedExecutionException");
            assert("org.opensearch.common.util.concurrent.UncategorizedExecutionException"@.len() != "org.opensearch.OpenSearchException"@.len());
        }
        78 => {
            reveal_strlit("org.opensearch.action.TimestampParsingException");
            assert("org.opensearch.action.TimestampParsingException"@.len() != "org.opensearch.OpenSearchException"@.len());
        }
        79 => {
            reveal_strlit("org.opensearch.action.RoutingMissingException");
            assert("org.opensearch.action.RoutingMissingException"@.len() != "org.opensearch.OpenSearchException"@.len());
        }
        81 => {
            reveal_strlit("org.opensearch.index.snapshots.IndexShardRestoreFailedException");
            assert("org.opensearch.index.snapshots.IndexShardRestoreFailedException"@.len() != "org.opensearch.OpenSearchException"@.len());
        }
        82 => {
            reveal_strlit("org.opensearch.repositories.RepositoryException");
            assert("org.opensearch.repositories.RepositoryException"@.len() != "org.opensearch.OpenSearchException"@.len());
        }
        83 => {
            reveal_strlit("org.opensearch.transport.ReceiveTimeoutTransportException");
            assert("org.opensearch.transport.ReceiveTimeoutTransportException"@.len() != "org.opensearch.OpenSearchException"@.len());
        }
        84 => {
            reveal_strlit("org.opensearch.transport.NodeDisconnectedException");
            assert("org.opensearch.transport.NodeDisconnectedException"@.len() != "org.opensearch.OpenSearchException"@.len());
        }
        86 => {
            reveal_strlit("org.opensearch.search.aggregations.AggregationExecutionException");
            assert("org.opensearch.search.aggregations.AggregationExecutionException"@.len() != "org.opensearch.OpenSearchException"@.len());
        }
        88 => {
            reveal_strlit("org.opensearch.indices.InvalidIndexTemplateException");
            assert("org.opensearch.indices.InvalidIndexTemplateException"@.len() != "org.opensearch.OpenSearchException"@.len());
        }
        90 => {
            reveal_strlit("org.opensearch.index.engine.RefreshFailedEngineException");
            assert("org.opensearch.index.engine.RefreshFailedEngineException"@.len() != "org.opensearch.OpenSearchException"@.len());
        }
        91 => {
            reveal_strlit("org.opensearch.search.aggregations.AggregationInitializationException");
            assert("org.opensearch.search.aggregations.AggregationInitializationException"@.len() != "org.opensearch.OpenSearchException"@.len());
        }
        92 => {
            reveal_strlit("org.opensearch.indices.recovery.DelayRecoveryException");
            assert("org.opensearch.indices.recovery.DelayRecoveryException"@.len() != "org.opensearch.OpenSearchException"@.len());
        }
        94 => {
            reveal_strlit("org.opensearch.transport.client.transport.NoNodeAvailableException");
            assert("org.opensearch.transport.client.transport.NoNodeAvailableException"@.len() != "org.opensearch.OpenSearchException"@.len());
        }
        96 => {
            reveal_strlit("org.opensearch.snapshots.InvalidSnapshotNameException");
            assert("org.opensearch.snapshots.InvalidSnapshotNameException"@.len() != "org.opensearch.OpenSearchException"@.len());
        }
        97 => {
            reveal_strlit("org.opensearch.index.shard.IllegalIndexShardStateException");
            assert("org.opensearch.index.shard.IllegalIndexShardStateException"@.len() != "org.opensearch.OpenSearchException"@.len());
        }
        98 => {
            reveal_strlit("org.opensearch.core.index.snapshots.IndexShardSnapshotException");
            assert("org.opensearch.core.index.snapshots.IndexShardSnapshotException"@.len() != "org.opensearch.OpenSearchException"@.len());
        }
        99 => {
            reveal_strlit("org.opensearch.index.shard.IndexShardNotStartedException");
            assert("org.opensearch.index.shard.IndexShardNotStartedException"@.len() != "org.opensearch.OpenSearchException"@.len());
        }
        100 => {
            reveal_strlit("org.opensearch.action.search.SearchPhaseExecutionException");
            assert("org.opensearch.action.search.SearchPhaseExecutionException"@.len() != "org.opensearch.OpenSearchException"@.len());
        }
        101 => {
            reveal_strlit("org.opensearch.transport.ActionNotFoundTransportException");
            assert("org.opensearch.transport.ActionNotFoundTransportException"@.len() != "org.opensearch.OpenSearchException"@.len());
        }
        102 => {
            reveal_strlit("org.opensearch.transport.TransportSerializationException");
            assert("org.opensearch.transport.TransportSerializationException"@.len() != "org.opensearch.OpenSearchException"@.len());
        }
        103 => {
            reveal_strlit("org.opensearch.transport.RemoteTransportException");
            assert("org.opensearch.transport.RemoteTransportException"@.len() != "org.opensearch.OpenSearchException"@.len());
        }
        104 => {
            reveal_strlit("org.opensearch.index.engine.EngineCreationFailureException");
            assert("org.opensearch.index.engine.EngineCreationFailureException"@.len() != "org.opensearch.OpenSearchException"@.len());
        }
        105 => {
            reveal_strlit("org.opensearch.cluster.routing.RoutingException");
            assert("org.opensearch.cluster.routing.RoutingException"@.len() != "org.opensearch.OpenSearchException"@.len());
        }
        106 => {
            reveal_strlit("org.opensearch.index.shard.IndexShardRecoveryException");
            assert("org.opensearch.index.shard.IndexShardRecoveryException"@.len() != "org.opensearch.OpenSearchException"@.len());
        }
        107 => {
            reveal_strlit("org.opensearch.repositories.RepositoryMissingException");
            assert("org.opensearch.repositories.RepositoryMissingException"@.len() != "org.opensearch.OpenSearchException"@.len());
        }
        109 => {
            reveal_strlit("org.opensearch.index.engine.DocumentSourceMissingException");
            assert("org.opensearch.index.engine.DocumentSourceMissingException"@.len() != "org.opensearch.OpenSearchException"@.len());
        }
        111 => {
            reveal_strlit("org.opensearch.common.settings.NoClassSettingsException");
            assert("org.opensearch.common.settings.NoClassSettingsException"@.len() != "org.opensearch.OpenSearchException"@.len());
        }
        112 => {
            reveal_strlit("org.opensearch.transport.BindTransportException");
            assert("org.opensearch.transport.BindTransportException"@.len() != "org.opensearch.OpenSearchException"@.len());
        }
        113 => {
            reveal_strlit("org.opensearch.rest.action.admin.indices.AliasesNotFoundException");
            assert("org.opensearch.rest.action.admin.indices.AliasesNotFoundException"@.len() != "org.opensearch.OpenSearchException"@.len());
        }
        114 => {
            reveal_strlit("org.opensearch.index.shard.IndexShardRecoveringException");
            assert("org.opensearch.index.shard.IndexShardRecoveringException"@.len() != "org.opensearch.OpenSearchException"@.len());
        }
        115 => {
            reveal_strlit("org.opensearch.index.translog.TranslogException");
            assert("org.opensearch.index.translog.TranslogException"@.len() != "org.opensearch.OpenSearchException"@.len());
        }
        116 => {
            reveal_strlit("org.opensearch.cluster.metadata.ProcessClusterEventTimeoutException");
            assert("org.opensearch.cluster.metadata.ProcessClusterEventTimeoutException"@.len() != "org.opensearch.OpenSearchException"@.len());
        }
        117 => {
            reveal_strlit("org.opensearch.action.support.replication.ReplicationOperation.RetryOnPrimaryException");
            assert("org.opensearch.action.support.replication.ReplicationOperation.RetryOnPrimaryException"@.len() != "org.opensearch.OpenSearchException"@.len());
        }
        118 => {
            reveal_strlit("org.opensearch.OpenSearchTimeoutException");
            assert("org.opensearch.OpenSearchTimeoutException"@.len() != "org.opensearch.OpenSearchException"@.len());
        }
        119 => {
            reveal_strlit("org.opensearch.search.query.QueryPhaseExecutionException");
            assert("org.opensearch.search.query.QueryPhaseExecutionException"@.len() != "org.opensearch.OpenSearchException"@.len());
        }
        120 => {
            reveal_strlit("org.opensearch.repositories.RepositoryVerificationException");
            assert("org.opensearch.repositories.RepositoryVerificationException"@.len() != "org.opensearch.OpenSearchException"@.len());
        }
        121 => {
            reveal_strlit("org.opensearch.search.aggregations.InvalidAggregationPathException");
            assert("org.opensearch.search.aggregations.InvalidAggregationPathException"@.len() != "org.opensearch.OpenSearchException"@.len());
        }
        123 => {
            reveal_strlit("org.opensearch.ResourceAlreadyExistsException");
            assert("org.opensearch.ResourceAlreadyExistsException"@.len() != "org.opensearch.OpenSearchException"@.len());
        }
        125 => {
            reveal_strlit("org.opensearch.transport.TcpTransport.HttpRequestOnTransportException");
            assert("org.opensearch.transport.TcpTransport.HttpRequestOnTransportException"@.len() != "org.opensearch.OpenSearchException"@.len());
        }
        126 => {
            reveal_strlit("org.opensearch.index.mapper.MapperParsingException");
            assert("org.opensearch.index.mapper.MapperParsingException"@.len() != "org.opensearch.OpenSearchException"@.len());
        }
        128 => {
            reveal_strlit("org.opensearch.search.builder.SearchSourceBuilderException");
            assert("org.opensearch.search.builder.SearchSourceBuilderException"@.len() != "org.opensearch.OpenSearchException"@.len());
        }
        130 => {
            reveal_strlit("org.opensearch.action.NoShardAvailableActionException");
            assert("org.opensearch.action.NoShardAvailableActionException"@.len() != "org.opensearch.OpenSearchException"@.len());
        }
        131 => {
            reveal_strlit("org.opensearch.action.UnavailableShardsException");
            assert("org.opensearch.action.UnavailableShardsException"@.len() != "org.opensearch.OpenSearchException"@.len());
        }
        132 => {
            reveal_strlit("org.opensearch.index.engine.FlushFailedEngineException");
            assert("org.opensearch.index.engine.FlushFailedEngineException"@.len() != "org.opensearch.OpenSearchException"@.len());
        }
        133 => {
            reveal_strlit("org.opensearch.core.common.breaker.CircuitBreakingException");
            assert("org.opensearch.core.common.breaker.CircuitBreakingException"@.len() != "org.opensearch.OpenSearchException"@.len());
        }
        134 => {
            reveal_strlit("org.opensearch.transport.NodeNotConnectedException");
            assert("org.opensearch.transport.NodeNotConnectedException"@.len() != "org.opensearch.OpenSearchException"@.len());
        }
        135 => {
            reveal_strlit("org.opensearch.index.mapper.StrictDynamicMappingException");
            assert("org.opensearch.index.mapper.StrictDynamicMappingException"@.len() != "org.opensearch.OpenSearchException"@.len());
        }
        136 => {
            reveal_strlit("org.opensearch.action.support.replication.TransportReplicationAction.RetryOnReplicaException");
            assert("org.opensearch.action.support.replication.TransportReplicationAction.RetryOnReplicaException"@.len() != "org.opensearch.OpenSearchException"@.len());
        }
        137 => {
            reveal_strlit("org.opensearch.indices.TypeMissingException");
            assert("org.opensearch.indices.TypeMissingException"@.len() != "org.opensearch.OpenSearchException"@.len());
        }
        140 => {
            reveal_strlit("org.opensearch.cluster.coordination.FailedToCommitClusterStateException");
            assert("org.opensearch.cluster.coordination.FailedToCommitClusterStateException"@.len() != "org.opensearch.OpenSearchException"@.len());
        }
        141 => {
            reveal_strlit("org.opensearch.index.query.QueryShardException");
            assert("org.opensearch.index.query.QueryShardException"@.len() != "org.opensearch.OpenSearchException"@.len());
        }
        142 => {
            reveal_strlit("org.opensearch.cluster.action.shard.ShardStateAction.NoLongerPrimaryShardException");
            assert("org.opensearch.cluster.action.shard.ShardStateAction.NoLongerPrimaryShardException"@.len() != "org.opensearch.OpenSearchException"@.len());
        }
        143 => {
            reveal_strlit("org.opensearch.script.ScriptException");
            assert("org.opensearch.script.ScriptException"@.len() != "org.opensearch.OpenSearchException"@.len());
        }
        144 => {
            reveal_strlit("org.opensearch.cluster.NotClusterManagerException");
            assert("org.opensearch.cluster.NotClusterManagerException"@.len() != "org.opensearch.OpenSearchException"@.len());
        }
        145 => {
            reveal_strlit("org.opensearch.OpenSearchStatusException");
            assert("org.opensearch.OpenSearchStatusException"@.len() != "org.opensearch.OpenSearchException"@.len());
        }
        146 => {
            reveal_strlit("org.opensearch.core.tasks.TaskCancelledException");
            assert("org.opensearch.core.tasks.TaskCancelledException"@.len() != "org.opensearch.OpenSearchException"@.len());
        }
        147 => {
            reveal_strlit("org.opensearch.env.ShardLockObtainFailedException");
            assert("org.opensearch.env.ShardLockObtainFailedException"@.len() != "org.opensearch.OpenSearchException"@.len());
        }
        149 => {
            reveal_strlit("org.opensearch.search.aggregations.MultiBucketConsumerService.TooManyBucketsException");
            assert("org.opensearch.search.aggregations.MultiBucketConsumerService.TooManyBucketsException"@.len() != "org.opensearch.OpenSearchException"@.len());
        }
        150 => {
            reveal_strlit("org.opensearch.cluster.coordination.CoordinationStateRejectedException");
            assert("org.opensearch.cluster.coordination.CoordinationStateRejectedException"@.len() != "org.opensearch.OpenSearchException"@.len());
        }
        151 => {
            reveal_strlit("org.opensearch.snapshots.SnapshotInProgressException");
            assert("org.opensearch.snapshots.SnapshotInProgressException"@.len() != "org.opensearch.OpenSearchException"@.len());
        }
        152 => {
            reveal_strlit("org.opensearch.transport.NoSuchRemoteClusterException");
            assert("org.opensearch.transport.NoSuchRemoteClusterException"@.len() != "org.opensearch.OpenSearchException"@.len());
        }
        153 => {
            reveal_strlit("org.opensearch.index.seqno.RetentionLeaseAlreadyExistsException");
            assert("org.opensearch.index.seqno.RetentionLeaseAlreadyExistsException"@.len() != "org.opensearch.OpenSearchException"@.len());
        }
        154 => {
            reveal_strlit("org.opensearch.index.seqno.RetentionLeaseNotFoundException");
            assert("org.opensearch.index.seqno.RetentionLeaseNotFoundException"@.len() != "org.opensearch.OpenSearchException"@.len());
        }
        155 => {
            reveal_strlit("org.opensearch.index.shard.ShardNotInPrimaryModeException");
            assert("org.opensearch.index.shard.ShardNotInPrimaryModeException"@.len() != "org.opensearch.OpenSearchException"@.len());
        }
        156 => {
            reveal_strlit("org.opensearch.index.seqno.RetentionLeaseInvalidRetainingSeqNoException");
            assert("org.opensearch.index.seqno.RetentionLeaseInvalidRetainingSeqNoException"@.len() != "org.opensearch.OpenSearchException"@.len());
        }
        157 => {
            reveal_strlit("org.opensearch.ingest.IngestProcessorException");
            assert("org.opensearch.ingest.IngestProcessorException"@.len() != "org.opensearch.OpenSearchException"@.len());
        }
        158 => {
            reveal_strlit("org.opensearch.indices.recovery.PeerRecoveryNotFound");
            assert("org.opensearch.indices.recovery.PeerRecoveryNotFound"@.len() != "org.opensearch.OpenSearchException"@.len());
        }
        159 => {
            reveal_strlit("org.opensearch.cluster.coordination.NodeHealthCheckFailureException");
            assert("org.opensearch.cluster.coordination.NodeHealthCheckFailureException"@.len() != "org.opensearch.OpenSearchException"@.len());
        }
        160 => {
            reveal_strlit("org.opensearch.transport.NoSeedNodeLeftException");
            assert("org.opensearch.transport.NoSeedNodeLeftException"@.len() != "org.opensearch.OpenSearchException"@.len());
        }
        161 => {
            reveal_strlit("org.opensearch.indices.replication.common.ReplicationFailedException");
            assert("org.opensearch.indices.replication.common.ReplicationFailedException"@.len() != "org.opensearch.OpenSearchException"@.len());
        }
        162 => {
            reveal_strlit("org.opensearch.index.shard.PrimaryShardClosedException");
            assert("org.opensearch.index.shard.PrimaryShardClosedException"@.len() != "org.opensearch.OpenSearchException"@.len());
        }
        163 => {
            reveal_strlit("org.opensearch.cluster.decommission.DecommissioningFailedException");
            assert("org.opensearch.cluster.decommission.DecommissioningFailedException"@.len() != "org.opensearch.OpenSearchException"@.len());
        }
        164 => {
            reveal_strlit("org.opensearch.cluster.decommission.NodeDecommissionedException");
            assert("org.opensearch.cluster.decommission.NodeDecommissionedException"@.len() != "org.opensearch.OpenSearchException"@.len());
        }
        165 => {
            reveal_strlit("org.opensearch.cluster.service.ClusterManagerThrottlingException");
            assert("org.opensearch.cluster.service.ClusterManagerThrottlingException"@.len() != "org.opensearch.OpenSearchException"@.len());
        }
        166 => {
            reveal_strlit("org.opensearch.snapshots.SnapshotInUseDeletionException");
            assert("org.opensearch.snapshots.SnapshotInUseDeletionException"@.len() != "org.opensearch.OpenSearchException"@.len());
        }
        167 => {
            reveal_strlit("org.opensearch.cluster.routing.UnsupportedWeightedRoutingStateException");
            assert("org.opensearch.cluster.routing.UnsupportedWeightedRoutingStateException"@.len() != "org.opensearch.OpenSearchException"@.len());
        }
        168 => {
            reveal_strlit("org.opensearch.cluster.routing.PreferenceBasedSearchNotAllowedException");
            assert("org.opensearch.cluster.routing.PreferenceBasedSearchNotAllowedException"@.len() != "org.opensearch.OpenSearchException"@.len());
        }
        169 => {
            reveal_strlit("org.opensearch.cluster.routing.NodeWeighedAwayException");
            assert("org.opensearch.cluster.routing.NodeWeighedAwayException"@.len() != "org.opensearch.OpenSearchException"@.len());
        }
        170 => {
            reveal_strlit("org.opensearch.search.pipeline.SearchPipelineProcessingException");
            assert("org.opensearch.search.pipeline.SearchPipelineProcessingException"@.len() != "org.opensearch.OpenSearchException"@.len());
        }
        171 => {
            reveal_strlit("org.opensearch.crypto.CryptoRegistryException");
            assert("org.opensearch.crypto.CryptoRegistryException"@.len() != "org.opensearch.OpenSearchException"@.len());
        }
        172 => {
            reveal_strlit("org.opensearch.action.admin.indices.view.ViewNotFoundException");
            assert("org.opensearch.action.admin.indices.view.ViewNotFoundException"@.len() != "org.opensearch.OpenSearchException"@.len());
        }
        173 => {
            reveal_strlit("org.opensearch.action.admin.indices.view.ViewAlreadyExistsException");
            assert("org.opensearch.action.admin.indices.view.ViewAlreadyExistsException"@.len() != "org.opensearch.OpenSearchException"@.len());
        }
        174 => {
            reveal_strlit("org.opensearch.indices.InvalidIndexContextException");
            assert("org.opensearch.indices.InvalidIndexContextException"@.len() != "org.opensearch.OpenSearchException"@.len());
        }
        175 => {
            reveal_strlit("org.opensearch.common.breaker.ResponseLimitBreachedException");
            assert("org.opensearch.common.breaker.ResponseLimitBreachedException"@.len() != "org.opensearch.OpenSearchException"@.len());
        }
        176 => {
            reveal_strlit("org.opensearch.index.engine.IngestionEngineException");
            assert("org.opensearch.index.engine.IngestionEngineException"@.len() != "org.opensearch.OpenSearchException"@.len());
        }
        177 => {
            reveal_strlit("org.opensearch.transport.stream.StreamException");
            assert("org.opensearch.transport.stream.StreamException"@.len() != "org.opensearch.OpenSearchException"@.len());
        }
        _ => {}
    }
}

/// The wire id under which OpenSearch registers the exception class `c`:
/// the registry read the other way, from class to id. Classes outside the
/// registry have none.
pub open spec fn exception_id_of_class(c: Seq<char>) -> Option<i32> {
    if c.len() == 33 {
        if c == "org.opensearch.http.HttpException"@ {
            Some(67i32)
        } else {
            None
        }
    } else if c.len() == 34 {
        if c == "org.opensearch.OpenSearchException"@ {
            Some(68i32)
        } else {
            None
        }
    } else if c.len() == 37 {
        if c == "org.opensearch.http.BindHttpException"@ {
            Some(7i32)
        } else if c == "org.opensearch.search.SearchException"@ {
            Some(36i32)
        } else if c == "org.opensearch.script.ScriptException"@ {
            Some(143i32)
        } else {
            None
        }
    } else if c.len() == 39 {
        if c == "org.opensearch.node.NodeClosedException"@ {
            Some(9i32)
        } else if c == "org.opensearch.OpenSearchParseException"@ {
            Some(35i32)
        } else if c == "org.opensearch.gateway.GatewayException"@ {
            Some(65i32)
        } else {
            None
        }
    } else if c.len() == 40 {
        if c == "org.opensearch.ResourceNotFoundException"@ {
            Some(19i32)
        } else if c == "org.opensearch.OpenSearchStatusException"@ {
            Some(145i32)
        } else {
            None
        }
    } else if c.len() == 41 {
        if c == "org.opensearch.action.NoSuchNodeException"@ {
            Some(55i32)
        } else if c == "org.opensearch.action.FailedNodeException"@ {
            Some(71i32)
        } else if c == "org.opensearch.OpenSearchTimeoutException"@ {
            Some(118i32)
        } else {
            None
        }
    } else if c.len() == 42 {
        if c == "org.opensearch.OpenSearchSecurityException"@ {
            Some(4i32)
        } else if c == "org.opensearch.snapshots.SnapshotException"@ {
            Some(30i32)
        } else if c == "org.opensearch.search.SearchParseException"@ {
            Some(72i32)
        } else {
            None
        }
    } else if c.len() == 43 {
        if c == "org.opensearch.indices.IndexClosedException"@ {
            Some(6i32)
        } else if c == "org.opensearch.index.IndexNotFoundException"@ {
            Some(16i32)
        } else if c == "org.opensearch.transport.TransportException"@ {
            Some(34i32)
        } else if c == "org.opensearch.index.mapper.MapperException"@ {
            Some(37i32)
        } else if c == "org.opensearch.core.common.ParsingException"@ {
            Some(40i32)
        } else if c == "org.opensearch.index.engine.EngineException"@ {
            Some(53i32)
        } else if c == "org.opensearch.indices.TypeMissingException"@ {
            Some(137i32)
        } else {
            None
        }
    } else if c.len() == 44 {
        if c == "org.opensearch.OpenSearchGenerationException"@ {
            Some(21i32)
        } else if c == "org.opensearch.script.GeneralScriptException"@ {
            Some(25i32)
        } else {
            None
        }
    } else if c.len() == 45 {
        if c == "org.opensearch.indices.IndexCreationException"@ {
            Some(15i32)
        } else if c == "org.opensearch.action.RoutingMissingException"@ {
            Some(79i32)
        } else if c == "org.opensearch.ResourceAlreadyExistsException"@ {
            Some(123i32)
        } else if c == "org.opensearch.crypto.CryptoRegistryException"@ {
            Some(171i32)
        } else {
            None
        }
    } else if c.len() == 46 {
        if c == "org.opensearch.index.query.QueryShardException"@ {
            Some(141i32)
        } else if c == "org.opensearch.ingest.IngestProcessorException"@ {
            Some(157i32)
        } else {
            None
        }
    } else if c.len() == 47 {
        if c == "org.opensearch.indices.InvalidTypeNameException"@ {
            Some(38i32)
        } else if c == "org.opensearch.action.TimestampParsingException"@ {
            Some(78i32)
        } else if c == "org.opensearch.repositories.RepositoryException"@ {
            Some(82i32)
        } else if c == "org.opensearch.cluster.routing.RoutingException"@ {
            Some(105i32)
        } else if c == "org.opensearch.transport.BindTransportException"@ {
            Some(112i32)
        } else if c == "org.opensearch.index.translog.TranslogException"@ {
            Some(115i32)
        } else if c == "org.opensearch.transport.stream.StreamException"@ {
            Some(177i32)
        } else {
            None
        }
    } else if c.len() == 48 {
        if c == "org.opensearch.indices.InvalidAliasNameException"@ {
            Some(31i32)
        } else if c == "org.opensearch.indices.InvalidIndexNameException"@ {
            Some(32i32)
        } else if c == "org.opensearch.common.settings.SettingsException"@ {
            Some(56i32)
        } else if c == "org.opensearch.action.UnavailableShardsException"@ {
            Some(131i32)
        } else if c == "org.opensearch.core.tasks.TaskCancelledException"@ {
            Some(146i32)
        } else if c == "org.opensearch.transport.NoSeedNodeLeftException"@ {
            Some(160i32)
        } else {
            None
        }
    } else if c.len() == 49 {
        if c == "org.opensearch.index.shard.ShardNotFoundException"@ {
            Some(11i32)
        } else if c == "org.opensearch.transport.ActionTransportException"@ {
            Some(20i32)
        } else if c == "org.opensearch.snapshots.SnapshotRestoreException"@ {
            Some(39i32)
        } else if c == "org.opensearch.snapshots.SnapshotMissingException"@ {
            Some(69i32)
        } else if c == "org.opensearch.transport.RemoteTransportException"@ {
            Some(103i32)
        } else if c == "org.opensearch.cluster.NotClusterManagerException"@ {
            Some(144i32)
        } else if c == "org.opensearch.env.ShardLockObtainFailedException"@ {
            Some(147i32)
        } else {
            None
        }
    } else if c.len() == 50 {
        if c == "org.opensearch.transport.ConnectTransportException"@ {
            Some(12i32)
        } else if c == "org.opensearch.snapshots.SnapshotCreationException"@ {
            Some(27i32)
        } else if c == "org.opensearch.cluster.block.ClusterBlockException"@ {
            Some(49i32)
        } else if c == "org.opensearch.indices.AliasFilterParsingException"@ {
            Some(63i32)
        } else if c == "org.opensearch.common.blobstore.BlobStoreException"@ {
            Some(74i32)
        } else if c == "org.opensearch.transport.NodeDisconnectedException"@ {
            Some(84i32)
        } else if c == "org.opensearch.index.mapper.MapperParsingException"@ {
            Some(126i32)
        } else if c == "org.opensearch.transport.NodeNotConnectedException"@ {
            Some(134i32)
        } else {
            None
        }
    } else if c.len() == 51 {
        if c == "org.opensearch.search.SearchContextMissingException"@ {
            Some(24i32)
        } else if c == "org.opensearch.action.PrimaryMissingActionException"@ {
            Some(70i32)
        } else if c == "org.opensearch.index.engine.RecoveryEngineException"@ {
            Some(76i32)
        } else if c == "org.opensearch.indices.InvalidIndexContextException"@ {
            Some(174i32)
        } else {
            None
        }
    } else if c.len() == 52 {
        if c == "org.opensearch.search.dfs.DfsPhaseExecutionException"@ {
            Some(1i32)
        } else if c == "org.opensearch.index.engine.DocumentMissingException"@ {
            Some(29i32)
        } else if c == "org.opensearch.index.shard.IndexShardClosedException"@ {
            Some(41i32)
        } else if c == "org.opensearch.indices.IndexTemplateMissingException"@ {
            Some(57i32)
        } else if c == "org.opensearch.indices.InvalidIndexTemplateException"@ {
            Some(88i32)
        } else if c == "org.opensearch.snapshots.SnapshotInProgressException"@ {
            Some(151i32)
        } else if c == "org.opensearch.indices.recovery.PeerRecoveryNotFound"@ {
            Some(158i32)
        } else if c == "org.opensearch.index.engine.IngestionEngineException"@ {
            Some(176i32)
        } else {
            None
        }
    } else if c.len() == 53 {
        if c == "org.opensearch.index.shard.IndexShardStartedException"@ {
            Some(23i32)
        } else if c == "org.opensearch.snapshots.InvalidSnapshotNameException"@ {
            Some(96i32)
        } else if c == "org.opensearch.action.NoShardAvailableActionException"@ {
            Some(130i32)
        } else if c == "org.opensearch.transport.NoSuchRemoteClusterException"@ {
            Some(152i32)
        } else {
            None
        }
    } else if c.len() == 54 {
        if c == "org.opensearch.transport.NodeShouldNotConnectException"@ {
            Some(46i32)
        } else if c == "org.opensearch.transport.SendRequestTransportException"@ {
            Some(58i32)
        } else if c == "org.opensearch.indices.recovery.DelayRecoveryException"@ {
            Some(92i32)
        } else if c == "org.opensearch.index.shard.IndexShardRecoveryException"@ {
            Some(106i32)
        } else if c == "org.opensearch.repositories.RepositoryMissingException"@ {
            Some(107i32)
        } else if c == "org.opensearch.index.engine.FlushFailedEngineException"@ {
            Some(132i32)
        } else if c == "org.opensearch.index.shard.PrimaryShardClosedException"@ {
            Some(162i32)
        } else {
            None
        }
    } else if c.len() == 55 {
        if c == "org.opensearch.action.search.ReduceSearchPhaseException"@ {
            Some(8i32)
        } else if c == "org.opensearch.indices.recovery.RecoveryFailedException"@ {
            Some(44i32)
        } else if c == "org.opensearch.index.shard.IndexShardRelocatedException"@ {
            Some(45i32)
        } else if c == "org.opensearch.common.settings.NoClassSettingsException"@ {
            Some(111i32)
        } else if c == "org.opensearch.snapshots.SnapshotInUseDeletionException"@ {
            Some(166i32)
        } else if c == "org.opensearch.cluster.routing.NodeWeighedAwayException"@ {
            Some(169i32)
        } else {
            None
        }
    } else if c.len() == 56 {
        if c == "org.opensearch.index.translog.TruncatedTranslogException"@ {
            Some(43i32)
        } else if c == "org.opensearch.index.translog.TranslogCorruptedException"@ {
            Some(48i32)
        } else if c == "org.opensearch.search.fetch.FetchPhaseExecutionException"@ {
            Some(50i32)
        } else if c == "org.opensearch.index.engine.RefreshFailedEngineException"@ {
            Some(90i32)
        } else if c == "org.opensearch.index.shard.IndexShardNotStartedException"@ {
            Some(99i32)
        } else if c == "org.opensearch.transport.TransportSerializationException"@ {
            Some(102i32)
        } else if c == "org.opensearch.index.shard.IndexShardRecoveringException"@ {
            Some(114i32)
        } else if c == "org.opensearch.search.query.QueryPhaseExecutionException"@ {
            Some(119i32)
        } else {
            None
        }
    } else if c.len() == 57 {
        if c == "org.opensearch.index.snapshots.IndexShardRestoreException"@ {
            Some(5i32)
        } else if c == "org.opensearch.index.engine.SnapshotFailedEngineException"@ {
            Some(10i32)
        } else if c == "org.opensearch.transport.ReceiveTimeoutTransportException"@ {
            Some(83i32)
        } else if c == "org.opensearch.transport.ActionNotFoundTransportException"@ {
            Some(101i32)
        } else if c == "org.opensearch.index.mapper.StrictDynamicMappingException"@ {
            Some(135i32)
        } else if c == "org.opensearch.index.shard.ShardNotInPrimaryModeException"@ {
            Some(155i32)
        } else {
            None
        }
    } else if c.len() == 58 {
        if c == "org.opensearch.transport.NotSerializableTransportException"@ {
            Some(13i32)
        } else if c == "org.opensearch.index.engine.VersionConflictEngineException"@ {
            Some(52i32)
        } else if c == "org.opensearch.index.shard.IllegalIndexShardStateException"@ {
            Some(97i32)
        } else if c == "org.opensearch.action.search.SearchPhaseExecutionException"@ {
            Some(100i32)
        } else if c == "org.opensearch.index.engine.EngineCreationFailureException"@ {
            Some(104i32)
        } else if c == "org.opensearch.index.engine.DocumentSourceMissingException"@ {
            Some(109i32)
        } else if c == "org.opensearch.search.builder.SearchSourceBuilderException"@ {
            Some(128i32)
        } else if c == "org.opensearch.index.seqno.RetentionLeaseNotFoundException"@ {
            Some(154i32)
        } else {
            None
        }
    } else if c.len() == 59 {
        if c == "org.opensearch.index.shard.IndexShardNotRecoveringException"@ {
            Some(66i32)
        } else if c == "org.opensearch.repositories.RepositoryVerificationException"@ {
            Some(120i32)
        } else if c == "org.opensearch.core.common.breaker.CircuitBreakingException"@ {
            Some(133i32)
        } else {
            None
        }
    } else if c.len() == 60 {
        if c == "org.opensearch.common.breaker.ResponseLimitBreachedException"@ {
            Some(175i32)
        } else {
            None
        }
    } else if c.len() == 61 {
        if c == "org.opensearch.discovery.ClusterManagerNotDiscoveredException"@ {
            Some(3i32)
        } else if c == "org.opensearch.indices.IndexPrimaryShardNotAllocatedException"@ {
            Some(33i32)
        } else if c == "org.opensearch.indices.recovery.RecoverFilesRecoveryException"@ {
            Some(42i32)
        } else if c == "org.opensearch.snapshots.ConcurrentSnapshotExecutionException"@ {
            Some(73i32)
        } else {
            None
        }
    } else if c.len() == 62 {
        if c == "org.opensearch.action.admin.indices.view.ViewNotFoundException"@ {
            Some(172i32)
        } else {
            None
        }
    } else if c.len() == 63 {
        if c == "org.opensearch.cluster.IncompatibleClusterStateVersionException"@ {
            Some(75i32)
        } else if c == "org.opensearch.index.snapshots.IndexShardRestoreFailedException"@ {
            Some(81i32)
        } else if c == "org.opensearch.core.index.snapshots.IndexShardSnapshotException"@ {
            Some(98i32)
        } else if c == "org.opensearch.index.seqno.RetentionLeaseAlreadyExistsException"@ {
            Some(153i32)
        } else if c == "org.opensearch.cluster.decommission.NodeDecommissionedException"@ {
            Some(164i32)
        } else {
            None
        }
    } else if c.len() == 64 {
        if c == "org.opensearch.cluster.routing.IllegalShardRoutingStateException"@ {
            Some(17i32)
        } else if c == "org.opensearch.search.aggregations.AggregationExecutionException"@ {
            Some(86i32)
        } else if c == "org.opensearch.cluster.service.ClusterManagerThrottlingException"@ {
            Some(165i32)
        } else if c == "org.opensearch.search.pipeline.SearchPipelineProcessingException"@ {
            Some(170i32)
        } else {
            None
        }
    } else if c.len() == 65 {
        if c == "org.opensearch.transport.ResponseHandlerFailureTransportException"@ {
            Some(14i32)
        } else if c == "org.opensearch.rest.action.admin.indices.AliasesNotFoundException"@ {
            Some(113i32)
        } else {
            None
        }
    } else if c.len() == 66 {
        if c == "org.opensearch.transport.client.transport.NoNodeAvailableException"@ {
            Some(94i32)
        } else if c == "org.opensearch.search.aggregations.InvalidAggregationPathException"@ {
            Some(121i32)
        } else if c == "org.opensearch.cluster.decommission.DecommissioningFailedException"@ {
            Some(163i32)
        } else {
            None
        }
    } else if c.len() == 67 {
        if c == "org.opensearch.cluster.metadata.ProcessClusterEventTimeoutException"@ {
            Some(116i32)
        } else if c == "org.opensearch.cluster.coordination.NodeHealthCheckFailureException"@ {
            Some(159i32)
        } else if c == "org.opensearch.action.admin.indices.view.ViewAlreadyExistsException"@ {
            Some(173i32)
        } else {
            None
        }
    } else if c.len() == 68 {
        if c == "org.opensearch.core.common.io.stream.NotSerializableExceptionWrapper"@ {
            Some(62i32)
        } else if c == "org.opensearch.indices.replication.common.ReplicationFailedException"@ {
            Some(161i32)
        } else {
            None
        }
    } else if c.len() == 69 {
        if c == "org.opensearch.core.index.snapshots.IndexShardSnapshotFailedException"@ {
            Some(0i32)
        } else if c == "org.opensearch.common.util.concurrent.UncategorizedExecutionException"@ {
            Some(77i32)
        } else if c == "org.opensearch.search.aggregations.AggregationInitializationException"@ {
            Some(91i32)
        } else if c == "org.opensearch.transport.TcpTransport.HttpRequestOnTransportException"@ {
            Some(125i32)
        } else {
            None
        }
    } else if c.len() == 70 {
        if c == "org.opensearch.cluster.coordination.CoordinationStateRejectedException"@ {
            Some(150i32)
        } else {
            None
        }
    } else if c.len() == 71 {
        if c == "org.opensearch.cluster.coordination.FailedToCommitClusterStateException"@ {
            Some(140i32)
        } else if c == "org.opensearch.index.seqno.RetentionLeaseInvalidRetainingSeqNoException"@ {
            Some(156i32)
        } else if c == "org.opensearch.cluster.routing.UnsupportedWeightedRoutingStateException"@ {
            Some(167i32)
        } else if c == "org.opensearch.cluster.routing.PreferenceBasedSearchNotAllowedException"@ {
            Some(168i32)
        } else {
            None
        }
    } else if c.len() == 73 {
        if c == "org.opensearch.common.util.CancellableThreads.ExecutionCancelledException"@ {
            Some(2i32)
        } else {
            None
        }
    } else if c.len() == 78 {
        if c == "org.opensearch.action.support.broadcast.BroadcastShardOperationFailedException"@ {
            Some(18i32)
        } else {
            None
        }
    } else if c.len() == 82 {
        if c == "org.opensearch.cluster.action.shard.ShardStateAction.NoLongerPrimaryShardException"@ {
            Some(142i32)
        } else {
            None
        }
    } else if c.len() == 85 {
        if c == "org.opensearch.search.aggregations.MultiBucketConsumerService.TooManyBucketsException"@ {
            Some(149i32)
        } else {
            None
        }
    } else if c.len() == 86 {
        if c == "org.opensearch.action.support.replication.ReplicationOperation.RetryOnPrimaryException"@ {
            Some(117i32)
        } else {
            None
        }
    } else if c.len() == 92 {
        if c == "org.opensearch.action.support.replication.TransportReplicationAction.RetryOnReplicaException"@ {
            Some(136i32)
        } else {
            None
        }
    } else {
        None
    }
}

/// Reading back the id of the class named for a wire id gives that id: each
/// id with a class of its own names the class registered under it, and every
/// other id names the base OpenSearch exception, registered under 68.
#[verifier::spinoff_prover]
#[verifier::rlimit(100)]
pub proof fn lemma_exception_class_name_registered(id: i32)
    ensures
        exception_id_of_class(opensearch_exception_class_name_spec(id)) == Some(
            if is_generic_exception_id(id) {
                68i32
            } else {
                id
            },
        ),
{
    reveal(opensearch_exception_class_name_spec);
    match id {
        0 => {
            reveal_strlit("org.opensearch.core.index.snapshots.IndexShardSnapshotFailedException");
        },
        1 => {
            reveal_strlit("org.opensearch.search.dfs.DfsPhaseExecutionException");
        },
        2 => {
            reveal_strlit("org.opensearch.common.util.CancellableThreads.ExecutionCancelledException");
        },
        3 => {
            reveal_strlit("org.opensearch.discovery.ClusterManagerNotDiscoveredException");
        },
        4 => {
            reveal_strlit("org.opensearch.OpenSearchSecurityException");
        },
        5 => {
            reveal_strlit("org.opensearch.index.snapshots.IndexShardRestoreException");
        },
        6 => {
            reveal_strlit("org.opensearch.indices.IndexClosedException");
        },
        7 => {
            reveal_strlit("org.opensearch.http.BindHttpException");
        },
        8 => {
            reveal_strlit("org.opensearch.action.search.ReduceSearchPhaseException");
        },
        9 => {
            reveal_strlit("org.opensearch.node.NodeClosedException");
        },
        10 => {
            reveal_strlit("org.opensearch.index.engine.SnapshotFailedEngineException");
            reveal_strlit("org.opensearch.index.snapshots.IndexShardRestoreException");
            assert("org.opensearch.index.engine.SnapshotFailedEngineException"@[21] != "org.opensearch.index.snapshots.IndexShardRestoreException"@[21]);
        },
        11 => {
            reveal_strlit("org.opensearch.index.shard.ShardNotFoundException");
        },
        12 => {
            reveal_strlit("org.opensearch.transport.ConnectTransportException");
        },
        13 => {
            reveal_strlit("org.opensearch.transport.NotSerializableTransportException");
        },
        14 => {
            reveal_strlit("org.opensearch.transport.ResponseHandlerFailureTransportException");
        },
        15 => {
            reveal_strlit("org.opensearch.indices.IndexCreationException");
        },
        16 => {
            reveal_strlit("org.opensearch.index.IndexNotFoundException");
            reveal_strlit("org.opensearch.indices.IndexClosedException");
            assert("org.opensearch.index.IndexNotFoundException"@[18] != "org.opensearch.indices.IndexClosedException"@[18]);
        },
        17 => {
            reveal_strlit("org.opensearch.cluster.routing.IllegalShardRoutingStateException");
        },
        18 => {
            reveal_strlit("org.opensearch.action.support.broadcast.BroadcastShardOperationFailedException");
        },
        19 => {
            reveal_strlit("org.opensearch.ResourceNotFoundException");
        },
        20 => {
            reveal_strlit("org.opensearch.transport.ActionTransportException");
            reveal_strlit("org.opensearch.index.shard.ShardNotFoundException");
            assert("org.opensearch.transport.ActionTransportException"@[15] != "org.opensearch.index.shard.ShardNotFoundException"@[15]);
        },
        21 => {
            reveal_strlit("org.opensearch.OpenSearchGenerationException");
        },
        23 => {
            reveal_strlit("org.opensearch.index.shard.IndexShardStartedException");
        },
        24 => {
            reveal_strlit("org.opensearch.search.SearchContextMissingException");
        },
        25 => {
            reveal_strlit("org.opensearch.script.GeneralScriptException");
            reveal_strlit("org.opensearch.OpenSearchGenerationException");
            assert("org.opensearch.script.GeneralScriptException"@[15] != "org.opensearch.OpenSearchGenerationException"@[15]);
        },
        27 => {
            reveal_strlit("org.opensearch.snapshots.SnapshotCreationException");
            reveal_strlit("org.opensearch.transport.ConnectTransportException");
            assert("org.opensearch.snapshots.SnapshotCreationException"@[15] != "org.opensearch.transport.ConnectTransportException"@[15]);
        },
        29 => {
            reveal_strlit("org.opensearch.index.engine.DocumentMissingException");
            reveal_strlit("org.opensearch.search.dfs.DfsPhaseExecutionException");
            assert("org.opensearch.index.engine.DocumentMissingException"@[15] != "org.opensearch.search.dfs.DfsPhaseExecutionException"@[15]);
        },
        30 => {
            reveal_strlit("org.opensearch.snapshots.SnapshotException");
            reveal_strlit("org.opensearch.OpenSearchSecurityException");
            assert("org.opensearch.snapshots.SnapshotException"@[15] != "org.opensearch.OpenSearchSecurityException"@[15]);
        },
        31 => {
            reveal_strlit("org.opensearch.indices.InvalidAliasNameException");
        },
        32 => {
            reveal_strlit("org.opensearch.indices.InvalidIndexNameException");
            reveal_strlit("org.opensearch.indices.InvalidAliasNameException");
            assert("org.opensearch.indices.InvalidIndexNameException"@[30] != "org.opensearch.indices.InvalidAliasNameException"@[30]);
        },
        33 => {
            reveal_strlit("org.opensearch.indices.IndexPrimaryShardNotAllocatedException");
            reveal_strlit("org.opensearch.discovery.ClusterManagerNotDiscoveredException");
            assert("org.opensearch.indices.IndexPrimaryShardNotAllocatedException"@[15] != "org.opensearch.discovery.ClusterManagerNotDiscoveredException"@[15]);
        },
        34 => {
            reveal_strlit("org.opensearch.transport.TransportException");
            reveal_strlit("org.opensearch.indices.IndexClosedException");
            assert("org.opensearch.transport.TransportException"@[15] != "org.opensearch.indices.IndexClosedException"@[15]);
            reveal_strlit("org.opensearch.index.IndexNotFoundException");
            assert("org.opensearch.transport.TransportException"@[15] != "org.opensearch.index.IndexNotFoundException"@[15]);
        },
        35 => {
            reveal_strlit("org.opensearch.OpenSearchParseException");
            reveal_strlit("org.opensearch.node.NodeClosedException");
            assert("org.opensearch.OpenSearchParseException"@[15] != "org.opensearch.node.NodeClosedException"@[15]);
        },
        36 => {
            reveal_strlit("org.opensearch.search.SearchException");
            reveal_strlit("org.opensearch.http.BindHttpException");
            assert("org.opensearch.search.SearchException"@[15] != "org.opensearch.http.BindHttpException"@[15]);
        },
        37 => {
            reveal_strlit("org.opensearch.index.mapper.MapperException");
            reveal_strlit("org.opensearch.indices.IndexClosedException");
            assert("org.opensearch.index.mapper.MapperException"@[18] != "org.opensearch.indices.IndexClosedException"@[18]);
            reveal_strlit("org.opensearch.index.IndexNotFoundException");
            assert("org.opensearch.index.mapper.MapperException"@[21] != "org.opensearch.index.IndexNotFoundException"@[21]);
            reveal_strlit("org.opensearch.transport.TransportException");
            assert("org.opensearch.index.mapper.MapperException"@[15] != "org.opensearch.transport.TransportException"@[15]);
        },
        38 => {
            reveal_strlit("org.opensearch.indices.InvalidTypeNameException");
        },
        39 => {
            reveal_strlit("org.opensearch.snapshots.SnapshotRestoreException");
            reveal_strlit("org.opensearch.index.shard.ShardNotFoundException");
            assert("org.opensearch.snapshots.SnapshotRestoreException"@[15] != "org.opensearch.index.shard.ShardNotFoundException"@[15]);
            reveal_strlit("org.opensearch.transport.ActionTransportException");
            assert("org.opensearch.snapshots.SnapshotRestoreException"@[15] != "org.opensearch.transport.ActionTransportException"@[15]);
        },
        40 => {
            reveal_strlit("org.opensearch.core.common.ParsingException");
            reveal_strlit("org.opensearch.indices.IndexClosedException");
            assert("org.opensearch.core.common.ParsingException"@[15] != "org.opensearch.indices.IndexClosedException"@[15]);
            reveal_strlit("org.opensearch.index.IndexNotFoundException");
            assert("org.opensearch.core.common.ParsingException"@[15] != "org.opensearch.index.IndexNotFoundException"@[15]);
            reveal_strlit("org.opensearch.transport.TransportException");
            assert("org.opensearch.core.common.ParsingException"@[15] != "org.opensearch.transport.TransportException"@[15]);
            reveal_strlit("org.opensearch.index.mapper.MapperException");
            assert("org.opensearch.core.common.ParsingException"@[15] != "org.opensearch.index.mapper.MapperException"@[15]);
        },
        41 => {
            reveal_strlit("org.opensearch.index.shard.IndexShardClosedException");
            reveal_strlit("org.opensearch.search.dfs.DfsPhaseExecutionException");
            assert("org.opensearch.index.shard.IndexShardClosedException"@[15] != "org.opensearch.search.dfs.DfsPhaseExecutionException"@[15]);
            reveal_strlit("org.opensearch.index.engine.DocumentMissingException");
            assert("org.opensearch.index.shard.IndexShardClosedException"@[21] != "org.opensearch.index.engine.DocumentMissingException"@[21]);
        },
        42 => {
            reveal_strlit("org.opensearch.indices.recovery.RecoverFilesRecoveryException");
            reveal_strlit("org.opensearch.discovery.ClusterManagerNotDiscoveredException");
            assert("org.opensearch.indices.recovery.RecoverFilesRecoveryException"@[15] != "org.opensearch.discovery.ClusterManagerNotDiscoveredException"@[15]);
            reveal_strlit("org.opensearch.indices.IndexPrimaryShardNotAllocatedException");
            assert("org.opensearch.indices.recovery.RecoverFilesRecoveryException"@[23] != "org.opensearch.indices.IndexPrimaryShardNotAllocatedException"@[23]);
        },
        43 => {
            reveal_strlit("org.opensearch.index.translog.TruncatedTranslogException");
        },
        44 => {
            reveal_strlit("org.opensearch.indices.recovery.RecoveryFailedException");
            reveal_strlit("org.opensearch.action.search.ReduceSearchPhaseException");
            assert("org.opensearch.indices.recovery.RecoveryFailedException"@[15] != "org.opensearch.action.search.ReduceSearchPhaseException"@[15]);
        },
        45 => {
            reveal_strlit("org.opensearch.index.shard.IndexShardRelocatedException");
            reveal_strlit("org.opensearch.action.search.ReduceSearchPhaseException");
            assert("org.opensearch.index.shard.IndexShardRelocatedException"@[15] != "org.opensearch.action.search.ReduceSearchPhaseException"@[15]);
            reveal_strlit("org.opensearch.indices.recovery.RecoveryFailedException");
            assert("org.opensearch.index.shard.IndexShardRelocatedException"@[18] != "org.opensearch.indices.recovery.RecoveryFailedException"@[18]);
        },
        46 => {
            reveal_strlit("org.opensearch.transport.NodeShouldNotConnectException");
        },
        48 => {
            reveal_strlit("org.opensearch.index.translog.TranslogCorruptedException");
            reveal_strlit("org.opensearch.index.translog.TruncatedTranslogException");
            assert("org.opensearch.index.translog.TranslogCorruptedException"@[32] != "org.opensearch.index.translog.TruncatedTranslogException"@[32]);
        },
        49 => {
            reveal_strlit("org.opensearch.cluster.block.ClusterBlockException");
            reveal_strlit("org.opensearch.transport.ConnectTransportException");
            assert("org.opensearch.cluster.block.ClusterBlockException"@[15] != "org.opensearch.transport.ConnectTransportException"@[15]);
            reveal_strlit("org.opensearch.snapshots.SnapshotCreationException");
            assert("org.opensearch.cluster.block.ClusterBlockException"@[15] != "org.opensearch.snapshots.SnapshotCreationException"@[15]);
        },
        50 => {
            reveal_strlit("org.opensearch.search.fetch.FetchPhaseExecutionException");
            reveal_strlit("org.opensearch.index.translog.TruncatedTranslogException");
            assert("org.opensearch.search.fetch.FetchPhaseExecutionException"@[15] != "org.opensearch.index.translog.TruncatedTranslogException"@[15]);
            reveal_strlit("org.opensearch.index.translog.TranslogCorruptedException");
            assert("org.opensearch.search.fetch.FetchPhaseExecutionException"@[15] != "org.opensearch.index.translog.TranslogCorruptedException"@[15]);
        },
        52 => {
            reveal_strlit("org.opensearch.index.engine.VersionConflictEngineException");
            reveal_strlit("org.opensearch.transport.NotSerializableTransportException");
            assert("org.opensearch.index.engine.VersionConflictEngineException"@[15] != "org.opensearch.transport.NotSerializableTransportException"@[15]);
        },
        53 => {
            reveal_strlit("org.opensearch.index.engine.EngineException");
            reveal_strlit("org.opensearch.indices.IndexClosedException");
            assert("org.opensearch.index.engine.EngineException"@[18] != "org.opensearch.indices.IndexClosedException"@[18]);
            reveal_strlit("org.opensearch.index.IndexNotFoundException");
            assert("org.opensearch.index.engine.EngineException"@[21] != "org.opensearch.index.IndexNotFoundException"@[21]);
            reveal_strlit("org.opensearch.transport.TransportException");
            assert("org.opensearch.index.engine.EngineException"@[15] != "org.opensearch.transport.TransportException"@[15]);
            reveal_strlit("org.opensearch.index.mapper.MapperException");
            assert("org.opensearch.index.engine.EngineException"@[21] != "org.opensearch.index.mapper.MapperException"@[21]);
            reveal_strlit("org.opensearch.core.common.ParsingException");
            assert("org.opensearch.index.engine.EngineException"@[15] != "org.opensearch.core.common.ParsingException"@[15]);
        },
        55 => {
            reveal_strlit("org.opensearch.action.NoSuchNodeException");
        },
        56 => {
            reveal_strlit("org.opensearch.common.settings.SettingsException");
            reveal_strlit("org.opensearch.indices.InvalidAliasNameException");
            assert("org.opensearch.common.settings.SettingsException"@[15] != "org.opensearch.indices.InvalidAliasNameException"@[15]);
            reveal_strlit("org.opensearch.indices.InvalidIndexNameException");
            assert("org.opensearch.common.settings.SettingsException"@[15] != "org.opensearch.indices.InvalidIndexNameException"@[15]);
        },
        57 => {
            reveal_strlit("org.opensearch.indices.IndexTemplateMissingException");
            reveal_strlit("org.opensearch.search.dfs.DfsPhaseExecutionException");
            assert("org.opensearch.indices.IndexTemplateMissingException"@[15] != "org.opensearch.search.dfs.DfsPhaseExecutionException"@[15]);
            reveal_strlit("org.opensearch.index.engine.DocumentMissingException");
            assert("org.opensearch.indices.IndexTemplateMissingException"@[18] != "org.opensearch.index.engine.DocumentMissingException"@[18]);
            reveal_strlit("org.opensearch.index.shard.IndexShardClosedException");
            assert("org.opensearch.indices.IndexTemplateMissingException"@[18] != "org.opensearch.index.shard.IndexShardClosedException"@[18]);
        },
        58 => {
            reveal_strlit("org.opensearch.transport.SendRequestTransportException");
            reveal_strlit("org.opensearch.transport.NodeShouldNotConnectException");
            assert("org.opensearch.transport.SendRequestTransportException"@[25] != "org.opensearch.transport.NodeShouldNotConnectException"@[25]);
        },
        62 => {
            reveal_strlit("org.opensearch.core.common.io.stream.NotSerializableExceptionWrapper");
        },
        63 => {
            reveal_strlit("org.opensearch.indices.AliasFilterParsingException");
            reveal_strlit("org.opensearch.transport.ConnectTransportException");
            assert("org.opensearch.indices.AliasFilterParsingException"@[15] != "org.opensearch.transport.ConnectTransportException"@[15]);
            reveal_strlit("org.opensearch.snapshots.SnapshotCreationException");
            assert("org.opensearch.indices.AliasFilterParsingException"@[15] != "org.opensearch.snapshots.SnapshotCreationException"@[15]);
            reveal_strlit("org.opensearch.cluster.block.ClusterBlockException");
            assert("org.opensearch.indices.AliasFilterParsingException"@[15] != "org.opensearch.cluster.block.ClusterBlockException"@[15]);
        },
        65 => {
            reveal_strlit("org.opensearch.gateway.GatewayException");
            reveal_strlit("org.opensearch.node.NodeClosedException");
            assert("org.opensearch.gateway.GatewayException"@[15] != "org.opensearch.node.NodeClosedException"@[15]);
            reveal_strlit("org.opensearch.OpenSearchParseException");
            assert("org.opensearch.gateway.GatewayException"@[15] != "org.opensearch.OpenSearchParseException"@[15]);
        },
        66 => {
            reveal_strlit("org.opensearch.index.shard.IndexShardNotRecoveringException");
        },
        67 => {
            reveal_strlit("org.opensearch.http.HttpException");
        },
        68 => {
            reveal_strlit("org.opensearch.OpenSearchException");
        },
        69 => {
            reveal_strlit("org.opensearch.snapshots.SnapshotMissingException");
            reveal_strlit("org.opensearch.index.shard.ShardNotFoundException");
            assert("org.opensearch.snapshots.SnapshotMissingException"@[15] != "org.opensearch.index.shard.ShardNotFoundException"@[15]);
            reveal_strlit("org.opensearch.transport.ActionTransportException");
            assert("org.opensearch.snapshots.SnapshotMissingException"@[15] != "org.opensearch.transport.ActionTransportException"@[15]);
            reveal_strlit("org.opensearch.snapshots.SnapshotRestoreException");
            assert("org.opensearch.snapshots.SnapshotMissingException"@[33] != "org.opensearch.snapshots.SnapshotRestoreException"@[33]);
        },
        70 => {
            reveal_strlit("org.opensearch.action.PrimaryMissingActionException");
            reveal_strlit("org.opensearch.search.SearchContextMissingException");
            assert("org.opensearch.action.PrimaryMissingActionException"@[15] != "org.opensearch.search.SearchContextMissingException"@[15]);
        },
        71 => {
            reveal_strlit("org.opensearch.action.FailedNodeException");
            reveal_strlit("org.opensearch.action.NoSuchNodeException");
            assert("org.opensearch.action.FailedNodeException"@[22] != "org.opensearch.action.NoSuchNodeException"@[22]);
        },
        72 => {
            reveal_strlit("org.opensearch.search.SearchParseException");
            reveal_strlit("org.opensearch.OpenSearchSecurityException");
            assert("org.opensearch.search.SearchParseException"@[15] != "org.opensearch.OpenSearchSecurityException"@[15]);
            reveal_strlit("org.opensearch.snapshots.SnapshotException");
            assert("org.opensearch.search.SearchParseException"@[16] != "org.opensearch.snapshots.SnapshotException"@[16]);
        },
        73 => {
            reveal_strlit("org.opensearch.snapshots.ConcurrentSnapshotExecutionException");
            reveal_strlit("org.opensearch.discovery.ClusterManagerNotDiscoveredException");
            assert("org.opensearch.snapshots.ConcurrentSnapshotExecutionException"@[15] != "org.opensearch.discovery.ClusterManagerNotDiscoveredException"@[15]);
            reveal_strlit("org.opensearch.indices.IndexPrimaryShardNotAllocatedException");
            assert("org.opensearch.snapshots.ConcurrentSnapshotExecutionException"@[15] != "org.opensearch.indices.IndexPrimaryShardNotAllocatedException"@[15]);
            reveal_strlit("org.opensearch.indices.recovery.RecoverFilesRecoveryException");
            assert("org.opensearch.snapshots.ConcurrentSnapshotExecutionException"@[15] != "org.opensearch.indices.recovery.RecoverFilesRecoveryException"@[15]);
        },
        74 => {
            reveal_strlit("org.opensearch.common.blobstore.BlobStoreException");
            reveal_strlit("org.opensearch.transport.ConnectTransportException");
            assert("org.opensearch.common.blobstore.BlobStoreException"@[15] != "org.opensearch.transport.ConnectTransportException"@[15]);
            reveal_strlit("org.opensearch.snapshots.SnapshotCreationException");
            assert("org.opensearch.common.blobstore.BlobStoreException"@[15] != "org.opensearch.snapshots.SnapshotCreationException"@[15]);
            reveal_strlit("org.opensearch.cluster.block.ClusterBlockException");
            assert("org.opensearch.common.blobstore.BlobStoreException"@[16] != "org.opensearch.cluster.block.ClusterBlockException"@[16]);
            reveal_strlit("org.opensearch.indices.AliasFilterParsingException");
            assert("org.opensearch.common.blobstore.BlobStoreException"@[15] != "org.opensearch.indices.AliasFilterParsingException"@[15]);
        },
        75 => {
            reveal_strlit("org.opensearch.cluster.IncompatibleClusterStateVersionException");
        },
        76 => {
            reveal_strlit("org.opensearch.index.engine.RecoveryEngineException");
            reveal_strlit("org.opensearch.search.SearchContextMissingException");
            assert("org.opensearch.index.engine.RecoveryEngineException"@[15] != "org.opensearch.search.SearchContextMissingException"@[15]);
            reveal_strlit("org.opensearch.action.PrimaryMissingActionException");
            assert("org.opensearch.index.engine.RecoveryEngineException"@[15] != "org.opensearch.action.PrimaryMissingActionException"@[15]);
        },
        77 => {
            reveal_strlit("org.opensearch.common.util.concurrent.UncategorizedExecutionException");
            reveal_strlit("org.opensearch.core.index.snapshots.IndexShardSnapshotFailedException");
            assert("org.opensearch.common.util.concurrent.UncategorizedExecutionException"@[17] != "org.opensearch.core.index.snapshots.IndexShardSnapshotFailedException"@[17]);
        },
        78 => {
            reveal_strlit("org.opensearch.action.TimestampParsingException");
            reveal_strlit("org.opensearch.indices.InvalidTypeNameException");
            assert("org.opensearch.action.TimestampParsingException"@[15] != "org.opensearch.indices.InvalidTypeNameException"@[15]);
        },
        79 => {
            reveal_strlit("org.opensearch.action.RoutingMissingException");
            reveal_strlit("org.opensearch.indices.IndexCreationException");
            assert("org.opensearch.action.RoutingMissingException"@[15] != "org.opensearch.indices.IndexCreationException"@[15]);
        },
        81 => {
            reveal_strlit("org.opensearch.index.snapshots.IndexShardRestoreFailedException");
            reveal_strlit("org.opensearch.cluster.IncompatibleClusterStateVersionException");
            assert("org.opensearch.index.snapshots.IndexShardRestoreFailedException"@[15] != "org.opensearch.cluster.IncompatibleClusterStateVersionException"@[15]);
        },
        82 => {
            reveal_strlit("org.opensearch.repositories.RepositoryException");
            reveal_strlit("org.opensearch.indices.InvalidTypeNameException");
            assert("org.opensearch.repositories.RepositoryException"@[15] != "org.opensearch.indices.InvalidTypeNameException"@[15]);
            reveal_strlit("org.opensearch.action.TimestampParsingException");
            assert("org.opensearch.repositories.RepositoryException"@[15] != "org.opensearch.action.TimestampParsingException"@[15]);
        },
        83 => {
            reveal_strlit("org.opensearch.transport.ReceiveTimeoutTransportException");
            reveal_strlit("org.opensearch.index.snapshots.IndexShardRestoreException");
            assert("org.opensearch.transport.ReceiveTimeoutTransportException"@[15] != "org.opensearch.index.snapshots.IndexShardRestoreException"@[15]);
            reveal_strlit("org.opensearch.index.engine.SnapshotFailedEngineException");
            assert("org.opensearch.transport.ReceiveTimeoutTransportException"@[15] != "org.opensearch.index.engine.SnapshotFailedEngineException"@[15]);
        },
        84 => {
            reveal_strlit("org.opensearch.transport.NodeDisconnectedException");
            reveal_strlit("org.opensearch.transport.ConnectTransportException");
            assert("org.opensearch.transport.NodeDisconnectedException"@[25] != "org.opensearch.transport.ConnectTransportException"@[25]);
            reveal_strlit("org.opensearch.snapshots.SnapshotCreationException");
            assert("org.opensearch.transport.NodeDisconnectedException"@[15] != "org.opensearch.snapshots.SnapshotCreationException"@[15]);
            reveal_strlit("org.opensearch.cluster.block.ClusterBlockException");
            assert("org.opensearch.transport.NodeDisconnectedException"@[15] != "org.opensearch.cluster.block.ClusterBlockException"@[15]);
            reveal_strlit("org.opensearch.indices.AliasFilterParsingException");
            assert("org.opensearch.transport.NodeDisconnectedException"@[15] != "org.opensearch.indices.AliasFilterParsingException"@[15]);
            reveal_strlit("org.opensearch.common.blobstore.BlobStoreException");
            assert("org.opensearch.transport.NodeDisconnectedException"@[15] != "org.opensearch.common.blobstore.BlobStoreException"@[15]);
        },
        86 => {
            reveal_strlit("org.opensearch.search.aggregations.AggregationExecutionException");
            reveal_strlit("org.opensearch.cluster.routing.IllegalShardRoutingStateException");
            assert("org.opensearch.search.aggregations.AggregationExecutionException"@[15] != "org.opensearch.cluster.routing.IllegalShardRoutingStateException"@[15]);
        },
        88 => {
            reveal_strlit("org.opensearch.indices.InvalidIndexTemplateException");
            reveal_strlit("org.opensearch.search.dfs.DfsPhaseExecutionException");
            assert("org.opensearch.indices.InvalidIndexTemplateException"@[15] != "org.opensearch.search.dfs.DfsPhaseExecutionException"@[15]);
            reveal_strlit("org.opensearch.index.engine.DocumentMissingException");
            assert("org.opensearch.indices.InvalidIndexTemplateException"@[18] != "org.opensearch.index.engine.DocumentMissingException"@[18]);
            reveal_strlit("org.opensearch.index.shard.IndexShardClosedException");
            assert("org.opensearch.indices.InvalidIndexTemplateException"@[18] != "org.opensearch.index.shard.IndexShardClosedException"@[18]);
            reveal_strlit("org.opensearch.indices.IndexTemplateMissingException");
            assert("org.opensearch.indices.InvalidIndexTemplateException"@[25] != "org.opensearch.indices.IndexTemplateMissingException"@[25]);
        },
        90 => {
            reveal_strlit("org.opensearch.index.engine.RefreshFailedEngineException");
            reveal_strlit("org.opensearch.index.translog.TruncatedTranslogException");
            assert("org.opensearch.index.engine.RefreshFailedEngineException"@[21] != "org.opensearch.index.translog.TruncatedTranslogException"@[21]);
            reveal_strlit("org.opensearch.index.translog.TranslogCorruptedException");
            assert("org.opensearch.index.engine.RefreshFailedEngineException"@[21] != "org.opensearch.index.translog.TranslogCorruptedException"@[21]);
            reveal_strlit("org.opensearch.search.fetch.FetchPhaseExecutionException");
            assert("org.opensearch.index.engine.RefreshFailedEngineException"@[15] != "org.opensearch.search.fetch.FetchPhaseExecutionException"@[15]);
        },
        91 => {
            reveal_strlit("org.opensearch.search.aggregations.AggregationInitializationException");
            reveal_strlit("org.opensearch.core.index.snapshots.IndexShardSnapshotFailedException");
            assert("org.opensearch.search.aggregations.AggregationInitializationException"@[15] != "org.opensearch.core.index.snapshots.IndexShardSnapshotFailedException"@[15]);
            reveal_strlit("org.opensearch.common.util.concurrent.UncategorizedExecutionException");
            assert("org.opensearch.search.aggregations.AggregationInitializationException"@[15] != "org.opensearch.common.util.concurrent.UncategorizedExecutionException"@[15]);
        },
        92 => {
            reveal_strlit("org.opensearch.indices.recovery.DelayRecoveryException");
            reveal_strlit("org.opensearch.transport.NodeShouldNotConnectException");
            assert("org.opensearch.indices.recovery.DelayRecoveryException"@[15] != "org.opensearch.transport.NodeShouldNotConnectException"@[15]);
            reveal_strlit("org.opensearch.transport.SendRequestTransportException");
            assert("org.opensearch.indices.recovery.DelayRecoveryException"@[15] != "org.opensearch.transport.SendRequestTransportException"@[15]);
        },
        94 => {
            reveal_strlit("org.opensearch.transport.client.transport.NoNodeAvailableException");
        },
        96 => {
            reveal_strlit("org.opensearch.snapshots.InvalidSnapshotNameException");
            reveal_strlit("org.opensearch.index.shard.IndexShardStartedException");
            assert("org.opensearch.snapshots.InvalidSnapshotNameException"@[15] != "org.opensearch.index.shard.IndexShardStartedException"@[15]);
        },
        97 => {
            reveal_strlit("org.opensearch.index.shard.IllegalIndexShardStateException");
            reveal_strlit("org.opensearch.transport.NotSerializableTransportException");
            assert("org.opensearch.index.shard.IllegalIndexShardStateException"@[15] != "org.opensearch.transport.NotSerializableTransportException"@[15]);
            reveal_strlit("org.opensearch.index.engine.VersionConflictEngineException");
            assert("org.opensearch.index.shard.IllegalIndexShardStateException"@[21] != "org.opensearch.index.engine.VersionConflictEngineException"@[21]);
        },
        98 => {
            reveal_strlit("org.opensearch.core.index.snapshots.IndexShardSnapshotException");
            reveal_strlit("org.opensearch.cluster.IncompatibleClusterStateVersionException");
            assert("org.opensearch.core.index.snapshots.IndexShardSnapshotException"@[16] != "org.opensearch.cluster.IncompatibleClusterStateVersionException"@[16]);
            reveal_strlit("org.opensearch.index.snapshots.IndexShardRestoreFailedException");
            assert("org.opensearch.core.index.snapshots.IndexShardSnapshotException"@[15] != "org.opensearch.index.snapshots.IndexShardRestoreFailedException"@[15]);
        },
        99 => {
            reveal_strlit("org.opensearch.index.shard.IndexShardNotStartedException");
            reveal_strlit("org.opensearch.index.translog.TruncatedTranslogException");
            assert("org.opensearch.index.shard.IndexShardNotStartedException"@[21] != "org.opensearch.index.translog.TruncatedTranslogException"@[21]);
            reveal_strlit("org.opensearch.index.translog.TranslogCorruptedException");
            assert("org.opensearch.index.shard.IndexShardNotStartedException"@[21] != "org.opensearch.index.translog.TranslogCorruptedException"@[21]);
            reveal_strlit("org.opensearch.search.fetch.FetchPhaseExecutionException");
            assert("org.opensearch.index.shard.IndexShardNotStartedException"@[15] != "org.opensearch.search.fetch.FetchPhaseExecutionException"@[15]);
            reveal_strlit("org.opensearch.index.engine.RefreshFailedEngineException");
            assert("org.opensearch.index.shard.IndexShardNotStartedException"@[21] != "org.opensearch.index.engine.RefreshFailedEngineException"@[21]);
        },
        100 => {
            reveal_strlit("org.opensearch.action.search.SearchPhaseExecutionException");
            reveal_strlit("org.opensearch.transport.NotSerializableTransportException");
            assert("org.opensearch.action.search.SearchPhaseExecutionException"@[15] != "org.opensearch.transport.NotSerializableTransportException"@[15]);
            reveal_strlit("org.opensearch.index.engine.VersionConflictEngineException");
            assert("org.opensearch.action.search.SearchPhaseExecutionException"@[15] != "org.opensearch.index.engine.VersionConflictEngineException"@[15]);
            reveal_strlit("org.opensearch.index.shard.IllegalIndexShardStateException");
            assert("org.opensearch.action.search.SearchPhaseExecutionException"@[15] != "org.opensearch.index.shard.IllegalIndexShardStateException"@[15]);
        },
        101 => {
            reveal_strlit("org.opensearch.transport.ActionNotFoundTransportException");
            reveal_strlit("org.opensearch.index.snapshots.IndexShardRestoreException");
            assert("org.opensearch.transport.ActionNotFoundTransportException"@[15] != "org.opensearch.index.snapshots.IndexShardRestoreException"@[15]);
            reveal_strlit("org.opensearch.index.engine.SnapshotFailedEngineException");
            assert("org.opensearch.transport.ActionNotFoundTransportException"@[15] != "org.opensearch.index.engine.SnapshotFailedEngineException"@[15]);
            reveal_strlit("org.opensearch.transport.ReceiveTimeoutTransportException");
            assert("org.opensearch.transport.ActionNotFoundTransportException"@[25] != "org.opensearch.transport.ReceiveTimeoutTransportException"@[25]);
        },
        102 => {
            reveal_strlit("org.opensearch.transport.TransportSerializationException");
            reveal_strlit("org.opensearch.index.translog.TruncatedTranslogException");
            assert("org.opensearch.transport.TransportSerializationException"@[15] != "org.opensearch.index.translog.TruncatedTranslogException"@[15]);
            reveal_strlit("org.opensearch.index.translog.TranslogCorruptedException");
            assert("org.opensearch.transport.TransportSerializationException"@[15] != "org.opensearch.index.translog.TranslogCorruptedException"@[15]);
            reveal_strlit("org.opensearch.search.fetch.FetchPhaseExecutionException");
            assert("org.opensearch.transport.TransportSerializationException"@[15] != "org.opensearch.search.fetch.FetchPhaseExecutionException"@[15]);
            reveal_strlit("org.opensearch.index.engine.RefreshFailedEngineException");
            assert("org.opensearch.transport.TransportSerializationException"@[15] != "org.opensearch.index.engine.RefreshFailedEngineException"@[15]);
            reveal_strlit("org.opensearch.index.shard.IndexShardNotStartedException");
            assert("org.opensearch.transport.TransportSerializationException"@[15] != "org.opensearch.index.shard.IndexShardNotStartedException"@[15]);
        },
        103 => {
            reveal_strlit("org.opensearch.transport.RemoteTransportException");
            reveal_strlit("org.opensearch.index.shard.ShardNotFoundException");
            assert("org.opensearch.transport.RemoteTransportException"@[15] != "org.opensearch.index.shard.ShardNotFoundException"@[15]);
            reveal_strlit("org.opensearch.transport.ActionTransportException");
            assert("org.opensearch.transport.RemoteTransportException"@[25] != "org.opensearch.transport.ActionTransportException"@[25]);
            reveal_strlit("org.opensearch.snapshots.SnapshotRestoreException");
            assert("org.opensearch.transport.RemoteTransportException"@[15] != "org.opensearch.snapshots.SnapshotRestoreException"@[15]);
            reveal_strlit("org.opensearch.snapshots.SnapshotMissingException");
            assert("org.opensearch.transport.RemoteTransportException"@[15] != "org.opensearch.snapshots.SnapshotMissingException"@[15]);
        },
        104 => {
            reveal_strlit("org.opensearch.index.engine.EngineCreationFailureException");
            reveal_strlit("org.opensearch.transport.NotSerializableTransportException");
            assert("org.opensearch.index.engine.EngineCreationFailureException"@[15] != "org.opensearch.transport.NotSerializableTransportException"@[15]);
            reveal_strlit("org.opensearch.index.engine.VersionConflictEngineException");
            assert("org.opensearch.index.engine.EngineCreationFailureException"@[28] != "org.opensearch.index.engine.VersionConflictEngineException"@[28]);
            reveal_strlit("org.opensearch.index.shard.IllegalIndexShardStateException");
            assert("org.opensearch.index.engine.EngineCreationFailureException"@[21] != "org.opensearch.index.shard.IllegalIndexShardStateException"@[21]);
            reveal_strlit("org.opensearch.action.search.SearchPhaseExecutionException");
            assert("org.opensearch.index.engine.EngineCreationFailureException"@[15] != "org.opensearch.action.search.SearchPhaseExecutionException"@[15]);
        },
        105 => {
            reveal_strlit("org.opensearch.cluster.routing.RoutingException");
            reveal_strlit("org.opensearch.indices.InvalidTypeNameException");
            assert("org.opensearch.cluster.routing.RoutingException"@[15] != "org.opensearch.indices.InvalidTypeNameException"@[15]);
            reveal_strlit("org.opensearch.action.TimestampParsingException");
            assert("org.opensearch.cluster.routing.RoutingException"@[15] != "org.opensearch.action.TimestampParsingException"@[15]);
            reveal_strlit("org.opensearch.repositories.RepositoryException");
            assert("org.opensearch.cluster.routing.RoutingException"@[15] != "org.opensearch.repositories.RepositoryException"@[15]);
        },
        106 => {
            reveal_strlit("org.opensearch.index.shard.IndexShardRecoveryException");
            reveal_strlit("org.opensearch.transport.NodeShouldNotConnectException");
            assert("org.opensearch.index.shard.IndexShardRecoveryException"@[15] != "org.opensearch.transport.NodeShouldNotConnectException"@[15]);
            reveal_strlit("org.opensearch.transport.SendRequestTransportException");
            assert("org.opensearch.index.shard.IndexShardRecoveryException"@[15] != "org.opensearch.transport.SendRequestTransportException"@[15]);
            reveal_strlit("org.opensearch.indices.recovery.DelayRecoveryException");
            assert("org.opensearch.index.shard.IndexShardRecoveryException"@[18] != "org.opensearch.indices.recovery.DelayRecoveryException"@[18]);
        },
        107 => {
            reveal_strlit("org.opensearch.repositories.RepositoryMissingException");
            reveal_strlit("org.opensearch.transport.NodeShouldNotConnectException");
            assert("org.opensearch.repositories.RepositoryMissingException"@[15] != "org.opensearch.transport.NodeShouldNotConnectException"@[15]);
            reveal_strlit("org.opensearch.transport.SendRequestTransportException");
            assert("org.opensearch.repositories.RepositoryMissingException"@[15] != "org.opensearch.transport.SendRequestTransportException"@[15]);
            reveal_strlit("org.opensearch.indices.recovery.DelayRecoveryException");
            assert("org.opensearch.repositories.RepositoryMissingException"@[15] != "org.opensearch.indices.recovery.DelayRecoveryException"@[15]);
            reveal_strlit("org.opensearch.index.shard.IndexShardRecoveryException");
            assert("org.opensearch.repositories.RepositoryMissingException"@[15] != "org.opensearch.index.shard.IndexShardRecoveryException"@[15]);
        },
        109 => {
            reveal_strlit("org.opensearch.index.engine.DocumentSourceMissingException");
            reveal_strlit("org.opensearch.transport.NotSerializableTransportException");
            assert("org.opensearch.index.engine.DocumentSourceMissingException"@[15] != "org.opensearch.transport.NotSerializableTransportException"@[15]);
            reveal_strlit("org.opensearch.index.engine.VersionConflictEngineException");
            assert("org.opensearch.index.engine.DocumentSourceMissingException"@[28] != "org.opensearch.index.engine.VersionConflictEngineException"@[28]);
            reveal_strlit("org.opensearch.index.shard.IllegalIndexShardStateException");
            assert("org.opensearch.index.engine.DocumentSourceMissingException"@[21] != "org.opensearch.index.shard.IllegalIndexShardStateException"@[21]);
            reveal_strlit("org.opensearch.action.search.SearchPhaseExecutionException");
            assert("org.opensearch.index.engine.DocumentSourceMissingException"@[15] != "org.opensearch.action.search.SearchPhaseExecutionException"@[15]);
            reveal_strlit("org.opensearch.index.engine.EngineCreationFailureException");
            assert("org.opensearch.index.engine.DocumentSourceMissingException"@[28] != "org.opensearch.index.engine.EngineCreationFailureException"@[28]);
        },
        111 => {
            reveal_strlit("org.opensearch.common.settings.NoClassSettingsException");
            reveal_strlit("org.opensearch.action.search.ReduceSearchPhaseException");
            assert("org.opensearch.common.settings.NoClassSettingsException"@[15] != "org.opensearch.action.search.ReduceSearchPhaseException"@[15]);
            reveal_strlit("org.opensearch.indices.recovery.RecoveryFailedException");
            assert("org.opensearch.common.settings.NoClassSettingsException"@[15] != "org.opensearch.indices.recovery.RecoveryFailedException"@[15]);
            reveal_strlit("org.opensearch.index.shard.IndexShardRelocatedException");
            assert("org.opensearch.common.settings.NoClassSettingsException"@[15] != "org.opensearch.index.shard.IndexShardRelocatedException"@[15]);
        },
        112 => {
            reveal_strlit("org.opensearch.transport.BindTransportException");
            reveal_strlit("org.opensearch.indices.InvalidTypeNameException");
            assert("org.opensearch.transport.BindTransportException"@[15] != "org.opensearch.indices.InvalidTypeNameException"@[15]);
            reveal_strlit("org.opensearch.action.TimestampParsingException");
            assert("org.opensearch.transport.BindTransportException"@[15] != "org.opensearch.action.TimestampParsingException"@[15]);
            reveal_strlit("org.opensearch.repositories.RepositoryException");
            assert("org.opensearch.transport.BindTransportException"@[15] != "org.opensearch.repositories.RepositoryException"@[15]);
            reveal_strlit("org.opensearch.cluster.routing.RoutingException");
            assert("org.opensearch.transport.BindTransportException"@[15] != "org.opensearch.cluster.routing.RoutingException"@[15]);
        },
        113 => {
            reveal_strlit("org.opensearch.rest.action.admin.indices.AliasesNotFoundException");
            reveal_strlit("org.opensearch.transport.ResponseHandlerFailureTransportException");
            assert("org.opensearch.rest.action.admin.indices.AliasesNotFoundException"@[15] != "org.opensearch.transport.ResponseHandlerFailureTransportException"@[15]);
        },
        114 => {
            reveal_strlit("org.opensearch.index.shard.IndexShardRecoveringException");
            reveal_strlit("org.opensearch.index.translog.TruncatedTranslogException");
            assert("org.opensearch.index.shard.IndexShardRecoveringException"@[21] != "org.opensearch.index.translog.TruncatedTranslogException"@[21]);
            reveal_strlit("org.opensearch.index.translog.TranslogCorruptedException");
            assert("org.opensearch.index.shard.IndexShardRecoveringException"@[21] != "org.opensearch.index.translog.TranslogCorruptedException"@[21]);
            reveal_strlit("org.opensearch.search.fetch.FetchPhaseExecutionException");
            assert("org.opensearch.index.shard.IndexShardRecoveringException"@[15] != "org.opensearch.search.fetch.FetchPhaseExecutionException"@[15]);
            reveal_strlit("org.opensearch.index.engine.RefreshFailedEngineException");
            assert("org.opensearch.index.shard.IndexShardRecoveringException"@[21] != "org.opensearch.index.engine.RefreshFailedEngineException"@[21]);
            reveal_strlit("org.opensearch.index.shard.IndexShardNotStartedException");
            assert("org.opensearch.index.shard.IndexShardRecoveringException"@[37] != "org.opensearch.index.shard.IndexShardNotStartedException"@[37]);
            reveal_strlit("org.opensearch.transport.TransportSerializationException");
            assert("org.opensearch.index.shard.IndexShardRecoveringException"@[15] != "org.opensearch.transport.TransportSerializationException"@[15]);
        },
        115 => {
            reveal_strlit("org.opensearch.index.translog.TranslogException");
            reveal_strlit("org.opensearch.indices.InvalidTypeNameException");
            assert("org.opensearch.index.translog.TranslogException"@[18] != "org.opensearch.indices.InvalidTypeNameException"@[18]);
            reveal_strlit("org.opensearch.action.TimestampParsingException");
            assert("org.opensearch.index.translog.TranslogException"@[15] != "org.opensearch.action.TimestampParsingException"@[15]);
            reveal_strlit("org.opensearch.repositories.RepositoryException");
            assert("org.opensearch.index.translog.TranslogException"@[15] != "org.opensearch.repositories.RepositoryException"@[15]);
            reveal_strlit("org.opensearch.cluster.routing.RoutingException");
            assert("org.opensearch.index.translog.TranslogException"@[15] != "org.opensearch.cluster.routing.RoutingException"@[15]);
            reveal_strlit("org.opensearch.transport.BindTransportException");
            assert("org.opensearch.index.translog.TranslogException"@[15] != "org.opensearch.transport.BindTransportException"@[15]);
        },
        116 => {
            reveal_strlit("org.opensearch.cluster.metadata.ProcessClusterEventTimeoutException");
        },
        117 => {
            reveal_strlit("org.opensearch.action.support.replication.ReplicationOperation.RetryOnPrimaryException");
        },
        118 => {
            reveal_strlit("org.opensearch.OpenSearchTimeoutException");
            reveal_strlit("org.opensearch.action.NoSuchNodeException");
            assert("org.opensearch.OpenSearchTimeoutException"@[15] != "org.opensearch.action.NoSuchNodeException"@[15]);
            reveal_strlit("org.opensearch.action.FailedNodeException");
            assert("org.opensearch.OpenSearchTimeoutException"@[15] != "org.opensearch.action.FailedNodeException"@[15]);
        },
        119 => {
            reveal_strlit("org.opensearch.search.query.QueryPhaseExecutionException");
            reveal_strlit("org.opensearch.index.translog.TruncatedTranslogException");
            assert("org.opensearch.search.query.QueryPhaseExecutionException"@[15] != "org.opensearch.index.translog.TruncatedTranslogException"@[15]);
            reveal_strlit("org.opensearch.index.translog.TranslogCorruptedException");
            assert("org.opensearch.search.query.QueryPhaseExecutionException"@[15] != "org.opensearch.index.translog.TranslogCorruptedException"@[15]);
            reveal_strlit("org.opensearch.search.fetch.FetchPhaseExecutionException");
            assert("org.opensearch.search.query.QueryPhaseExecutionException"@[22] != "org.opensearch.search.fetch.FetchPhaseExecutionException"@[22]);
            reveal_strlit("org.opensearch.index.engine.RefreshFailedEngineException");
            assert("org.opensearch.search.query.QueryPhaseExecutionException"@[15] != "org.opensearch.index.engine.RefreshFailedEngineException"@[15]);
            reveal_strlit("org.opensearch.index.shard.IndexShardNotStartedException");
            assert("org.opensearch.search.query.QueryPhaseExecutionException"@[15] != "org.opensearch.index.shard.IndexShardNotStartedException"@[15]);
            reveal_strlit("org.opensearch.transport.TransportSerializationException");
            assert("org.opensearch.search.query.QueryPhaseExecutionException"@[15] != "org.opensearch.transport.TransportSerializationException"@[15]);
            reveal_strlit("org.opensearch.index.shard.IndexShardRecoveringException");
            assert("org.opensearch.search.query.QueryPhaseExecutionException"@[15] != "org.opensearch.index.shard.IndexShardRecoveringException"@[15]);
        },
        120 => {
            reveal_strlit("org.opensearch.repositories.RepositoryVerificationException");
            reveal_strlit("org.opensearch.index.shard.IndexShardNotRecoveringException");
            assert("org.opensearch.repositories.RepositoryVerificationException"@[15] != "org.opensearch.index.shard.IndexShardNotRecoveringException"@[15]);
        },
        121 => {
            reveal_strlit("org.opensearch.search.aggregations.InvalidAggregationPathException");
            reveal_strlit("org.opensearch.transport.client.transport.NoNodeAvailableException");
            assert("org.opensearch.search.aggregations.InvalidAggregationPathException"@[15] != "org.opensearch.transport.client.transport.NoNodeAvailableException"@[15]);
        },
        123 => {
            reveal_strlit("org.opensearch.ResourceAlreadyExistsException");
            reveal_strlit("org.opensearch.indices.IndexCreationException");
            assert("org.opensearch.ResourceAlreadyExistsException"@[15] != "org.opensearch.indices.IndexCreationException"@[15]);
            reveal_strlit("org.opensearch.action.RoutingMissingException");
            assert("org.opensearch.ResourceAlreadyExistsException"@[15] != "org.opensearch.action.RoutingMissingException"@[15]);
        },
        125 => {
            reveal_strlit("org.opensearch.transport.TcpTransport.HttpRequestOnTransportException");
            reveal_strlit("org.opensearch.core.index.snapshots.IndexShardSnapshotFailedException");
            assert("org.opensearch.transport.TcpTransport.HttpRequestOnTransportException"@[15] != "org.opensearch.core.index.snapshots.IndexShardSnapshotFailedException"@[15]);
            reveal_strlit("org.opensearch.common.util.concurrent.UncategorizedExecutionException");
            assert("org.opensearch.transport.TcpTransport.HttpRequestOnTransportException"@[15] != "org.opensearch.common.util.concurrent.UncategorizedExecutionException"@[15]);
            reveal_strlit("org.opensearch.search.aggregations.AggregationInitializationException");
            assert("org.opensearch.transport.TcpTransport.HttpRequestOnTransportException"@[15] != "org.opensearch.search.aggregations.AggregationInitializationException"@[15]);
        },
        126 => {
            reveal_strlit("org.opensearch.index.mapper.MapperParsingException");
            reveal_strlit("org.opensearch.transport.ConnectTransportException");
            assert("org.opensearch.index.mapper.MapperParsingException"@[15] != "org.opensearch.transport.ConnectTransportException"@[15]);
            reveal_strlit("org.opensearch.snapshots.SnapshotCreationException");
            assert("org.opensearch.index.mapper.MapperParsingException"@[15] != "org.opensearch.snapshots.SnapshotCreationException"@[15]);
            reveal_strlit("org.opensearch.cluster.block.ClusterBlockException");
            assert("org.opensearch.index.mapper.MapperParsingException"@[15] != "org.opensearch.cluster.block.ClusterBlockException"@[15]);
            reveal_strlit("org.opensearch.indices.AliasFilterParsingException");
            assert("org.opensearch.index.mapper.MapperParsingException"@[18] != "org.opensearch.indices.AliasFilterParsingException"@[18]);
            reveal_strlit("org.opensearch.common.blobstore.BlobStoreException");
            assert("org.opensearch.index.mapper.MapperParsingException"@[15] != "org.opensearch.common.blobstore.BlobStoreException"@[15]);
            reveal_strlit("org.opensearch.transport.NodeDisconnectedException");
            assert("org.opensearch.index.mapper.MapperParsingException"@[15] != "org.opensearch.transport.NodeDisconnectedException"@[15]);
        },
        128 => {
            reveal_strlit("org.opensearch.search.builder.SearchSourceBuilderException");
            reveal_strlit("org.opensearch.transport.NotSerializableTransportException");
            assert("org.opensearch.search.builder.SearchSourceBuilderException"@[15] != "org.opensearch.transport.NotSerializableTransportException"@[15]);
            reveal_strlit("org.opensearch.index.engine.VersionConflictEngineException");
            assert("org.opensearch.search.builder.SearchSourceBuilderException"@[15] != "org.opensearch.index.engine.VersionConflictEngineException"@[15]);
            reveal_strlit("org.opensearch.index.shard.IllegalIndexShardStateException");
            assert("org.opensearch.search.builder.SearchSourceBuilderException"@[15] != "org.opensearch.index.shard.IllegalIndexShardStateException"@[15]);
            reveal_strlit("org.opensearch.action.search.SearchPhaseExecutionException");
            assert("org.opensearch.search.builder.SearchSourceBuilderException"@[15] != "org.opensearch.action.search.SearchPhaseExecutionException"@[15]);
            reveal_strlit("org.opensearch.index.engine.EngineCreationFailureException");
            assert("org.opensearch.search.builder.SearchSourceBuilderException"@[15] != "org.opensearch.index.engine.EngineCreationFailureException"@[15]);
            reveal_strlit("org.opensearch.index.engine.DocumentSourceMissingException");
            assert("org.opensearch.search.builder.SearchSourceBuilderException"@[15] != "org.opensearch.index.engine.DocumentSourceMissingException"@[15]);
        },
        130 => {
            reveal_strlit("org.opensearch.action.NoShardAvailableActionException");
            reveal_strlit("org.opensearch.index.shard.IndexShardStartedException");
            assert("org.opensearch.action.NoShardAvailableActionException"@[15] != "org.opensearch.index.shard.IndexShardStartedException"@[15]);
            reveal_strlit("org.opensearch.snapshots.InvalidSnapshotNameException");
            assert("org.opensearch.action.NoShardAvailableActionException"@[15] != "org.opensearch.snapshots.InvalidSnapshotNameException"@[15]);
        },
        131 => {
            reveal_strlit("org.opensearch.action.UnavailableShardsException");
            reveal_strlit("org.opensearch.indices.InvalidAliasNameException");
            assert("org.opensearch.action.UnavailableShardsException"@[15] != "org.opensearch.indices.InvalidAliasNameException"@[15]);
            reveal_strlit("org.opensearch.indices.InvalidIndexNameException");
            assert("org.opensearch.action.UnavailableShardsException"@[15] != "org.opensearch.indices.InvalidIndexNameException"@[15]);
            reveal_strlit("org.opensearch.common.settings.SettingsException");
            assert("org.opensearch.action.UnavailableShardsException"@[15] != "org.opensearch.common.settings.SettingsException"@[15]);
        },
        132 => {
            reveal_strlit("org.opensearch.index.engine.FlushFailedEngineException");
            reveal_strlit("org.opensearch.transport.NodeShouldNotConnectException");
            assert("org.opensearch.index.engine.FlushFailedEngineException"@[15] != "org.opensearch.transport.NodeShouldNotConnectException"@[15]);
            reveal_strlit("org.opensearch.transport.SendRequestTransportException");
            assert("org.opensearch.index.engine.FlushFailedEngineException"@[15] != "org.opensearch.transport.SendRequestTransportException"@[15]);
            reveal_strlit("org.opensearch.indices.recovery.DelayRecoveryException");
            assert("org.opensearch.index.engine.FlushFailedEngineException"@[18] != "org.opensearch.indices.recovery.DelayRecoveryException"@[18]);
            reveal_strlit("org.opensearch.index.shard.IndexShardRecoveryException");
            assert("org.opensearch.index.engine.FlushFailedEngineException"@[21] != "org.opensearch.index.shard.IndexShardRecoveryException"@[21]);
            reveal_strlit("org.opensearch.repositories.RepositoryMissingException");
            assert("org.opensearch.index.engine.FlushFailedEngineException"@[15] != "org.opensearch.repositories.RepositoryMissingException"@[15]);
        },
        133 => {
            reveal_strlit("org.opensearch.core.common.breaker.CircuitBreakingException");
            reveal_strlit("org.opensearch.index.shard.IndexShardNotRecoveringException");
            assert("org.opensearch.core.common.breaker.CircuitBreakingException"@[15] != "org.opensearch.index.shard.IndexShardNotRecoveringException"@[15]);
            reveal_strlit("org.opensearch.repositories.RepositoryVerificationException");
            assert("org.opensearch.core.common.breaker.CircuitBreakingException"@[15] != "org.opensearch.repositories.RepositoryVerificationException"@[15]);
        },
        134 => {
            reveal_strlit("org.opensearch.transport.NodeNotConnectedException");
            reveal_strlit("org.opensearch.transport.ConnectTransportException");
            assert("org.opensearch.transport.NodeNotConnectedException"@[25] != "org.opensearch.transport.ConnectTransportException"@[25]);
            reveal_strlit("org.opensearch.snapshots.SnapshotCreationException");
            assert("org.opensearch.transport.NodeNotConnectedException"@[15] != "org.opensearch.snapshots.SnapshotCreationException"@[15]);
            reveal_strlit("org.opensearch.cluster.block.ClusterBlockException");
            assert("org.opensearch.transport.NodeNotConnectedException"@[15] != "org.opensearch.cluster.block.ClusterBlockException"@[15]);
            reveal_strlit("org.opensearch.indices.AliasFilterParsingException");
            assert("org.opensearch.transport.NodeNotConnectedException"@[15] != "org.opensearch.indices.AliasFilterParsingException"@[15]);
            reveal_strlit("org.opensearch.common.blobstore.BlobStoreException");
            assert("org.opensearch.transport.NodeNotConnectedException"@[15] != "org.opensearch.common.blobstore.BlobStoreException"@[15]);
            reveal_strlit("org.opensearch.transport.NodeDisconnectedException");
            assert("org.opensearch.transport.NodeNotConnectedException"@[29] != "org.opensearch.transport.NodeDisconnectedException"@[29]);
            reveal_strlit("org.opensearch.index.mapper.MapperParsingException");
            assert("org.opensearch.transport.NodeNotConnectedException"@[15] != "org.opensearch.index.mapper.MapperParsingException"@[15]);
        },
        135 => {
            reveal_strlit("org.opensearch.index.mapper.StrictDynamicMappingException");
            reveal_strlit("org.opensearch.index.snapshots.IndexShardRestoreException");
            assert("org.opensearch.index.mapper.StrictDynamicMappingException"@[21] != "org.opensearch.index.snapshots.IndexShardRestoreException"@[21]);
            reveal_strlit("org.opensearch.index.engine.SnapshotFailedEngineException");
            assert("org.opensearch.index.mapper.StrictDynamicMappingException"@[21] != "org.opensearch.index.engine.SnapshotFailedEngineException"@[21]);
            reveal_strlit("org.opensearch.transport.ReceiveTimeoutTransportException");
            assert("org.opensearch.index.mapper.StrictDynamicMappingException"@[15] != "org.opensearch.transport.ReceiveTimeoutTransportException"@[15]);
            reveal_strlit("org.opensearch.transport.ActionNotFoundTransportException");
            assert("org.opensearch.index.mapper.StrictDynamicMappingException"@[15] != "org.opensearch.transport.ActionNotFoundTransportException"@[15]);
        },
        136 => {
            reveal_strlit("org.opensearch.action.support.replication.TransportReplicationAction.RetryOnReplicaException");
        },
        137 => {
            reveal_strlit("org.opensearch.indices.TypeMissingException");
            reveal_strlit("org.opensearch.indices.IndexClosedException");
            assert("org.opensearch.indices.TypeMissingException"@[23] != "org.opensearch.indices.IndexClosedException"@[23]);
            reveal_strlit("org.opensearch.index.IndexNotFoundException");
            assert("org.opensearch.indices.TypeMissingException"@[18] != "org.opensearch.index.IndexNotFoundException"@[18]);
            reveal_strlit("org.opensearch.transport.TransportException");
            assert("org.opensearch.indices.TypeMissingException"@[15] != "org.opensearch.transport.TransportException"@[15]);
            reveal_strlit("org.opensearch.index.mapper.MapperException");
            assert("org.opensearch.indices.TypeMissingException"@[18] != "org.opensearch.index.mapper.MapperException"@[18]);
            reveal_strlit("org.opensearch.core.common.ParsingException");
            assert("org.opensearch.indices.TypeMissingException"@[15] != "org.opensearch.core.common.ParsingException"@[15]);
            reveal_strlit("org.opensearch.index.engine.EngineException");
            assert("org.opensearch.indices.TypeMissingException"@[18] != "org.opensearch.index.engine.EngineException"@[18]);
        },
        140 => {
            reveal_strlit("org.opensearch.cluster.coordination.FailedToCommitClusterStateException");
        },
        141 => {
            reveal_strlit("org.opensearch.index.query.QueryShardException");
        },
        142 => {
            reveal_strlit("org.opensearch.cluster.action.shard.ShardStateAction.NoLongerPrimaryShardException");
        },
        143 => {
            reveal_strlit("org.opensearch.script.ScriptException");
            reveal_strlit("org.opensearch.http.BindHttpException");
            assert("org.opensearch.script.ScriptException"@[15] != "org.opensearch.http.BindHttpException"@[15]);
            reveal_strlit("org.opensearch.search.SearchException");
            assert("org.opensearch.script.ScriptException"@[16] != "org.opensearch.search.SearchException"@[16]);
        },
        144 => {
            reveal_strlit("org.opensearch.cluster.NotClusterManagerException");
            reveal_strlit("org.opensearch.index.shard.ShardNotFoundException");
            assert("org.opensearch.cluster.NotClusterManagerException"@[15] != "org.opensearch.index.shard.ShardNotFoundException"@[15]);
            reveal_strlit("org.opensearch.transport.ActionTransportException");
            assert("org.opensearch.cluster.NotClusterManagerException"@[15] != "org.opensearch.transport.ActionTransportException"@[15]);
            reveal_strlit("org.opensearch.snapshots.SnapshotRestoreException");
            assert("org.opensearch.cluster.NotClusterManagerException"@[15] != "org.opensearch.snapshots.SnapshotRestoreException"@[15]);
            reveal_strlit("org.opensearch.snapshots.SnapshotMissingException");
            assert("org.opensearch.cluster.NotClusterManagerException"@[15] != "org.opensearch.snapshots.SnapshotMissingException"@[15]);
            reveal_strlit("org.opensearch.transport.RemoteTransportException");
            assert("org.opensearch.cluster.NotClusterManagerException"@[15] != "org.opensearch.transport.RemoteTransportException"@[15]);
        },
        145 => {
            reveal_strlit("org.opensearch.OpenSearchStatusException");
            reveal_strlit("org.opensearch.ResourceNotFoundException");
            assert("org.opensearch.OpenSearchStatusException"@[15] != "org.opensearch.ResourceNotFoundException"@[15]);
        },
        146 => {
            reveal_strlit("org.opensearch.core.tasks.TaskCancelledException");
            reveal_strlit("org.opensearch.indices.InvalidAliasNameException");
            assert("org.opensearch.core.tasks.TaskCancelledException"@[15] != "org.opensearch.indices.InvalidAliasNameException"@[15]);
            reveal_strlit("org.opensearch.indices.InvalidIndexNameException");
            assert("org.opensearch.core.tasks.TaskCancelledException"@[15] != "org.opensearch.indices.InvalidIndexNameException"@[15]);
            reveal_strlit("org.opensearch.common.settings.SettingsException");
            assert("org.opensearch.core.tasks.TaskCancelledException"@[17] != "org.opensearch.common.settings.SettingsException"@[17]);
            reveal_strlit("org.opensearch.action.UnavailableShardsException");
            assert("org.opensearch.core.tasks.TaskCancelledException"@[15] != "org.opensearch.action.UnavailableShardsException"@[15]);
        },
        147 => {
            reveal_strlit("org.opensearch.env.ShardLockObtainFailedException");
            reveal_strlit("org.opensearch.index.shard.ShardNotFoundException");
            assert("org.opensearch.env.ShardLockObtainFailedException"@[15] != "org.opensearch.index.shard.ShardNotFoundException"@[15]);
            reveal_strlit("org.opensearch.transport.ActionTransportException");
            assert("org.opensearch.env.ShardLockObtainFailedException"@[15] != "org.opensearch.transport.ActionTransportException"@[15]);
            reveal_strlit("org.opensearch.snapshots.SnapshotRestoreException");
            assert("org.opensearch.env.ShardLockObtainFailedException"@[15] != "org.opensearch.snapshots.SnapshotRestoreException"@[15]);
            reveal_strlit("org.opensearch.snapshots.SnapshotMissingException");
            assert("org.opensearch.env.ShardLockObtainFailedException"@[15] != "org.opensearch.snapshots.SnapshotMissingException"@[15]);
            reveal_strlit("org.opensearch.transport.RemoteTransportException");
            assert("org.opensearch.env.ShardLockObtainFailedException"@[15] != "org.opensearch.transport.RemoteTransportException"@[15]);
            reveal_strlit("org.opensearch.cluster.NotClusterManagerException");
            assert("org.opensearch.env.ShardLockObtainFailedException"@[15] != "org.opensearch.cluster.NotClusterManagerException"@[15]);
        },
        149 => {
            reveal_strlit("org.opensearch.search.aggregations.MultiBucketConsumerService.TooManyBucketsException");
        },
        150 => {
            reveal_strlit("org.opensearch.cluster.coordination.CoordinationStateRejectedException");
        },
        151 => {
            reveal_strlit("org.opensearch.snapshots.SnapshotInProgressException");
            reveal_strlit("org.opensearch.search.dfs.DfsPhaseExecutionException");
            assert("org.opensearch.snapshots.SnapshotInProgressException"@[16] != "org.opensearch.search.dfs.DfsPhaseExecutionException"@[16]);
            reveal_strlit("org.opensearch.index.engine.DocumentMissingException");
            assert("org.opensearch.snapshots.SnapshotInProgressException"@[15] != "org.opensearch.index.engine.DocumentMissingException"@[15]);
            reveal_strlit("org.opensearch.index.shard.IndexShardClosedException");
            assert("org.opensearch.snapshots.SnapshotInProgressException"@[15] != "org.opensearch.index.shard.IndexShardClosedException"@[15]);
            reveal_strlit("org.opensearch.indices.IndexTemplateMissingException");
            assert("org.opensearch.snapshots.SnapshotInProgressException"@[15] != "org.opensearch.indices.IndexTemplateMissingException"@[15]);
            reveal_strlit("org.opensearch.indices.InvalidIndexTemplateException");
            assert("org.opensearch.snapshots.SnapshotInProgressException"@[15] != "org.opensearch.indices.InvalidIndexTemplateException"@[15]);
        },
        152 => {
            reveal_strlit("org.opensearch.transport.NoSuchRemoteClusterException");
            reveal_strlit("org.opensearch.index.shard.IndexShardStartedException");
            assert("org.opensearch.transport.NoSuchRemoteClusterException"@[15] != "org.opensearch.index.shard.IndexShardStartedException"@[15]);
            reveal_strlit("org.opensearch.snapshots.InvalidSnapshotNameException");
            assert("org.opensearch.transport.NoSuchRemoteClusterException"@[15] != "org.opensearch.snapshots.InvalidSnapshotNameException"@[15]);
            reveal_strlit("org.opensearch.action.NoShardAvailableActionException");
            assert("org.opensearch.transport.NoSuchRemoteClusterException"@[15] != "org.opensearch.action.NoShardAvailableActionException"@[15]);
        },
        153 => {
            reveal_strlit("org.opensearch.index.seqno.RetentionLeaseAlreadyExistsException");
            reveal_strlit("org.opensearch.cluster.IncompatibleClusterStateVersionException");
            assert("org.opensearch.index.seqno.RetentionLeaseAlreadyExistsException"@[15] != "org.opensearch.cluster.IncompatibleClusterStateVersionException"@[15]);
            reveal_strlit("org.opensearch.index.snapshots.IndexShardRestoreFailedException");
            assert("org.opensearch.index.seqno.RetentionLeaseAlreadyExistsException"@[22] != "org.opensearch.index.snapshots.IndexShardRestoreFailedException"@[22]);
            reveal_strlit("org.opensearch.core.index.snapshots.IndexShardSnapshotException");
            assert("org.opensearch.index.seqno.RetentionLeaseAlreadyExistsException"@[15] != "org.opensearch.core.index.snapshots.IndexShardSnapshotException"@[15]);
        },
        154 => {
            reveal_strlit("org.opensearch.index.seqno.RetentionLeaseNotFoundException");
            reveal_strlit("org.opensearch.transport.NotSerializableTransportException");
            assert("org.opensearch.index.seqno.RetentionLeaseNotFoundException"@[15] != "org.opensearch.transport.NotSerializableTransportException"@[15]);
            reveal_strlit("org.opensearch.index.engine.VersionConflictEngineException");
            assert("org.opensearch.index.seqno.RetentionLeaseNotFoundException"@[21] != "org.opensearch.index.engine.VersionConflictEngineException"@[21]);
            reveal_strlit("org.opensearch.index.shard.IllegalIndexShardStateException");
            assert("org.opensearch.index.seqno.RetentionLeaseNotFoundException"@[22] != "org.opensearch.index.shard.IllegalIndexShardStateException"@[22]);
            reveal_strlit("org.opensearch.action.search.SearchPhaseExecutionException");
            assert("org.opensearch.index.seqno.RetentionLeaseNotFoundException"@[15] != "org.opensearch.action.search.SearchPhaseExecutionException"@[15]);
            reveal_strlit("org.opensearch.index.engine.EngineCreationFailureException");
            assert("org.opensearch.index.seqno.RetentionLeaseNotFoundException"@[21] != "org.opensearch.index.engine.EngineCreationFailureException"@[21]);
            reveal_strlit("org.opensearch.index.engine.DocumentSourceMissingException");
            assert("org.opensearch.index.seqno.RetentionLeaseNotFoundException"@[21] != "org.opensearch.index.engine.DocumentSourceMissingException"@[21]);
            reveal_strlit("org.opensearch.search.builder.SearchSourceBuilderException");
            assert("org.opensearch.index.seqno.RetentionLeaseNotFoundException"@[15] != "org.opensearch.search.builder.SearchSourceBuilderException"@[15]);
        },
        155 => {
            reveal_strlit("org.opensearch.index.shard.ShardNotInPrimaryModeException");
            reveal_strlit("org.opensearch.index.snapshots.IndexShardRestoreException");
            assert("org.opensearch.index.shard.ShardNotInPrimaryModeException"@[22] != "org.opensearch.index.snapshots.IndexShardRestoreException"@[22]);
            reveal_strlit("org.opensearch.index.engine.SnapshotFailedEngineException");
            assert("org.opensearch.index.shard.ShardNotInPrimaryModeException"@[21] != "org.opensearch.index.engine.SnapshotFailedEngineException"@[21]);
            reveal_strlit("org.opensearch.transport.ReceiveTimeoutTransportException");
            assert("org.opensearch.index.shard.ShardNotInPrimaryModeException"@[15] != "org.opensearch.transport.ReceiveTimeoutTransportException"@[15]);
            reveal_strlit("org.opensearch.transport.ActionNotFoundTransportException");
            assert("org.opensearch.index.shard.ShardNotInPrimaryModeException"@[15] != "org.opensearch.transport.ActionNotFoundTransportException"@[15]);
            reveal_strlit("org.opensearch.index.mapper.StrictDynamicMappingException");
            assert("org.opensearch.index.shard.ShardNotInPrimaryModeException"@[21] != "org.opensearch.index.mapper.StrictDynamicMappingException"@[21]);
        },
        156 => {
            reveal_strlit("org.opensearch.index.seqno.RetentionLeaseInvalidRetainingSeqNoException");
            reveal_strlit("org.opensearch.cluster.coordination.FailedToCommitClusterStateException");
            assert("org.opensearch.index.seqno.RetentionLeaseInvalidRetainingSeqNoException"@[15] != "org.opensearch.cluster.coordination.FailedToCommitClusterStateException"@[15]);
        },
        157 => {
            reveal_strlit("org.opensearch.ingest.IngestProcessorException");
            reveal_strlit("org.opensearch.index.query.QueryShardException");
            assert("org.opensearch.ingest.IngestProcessorException"@[17] != "org.opensearch.index.query.QueryShardException"@[17]);
        },
        158 => {
            reveal_strlit("org.opensearch.indices.recovery.PeerRecoveryNotFound");
            reveal_strlit("org.opensearch.search.dfs.DfsPhaseExecutionException");
            assert("org.opensearch.indices.recovery.PeerRecoveryNotFound"@[15] != "org.opensearch.search.dfs.DfsPhaseExecutionException"@[15]);
            reveal_strlit("org.opensearch.index.engine.DocumentMissingException");
            assert("org.opensearch.indices.recovery.PeerRecoveryNotFound"@[18] != "org.opensearch.index.engine.DocumentMissingException"@[18]);
            reveal_strlit("org.opensearch.index.shard.IndexShardClosedException");
            assert("org.opensearch.indices.recovery.PeerRecoveryNotFound"@[18] != "org.opensearch.index.shard.IndexShardClosedException"@[18]);
            reveal_strlit("org.opensearch.indices.IndexTemplateMissingException");
            assert("org.opensearch.indices.recovery.PeerRecoveryNotFound"@[23] != "org.opensearch.indices.IndexTemplateMissingException"@[23]);
            reveal_strlit("org.opensearch.indices.InvalidIndexTemplateException");
            assert("org.opensearch.indices.recovery.PeerRecoveryNotFound"@[23] != "org.opensearch.indices.InvalidIndexTemplateException"@[23]);
            reveal_strlit("org.opensearch.snapshots.SnapshotInProgressException");
            assert("org.opensearch.indices.recovery.PeerRecoveryNotFound"@[15] != "org.opensearch.snapshots.SnapshotInProgressException"@[15]);
        },
        159 => {
            reveal_strlit("org.opensearch.cluster.coordination.NodeHealthCheckFailureException");
            reveal_strlit("org.opensearch.cluster.metadata.ProcessClusterEventTimeoutException");
            assert("org.opensearch.cluster.coordination.NodeHealthCheckFailureException"@[23] != "org.opensearch.cluster.metadata.ProcessClusterEventTimeoutException"@[23]);
        },
        160 => {
            reveal_strlit("org.opensearch.transport.NoSeedNodeLeftException");
            reveal_strlit("org.opensearch.indices.InvalidAliasNameException");
            assert("org.opensearch.transport.NoSeedNodeLeftException"@[15] != "org.opensearch.indices.InvalidAliasNameException"@[15]);
            reveal_strlit("org.opensearch.indices.InvalidIndexNameException");
            assert("org.opensearch.transport.NoSeedNodeLeftException"@[15] != "org.opensearch.indices.InvalidIndexNameException"@[15]);
            reveal_strlit("org.opensearch.common.settings.SettingsException");
            assert("org.opensearch.transport.NoSeedNodeLeftException"@[15] != "org.opensearch.common.settings.SettingsException"@[15]);
            reveal_strlit("org.opensearch.action.UnavailableShardsException");
            assert("org.opensearch.transport.NoSeedNodeLeftException"@[15] != "org.opensearch.action.UnavailableShardsException"@[15]);
            reveal_strlit("org.opensearch.core.tasks.TaskCancelledException");
            assert("org.opensearch.transport.NoSeedNodeLeftException"@[15] != "org.opensearch.core.tasks.TaskCancelledException"@[15]);
        },
        161 => {
            reveal_strlit("org.opensearch.indices.replication.common.ReplicationFailedException");
            reveal_strlit("org.opensearch.core.common.io.stream.NotSerializableExceptionWrapper");
            assert("org.opensearch.indices.replication.common.ReplicationFailedException"@[15] != "org.opensearch.core.common.io.stream.NotSerializableExceptionWrapper"@[15]);
        },
        162 => {
            reveal_strlit("org.opensearch.index.shard.PrimaryShardClosedException");
            reveal_strlit("org.opensearch.transport.NodeShouldNotConnectException");
            assert("org.opensearch.index.shard.PrimaryShardClosedException"@[15] != "org.opensearch.transport.NodeShouldNotConnectException"@[15]);
            reveal_strlit("org.opensearch.transport.SendRequestTransportException");
            assert("org.opensearch.index.shard.PrimaryShardClosedException"@[15] != "org.opensearch.transport.SendRequestTransportException"@[15]);
            reveal_strlit("org.opensearch.indices.recovery.DelayRecoveryException");
            assert("org.opensearch.index.shard.PrimaryShardClosedException"@[18] != "org.opensearch.indices.recovery.DelayRecoveryException"@[18]);
            reveal_strlit("org.opensearch.index.shard.IndexShardRecoveryException");
            assert("org.opensearch.index.shard.PrimaryShardClosedException"@[27] != "org.opensearch.index.shard.IndexShardRecoveryException"@[27]);
            reveal_strlit("org.opensearch.repositories.RepositoryMissingException");
            assert("org.opensearch.index.shard.PrimaryShardClosedException"@[15] != "org.opensearch.repositories.RepositoryMissingException"@[15]);
            reveal_strlit("org.opensearch.index.engine.FlushFailedEngineException");
            assert("org.opensearch.index.shard.PrimaryShardClosedException"@[21] != "org.opensearch.index.engine.FlushFailedEngineException"@[21]);
        },
        163 => {
            reveal_strlit("org.opensearch.cluster.decommission.DecommissioningFailedException");
            reveal_strlit("org.opensearch.transport.client.transport.NoNodeAvailableException");
            assert("org.opensearch.cluster.decommission.DecommissioningFailedException"@[15] != "org.opensearch.transport.client.transport.NoNodeAvailableException"@[15]);
            reveal_strlit("org.opensearch.search.aggregations.InvalidAggregationPathException");
            assert("org.opensearch.cluster.decommission.DecommissioningFailedException"@[15] != "org.opensearch.search.aggregations.InvalidAggregationPathException"@[15]);
        },
        164 => {
            reveal_strlit("org.opensearch.cluster.decommission.NodeDecommissionedException");
            reveal_strlit("org.opensearch.cluster.IncompatibleClusterStateVersionException");
            assert("org.opensearch.cluster.decommission.NodeDecommissionedException"@[23] != "org.opensearch.cluster.IncompatibleClusterStateVersionException"@[23]);
            reveal_strlit("org.opensearch.index.snapshots.IndexShardRestoreFailedException");
            assert("org.opensearch.cluster.decommission.NodeDecommissionedException"@[15] != "org.opensearch.index.snapshots.IndexShardRestoreFailedException"@[15]);
            reveal_strlit("org.opensearch.core.index.snapshots.IndexShardSnapshotException");
            assert("org.opensearch.cluster.decommission.NodeDecommissionedException"@[16] != "org.opensearch.core.index.snapshots.IndexShardSnapshotException"@[16]);
            reveal_strlit("org.opensearch.index.seqno.RetentionLeaseAlreadyExistsException");
            assert("org.opensearch.cluster.decommission.NodeDecommissionedException"@[15] != "org.opensearch.index.seqno.RetentionLeaseAlreadyExistsException"@[15]);
        },
        165 => {
            reveal_strlit("org.opensearch.cluster.service.ClusterManagerThrottlingException");
            reveal_strlit("org.opensearch.cluster.routing.IllegalShardRoutingStateException");
            assert("org.opensearch.cluster.service.ClusterManagerThrottlingException"@[23] != "org.opensearch.cluster.routing.IllegalShardRoutingStateException"@[23]);
            reveal_strlit("org.opensearch.search.aggregations.AggregationExecutionException");
            assert("org.opensearch.cluster.service.ClusterManagerThrottlingException"@[15] != "org.opensearch.search.aggregations.AggregationExecutionException"@[15]);
        },
        166 => {
            reveal_strlit("org.opensearch.snapshots.SnapshotInUseDeletionException");
            reveal_strlit("org.opensearch.action.search.ReduceSearchPhaseException");
            assert("org.opensearch.snapshots.SnapshotInUseDeletionException"@[15] != "org.opensearch.action.search.ReduceSearchPhaseException"@[15]);
            reveal_strlit("org.opensearch.indices.recovery.RecoveryFailedException");
            assert("org.opensearch.snapshots.SnapshotInUseDeletionException"@[15] != "org.opensearch.indices.recovery.RecoveryFailedException"@[15]);
            reveal_strlit("org.opensearch.index.shard.IndexShardRelocatedException");
            assert("org.opensearch.snapshots.SnapshotInUseDeletionException"@[15] != "org.opensearch.index.shard.IndexShardRelocatedException"@[15]);
            reveal_strlit("org.opensearch.common.settings.NoClassSettingsException");
            assert("org.opensearch.snapshots.SnapshotInUseDeletionException"@[15] != "org.opensearch.common.settings.NoClassSettingsException"@[15]);
        },
        167 => {
            reveal_strlit("org.opensearch.cluster.routing.UnsupportedWeightedRoutingStateException");
            reveal_strlit("org.opensearch.cluster.coordination.FailedToCommitClusterStateException");
            assert("org.opensearch.cluster.routing.UnsupportedWeightedRoutingStateException"@[23] != "org.opensearch.cluster.coordination.FailedToCommitClusterStateException"@[23]);
            reveal_strlit("org.opensearch.index.seqno.RetentionLeaseInvalidRetainingSeqNoException");
            assert("org.opensearch.cluster.routing.UnsupportedWeightedRoutingStateException"@[15] != "org.opensearch.index.seqno.RetentionLeaseInvalidRetainingSeqNoException"@[15]);
        },
        168 => {
            reveal_strlit("org.opensearch.cluster.routing.PreferenceBasedSearchNotAllowedException");
            reveal_strlit("org.opensearch.cluster.coordination.FailedToCommitClusterStateException");
            assert("org.opensearch.cluster.routing.PreferenceBasedSearchNotAllowedException"@[23] != "org.opensearch.cluster.coordination.FailedToCommitClusterStateException"@[23]);
            reveal_strlit("org.opensearch.index.seqno.RetentionLeaseInvalidRetainingSeqNoException");
            assert("org.opensearch.cluster.routing.PreferenceBasedSearchNotAllowedException"@[15] != "org.opensearch.index.seqno.RetentionLeaseInvalidRetainingSeqNoException"@[15]);
            reveal_strlit("org.opensearch.cluster.routing.UnsupportedWeightedRoutingStateException");
            assert("org.opensearch.cluster.routing.PreferenceBasedSearchNotAllowedException"@[31] != "org.opensearch.cluster.routing.UnsupportedWeightedRoutingStateException"@[31]);
        },
        169 => {
            reveal_strlit("org.opensearch.cluster.routing.NodeWeighedAwayException");
            reveal_strlit("org.opensearch.action.search.ReduceSearchPhaseException");
            assert("org.opensearch.cluster.routing.NodeWeighedAwayException"@[15] != "org.opensearch.action.search.ReduceSearchPhaseException"@[15]);
            reveal_strlit("org.opensearch.indices.recovery.RecoveryFailedException");
            assert("org.opensearch.cluster.routing.NodeWeighedAwayException"@[15] != "org.opensearch.indices.recovery.RecoveryFailedException"@[15]);
            reveal_strlit("org.opensearch.index.shard.IndexShardRelocatedException");
            assert("org.opensearch.cluster.routing.NodeWeighedAwayException"@[15] != "org.opensearch.index.shard.IndexShardRelocatedException"@[15]);
            reveal_strlit("org.opensearch.common.settings.NoClassSettingsException");
            assert("org.opensearch.cluster.routing.NodeWeighedAwayException"@[16] != "org.opensearch.common.settings.NoClassSettingsException"@[16]);
            reveal_strlit("org.opensearch.snapshots.SnapshotInUseDeletionException");
            assert("org.opensearch.cluster.routing.NodeWeighedAwayException"@[15] != "org.opensearch.snapshots.SnapshotInUseDeletionException"@[15]);
        },
        170 => {
            reveal_strlit("org.opensearch.search.pipeline.SearchPipelineProcessingException");
            reveal_strlit("org.opensearch.cluster.routing.IllegalShardRoutingStateException");
            assert("org.opensearch.search.pipeline.SearchPipelineProcessingException"@[15] != "org.opensearch.cluster.routing.IllegalShardRoutingStateException"@[15]);
            reveal_strlit("org.opensearch.search.aggregations.AggregationExecutionException");
            assert("org.opensearch.search.pipeline.SearchPipelineProcessingException"@[22] != "org.opensearch.search.aggregations.AggregationExecutionException"@[22]);
            reveal_strlit("org.opensearch.cluster.service.ClusterManagerThrottlingException");
            assert("org.opensearch.search.pipeline.SearchPipelineProcessingException"@[15] != "org.opensearch.cluster.service.ClusterManagerThrottlingException"@[15]);
        },
        171 => {
            reveal_strlit("org.opensearch.crypto.CryptoRegistryException");
            reveal_strlit("org.opensearch.indices.IndexCreationException");
            assert("org.opensearch.crypto.CryptoRegistryException"@[15] != "org.opensearch.indices.IndexCreationException"@[15]);
            reveal_strlit("org.opensearch.action.RoutingMissingException");
            assert("org.opensearch.crypto.CryptoRegistryException"@[15] != "org.opensearch.action.RoutingMissingException"@[15]);
            reveal_strlit("org.opensearch.ResourceAlreadyExistsException");
            assert("org.opensearch.crypto.CryptoRegistryException"@[15] != "org.opensearch.ResourceAlreadyExistsException"@[15]);
        },
        172 => {
            reveal_strlit("org.opensearch.action.admin.indices.view.ViewNotFoundException");
        },
        173 => {
            reveal_strlit("org.opensearch.action.admin.indices.view.ViewAlreadyExistsException");
            reveal_strlit("org.opensearch.cluster.metadata.ProcessClusterEventTimeoutException");
            assert("org.opensearch.action.admin.indices.view.ViewAlreadyExistsException"@[15] != "org.opensearch.cluster.metadata.ProcessClusterEventTimeoutException"@[15]);
            reveal_strlit("org.opensearch.cluster.coordination.NodeHealthCheckFailureException");
            assert("org.opensearch.action.admin.indices.view.ViewAlreadyExistsException"@[15] != "org.opensearch.cluster.coordination.NodeHealthCheckFailureException"@[15]);
        },
        174 => {
            reveal_strlit("org.opensearch.indices.InvalidIndexContextException");
            reveal_strlit("org.opensearch.search.SearchContextMissingException");
            assert("org.opensearch.indices.InvalidIndexContextException"@[15] != "org.opensearch.search.SearchContextMissingException"@[15]);
            reveal_strlit("org.opensearch.action.PrimaryMissingActionException");
            assert("org.opensearch.indices.InvalidIndexContextException"@[15] != "org.opensearch.action.PrimaryMissingActionException"@[15]);
            reveal_strlit("org.opensearch.index.engine.RecoveryEngineException");
            assert("org.opensearch.indices.InvalidIndexContextException"@[18] != "org.opensearch.index.engine.RecoveryEngineException"@[18]);
        },
        175 => {
            reveal_strlit("org.opensearch.common.breaker.ResponseLimitBreachedException");
        },
        176 => {
            reveal_strlit("org.opensearch.index.engine.IngestionEngineException");
            reveal_strlit("org.opensearch.search.dfs.DfsPhaseExecutionException");
            assert("org.opensearch.index.engine.IngestionEngineException"@[15] != "org.opensearch.search.dfs.DfsPhaseExecutionException"@[15]);
            reveal_strlit("org.opensearch.index.engine.DocumentMissingException");
            assert("org.opensearch.index.engine.IngestionEngineException"@[28] != "org.opensearch.index.engine.DocumentMissingException"@[28]);
            reveal_strlit("org.opensearch.index.shard.IndexShardClosedException");
            assert("org.opensearch.index.engine.IngestionEngineException"@[21] != "org.opensearch.index.shard.IndexShardClosedException"@[21]);
            reveal_strlit("org.opensearch.indices.IndexTemplateMissingException");
            assert("org.opensearch.index.engine.IngestionEngineException"@[18] != "org.opensearch.indices.IndexTemplateMissingException"@[18]);
            reveal_strlit("org.opensearch.indices.InvalidIndexTemplateException");
            assert("org.opensearch.index.engine.IngestionEngineException"@[18] != "org.opensearch.indices.InvalidIndexTemplateException"@[18]);
            reveal_strlit("org.opensearch.snapshots.SnapshotInProgressException");
            assert("org.opensearch.index.engine.IngestionEngineException"@[15] != "org.opensearch.snapshots.SnapshotInProgressException"@[15]);
            reveal_strlit("org.opensearch.indices.recovery.PeerRecoveryNotFound");
            assert("org.opensearch.index.engine.IngestionEngineException"@[18] != "org.opensearch.indices.recovery.PeerRecoveryNotFound"@[18]);
        },
        177 => {
            reveal_strlit("org.opensearch.transport.stream.StreamException");
            reveal_strlit("org.opensearch.indices.InvalidTypeNameException");
            assert("org.opensearch.transport.stream.StreamException"@[15] != "org.opensearch.indices.InvalidTypeNameException"@[15]);
            reveal_strlit("org.opensearch.action.TimestampParsingException");
            assert("org.opensearch.transport.stream.StreamException"@[15] != "org.opensearch.action.TimestampParsingException"@[15]);
            reveal_strlit("org.opensearch.repositories.RepositoryException");
            assert("org.opensearch.transport.stream.StreamException"@[15] != "org.opensearch.repositories.RepositoryException"@[15]);
            reveal_strlit("org.opensearch.cluster.routing.RoutingException");
            assert("org.opensearch.transport.stream.StreamException"@[15] != "org.opensearch.cluster.routing.RoutingException"@[15]);
            reveal_strlit("org.opensearch.transport.BindTransportException");
            assert("org.opensearch.transport.stream.StreamException"@[25] != "org.opensearch.transport.BindTransportException"@[25]);
            reveal_strlit("org.opensearch.index.translog.TranslogException");
            assert("org.opensearch.transport.stream.StreamException"@[15] != "org.opensearch.index.translog.TranslogException"@[15]);
        },
        _ => {
            reveal_strlit("org.opensearch.OpenSearchException");
        },
    }
}

/// Distinct ids with classes of their own name distinct classes.
pub proof fn lemma_exception_class_names_distinct(a: i32, b: i32)
    requires
        !is_generic_exception_id(a),
        !is_generic_exception_id(b),
        a != b,
    ensures
        opensearch_exception_class_name_spec(a) != opensearch_exception_class_name_spec(b),
{
    lemma_exception_class_name_registered(a);
    lemma_exception_class_name_registered(b);
}

/// The stream key under which a JVM exception class is sent: the JVM table
/// read the other way, from class to key.
pub open spec fn jvm_key_of_class(c: Seq<char>) -> Option<i32> {
    if c.len() == 19 {
        if c == "java.io.IOException"@ {
            Some(17i32)
        } else {
            None
        }
    } else if c.len() == 20 {
        if c == "java.io.EOFException"@ {
            Some(8i32)
        } else {
            None
        }
    } else if c.len() == 27 {
        if c == "java.lang.SecurityException"@ {
            Some(9i32)
        } else {
            None
        }
    } else if c.len() == 29 {
        if c == "java.io.FileNotFoundException"@ {
            Some(12i32)
        } else {
            None
        }
    } else if c.len() == 30 {
        if c == "java.lang.NullPointerException"@ {
            Some(4i32)
        } else if c == "java.lang.InterruptedException"@ {
            Some(16i32)
        } else {
            None
        }
    } else if c.len() == 31 {
        if c == "java.lang.NumberFormatException"@ {
            Some(5i32)
        } else if c == "java.lang.IllegalStateException"@ {
            Some(14i32)
        } else {
            None
        }
    } else if c.len() == 34 {
        if c == "java.lang.IllegalArgumentException"@ {
            Some(6i32)
        } else {
            None
        }
    } else if c.len() == 40 {
        if c == "java.lang.ArrayIndexOutOfBoundsException"@ {
            Some(11i32)
        } else {
            None
        }
    } else if c.len() == 41 {
        if c == "java.lang.StringIndexOutOfBoundsException"@ {
            Some(10i32)
        } else {
            None
        }
    } else {
        None
    }
}

/// The JVM stream keys are 4, 5, 6, 8, 9, 10, 11, 12, 14, 16 and 17. Each
/// names the class sent under that key, a class of the
/// `java.` packages; and of those keys exactly the illegal-argument, security,
/// illegal-state and I/O exceptions (keys 6, 9, 14 and 17) carry a cause.
#[verifier::spinoff_prover]
#[verifier::rlimit(100)]
pub proof fn lemma_jvm_exception_classes_registered(key: i32)
    ensures
        jvm_exception(key) is Some <==> (key == 4 || key == 5 || key == 6 || key == 8 || key == 9 || key == 10
            || key == 11 || key == 12 || key == 14 || key == 16 || key == 17),
        jvm_exception(key) matches Some((c, has_cause)) ==> {
            &&& jvm_key_of_class(c) == Some(key)
            &&& "java."@.is_prefix_of(c)
            &&& has_cause == (key == 6 || key == 9 || key == 14 || key == 17)
        },
{
    reveal_strlit("java.");
    match key {
        4 => {
            reveal_strlit("java.lang.NullPointerException");
        },
        5 => {
            reveal_strlit("java.lang.NumberFormatException");
        },
        6 => {
            reveal_strlit("java.lang.IllegalArgumentException");
        },
        8 => {
            reveal_strlit("java.io.EOFException");
        },
        9 => {
            reveal_strlit("java.lang.SecurityException");
        },
        10 => {
            reveal_strlit("java.lang.StringIndexOutOfBoundsException");
        },
        11 => {
            reveal_strlit("java.lang.ArrayIndexOutOfBoundsException");
        },
        12 => {
            reveal_strlit("java.io.FileNotFoundException");
        },
        14 => {
            reveal_strlit("java.lang.IllegalStateException");
            reveal_strlit("java.lang.NumberFormatException");
            assert("java.lang.IllegalStateException"@[10] != "java.lang.NumberFormatException"@[10]);
        },
        16 => {
            reveal_strlit("java.lang.InterruptedException");
            reveal_strlit("java.lang.NullPointerException");
            assert("java.lang.InterruptedException"@[10] != "java.lang.NullPointerException"@[10]);
        },
        17 => {
            reveal_strlit("java.io.IOException");
        },
        _ => {},
    }
}

/// The class of the JVM exception with stream key `key` and whether it
/// carries a cause, for the keys read as JVM exceptions.
fn jvm_exception_class(key: i32) -> (r: Option<(&'static str, bool)>)
    ensures
        match jvm_exception(key) {
            Some((c, h)) => r matches Some((x, y)) && x@ == c && y == h,
            None => r is None,
        },
{
    if key == 4 {
        Some(("java.lang.NullPointerException", false))
    } else if key == 5 {
        Some(("java.lang.NumberFormatException", false))
    } else if key == 6 {
        Some(("java.lang.IllegalArgumentException", true))
    } else if key == 8 {
        Some(("java.io.EOFException", false))
    } else if key == 9 {
        Some(("java.lang.SecurityException", true))
    } else if key == 10 {
        Some(("java.lang.StringIndexOutOfBoundsException", false))
    } else if key == 11 {
        Some(("java.lang.ArrayIndexOutOfBoundsException", false))
    } else if key == 12 {
        Some(("java.io.FileNotFoundException", false))
    } else if key == 14 {
        Some(("java.lang.IllegalStateException", true))
    } else if key == 16 {
        Some(("java.lang.InterruptedException", false))
    } else if key == 17 {
        Some(("java.io.IOException", true))
    } else {
        None
    }
}

fn digit_str(d: u32) -> (r: &'static str)
    requires
        d < 10,
    ensures
        r@ == seq![digit_char(d as nat)],
{
    proof {
        reveal_strlit("0");
        reveal_strlit("1");
        reveal_strlit("2");
        reveal_strlit("3");
        reveal_strlit("4");
        reveal_strlit("5");
        reveal_strlit("6");
        reveal_strlit("7");
        reveal_strlit("8");
        reveal_strlit("9");
    }
    if d == 0 {
        "0"
    } else if d == 1 {
        "1"
    } else if d == 2 {
        "2"
    } else if d == 3 {
        "3"
    } else if d == 4 {
        "4"
    } else if d == 5 {
        "5"
    } else if d == 6 {
        "6"
    } else if d == 7 {
        "7"
    } else if d == 8 {
        "8"
    } else {
        "9"
    }
}

fn append_decimal_nat(out: &mut String, n: u32)
    ensures
        final(out)@ == old(out)@ + decimal_nat(n as nat),
    decreases n,
{
    if n >= 10 {
        append_decimal_nat(out, n / 10);
    }
    out.append(digit_str(n % 10));
    assert(final(out)@ =~= old(out)@ + decimal_nat(n as nat)) by {
        if n >= 10 {
            assert(decimal_nat(n as nat) == decimal_nat((n / 10) as nat).push(digit_char((n % 10) as nat)));
        }
    }
}

/// `v` written in decimal.
pub fn i32_to_decimal(v: i32) -> (s: String)
    ensures
        s@ == decimal(v as int),
{
    let mut out = String::new();
    if v < 0 {
        out.append("-");
        proof {
            reveal_strlit("-");
        }
        let m: u32 = if v == i32::MIN {
            2147483648u32
        } else {
            (-v) as u32
        };
        append_decimal_nat(&mut out, m);
    } else {
        append_decimal_nat(&mut out, v as u32);
    }
    out
}

/// Reads a length, refusing a negative one.
fn read_non_negative_len(input: &mut StreamInput) -> (r: Result<usize, TransportErrorDecodeError>)
    ensures
        final(input).data() == old(input).data(),
        old(input).pos() <= final(input).pos() <= final(input).data().len(),
        match parse_len(old(input).rest()) {
            Some((v, n)) => r == Ok::<usize, TransportErrorDecodeError>(v as usize) && final(input).pos() == old(input).pos() + n
                && v <= i32::MAX,
            None => (r matches Err(e) && e == length_failure(old(input).rest())),
        },
        parse_vint(old(input).rest()) matches Some((v, _)) ==> (v < 0 ==> r == Err::<usize, TransportErrorDecodeError>(
            TransportErrorDecodeError::NegativeLength(v),
        )),
{
    let len = lift(input.read_vint())?;
    if len < 0 {
        return Err(TransportErrorDecodeError::NegativeLength(len));
    }
    Ok(len as usize)
}

/// Skips a stack frame.
fn skip_stack_frame(input: &mut StreamInput) -> (r: Result<(), TransportErrorDecodeError>)
    ensures
        final(input).data() == old(input).data(),
        old(input).pos() <= final(input).pos() <= final(input).data().len(),
        match span_stack_frame(old(input).rest()) {
            Some(k) => r is Ok && final(input).pos() == old(input).pos() + k,
            None => (r matches Err(e) && e == stack_frame_failure(old(input).rest())),
        },
{
    let ghost s = old(input).rest();
    lift(input.read_string())?;
    proof {
            assert(input.rest() =~= s.skip(input.pos() - old(input).pos()));
    }
    lift(input.read_optional_string())?;
    proof {
            assert(input.rest() =~= s.skip(input.pos() - old(input).pos()));
    }
    lift(input.read_string())?;
    proof {
            assert(input.rest() =~= s.skip(input.pos() - old(input).pos()));
    }
    lift(input.read_vint())?;
    Ok(())
}

/// Skips `n` stack frames.
fn skip_stack_frames(input: &mut StreamInput, n: usize) -> (r: Result<(), TransportErrorDecodeError>)
    ensures
        final(input).data() == old(input).data(),
        old(input).pos() <= final(input).pos() <= final(input).data().len(),
        match span_stack_frames(old(input).rest(), n as nat) {
            Some(k) => r is Ok && final(input).pos() == old(input).pos() + k,
            None => (r matches Err(e) && e == repeat_failure(old(input).rest(), n as nat, stack_frame_item(), stack_frame_failure_item())),
        },
{
    reveal(span_stack_frames);
    let ghost t = old(input).rest();
    let _ = input.position();
    let mut i: usize = 0;
    while i < n
        invariant
            i <= n,
            input.data() == old(input).data(),
            old(input).pos() <= input.pos() <= input.data().len(),
            old(input).pos() <= old(input).data().len(),
            t == old(input).rest(),
            input.rest() == t.skip(input.pos() - old(input).pos()),
            span_stack_frames(t, i as nat) == Some(input.pos() - old(input).pos()),
        decreases n - i,
    {
        let ghost before = input.pos() - old(input).pos();
        proof {
            reveal(span_stack_frames);
            lemma_span_repeat_step(t, i as nat, stack_frame_item());
        }
        match skip_stack_frame(input) {
            Ok(_) => {},
            Err(e) => {
                proof {
                    lemma_span_repeat_stays_none(t, (i + 1) as nat, n as nat, stack_frame_item());
                    lemma_repeat_failure_at(t, i as nat, n as nat, stack_frame_item(), stack_frame_failure_item(), before);
                }
                return Err(e);
            },
        }
        proof {
            assert(t.skip(before).skip(input.pos() - old(input).pos() - before) =~= t.skip(input.pos() - old(input).pos()));
        }
        i = i + 1;
    }
    Ok(())
}

/// Skips `n` strings.
fn skip_strings(input: &mut StreamInput, n: usize) -> (r: Result<(), TransportErrorDecodeError>)
    ensures
        final(input).data() == old(input).data(),
        old(input).pos() <= final(input).pos() <= final(input).data().len(),
        match span_strings(old(input).rest(), n as nat) {
            Some(k) => r is Ok && final(input).pos() == old(input).pos() + k,
            None => (r matches Err(e) && e == repeat_failure(old(input).rest(), n as nat, string_item(), string_failure_item())),
        },
{
    let ghost t = old(input).rest();
    let _ = input.position();
    let mut i: usize = 0;
    while i < n
        invariant
            i <= n,
            input.data() == old(input).data(),
            old(input).pos() <= input.pos() <= input.data().len(),
            old(input).pos() <= old(input).data().len(),
            t == old(input).rest(),
            input.rest() == t.skip(input.pos() - old(input).pos()),
            span_strings(t, i as nat) == Some(input.pos() - old(input).pos()),
        decreases n - i,
    {
        let ghost before = input.pos() - old(input).pos();
        proof {
            lemma_span_repeat_step(t, i as nat, string_item());
        }
        match lift(input.read_string()) {
            Ok(_) => {},
            Err(e) => {
                proof {
                    lemma_span_repeat_stays_none(t, (i + 1) as nat, n as nat, string_item());
                    lemma_repeat_failure_at(t, i as nat, n as nat, string_item(), string_failure_item(), before);
                }
                return Err(e);
            },
        }
        proof {
            assert(t.skip(before).skip(input.pos() - old(input).pos() - before) =~= t.skip(input.pos() - old(input).pos()));
        }
        i = i + 1;
    }
    Ok(())
}

/// Skips a string list map entry.
fn skip_string_list_entry(input: &mut StreamInput) -> (r: Result<(), TransportErrorDecodeError>)
    ensures
        final(input).data() == old(input).data(),
        old(input).pos() <= final(input).pos() <= final(input).data().len(),
        match span_string_list_entry(old(input).rest()) {
            Some(k) => r is Ok && final(input).pos() == old(input).pos() + k,
            None => (r matches Err(e) && e == string_list_entry_failure(old(input).rest())),
        },
{
    let ghost s = old(input).rest();
    lift(input.read_string())?;
    proof {
            assert(input.rest() =~= s.skip(input.pos() - old(input).pos()));
    }
    let n = read_non_negative_len(input)?;
    proof {
            assert(input.rest() =~= s.skip(input.pos() - old(input).pos()));
    }
    skip_strings(input, n)?;
    Ok(())
}

/// Skips `n` string list map entries.
fn skip_string_list_entries(input: &mut StreamInput, n: usize) -> (r: Result<(), TransportErrorDecodeError>)
    ensures
        final(input).data() == old(input).data(),
        old(input).pos() <= final(input).pos() <= final(input).data().len(),
        match span_string_list_entries(old(input).rest(), n as nat) {
            Some(k) => r is Ok && final(input).pos() == old(input).pos() + k,
            None => (r matches Err(e) && e == repeat_failure(old(input).rest(), n as nat, string_list_entry_item(), string_list_entry_failure_item())),
        },
{
    let ghost t = old(input).rest();
    let _ = input.position();
    let mut i: usize = 0;
    while i < n
        invariant
            i <= n,
            input.data() == old(input).data(),
            old(input).pos() <= input.pos() <= input.data().len(),
            old(input).pos() <= old(input).data().len(),
            t == old(input).rest(),
            input.rest() == t.skip(input.pos() - old(input).pos()),
            span_string_list_entries(t, i as nat) == Some(input.pos() - old(input).pos()),
        decreases n - i,
    {
        let ghost before = input.pos() - old(input).pos();
        proof {
            lemma_span_repeat_step(t, i as nat, string_list_entry_item());
        }
        match skip_string_list_entry(input) {
            Ok(_) => {},
            Err(e) => {
                proof {
                    lemma_span_repeat_stays_none(t, (i + 1) as nat, n as nat, string_list_entry_item());
                    lemma_repeat_failure_at(t, i as nat, n as nat, string_list_entry_item(), string_list_entry_failure_item(), before);
                }
                return Err(e);
            },
        }
        proof {
            assert(t.skip(before).skip(input.pos() - old(input).pos() - before) =~= t.skip(input.pos() - old(input).pos()));
        }
        i = i + 1;
    }
    Ok(())
}

/// Skips a map from strings to string lists.
fn skip_string_list_map(input: &mut StreamInput) -> (r: Result<(), TransportErrorDecodeError>)
    ensures
        final(input).data() == old(input).data(),
        old(input).pos() <= final(input).pos() <= final(input).data().len(),
        match span_string_list_map(old(input).rest()) {
            Some(k) => r is Ok && final(input).pos() == old(input).pos() + k,
            None => (r matches Err(e) && e == string_list_map_failure(old(input).rest())),
        },
{
    reveal(span_string_list_map);
    let ghost s = old(input).rest();
    let n = read_non_negative_len(input)?;
    proof {
            assert(input.rest() =~= s.skip(input.pos() - old(input).pos()));
    }
    skip_string_list_entries(input, n)?;
    Ok(())
}

/// Skips a transport address.
fn skip_transport_address(input: &mut StreamInput) -> (r: Result<(), TransportErrorDecodeError>)
    ensures
        final(input).data() == old(input).data(),
        old(input).pos() <= final(input).pos() <= final(input).data().len(),
        match span_transport_address(old(input).rest()) {
            Some(k) => r is Ok && final(input).pos() == old(input).pos() + k,
            None => (r matches Err(e) && e == transport_address_failure(old(input).rest())),
        },
        parse_byte(old(input).rest()) matches Some((b, _)) ==> (b != 4 && b != 16 ==> r == Err::<(), TransportErrorDecodeError>(
            TransportErrorDecodeError::InvalidIpLength(b as usize),
        )),
{
    let ghost s = old(input).rest();
    let len = lift(input.read_byte())? as usize;
    if len != 4 && len != 16 {
        return Err(TransportErrorDecodeError::InvalidIpLength(len));
    }
    proof {
        assert(input.rest() =~= s.skip(input.pos() - old(input).pos()));
    }
    lift(input.read_bytes(len))?;
    proof {
        assert(input.rest() =~= s.skip(input.pos() - old(input).pos()));
    }
    lift(input.read_string())?;
    proof {
        assert(input.rest() =~= s.skip(input.pos() - old(input).pos()));
    }
    lift(input.read_i32())?;
    Ok(())
}

/// Skips an optional transport address.
fn skip_optional_transport_address(input: &mut StreamInput) -> (r: Result<(), TransportErrorDecodeError>)
    ensures
        final(input).data() == old(input).data(),
        old(input).pos() <= final(input).pos() <= final(input).data().len(),
        match span_optional_transport_address(old(input).rest()) {
            Some(k) => r is Ok && final(input).pos() == old(input).pos() + k,
            None => (r matches Err(e) && e == optional_transport_address_failure(old(input).rest())),
        },
{
    let ghost s = old(input).rest();
    if lift(input.read_bool())? {
        proof {
            assert(input.rest() =~= s.skip(1));
        }
        skip_transport_address(input)?;
    }
    Ok(())
}

/// Skips the fields of an action transport exception.
fn skip_action_transport_exception_fields(input: &mut StreamInput) -> (r: Result<(), TransportErrorDecodeError>)
    ensures
        final(input).data() == old(input).data(),
        old(input).pos() <= final(input).pos() <= final(input).data().len(),
        match span_action_transport_fields(old(input).rest()) {
            Some(k) => r is Ok && final(input).pos() == old(input).pos() + k,
            None => (r matches Err(e) && e == action_transport_fields_failure(old(input).rest())),
        },
{
    proof {
        reveal(span_action_transport_fields);
    }
    let ghost s = old(input).rest();
    skip_optional_transport_address(input)?;
    proof {
            assert(input.rest() =~= s.skip(input.pos() - old(input).pos()));
    }
    lift(input.read_optional_string())?;
    Ok(())
}

/// Skips a node role.
fn skip_role(input: &mut StreamInput) -> (r: Result<(), TransportErrorDecodeError>)
    ensures
        final(input).data() == old(input).data(),
        old(input).pos() <= final(input).pos() <= final(input).data().len(),
        match span_role(old(input).rest()) {
            Some(k) => r is Ok && final(input).pos() == old(input).pos() + k,
            None => (r matches Err(e) && e == role_failure(old(input).rest())),
        },
{
    let ghost s = old(input).rest();
    lift(input.read_string())?;
    proof {
            assert(input.rest() =~= s.skip(input.pos() - old(input).pos()));
    }
    lift(input.read_string())?;
    proof {
            assert(input.rest() =~= s.skip(input.pos() - old(input).pos()));
    }
    lift(input.read_bool())?;
    Ok(())
}

/// Skips `n` node roles.
fn skip_roles(input: &mut StreamInput, n: usize) -> (r: Result<(), TransportErrorDecodeError>)
    ensures
        final(input).data() == old(input).data(),
        old(input).pos() <= final(input).pos() <= final(input).data().len(),
        match span_roles(old(input).rest(), n as nat) {
            Some(k) => r is Ok && final(input).pos() == old(input).pos() + k,
            None => (r matches Err(e) && e == repeat_failure(old(input).rest(), n as nat, role_item(), role_failure_item())),
        },
{
    let ghost t = old(input).rest();
    let _ = input.position();
    let mut i: usize = 0;
    while i < n
        invariant
            i <= n,
            input.data() == old(input).data(),
            old(input).pos() <= input.pos() <= input.data().len(),
            old(input).pos() <= old(input).data().len(),
            t == old(input).rest(),
            input.rest() == t.skip(input.pos() - old(input).pos()),
            span_roles(t, i as nat) == Some(input.pos() - old(input).pos()),
        decreases n - i,
    {
        let ghost before = input.pos() - old(input).pos();
        proof {
            lemma_span_repeat_step(t, i as nat, role_item());
        }
        match skip_role(input) {
            Ok(_) => {},
            Err(e) => {
                proof {
                    lemma_span_repeat_stays_none(t, (i + 1) as nat, n as nat, role_item());
                    lemma_repeat_failure_at(t, i as nat, n as nat, role_item(), role_failure_item(), before);
                }
                return Err(e);
            },
        }
        proof {
            assert(t.skip(before).skip(input.pos() - old(input).pos() - before) =~= t.skip(input.pos() - old(input).pos()));
        }
        i = i + 1;
    }
    Ok(())
}

/// Skips the roles and version of a discovery node.
fn skip_node_roles_and_version(input: &mut StreamInput) -> (r: Result<(), TransportErrorDecodeError>)
    ensures
        final(input).data() == old(input).data(),
        old(input).pos() <= final(input).pos() <= final(input).data().len(),
        match span_node_roles_and_version(old(input).rest()) {
            Some(k) => r is Ok && final(input).pos() == old(input).pos() + k,
            None => (r matches Err(e) && e == node_roles_and_version_failure(old(input).rest())),
        },
{
    let ghost s = old(input).rest();
    let n = read_non_negative_len(input)?;
    proof {
            assert(input.rest() =~= s.skip(input.pos() - old(input).pos()));
    }
    skip_roles(input, n)?;
    proof {
            assert(input.rest() =~= s.skip(input.pos() - old(input).pos()));
    }
    lift(input.read_vint())?;
    Ok(())
}

/// Skips the addresses and attributes of a discovery node.
fn skip_node_addresses_and_attributes(input: &mut StreamInput) -> (r: Result<(), TransportErrorDecodeError>)
    ensures
        final(input).data() == old(input).data(),
        old(input).pos() <= final(input).pos() <= final(input).data().len(),
        match span_node_addresses_and_attributes(old(input).rest()) {
            Some(k) => r is Ok && final(input).pos() == old(input).pos() + k,
            None => (r matches Err(e) && e == node_addresses_and_attributes_failure(old(input).rest())),
        },
{
    let ghost s = old(input).rest();
    skip_transport_address(input)?;
    proof {
            assert(input.rest() =~= s.skip(input.pos() - old(input).pos()));
    }
    skip_optional_transport_address(input)?;
    proof {
            assert(input.rest() =~= s.skip(input.pos() - old(input).pos()));
    }
    lift(input.read_string_map())?;
    Ok(())
}

/// Skips a discovery node.
fn skip_discovery_node(input: &mut StreamInput) -> (r: Result<(), TransportErrorDecodeError>)
    ensures
        final(input).data() == old(input).data(),
        old(input).pos() <= final(input).pos() <= final(input).data().len(),
        match span_discovery_node(old(input).rest()) {
            Some(k) => r is Ok && final(input).pos() == old(input).pos() + k,
            None => (r matches Err(e) && e == discovery_node_failure(old(input).rest())),
        },
{
    let ghost s = old(input).rest();
    skip_strings(input, 5)?;
    proof {
            assert(input.rest() =~= s.skip(input.pos() - old(input).pos()));
    }
    skip_node_addresses_and_attributes(input)?;
    proof {
            assert(input.rest() =~= s.skip(input.pos() - old(input).pos()));
    }
    skip_node_roles_and_version(input)?;
    Ok(())
}

/// Skips an optional discovery node.
fn skip_optional_discovery_node(input: &mut StreamInput) -> (r: Result<(), TransportErrorDecodeError>)
    ensures
        final(input).data() == old(input).data(),
        old(input).pos() <= final(input).pos() <= final(input).data().len(),
        match span_optional_discovery_node(old(input).rest()) {
            Some(k) => r is Ok && final(input).pos() == old(input).pos() + k,
            None => (r matches Err(e) && e == optional_discovery_node_failure(old(input).rest())),
        },
{
    proof {
        reveal(span_optional_discovery_node);
    }
    let ghost s = old(input).rest();
    if lift(input.read_bool())? {
        proof {
            assert(input.rest() =~= s.skip(1));
        }
        skip_discovery_node(input)?;
    }
    Ok(())
}

/// Skips an optional script position.
fn skip_optional_script_position(input: &mut StreamInput) -> (r: Result<(), TransportErrorDecodeError>)
    ensures
        final(input).data() == old(input).data(),
        old(input).pos() <= final(input).pos() <= final(input).data().len(),
        match span_optional_script_position(old(input).rest()) {
            Some(k) => r is Ok && final(input).pos() == old(input).pos() + k,
            None => (r matches Err(e) && e == optional_script_position_failure(old(input).rest())),
        },
{
    reveal(crate::codec::parse_i32);
    reveal(crate::codec::parse_i64);
    proof {
        reveal(span_optional_script_position);
    }
    let ghost s = old(input).rest();
    if lift(input.read_bool())? {
        proof {
            assert(input.rest() =~= s.skip(1));
        }
        lift(input.read_i32())?;
        proof {
            assert(input.rest() =~= s.skip(5));
        }
        lift(input.read_i32())?;
        proof {
            assert(input.rest() =~= s.skip(9));
        }
        lift(input.read_i32())?;
    }
    Ok(())
}

/// Skips an optional text.
fn skip_optional_text(input: &mut StreamInput) -> (r: Result<(), TransportErrorDecodeError>)
    ensures
        final(input).data() == old(input).data(),
        old(input).pos() <= final(input).pos() <= final(input).data().len(),
        match span_optional(old(input).rest(), used(parse_string(old(input).rest().skip(1)))) {
            Some(k) => r is Ok && final(input).pos() == old(input).pos() + k,
            None => (r matches Err(e) && e == optional_text_failure(old(input).rest())),
        },
{
    let ghost s = old(input).rest();
    if lift(input.read_bool())? {
        proof {
            assert(input.rest() =~= s.skip(1));
        }
        lift(input.read_string())?;
    }
    Ok(())
}

/// Skips a shard id.
fn skip_shard_id(input: &mut StreamInput) -> (r: Result<(), TransportErrorDecodeError>)
    ensures
        final(input).data() == old(input).data(),
        old(input).pos() <= final(input).pos() <= final(input).data().len(),
        match span_shard_id(old(input).rest()) {
            Some(k) => r is Ok && final(input).pos() == old(input).pos() + k,
            None => (r matches Err(e) && e == shard_id_failure(old(input).rest())),
        },
{
    let ghost s = old(input).rest();
    lift(input.read_string())?;
    proof {
            assert(input.rest() =~= s.skip(input.pos() - old(input).pos()));
    }
    lift(input.read_string())?;
    proof {
            assert(input.rest() =~= s.skip(input.pos() - old(input).pos()));
    }
    lift(input.read_vint())?;
    Ok(())
}

/// Skips a search shard target.
fn skip_search_shard_target(input: &mut StreamInput) -> (r: Result<(), TransportErrorDecodeError>)
    ensures
        final(input).data() == old(input).data(),
        old(input).pos() <= final(input).pos() <= final(input).data().len(),
        match span_search_shard_target(old(input).rest()) {
            Some(k) => r is Ok && final(input).pos() == old(input).pos() + k,
            None => (r matches Err(e) && e == search_shard_target_failure(old(input).rest())),
        },
{
    let ghost s = old(input).rest();
    skip_optional_text(input)?;
    proof {
            assert(input.rest() =~= s.skip(input.pos() - old(input).pos()));
    }
    skip_shard_id(input)?;
    proof {
            assert(input.rest() =~= s.skip(input.pos() - old(input).pos()));
    }
    lift(input.read_optional_string())?;
    Ok(())
}

/// Skips an optional search shard target.
fn skip_optional_search_shard_target(input: &mut StreamInput) -> (r: Result<(), TransportErrorDecodeError>)
    ensures
        final(input).data() == old(input).data(),
        old(input).pos() <= final(input).pos() <= final(input).data().len(),
        match span_optional_search_shard_target(old(input).rest()) {
            Some(k) => r is Ok && final(input).pos() == old(input).pos() + k,
            None => (r matches Err(e) && e == optional_search_shard_target_failure(old(input).rest())),
        },
{
    proof {
        reveal(span_optional_search_shard_target);
    }
    let ghost s = old(input).rest();
    if lift(input.read_bool())? {
        proof {
            assert(input.rest() =~= s.skip(1));
        }
        skip_search_shard_target(input)?;
    }
    Ok(())
}

/// Skips a byte size value.
fn skip_byte_size_value(input: &mut StreamInput) -> (r: Result<(), TransportErrorDecodeError>)
    ensures
        final(input).data() == old(input).data(),
        old(input).pos() <= final(input).pos() <= final(input).data().len(),
        match span_byte_size_value(old(input).rest()) {
            Some(k) => r is Ok && final(input).pos() == old(input).pos() + k,
            None => (r matches Err(e) && e == byte_size_value_failure(old(input).rest())),
        },
{
    proof {
        reveal(span_byte_size_value);
    }
    let ghost s = old(input).rest();
    lift(input.read_zlong())?;
    proof {
            assert(input.rest() =~= s.skip(input.pos() - old(input).pos()));
    }
    lift(input.read_vint())?;
    Ok(())
}

/// Skips `n` variable-length integers.
fn skip_vints(input: &mut StreamInput, n: usize) -> (r: Result<(), TransportErrorDecodeError>)
    ensures
        final(input).data() == old(input).data(),
        old(input).pos() <= final(input).pos() <= final(input).data().len(),
        match span_vints(old(input).rest(), n as nat) {
            Some(k) => r is Ok && final(input).pos() == old(input).pos() + k,
            None => (r matches Err(e) && e == repeat_failure(old(input).rest(), n as nat, vint_item(), vint_failure_item())),
        },
{
    let ghost t = old(input).rest();
    let _ = input.position();
    let mut i: usize = 0;
    while i < n
        invariant
            i <= n,
            input.data() == old(input).data(),
            old(input).pos() <= input.pos() <= input.data().len(),
            old(input).pos() <= old(input).data().len(),
            t == old(input).rest(),
            input.rest() == t.skip(input.pos() - old(input).pos()),
            span_vints(t, i as nat) == Some(input.pos() - old(input).pos()),
        decreases n - i,
    {
        let ghost before = input.pos() - old(input).pos();
        proof {
            lemma_span_repeat_step(t, i as nat, vint_item());
        }
        match lift(input.read_vint()) {
            Ok(_) => {},
            Err(e) => {
                proof {
                    lemma_span_repeat_stays_none(t, (i + 1) as nat, n as nat, vint_item());
                    lemma_repeat_failure_at(t, i as nat, n as nat, vint_item(), vint_failure_item(), before);
                }
                return Err(e);
            },
        }
        proof {
            assert(t.skip(before).skip(input.pos() - old(input).pos() - before) =~= t.skip(input.pos() - old(input).pos()));
        }
        i = i + 1;
    }
    Ok(())
}

/// Skips an enum set.
fn skip_enum_set(input: &mut StreamInput) -> (r: Result<(), TransportErrorDecodeError>)
    ensures
        final(input).data() == old(input).data(),
        old(input).pos() <= final(input).pos() <= final(input).data().len(),
        match span_enum_set(old(input).rest()) {
            Some(k) => r is Ok && final(input).pos() == old(input).pos() + k,
            None => (r matches Err(e) && e == enum_set_failure(old(input).rest())),
        },
{
    let ghost s = old(input).rest();
    let n = read_non_negative_len(input)?;
    proof {
            assert(input.rest() =~= s.skip(input.pos() - old(input).pos()));
    }
    skip_vints(input, n)?;
    Ok(())
}

/// Skips the first fields of a cluster block.
fn skip_cluster_block_head(input: &mut StreamInput) -> (r: Result<(), TransportErrorDecodeError>)
    ensures
        final(input).data() == old(input).data(),
        old(input).pos() <= final(input).pos() <= final(input).data().len(),
        match span_cluster_block_head(old(input).rest()) {
            Some(k) => r is Ok && final(input).pos() == old(input).pos() + k,
            None => (r matches Err(e) && e == cluster_block_head_failure(old(input).rest())),
        },
{
    let ghost s = old(input).rest();
    lift(input.read_vint())?;
    proof {
        assert(input.rest() =~= s.skip(input.pos() - old(input).pos()));
    }
    lift(input.read_optional_string())?;
    proof {
        assert(input.rest() =~= s.skip(input.pos() - old(input).pos()));
    }
    lift(input.read_string())?;
    proof {
        assert(input.rest() =~= s.skip(input.pos() - old(input).pos()));
    }
    skip_enum_set(input)?;
    Ok(())
}

/// Skips the last fields of a cluster block.
fn skip_cluster_block_tail(input: &mut StreamInput) -> (r: Result<(), TransportErrorDecodeError>)
    ensures
        final(input).data() == old(input).data(),
        old(input).pos() <= final(input).pos() <= final(input).data().len(),
        match span_cluster_block_tail(old(input).rest()) {
            Some(k) => r is Ok && final(input).pos() == old(input).pos() + k,
            None => (r matches Err(e) && e == cluster_block_tail_failure(old(input).rest())),
        },
{
    let ghost s = old(input).rest();
    lift(input.read_bool())?;
    proof {
        assert(input.rest() =~= s.skip(input.pos() - old(input).pos()));
    }
    lift(input.read_bool())?;
    proof {
        assert(input.rest() =~= s.skip(input.pos() - old(input).pos()));
    }
    lift(input.read_string())?;
    proof {
        assert(input.rest() =~= s.skip(input.pos() - old(input).pos()));
    }
    lift(input.read_bool())?;
    Ok(())
}

/// Skips a cluster block.
fn skip_cluster_block(input: &mut StreamInput) -> (r: Result<(), TransportErrorDecodeError>)
    ensures
        final(input).data() == old(input).data(),
        old(input).pos() <= final(input).pos() <= final(input).data().len(),
        match span_cluster_block(old(input).rest()) {
            Some(k) => r is Ok && final(input).pos() == old(input).pos() + k,
            None => (r matches Err(e) && e == cluster_block_failure(old(input).rest())),
        },
{
    let ghost s = old(input).rest();
    skip_cluster_block_head(input)?;
    proof {
        assert(input.rest() =~= s.skip(input.pos() - old(input).pos()));
    }
    skip_cluster_block_tail(input)?;
    Ok(())
}

/// Skips `n` cluster blocks.
fn skip_cluster_blocks_n(input: &mut StreamInput, n: usize) -> (r: Result<(), TransportErrorDecodeError>)
    ensures
        final(input).data() == old(input).data(),
        old(input).pos() <= final(input).pos() <= final(input).data().len(),
        match span_cluster_blocks_n(old(input).rest(), n as nat) {
            Some(k) => r is Ok && final(input).pos() == old(input).pos() + k,
            None => (r matches Err(e) && e == repeat_failure(old(input).rest(), n as nat, cluster_block_item(), cluster_block_failure_item())),
        },
{
    let ghost t = old(input).rest();
    let _ = input.position();
    let mut i: usize = 0;
    while i < n
        invariant
            i <= n,
            input.data() == old(input).data(),
            old(input).pos() <= input.pos() <= input.data().len(),
            old(input).pos() <= old(input).data().len(),
            t == old(input).rest(),
            input.rest() == t.skip(input.pos() - old(input).pos()),
            span_cluster_blocks_n(t, i as nat) == Some(input.pos() - old(input).pos()),
        decreases n - i,
    {
        let ghost before = input.pos() - old(input).pos();
        proof {
            lemma_span_repeat_step(t, i as nat, cluster_block_item());
        }
        match skip_cluster_block(input) {
            Ok(_) => {},
            Err(e) => {
                proof {
                    lemma_span_repeat_stays_none(t, (i + 1) as nat, n as nat, cluster_block_item());
                    lemma_repeat_failure_at(t, i as nat, n as nat, cluster_block_item(), cluster_block_failure_item(), before);
                }
                return Err(e);
            },
        }
        proof {
            assert(t.skip(before).skip(input.pos() - old(input).pos() - before) =~= t.skip(input.pos() - old(input).pos()));
        }
        i = i + 1;
    }
    Ok(())
}

/// Skips a set of cluster blocks.
fn skip_cluster_blocks(input: &mut StreamInput) -> (r: Result<(), TransportErrorDecodeError>)
    ensures
        final(input).data() == old(input).data(),
        old(input).pos() <= final(input).pos() <= final(input).data().len(),
        match span_cluster_blocks(old(input).rest()) {
            Some(k) => r is Ok && final(input).pos() == old(input).pos() + k,
            None => (r matches Err(e) && e == cluster_blocks_failure(old(input).rest())),
        },
{
    proof {
        reveal(span_cluster_blocks);
    }
    let ghost s = old(input).rest();
    let n = read_non_negative_len(input)?;
    proof {
            assert(input.rest() =~= s.skip(input.pos() - old(input).pos()));
    }
    skip_cluster_blocks_n(input, n)?;
    Ok(())
}

/// The message of an exception with an unknown stream key.
fn unknown_key_message_string(key: i32) -> (m: String)
    ensures
        m@ == unknown_key_message(key),
{
    let mut m = crate::text::owned("unsupported transport exception key ");
    let digits = i32_to_decimal(key);
    m.append(digits.as_str());
    m
}

/// Reads an exception whose stream key is not known: it takes the rest of
/// the input, and stands as an unknown transport exception.
fn read_unknown_transport_exception(input: &mut StreamInput, key: i32) -> (r: Result<TransportError, TransportErrorDecodeError>)
    ensures
        final(input).data() == old(input).data(),
        old(input).pos() <= old(input).data().len(),
        final(input).pos() == final(input).data().len(),
        r matches Ok(e) && error_view(e) == (ErrorView {
            class_name: unknown_transport_exception_class(),
            message: Some(unknown_key_message(key)),
            cause: None,
            search_context_id: None,
        }),
{
    let _ = input.position();
    let remaining = input.remaining();
    let _remaining_payload = input.read_bytes(remaining);
    let message = unknown_key_message_string(key);
    let e = TransportError {
        class_name: crate::text::owned("org.opensearch.transport.UnknownTransportException"),
        message: Some(message),
        cause: None,
        search_context_id: None,
    };
    proof {
        reveal_strlit("org.opensearch.transport.UnknownTransportException");
    }
    Ok(e)
}

fn boxed(e: Option<TransportError>) -> (b: Option<Box<TransportError>>)
    ensures
        match e {
            Some(x) => b matches Some(y) && *y == x,
            None => b is None,
        },
{
    match e {
        Some(x) => Some(Box::new(x)),
        None => None,
    }
}

/// Reads a possibly absent exception: a presence flag, the stream key, then
/// what the key calls for.
#[verifier::rlimit(80)]
#[verifier::spinoff_prover]
pub fn read_exception(input: &mut StreamInput) -> (r: Result<Option<TransportError>, TransportErrorDecodeError>)
    ensures
        final(input).data() == old(input).data(),
        old(input).pos() <= final(input).pos() <= final(input).data().len(),
        match parse_exception(old(input).rest()) {
            Some((v, n)) => r matches Ok(o) && opt_error_view(o) == v && final(input).pos() == old(input).pos() + n,
            None => (r matches Err(e) && e == exception_failure(old(input).rest())),
        },
    decreases old(input).rest().len(), 0int, 0int,
{
    let ghost s = old(input).rest();
    let _ = input.position();
    if !lift(input.read_bool())? {
        return Ok(None);
    }
    proof {
        assert(input.rest() =~= s.skip(1));
    }
    let ghost s1 = s.skip(1);
    let key = lift(input.read_vint())?;
    let ghost k = input.pos() - old(input).pos() - 1;
    proof {
        assert(input.rest() =~= s1.skip(k));
    }
    let error = if key == 0 {
        read_opensearch_exception(input)?
    } else if key == 18 {
        let ghost before = input.pos();
        let _is_executor_shutdown = lift(input.read_bool())?;
        proof {
            assert(input.rest() =~= s1.skip(k + 1));
        }
        let e = read_jvm_exception(
            input,
            "org.opensearch.common.util.concurrent.OpenSearchRejectedExecutionException",
            false,
        )?;
        proof {
            reveal_strlit("org.opensearch.common.util.concurrent.OpenSearchRejectedExecutionException");
        }
        e
    } else {
        match jvm_exception_class(key) {
            Some((class_name, has_cause)) => read_jvm_exception(input, class_name, has_cause)?,
            None => {
                proof {
                    assert(s1.len() == old(input).data().len() - old(input).pos() - 1);
                }
                read_unknown_transport_exception(input, key)?
            },
        }
    };
    Ok(Some(error))
}

/// Reads a JVM exception of class `class_name`: its message, its cause when
/// the class carries one, and its stack trace.
#[verifier::rlimit(80)]
#[verifier::spinoff_prover]
fn read_jvm_exception(input: &mut StreamInput, class_name: &'static str, has_cause: bool) -> (r: Result<
    TransportError,
    TransportErrorDecodeError,
>)
    ensures
        final(input).data() == old(input).data(),
        old(input).pos() <= final(input).pos() <= final(input).data().len(),
        match parse_jvm_exception(old(input).rest(), class_name@, has_cause) {
            Some((v, n)) => r matches Ok(e) && error_view(e) == v && final(input).pos() == old(input).pos() + n,
            None => (r matches Err(e) && e == jvm_failure(old(input).rest(), has_cause)),
        },
    decreases old(input).rest().len(), 30int, 0int,
{
    let ghost s = old(input).rest();
    let _ = input.position();
    let message = lift(input.read_optional_string())?;
    let ghost a = input.pos() - old(input).pos();
    proof {
        assert(input.rest() =~= s.skip(a));
    }
    proof {
        assert(fits(s, a));
        assert(parse_optional_string(s) is Some);
    }
    let cause = if has_cause {
        let c = read_exception(input);
        if c.is_err() {
            proof {
                assert(parse_exception(s.skip(a)) is None);
                assert(parse_jvm_exception(s, class_name@, has_cause) is None);
            }
        }
        c?
    } else {
        None
    };
    let ghost b = input.pos() - old(input).pos() - a;
    proof {
        assert(input.rest() =~= s.skip(a + b));
    }
    skip_stack_trace(input)?;
    let e = TransportError {
        class_name: crate::text::owned(class_name),
        message,
        cause: boxed(cause),
        search_context_id: None,
    };
    Ok(e)
}

/// Skips a stack trace: its frames, then its suppressed exceptions.
#[verifier::rlimit(80)]
#[verifier::spinoff_prover]
fn skip_stack_trace(input: &mut StreamInput) -> (r: Result<(), TransportErrorDecodeError>)
    ensures
        final(input).data() == old(input).data(),
        old(input).pos() <= final(input).pos() <= final(input).data().len(),
        match parse_stack_trace(old(input).rest()) {
            Some(k) => r is Ok && final(input).pos() == old(input).pos() + k,
            None => (r matches Err(e) && e == stack_trace_failure(old(input).rest())),
        },
    decreases old(input).rest().len(), 20int, 0int,
{
    let ghost s = old(input).rest();
    let _ = input.position();
    let frame_count = read_non_negative_len(input)?;
    proof {
        assert(input.rest() =~= s.skip(input.pos() - old(input).pos()));
    }
    skip_stack_frames(input, frame_count)?;
    proof {
        assert(input.rest() =~= s.skip(input.pos() - old(input).pos()));
    }
    let suppressed_count = read_non_negative_len(input)?;
    let ghost k0 = input.pos() - old(input).pos();
    let ghost t = s.skip(k0);
    proof {
        assert(input.rest() =~= t);
    }
    let mut i: usize = 0;
    while i < suppressed_count
        invariant
            i <= suppressed_count,
            input.data() == old(input).data(),
            old(input).pos() + k0 <= input.pos() <= input.data().len(),
            old(input).pos() <= old(input).data().len(),
            s == old(input).rest(),
            t == s.skip(k0),
            0 <= k0 <= s.len(),
            input.rest() == t.skip(input.pos() - old(input).pos() - k0),
            span_exceptions(t, i as nat) == Some(input.pos() - old(input).pos() - k0),
            match parse_len(s) {
                Some((n, a)) => match span_stack_frames(s.skip(a), n) {
                    Some(b) => parse_len(s.skip(a + b)) == Some((suppressed_count as nat, k0 - a - b)) && 0 <= a + b <= k0,
                    None => false,
                },
                None => false,
            },
        decreases suppressed_count - i,
    {
        let ghost before = input.pos() - old(input).pos() - k0;
        match read_exception(input) {
            Ok(_) => {},
            Err(e) => {
                proof {
                    lemma_span_exceptions_stays_none(t, (i + 1) as nat, suppressed_count as nat);
                    lemma_exceptions_failure_at(t, i as nat, suppressed_count as nat, before);
                }
                return Err(e);
            },
        }
        proof {
            assert(t.skip(before).skip(input.pos() - old(input).pos() - k0 - before) =~= t.skip(
                input.pos() - old(input).pos() - k0,
            ));
        }
        i = i + 1;
    }
    Ok(())
}

/// The two maps from strings to string lists that follow the stack trace of
/// an OpenSearch exception.
spec fn span_two_maps(t: Seq<u8>) -> Option<int> {
    match span_string_list_map(t) {
        Some(e1) => match span_string_list_map(t.skip(e1)) {
            Some(e2) => Some(e1 + e2),
            None => None,
        },
        None => None,
    }
}

/// Skips the headers and the metadata of an OpenSearch exception.
fn skip_two_string_list_maps(input: &mut StreamInput) -> (r: Result<(), TransportErrorDecodeError>)
    ensures
        final(input).data() == old(input).data(),
        old(input).pos() <= final(input).pos() <= final(input).data().len(),
        span_string_list_map(old(input).rest()) matches Some(e1) ==> 0 <= e1 <= old(input).rest().len(),
        match span_two_maps(old(input).rest()) {
            Some(k) => r is Ok && final(input).pos() == old(input).pos() + k,
            None => (r matches Err(e) && e == match span_string_list_map(old(input).rest()) { Some(e1) => string_list_map_failure(old(input).rest().skip(e1)), None => string_list_map_failure(old(input).rest()) }),
        },
{
    let ghost s = old(input).rest();
    let _ = input.position();
    let first = skip_string_list_map(input);
    if first.is_err() {
        return first;
    }
    proof {
        assert(input.rest() =~= s.skip(input.pos() - old(input).pos()));
    }
    skip_string_list_map(input)
}

/// The stack trace, headers and metadata of an OpenSearch exception, once the
/// stack trace has been read.
#[verifier::spinoff_prover]
proof fn lemma_stack_trace_and_maps_after_trace(s: Seq<u8>, d: int)
    requires
        parse_stack_trace(s) == Some(d),
        0 <= d <= s.len(),
        span_string_list_map(s.skip(d)) matches Some(e1) ==> 0 <= e1 <= s.len() - d,
    ensures
        span_stack_trace_and_maps(s) == match span_two_maps(s.skip(d)) {
            Some(k) => Some(d + k),
            None => None,
        },
        stack_trace_and_maps_failure(s) == match span_string_list_map(s.skip(d)) {
            Some(e1) => string_list_map_failure(s.skip(d).skip(e1)),
            None => string_list_map_failure(s.skip(d)),
        },
{
    if let Some(e1) = span_string_list_map(s.skip(d)) {
        assert(s.skip(d).skip(e1) =~= s.skip(d + e1));
    }
}

/// Skips the stack trace, headers and metadata of an OpenSearch exception.
fn skip_stack_trace_and_maps(input: &mut StreamInput) -> (r: Result<(), TransportErrorDecodeError>)
    ensures
        final(input).data() == old(input).data(),
        old(input).pos() <= final(input).pos() <= final(input).data().len(),
        match span_stack_trace_and_maps(old(input).rest()) {
            Some(k) => r is Ok && final(input).pos() == old(input).pos() + k,
            None => (r matches Err(e) && e == stack_trace_and_maps_failure(old(input).rest())),
        },
    decreases old(input).rest().len(), 22int, 0int,
{
    let ghost s = old(input).rest();
    let trace = skip_stack_trace(input);
    if trace.is_err() {
        return trace;
    }
    let ghost d = input.pos() - old(input).pos();
    proof {
        assert(input.rest() =~= s.skip(d));
    }
    let r = skip_two_string_list_maps(input);
    proof {
        lemma_stack_trace_and_maps_after_trace(s, d);
    }
    r
}

/// Reads what follows the message of the OpenSearch exception with id `id`:
/// its cause, then its fields.
#[verifier::rlimit(60)]
#[verifier::spinoff_prover]
fn read_opensearch_tail(input: &mut StreamInput, id: i32) -> (r: Result<
    (Option<TransportError>, Option<TransportErrorSearchContextId>),
    TransportErrorDecodeError,
>)
    ensures
        final(input).data() == old(input).data(),
        old(input).pos() <= final(input).pos() <= final(input).data().len(),
        match parse_opensearch_tail(id, old(input).rest()) {
            Some((cause, context, n)) => r matches Ok((c, x)) && final(input).pos() == old(input).pos() + n
                && opt_error_view(c) == cause && match x {
                Some(y) => context == Some((y.session_id@, y.id)),
                None => context is None,
            },
            None => (r matches Err(e) && e == opensearch_tail_failure(id, old(input).rest())),
        },
    decreases old(input).rest().len(), 28int, 0int,
{
    let ghost s = old(input).rest();
    let _ = input.position();
    let cause = read_exception(input)?;
    proof {
        assert(input.rest() =~= s.skip(input.pos() - old(input).pos()));
    }
    let context = read_opensearch_fields(input, id)?;
    Ok((cause, context))
}

/// Reads the stack trace, headers and metadata of the OpenSearch exception
/// with id `id`, then the fields of its class.
#[verifier::rlimit(100)]
#[verifier::spinoff_prover]
fn read_opensearch_fields(input: &mut StreamInput, id: i32) -> (r: Result<
    Option<TransportErrorSearchContextId>,
    TransportErrorDecodeError,
>)
    ensures
        final(input).data() == old(input).data(),
        old(input).pos() <= final(input).pos() <= final(input).data().len(),
        match parse_opensearch_fields(id, old(input).rest()) {
            Some((v, f)) => r matches Ok(o) && final(input).pos() == old(input).pos() + f && match o {
                Some(c) => v == Some((c.session_id@, c.id)),
                None => v is None,
            },
            None => (r matches Err(e) && e == opensearch_fields_failure(id, old(input).rest())),
        },
    decreases old(input).rest().len(), 25int, 0int,
{
    let ghost s = old(input).rest();
    let _ = input.position();
    match skip_stack_trace_and_maps(input) {
        Err(e) => {
            proof {
                lemma_opensearch_fields_parts(id, s, 0);
            }
            return Err(e);
        },
        Ok(()) => {},
    }
    let ghost d = input.pos() - old(input).pos();
    proof {
        assert(input.rest() =~= s.skip(d));
        lemma_opensearch_fields_parts(id, s, d);
    }
    read_opensearch_extension(input, id)
}

/// The fields of an OpenSearch exception, in terms of its stack trace and
/// maps and of the fields of its class.
proof fn lemma_opensearch_fields_parts(id: i32, s: Seq<u8>, d: int)
    ensures
        span_stack_trace_and_maps(s) is None ==> parse_opensearch_fields(id, s) is None,
        span_stack_trace_and_maps(s) == Some(d) && 0 <= d <= s.len() ==> parse_opensearch_fields(id, s) == match parse_opensearch_extension(id, s.skip(d)) {
            Some((c, f)) => Some((c, d + f)),
            None => None,
        },
{
}

/// Reads an OpenSearch exception: its id, message, cause, stack trace,
/// headers and metadata, then the fields of its class.
#[verifier::rlimit(100)]
#[verifier::spinoff_prover]
fn read_opensearch_exception(input: &mut StreamInput) -> (r: Result<TransportError, TransportErrorDecodeError>)
    ensures
        final(input).data() == old(input).data(),
        old(input).pos() <= final(input).pos() <= final(input).data().len(),
        match parse_opensearch_exception(old(input).rest()) {
            Some((v, n)) => r matches Ok(e) && error_view(e) == v && final(input).pos() == old(input).pos() + n,
            None => (r matches Err(e) && e == opensearch_failure(old(input).rest())),
        },
    decreases old(input).rest().len(), 30int, 0int,
{
    let ghost s = old(input).rest();
    let _ = input.position();
    let id = lift(input.read_vint())?;
    let class_name = opensearch_exception_class_name(id);
    proof {
        assert(input.rest() =~= s.skip(input.pos() - old(input).pos()));
    }
    let message = lift(input.read_optional_string())?;
    proof {
        assert(input.rest() =~= s.skip(input.pos() - old(input).pos()));
    }
    let (cause, search_context_id) = read_opensearch_tail(input, id)?;
    Ok(
        TransportError {
            class_name: crate::text::owned(class_name),
            message,
            cause: boxed(cause),
            search_context_id,
        },
    )
}

/// Reads the fields of the OpenSearch exception with id `id`, keeping the
/// search context a search-context-missing exception names.
#[verifier::rlimit(80)]
#[verifier::spinoff_prover]
fn read_opensearch_extension(input: &mut StreamInput, id: i32) -> (r: Result<
    Option<TransportErrorSearchContextId>,
    TransportErrorDecodeError,
>)
    ensures
        final(input).data() == old(input).data(),
        old(input).pos() <= final(input).pos() <= final(input).data().len(),
        match parse_opensearch_extension(id, old(input).rest()) {
            Some((v, n)) => r matches Ok(o) && final(input).pos() == old(input).pos() + n && match o {
                Some(c) => v == Some((c.session_id@, c.id)),
                None => v is None,
            },
            None => (r matches Err(e) && e == opensearch_extension_failure(id, old(input).rest())),
        },
    decreases old(input).rest().len(), 20int, 0int,
{
    let ghost s = old(input).rest();
    let _ = input.position();
    if id == 100 {
        let _phase_name = lift(input.read_optional_string())?;
        proof {
            let a = input.pos() - old(input).pos();
            assert(input.rest() =~= s.skip(a));
            lemma_vint_bounds(s.skip(a));
            match parse_len(s.skip(a)) {
                Some((n, b)) => {
                    if 0 <= b <= s.skip(a).len() {
                        assert(s.skip(a).skip(b) =~= s.skip(a + b));
                    }
                },
                None => {},
            }
        }
        skip_shard_search_failures(input)?;
        Ok(None)
    } else if id == 24 {
        let context_id = lift(input.read_i64())?;
        proof {
            assert(input.rest() =~= s.skip(input.pos() - old(input).pos()));
        }
        let session_id = lift(input.read_string())?;
        Ok(Some(TransportErrorSearchContextId { session_id, id: context_id }))
    } else {
        skip_extension_fields(input, id)?;
        Ok(None)
    }
}

/// Skips the shard target, reason and status of a shard search failure.
fn skip_shard_failure_head(input: &mut StreamInput) -> (r: Result<(), TransportErrorDecodeError>)
    ensures
        final(input).data() == old(input).data(),
        old(input).pos() <= final(input).pos() <= final(input).data().len(),
        match span_shard_failure_head(old(input).rest()) {
            Some(k) => r is Ok && final(input).pos() == old(input).pos() + k,
            None => (r matches Err(e) && e == shard_failure_head_failure(old(input).rest())),
        },
{
    let ghost s = old(input).rest();
    skip_optional_search_shard_target(input)?;
    proof {
        assert(input.rest() =~= s.skip(input.pos() - old(input).pos()));
    }
    lift(input.read_string())?;
    proof {
        assert(input.rest() =~= s.skip(input.pos() - old(input).pos()));
    }
    lift(input.read_string())?;
    Ok(())
}

/// Skips shard search failures: a count, then for each the shard target,
/// reason, status and cause.
#[verifier::rlimit(80)]
#[verifier::spinoff_prover]
fn skip_shard_search_failures(input: &mut StreamInput) -> (r: Result<(), TransportErrorDecodeError>)
    ensures
        final(input).data() == old(input).data(),
        old(input).pos() <= final(input).pos() <= final(input).data().len(),
        match parse_len(old(input).rest()) {
            Some((n, b)) => match span_shard_failures(old(input).rest().skip(b), n) {
                Some(c) => r is Ok && final(input).pos() == old(input).pos() + b + c,
                None => (r matches Err(e) && e == shard_failures_failure(old(input).rest().skip(b), n)),
            },
            None => (r matches Err(e) && e == length_failure(old(input).rest())),
        },
    decreases old(input).rest().len(), 10int, 0int,
{
    let ghost s = old(input).rest();
    let _ = input.position();
    let len = read_non_negative_len(input)?;
    let ghost k0 = input.pos() - old(input).pos();
    let ghost t = s.skip(k0);
    proof {
        assert(input.rest() =~= t);
    }
    let mut i: usize = 0;
    while i < len
        invariant
            i <= len,
            input.data() == old(input).data(),
            old(input).pos() + k0 <= input.pos() <= input.data().len(),
            old(input).pos() <= old(input).data().len(),
            s == old(input).rest(),
            t == s.skip(k0),
            0 <= k0 <= s.len(),
            parse_len(s) == Some((len as nat, k0)),
            input.rest() == t.skip(input.pos() - old(input).pos() - k0),
            span_shard_failures(t, i as nat) == Some(input.pos() - old(input).pos() - k0),
        decreases len - i,
    {
        let ghost k = input.pos() - old(input).pos() - k0;
        match skip_shard_failure_head(input) {
            Ok(()) => {},
            Err(e) => {
                proof {
                    lemma_span_shard_failures_stays_none(t, (i + 1) as nat, len as nat);
                    lemma_shard_failures_failure_at(t, i as nat, len as nat, k);
                }
                return Err(e);
            },
        }
        let ghost h = input.pos() - old(input).pos() - k0 - k;
        proof {
            assert(input.rest() =~= t.skip(k + h));
        }
        match read_exception(input) {
            Ok(_) => {},
            Err(e) => {
                proof {
                    lemma_span_shard_failures_stays_none(t, (i + 1) as nat, len as nat);
                    lemma_shard_failures_failure_at(t, i as nat, len as nat, k);
                }
                return Err(e);
            },
        }
        proof {
            assert(t.skip(k + h).skip(input.pos() - old(input).pos() - k0 - k - h) =~= t.skip(
                input.pos() - old(input).pos() - k0,
            ));
        }
        i = i + 1;
    }
    Ok(())
}

/// Skips the extension fields made of a few plain values.
#[verifier::rlimit(40)]
fn skip_flat_extension_fields(input: &mut StreamInput, id: i32) -> (r: Result<(), TransportErrorDecodeError>)
    ensures
        final(input).data() == old(input).data(),
        old(input).pos() <= final(input).pos() <= final(input).data().len(),
        match flat_extension_fields(id, old(input).rest()) {
            Some(k) => r is Ok && final(input).pos() == old(input).pos() + k,
            None => (r matches Err(e) && e == flat_extension_failure(id, old(input).rest())),
        },
{
    reveal(crate::codec::parse_i32);
    reveal(crate::codec::parse_i64);
    proof {
        reveal(flat_extension_fields);
    }
    let ghost s = old(input).rest();
    let _ = input.position();
    if id == 101 || id == 57 || id == 82 || id == 88 || id == 71 || id == 78 {
        lift(input.read_optional_string())?;
    } else if id == 40 || id == 72 {
        lift(input.read_i32())?;
        proof {
            assert(input.rest() =~= s.skip(4));
        }
        lift(input.read_i32())?;
    } else if id == 30 {
        lift(input.read_optional_string())?;
        proof {
            assert(input.rest() =~= s.skip(input.pos() - old(input).pos()));
        }
        lift(input.read_optional_string())?;
    } else if id == 62 {
        lift(input.read_string())?;
        proof {
            assert(input.rest() =~= s.skip(input.pos() - old(input).pos()));
        }
        lift(input.read_byte())?;
    } else if id == 76 || id == 149 {
        lift(input.read_i32())?;
    } else if id == 79 || id == 163 {
        lift(input.read_string())?;
        proof {
            assert(input.rest() =~= s.skip(input.pos() - old(input).pos()));
        }
        lift(input.read_string())?;
    } else if id == 17 || id == 97 || id == 155 || id == 177 || id == 145 {
        lift(input.read_byte())?;
    } else if id == 175 {
        lift(input.read_vint())?;
        proof {
            assert(input.rest() =~= s.skip(input.pos() - old(input).pos()));
        }
        lift(input.read_vint())?;
    }
    Ok(())
}

/// Skips the extension fields of a connect transport exception.
fn skip_connect_transport_fields(input: &mut StreamInput) -> (r: Result<(), TransportErrorDecodeError>)
    ensures
        final(input).data() == old(input).data(),
        old(input).pos() <= final(input).pos() <= final(input).data().len(),
        match span_connect_transport_fields(old(input).rest()) {
            Some(k) => r is Ok && final(input).pos() == old(input).pos() + k,
            None => (r matches Err(e) && e == connect_transport_failure(old(input).rest())),
        },
{
    proof {
        reveal(span_connect_transport_fields);
    }
    let ghost s = old(input).rest();
    skip_action_transport_exception_fields(input)?;
    proof {
        assert(input.rest() =~= s.skip(input.pos() - old(input).pos()));
    }
    skip_optional_discovery_node(input)?;
    Ok(())
}

/// Skips the extension fields of a recover files recovery exception.
fn skip_recover_files_fields(input: &mut StreamInput) -> (r: Result<(), TransportErrorDecodeError>)
    ensures
        final(input).data() == old(input).data(),
        old(input).pos() <= final(input).pos() <= final(input).data().len(),
        match span_recover_files_fields(old(input).rest()) {
            Some(k) => r is Ok && final(input).pos() == old(input).pos() + k,
            None => (r matches Err(e) && e == recover_files_failure(old(input).rest())),
        },
{
    reveal(crate::codec::parse_i32);
    reveal(crate::codec::parse_i64);
    proof {
        reveal(span_recover_files_fields);
    }
    let ghost s = old(input).rest();
    lift(input.read_i32())?;
    proof {
        assert(input.rest() =~= s.skip(input.pos() - old(input).pos()));
    }
    skip_byte_size_value(input)?;
    Ok(())
}

/// Skips the extension fields of a circuit breaking exception.
fn skip_circuit_breaking_fields(input: &mut StreamInput) -> (r: Result<(), TransportErrorDecodeError>)
    ensures
        final(input).data() == old(input).data(),
        old(input).pos() <= final(input).pos() <= final(input).data().len(),
        match span_circuit_breaking_fields(old(input).rest()) {
            Some(k) => r is Ok && final(input).pos() == old(input).pos() + k,
            None => (r matches Err(e) && e == circuit_breaking_failure(old(input).rest())),
        },
{
    proof {
        reveal(span_circuit_breaking_fields);
    }
    let ghost s = old(input).rest();
    lift(input.read_i64())?;
    proof {
        assert(input.rest() =~= s.skip(input.pos() - old(input).pos()));
    }
    lift(input.read_i64())?;
    proof {
        assert(input.rest() =~= s.skip(input.pos() - old(input).pos()));
    }
    lift(input.read_vint())?;
    Ok(())
}

/// Skips the extension fields of a script exception.
fn skip_script_fields(input: &mut StreamInput) -> (r: Result<(), TransportErrorDecodeError>)
    ensures
        final(input).data() == old(input).data(),
        old(input).pos() <= final(input).pos() <= final(input).data().len(),
        match span_script_fields(old(input).rest()) {
            Some(k) => r is Ok && final(input).pos() == old(input).pos() + k,
            None => (r matches Err(e) && e == script_failure(old(input).rest())),
        },
{
    proof {
        reveal(span_script_fields);
    }
    let ghost s = old(input).rest();
    lift(input.read_string_array())?;
    proof {
        assert(input.rest() =~= s.skip(input.pos() - old(input).pos()));
    }
    lift(input.read_string())?;
    proof {
        assert(input.rest() =~= s.skip(input.pos() - old(input).pos()));
    }
    lift(input.read_string())?;
    proof {
        assert(input.rest() =~= s.skip(input.pos() - old(input).pos()));
    }
    skip_optional_script_position(input)?;
    Ok(())
}

/// Skips the extension fields of a crypto registry exception.
fn skip_crypto_registry_fields(input: &mut StreamInput) -> (r: Result<(), TransportErrorDecodeError>)
    ensures
        final(input).data() == old(input).data(),
        old(input).pos() <= final(input).pos() <= final(input).data().len(),
        match span_crypto_registry_fields(old(input).rest()) {
            Some(k) => r is Ok && final(input).pos() == old(input).pos() + k,
            None => (r matches Err(e) && e == crypto_registry_failure(old(input).rest())),
        },
{
    proof {
        reveal(span_crypto_registry_fields);
    }
    let ghost s = old(input).rest();
    lift(input.read_string())?;
    proof {
        assert(input.rest() =~= s.skip(input.pos() - old(input).pos()));
    }
    lift(input.read_string())?;
    proof {
        assert(input.rest() =~= s.skip(input.pos() - old(input).pos()));
    }
    lift(input.read_i32())?;
    Ok(())
}

/// Skips the extension fields that hold addresses, nodes, shard targets,
/// sizes, blocks or scripts.
fn skip_nested_extension_fields(input: &mut StreamInput, id: i32) -> (r: Result<(), TransportErrorDecodeError>)
    ensures
        final(input).data() == old(input).data(),
        old(input).pos() <= final(input).pos() <= final(input).data().len(),
        match nested_extension_fields(id, old(input).rest()) {
            Some(k) => r is Ok && final(input).pos() == old(input).pos() + k,
            None => (r matches Err(e) && e == nested_extension_failure(id, old(input).rest())),
        },
{
    proof {
        reveal(nested_extension_fields);
    }
    if id == 12 {
        skip_connect_transport_fields(input)
    } else if id == 20 || id == 83 || id == 103 {
        skip_action_transport_exception_fields(input)
    } else if id == 36 {
        skip_optional_search_shard_target(input)
    } else if id == 42 {
        skip_recover_files_fields(input)
    } else if id == 49 {
        skip_cluster_blocks(input)
    } else if id == 133 {
        skip_circuit_breaking_fields(input)
    } else if id == 143 {
        skip_script_fields(input)
    } else {
        skip_crypto_registry_fields(input)
    }
}

/// Skips the fields of the OpenSearch exception with id `id` (for every id
/// but 24 and 100).
fn skip_extension_fields(input: &mut StreamInput, id: i32) -> (r: Result<(), TransportErrorDecodeError>)
    ensures
        final(input).data() == old(input).data(),
        old(input).pos() <= final(input).pos() <= final(input).data().len(),
        match extension_fields(id, old(input).rest()) {
            Some(k) => r is Ok && final(input).pos() == old(input).pos() + k,
            None => (r matches Err(e) && e == extension_fields_failure(id, old(input).rest())),
        },
{
    proof {
        reveal(extension_fields);
    }
    if id == 12 || id == 20 || id == 83 || id == 103 || id == 36 || id == 42 || id == 49 || id == 133 || id == 143
        || id == 171 {
        skip_nested_extension_fields(input, id)
    } else {
        skip_flat_extension_fields(input, id)
    }
}

/// The one-line summary of an exception: its class, then its message after a
/// colon, then the summary of its cause.
pub open spec fn summary_of(e: ErrorView) -> Seq<char>
    decreases e,
{
    let head = match e.message {
        Some(m) => e.class_name + ": "@ + m,
        None => e.class_name,
    };
    match e.cause {
        Some(c) => head + "; caused_by="@ + summary_of(*c),
        None => head,
    }
}

impl TransportError {
    /// Reads an error body: one possibly absent exception and nothing after it.
    pub fn read(bytes: Vec<u8>) -> (r: Result<Option<Self>, TransportErrorDecodeError>)
        ensures
            match parse_exception(bytes@) {
                Some((v, n)) => if n == bytes@.len() {
                    r matches Ok(o) && opt_error_view(o) == v
                } else {
                    r == Err::<Option<Self>, TransportErrorDecodeError>(
                        TransportErrorDecodeError::TrailingBytes((bytes@.len() - n) as usize),
                    )
                },
                None => (r matches Err(e) && e == exception_failure(bytes@)),
            },
    {
        let mut input = StreamInput::new(bytes);
        let error = read_exception(&mut input)?;
        let remaining = input.remaining();
        if remaining != 0 {
            return Err(TransportErrorDecodeError::TrailingBytes(remaining));
        }
        Ok(error)
    }

    /// The one-line summary of this exception and its causes.
    pub fn summary(&self) -> (s: String)
        ensures
            s@ == summary_of(error_view(*self)),
        decreases self,
    {
        let mut summary = self.class_name.clone();
        match &self.message {
            Some(message) => {
                summary.append(": ");
                summary.append(message.as_str());
            },
            None => {},
        }
        match &self.cause {
            Some(cause) => {
                let inner = cause.summary();
                summary.append("; caused_by=");
                summary.append(inner.as_str());
            },
            None => {},
        }
        summary
    }
}


/// The characters of an optional string slice.
pub open spec fn opt_str_view(m: Option<&str>) -> Option<Seq<char>> {
    match m {
        Some(x) => Some(x@),
        None => None,
    }
}

fn write_empty_stack_trace(output: &mut StreamOutput)
    ensures
        final(output)@ == old(output)@ + enc_empty_stack_trace(),
{
    output.write_vint(0);
    output.write_vint(0);
    assert(output@ =~= old(output)@ + enc_empty_stack_trace());
}

fn write_empty_string_list_map(output: &mut StreamOutput)
    ensures
        final(output)@ == old(output)@ + enc_empty_string_list_map(),
{
    output.write_vint(0);
}

fn write_jvm_exception(output: &mut StreamOutput, key: i32, message: Option<&str>)
    ensures
        final(output)@ == old(output)@ + enc_jvm_exception(key, opt_str_view(message)),
{
    output.write_bool(true);
    output.write_vint(key);
    output.write_optional_string(message);
    output.write_bool(false);
    write_empty_stack_trace(output);
    assert(output@ =~= old(output)@ + enc_jvm_exception(key, opt_str_view(message)));
}

/// Writes an illegal argument exception with `message`.
pub fn write_illegal_argument_exception(output: &mut StreamOutput, message: Option<&str>)
    ensures
        final(output)@ == old(output)@ + enc_jvm_exception(6, opt_str_view(message)),
{
    write_jvm_exception(output, 6, message);
}

/// Writes an illegal state exception with `message`.
pub fn write_illegal_state_exception(output: &mut StreamOutput, message: Option<&str>)
    ensures
        final(output)@ == old(output)@ + enc_jvm_exception(14, opt_str_view(message)),
{
    write_jvm_exception(output, 14, message);
}

/// Writes a rejected execution exception with `message`.
pub fn write_rejected_execution_exception(output: &mut StreamOutput, message: Option<&str>)
    ensures
        final(output)@ == old(output)@ + enc_rejected_execution_exception(opt_str_view(message)),
{
    output.write_bool(true);
    output.write_vint(18);
    output.write_bool(false);
    output.write_optional_string(message);
    write_empty_stack_trace(output);
    assert(output@ =~= old(output)@ + enc_rejected_execution_exception(opt_str_view(message)));
}

fn write_opensearch_head(output: &mut StreamOutput, id: i32, message: Option<&str>)
    ensures
        final(output)@ == old(output)@ + enc_opensearch_head(id, opt_str_view(message)),
{
    output.write_bool(true);
    output.write_vint(0);
    output.write_vint(id);
    output.write_optional_string(message);
    output.write_bool(false);
    write_empty_stack_trace(output);
    assert(output@ =~= old(output)@ + enc_opensearch_head(id, opt_str_view(message)));
}

fn write_plain_opensearch_exception(output: &mut StreamOutput, id: i32, message: Option<&str>)
    ensures
        final(output)@ == old(output)@ + enc_plain_opensearch_exception(id, opt_str_view(message)),
{
    write_opensearch_head(output, id, message);
    write_empty_string_list_map(output);
    write_empty_string_list_map(output);
    assert(output@ =~= old(output)@ + enc_plain_opensearch_exception(id, opt_str_view(message)));
}

/// Writes an incompatible cluster state version exception with `message`.
pub fn write_incompatible_cluster_state_version_exception(output: &mut StreamOutput, message: Option<&str>)
    ensures
        final(output)@ == old(output)@ + enc_plain_opensearch_exception(75, opt_str_view(message)),
{
    write_plain_opensearch_exception(output, 75, message);
}

/// Writes a resource not found exception with `message`.
pub fn write_resource_not_found_exception(output: &mut StreamOutput, message: Option<&str>)
    ensures
        final(output)@ == old(output)@ + enc_plain_opensearch_exception(19, opt_str_view(message)),
{
    write_plain_opensearch_exception(output, 19, message);
}

/// Writes a search context missing exception naming context `context_id` of
/// session `session_id`.
pub fn write_search_context_missing_exception(
    output: &mut StreamOutput,
    message: Option<&str>,
    session_id: &str,
    context_id: i64,
)
    ensures
        final(output)@ == old(output)@ + enc_search_context_missing_exception(
            opt_str_view(message),
            session_id@,
            context_id,
        ),
{
    write_plain_opensearch_exception(output, 24, message);
    output.write_i64(context_id);
    output.write_string(session_id);
    assert(output@ =~= old(output)@ + enc_search_context_missing_exception(opt_str_view(message), session_id@, context_id));
}

fn write_nested_search_context_missing_exception(
    output: &mut StreamOutput,
    message: Option<&str>,
    session_id: &str,
    context_id: i64,
)
    ensures
        final(output)@ == old(output)@ + enc_search_context_missing_exception(
            opt_str_view(message),
            session_id@,
            context_id,
        ),
{
    write_search_context_missing_exception(output, message, session_id, context_id);
}

/// Writes a search phase execution exception of phase `phase_name` whose
/// cause and only shard failure are a missing search context.
pub fn write_search_phase_execution_exception_for_missing_context(
    output: &mut StreamOutput,
    phase_name: &str,
    message: &str,
    missing_context_message: &str,
    session_id: &str,
    context_id: i64,
)
    ensures
        final(output)@ == old(output)@ + enc_search_phase_missing_context(
            phase_name@,
            message@,
            missing_context_message@,
            session_id@,
            context_id,
        ),
{
    output.write_bool(true);
    output.write_vint(0);
    output.write_vint(100);
    output.write_optional_string(Some(message));
    write_nested_search_context_missing_exception(output, Some(missing_context_message), session_id, context_id);
    write_empty_stack_trace(output);
    write_empty_string_list_map(output);
    write_empty_string_list_map(output);
    output.write_optional_string(Some(phase_name));
    output.write_vint(1);
    output.write_bool(false);
    output.write_string(missing_context_message);
    output.write_string("NOT_FOUND");
    write_nested_search_context_missing_exception(output, Some(missing_context_message), session_id, context_id);
    assert(output@ =~= old(output)@ + enc_search_phase_missing_context(
        phase_name@,
        message@,
        missing_context_message@,
        session_id@,
        context_id,
    ));
}

fn write_metadata_entry(output: &mut StreamOutput, key: &str, value: &str)
    ensures
        final(output)@ == old(output)@ + enc_string(key@) + enc_vint(1) + enc_string(value@),
{
    output.write_string(key);
    output.write_vint(1);
    output.write_string(value);
}

fn write_index_exception(output: &mut StreamOutput, id: i32, message: &str, index: &str)
    ensures
        final(output)@ == old(output)@ + enc_index_exception(id, message@, index@),
{
    write_opensearch_head(output, id, Some(message));
    write_empty_string_list_map(output);
    output.write_vint(2);
    write_metadata_entry(output, "opensearch.index", index);
    write_metadata_entry(output, "opensearch.index_uuid", "_na_");
    proof {
        reveal_with_fuel(enc_metadata_entries, 3);
        let m = index_metadata(index@, "_na_"@);
        assert(m.drop_last().drop_last() =~= Seq::<(Seq<char>, Seq<char>)>::empty());
        assert(m.drop_last().last() == ("opensearch.index"@, index@));
        assert(m.last() == ("opensearch.index_uuid"@, "_na_"@));
    }
    assert(output@ =~= old(output)@ + enc_index_exception(id, message@, index@));
}

/// Writes an index not found exception about `index`.
pub fn write_index_not_found_exception(output: &mut StreamOutput, index: &str)
    ensures
        final(output)@ == old(output)@ + enc_index_exception(16, index_not_found_message(index@), index@),
{
    let mut message = crate::text::owned("no such index [");
    message.append(index);
    message.append("]");
    write_index_exception(output, 16, message.as_str(), index);
}

/// Writes an invalid index name exception about `index`, described by `desc`.
pub fn write_invalid_index_name_exception(output: &mut StreamOutput, index: &str, desc: &str)
    ensures
        final(output)@ == old(output)@ + enc_index_exception(32, invalid_index_name_message(index@, desc@), index@),
{
    let mut message = crate::text::owned("Invalid index name [");
    message.append(index);
    message.append("], ");
    message.append(desc);
    write_index_exception(output, 32, message.as_str(), index);
}

/// Writes an index closed exception about `index`.
pub fn write_index_closed_exception(output: &mut StreamOutput, index: &str)
    ensures
        final(output)@ == old(output)@ + enc_index_exception(6, "closed"@, index@),
{
    write_index_exception(output, 6, "closed", index);
}

/// Writes a shard not found exception about shard `shard_id` of `index`.
pub fn write_shard_not_found_exception(output: &mut StreamOutput, index: &str, index_uuid: &str, shard_id: i32)
    ensures
        final(output)@ == old(output)@ + enc_shard_not_found_exception(index@, index_uuid@, shard_id),
{
    write_opensearch_head(output, 11, Some("no such shard"));
    write_empty_string_list_map(output);
    output.write_vint(3);
    write_metadata_entry(output, "opensearch.index", index);
    write_metadata_entry(output, "opensearch.index_uuid", index_uuid);
    let shard = i32_to_decimal(shard_id);
    write_metadata_entry(output, "opensearch.shard", shard.as_str());
    proof {
        reveal_with_fuel(enc_metadata_entries, 4);
        let m = index_metadata(index@, index_uuid@).push(("opensearch.shard"@, decimal(shard_id as int)));
        assert(m.drop_last().drop_last().drop_last() =~= Seq::<(Seq<char>, Seq<char>)>::empty());
        assert(m.drop_last().drop_last().last() == ("opensearch.index"@, index@));
        assert(m.drop_last().last() == ("opensearch.index_uuid"@, index_uuid@));
        assert(m.drop_last() =~= index_metadata(index@, index_uuid@));
    }
    assert(output@ =~= old(output)@ + enc_shard_not_found_exception(index@, index_uuid@, shard_id));
}

} // verus!
