use os_transport::action_names::{
    OpenSearchPriorityTransportActionSpec, SourceTransportActionSpec, OPENSEARCH_PRIORITY_TRANSPORT_ACTIONS,
    SOURCE_DERIVED_CLUSTER_ACTIONS, STEELSEARCH_RECOVERY_ACTIONS, STEELSEARCH_REPLICATION_ACTIONS,
    STEELSEARCH_SEARCH_ACTIONS,
    CANCEL_TASKS_ACTION_NAME,
    CLUSTER_HEALTH_ACTION_NAME,
    CLUSTER_STATE_ACTION_NAME,
    CLUSTER_STATS_ACTION_NAME,
    CLUSTER_UPDATE_SETTINGS_ACTION_NAME,
    GET_REPOSITORIES_ACTION_NAME,
    GET_TASK_ACTION_NAME,
    LIST_TASKS_ACTION_NAME,
    NODES_HOT_THREADS_ACTION_NAME,
    NODES_INFO_ACTION_NAME,
    NODES_STATS_ACTION_NAME,
    NODES_USAGE_ACTION_NAME,
    OPENSEARCH_BULK_ACTION_NAME,
    OPENSEARCH_CLUSTER_SEARCH_SHARDS_ACTION_NAME,
    OPENSEARCH_DELETE_ACTION_NAME,
    OPENSEARCH_GET_ACTION_NAME,
    OPENSEARCH_GET_ALIASES_ACTION_NAME,
    OPENSEARCH_GET_DATA_STREAM_ACTION_NAME,
    OPENSEARCH_GET_FIELD_MAPPINGS_ACTION_NAME,
    OPENSEARCH_GET_MAPPINGS_ACTION_NAME,
    OPENSEARCH_GET_SETTINGS_ACTION_NAME,
    OPENSEARCH_INDEX_ACTION_NAME,
    OPENSEARCH_INDICES_SEGMENTS_ACTION_NAME,
    OPENSEARCH_INDICES_SHARD_STORES_ACTION_NAME,
    OPENSEARCH_INDICES_STATS_ACTION_NAME,
    OPENSEARCH_MULTI_GET_ACTION_NAME,
    OPENSEARCH_RECOVERY_ACTION_NAME,
    OPENSEARCH_REFRESH_ACTION_NAME,
    OPENSEARCH_SEARCH_ACTION_NAME,
    OPENSEARCH_UPDATE_ACTION_NAME,
    PENDING_CLUSTER_TASKS_ACTION_NAME,
};
use os_transport::dispatch::{classify_opensearch_transport_action, OpenSearchTransportActionDisposition};

#[test]
fn source_derived_cluster_actions_have_opensearch_names_and_wire_types() {
    assert_eq!(
        SOURCE_DERIVED_CLUSTER_ACTIONS(),
        &[
            SourceTransportActionSpec {
                action_name: "cluster:monitor/state",
                action_type: "ClusterStateAction",
                transport_action: "TransportClusterStateAction",
                request_wire_type: "ClusterStateRequest",
                response_wire_type: "ClusterStateResponse",
            },
            SourceTransportActionSpec {
                action_name: "cluster:monitor/health",
                action_type: "ClusterHealthAction",
                transport_action: "TransportClusterHealthAction",
                request_wire_type: "ClusterHealthRequest",
                response_wire_type: "ClusterHealthResponse",
            },
            SourceTransportActionSpec {
                action_name: "cluster:monitor/stats",
                action_type: "ClusterStatsAction",
                transport_action: "TransportClusterStatsAction",
                request_wire_type: "ClusterStatsRequest",
                response_wire_type: "ClusterStatsResponse",
            },
            SourceTransportActionSpec {
                action_name: "cluster:monitor/nodes/info",
                action_type: "NodesInfoAction",
                transport_action: "TransportNodesInfoAction",
                request_wire_type: "NodesInfoRequest",
                response_wire_type: "NodesInfoResponse",
            },
            SourceTransportActionSpec {
                action_name: "cluster:monitor/nodes/stats",
                action_type: "NodesStatsAction",
                transport_action: "TransportNodesStatsAction",
                request_wire_type: "NodesStatsRequest",
                response_wire_type: "NodesStatsResponse",
            },
            SourceTransportActionSpec {
                action_name: "cluster:monitor/nodes/usage",
                action_type: "NodesUsageAction",
                transport_action: "TransportNodesUsageAction",
                request_wire_type: "NodesUsageRequest",
                response_wire_type: "NodesUsageResponse",
            },
            SourceTransportActionSpec {
                action_name: "cluster:monitor/nodes/hot_threads",
                action_type: "NodesHotThreadsAction",
                transport_action: "TransportNodesHotThreadsAction",
                request_wire_type: "NodesHotThreadsRequest",
                response_wire_type: "NodesHotThreadsResponse",
            },
            SourceTransportActionSpec {
                action_name: "cluster:admin/settings/update",
                action_type: "ClusterUpdateSettingsAction",
                transport_action: "TransportClusterUpdateSettingsAction",
                request_wire_type: "ClusterUpdateSettingsRequest",
                response_wire_type: "ClusterUpdateSettingsResponse",
            },
            SourceTransportActionSpec {
                action_name: "cluster:admin/repository/get",
                action_type: "GetRepositoriesAction",
                transport_action: "TransportGetRepositoriesAction",
                request_wire_type: "GetRepositoriesRequest",
                response_wire_type: "GetRepositoriesResponse",
            },
            SourceTransportActionSpec {
                action_name: "cluster:monitor/task",
                action_type: "PendingClusterTasksAction",
                transport_action: "TransportPendingClusterTasksAction",
                request_wire_type: "PendingClusterTasksRequest",
                response_wire_type: "PendingClusterTasksResponse",
            },
            SourceTransportActionSpec {
                action_name: "cluster:monitor/tasks/lists",
                action_type: "ListTasksAction",
                transport_action: "TransportListTasksAction",
                request_wire_type: "ListTasksRequest",
                response_wire_type: "ListTasksResponse",
            },
            SourceTransportActionSpec {
                action_name: "cluster:monitor/task/get",
                action_type: "GetTaskAction",
                transport_action: "TransportGetTaskAction",
                request_wire_type: "GetTaskRequest",
                response_wire_type: "GetTaskResponse",
            },
            SourceTransportActionSpec {
                action_name: "cluster:admin/tasks/cancel",
                action_type: "CancelTasksAction",
                transport_action: "TransportCancelTasksAction",
                request_wire_type: "CancelTasksRequest",
                response_wire_type: "CancelTasksResponse",
            },
        ]
    );
}

#[test]
fn opensearch_priority_transport_actions_have_source_names_and_stages() {
    assert_eq!(
        OPENSEARCH_PRIORITY_TRANSPORT_ACTIONS(),
        &[
            OpenSearchPriorityTransportActionSpec {
                action_name: "indices:data/read/search",
                action_type: "SearchAction",
                transport_action: "TransportSearchAction",
                request_wire_type: "SearchRequest",
                response_wire_type: "SearchResponse",
                adapter_stage: "search-read",
                next_step: "register request/response codec and route to the Rust search executor",
            },
            OpenSearchPriorityTransportActionSpec {
                action_name: "indices:data/read/msearch",
                action_type: "MultiSearchAction",
                transport_action: "TransportMultiSearchAction",
                request_wire_type: "MultiSearchRequest",
                response_wire_type: "MultiSearchResponse",
                adapter_stage: "search-read",
                next_step: "decode batched search requests and aggregate Rust search responses",
            },
            OpenSearchPriorityTransportActionSpec {
                action_name: "indices:admin/mappings/get",
                action_type: "GetMappingsAction",
                transport_action: "TransportGetMappingsAction",
                request_wire_type: "GetMappingsRequest",
                response_wire_type: "GetMappingsResponse",
                adapter_stage: "metadata-read",
                next_step: "map bounded mapping reads onto Rust cluster metadata response rendering",
            },
            OpenSearchPriorityTransportActionSpec {
                action_name: "indices:admin/mappings/fields/get",
                action_type: "GetFieldMappingsAction",
                transport_action: "TransportGetFieldMappingsAction",
                request_wire_type: "GetFieldMappingsRequest",
                response_wire_type: "GetFieldMappingsResponse",
                adapter_stage: "metadata-read",
                next_step: "map bounded field-mapping reads onto Rust cluster metadata response rendering",
            },
            OpenSearchPriorityTransportActionSpec {
                action_name: "indices:admin/aliases/get",
                action_type: "GetAliasesAction",
                transport_action: "TransportGetAliasesAction",
                request_wire_type: "GetAliasesRequest",
                response_wire_type: "GetAliasesResponse",
                adapter_stage: "metadata-read",
                next_step: "map bounded alias metadata reads onto Rust cluster metadata response rendering",
            },
            OpenSearchPriorityTransportActionSpec {
                action_name: "indices:monitor/settings/get",
                action_type: "GetSettingsAction",
                transport_action: "TransportGetSettingsAction",
                request_wire_type: "GetSettingsRequest",
                response_wire_type: "GetSettingsResponse",
                adapter_stage: "metadata-read",
                next_step: "map bounded index settings reads onto Rust cluster metadata response rendering",
            },
            OpenSearchPriorityTransportActionSpec {
                action_name: "indices:admin/shards/search_shards",
                action_type: "ClusterSearchShardsAction",
                transport_action: "TransportClusterSearchShardsAction",
                request_wire_type: "ClusterSearchShardsRequest",
                response_wire_type: "ClusterSearchShardsResponse",
                adapter_stage: "search-admin",
                next_step: "map bounded search-shards requests onto Rust shard routing metadata response rendering",
            },
            OpenSearchPriorityTransportActionSpec {
                action_name: "indices:monitor/recovery",
                action_type: "RecoveryAction",
                transport_action: "TransportRecoveryAction",
                request_wire_type: "RecoveryRequest",
                response_wire_type: "RecoveryResponse",
                adapter_stage: "recovery-admin",
                next_step: "map bounded recovery reads onto Rust shard recovery metadata response rendering",
            },
            OpenSearchPriorityTransportActionSpec {
                action_name: "indices:monitor/segments",
                action_type: "IndicesSegmentsAction",
                transport_action: "TransportIndicesSegmentsAction",
                request_wire_type: "IndicesSegmentsRequest",
                response_wire_type: "IndicesSegmentResponse",
                adapter_stage: "segments-admin",
                next_step: "map bounded segment reads onto Rust shard segment metadata response rendering",
            },
            OpenSearchPriorityTransportActionSpec {
                action_name: "indices:monitor/shard_stores",
                action_type: "IndicesShardStoresAction",
                transport_action: "TransportIndicesShardStoresAction",
                request_wire_type: "IndicesShardStoresRequest",
                response_wire_type: "IndicesShardStoresResponse",
                adapter_stage: "shard-store-admin",
                next_step: "map bounded shard-store reads onto Rust shard allocation/store metadata response rendering",
            },
            OpenSearchPriorityTransportActionSpec {
                action_name: "indices:admin/data_stream/get",
                action_type: "GetDataStreamAction",
                transport_action: "GetDataStreamAction.TransportAction",
                request_wire_type: "GetDataStreamAction.Request",
                response_wire_type: "GetDataStreamAction.Response",
                adapter_stage: "data-stream-admin",
                next_step: "map bounded data-stream reads onto Rust data-stream metadata response rendering",
            },
            OpenSearchPriorityTransportActionSpec {
                action_name: "indices:data/read/get",
                action_type: "GetAction",
                transport_action: "TransportGetAction",
                request_wire_type: "GetRequest",
                response_wire_type: "GetResponse",
                adapter_stage: "document-read",
                next_step: "map document get requests onto Rust point lookup semantics",
            },
            OpenSearchPriorityTransportActionSpec {
                action_name: "indices:data/read/mget",
                action_type: "MultiGetAction",
                transport_action: "TransportMultiGetAction",
                request_wire_type: "MultiGetRequest",
                response_wire_type: "MultiGetResponse",
                adapter_stage: "document-read",
                next_step: "decode batched document gets and preserve per-item response status",
            },
            OpenSearchPriorityTransportActionSpec {
                action_name: "indices:data/write/bulk",
                action_type: "BulkAction",
                transport_action: "TransportBulkAction",
                request_wire_type: "BulkRequest",
                response_wire_type: "BulkResponse",
                adapter_stage: "write-replication",
                next_step: "decode bulk items and route index/update/delete operations through Rust writes",
            },
            OpenSearchPriorityTransportActionSpec {
                action_name: "indices:data/write/index",
                action_type: "IndexAction",
                transport_action: "TransportIndexAction",
                request_wire_type: "IndexRequest",
                response_wire_type: "IndexResponse",
                adapter_stage: "write-replication",
                next_step: "map single-document index requests onto Rust write semantics",
            },
            OpenSearchPriorityTransportActionSpec {
                action_name: "indices:data/write/update",
                action_type: "UpdateAction",
                transport_action: "TransportUpdateAction",
                request_wire_type: "UpdateRequest",
                response_wire_type: "UpdateResponse",
                adapter_stage: "write-replication",
                next_step: "resolve update scripts/docs into Rust write operations with matching response status",
            },
            OpenSearchPriorityTransportActionSpec {
                action_name: "indices:data/write/delete",
                action_type: "DeleteAction",
                transport_action: "TransportDeleteAction",
                request_wire_type: "DeleteRequest",
                response_wire_type: "DeleteResponse",
                adapter_stage: "write-replication",
                next_step: "map single-document delete requests onto Rust tombstone/write semantics",
            },
            OpenSearchPriorityTransportActionSpec {
                action_name: "indices:admin/refresh",
                action_type: "RefreshAction",
                transport_action: "TransportRefreshAction",
                request_wire_type: "RefreshRequest",
                response_wire_type: "RefreshResponse",
                adapter_stage: "refresh-visibility",
                next_step: "map refresh requests onto Rust visibility barriers and shard status reporting",
            },
            OpenSearchPriorityTransportActionSpec {
                action_name: "indices:monitor/stats",
                action_type: "IndicesStatsAction",
                transport_action: "TransportIndicesStatsAction",
                request_wire_type: "IndicesStatsRequest",
                response_wire_type: "IndicesStatsResponse",
                adapter_stage: "stats-admin",
                next_step: "map bounded index stats requests onto Rust runtime index stats aggregation",
            },
        ]
    );
}

#[test]
fn opensearch_transport_action_dispatch_classifies_current_adapters() {
    assert_eq!(
        classify_opensearch_transport_action(CLUSTER_STATE_ACTION_NAME).disposition,
        OpenSearchTransportActionDisposition::Implemented
    );
    assert_eq!(
        classify_opensearch_transport_action(CLUSTER_HEALTH_ACTION_NAME).disposition,
        OpenSearchTransportActionDisposition::Implemented
    );
    assert_eq!(
        classify_opensearch_transport_action(CLUSTER_STATS_ACTION_NAME).disposition,
        OpenSearchTransportActionDisposition::Rejected
    );
    assert_eq!(
        classify_opensearch_transport_action(NODES_INFO_ACTION_NAME).disposition,
        OpenSearchTransportActionDisposition::Rejected
    );
    assert_eq!(
        classify_opensearch_transport_action(NODES_STATS_ACTION_NAME).disposition,
        OpenSearchTransportActionDisposition::Rejected
    );
    assert_eq!(
        classify_opensearch_transport_action(NODES_USAGE_ACTION_NAME).disposition,
        OpenSearchTransportActionDisposition::Rejected
    );
    assert_eq!(
        classify_opensearch_transport_action(NODES_HOT_THREADS_ACTION_NAME).disposition,
        OpenSearchTransportActionDisposition::Rejected
    );
    assert_eq!(
        classify_opensearch_transport_action(PENDING_CLUSTER_TASKS_ACTION_NAME).disposition,
        OpenSearchTransportActionDisposition::Implemented
    );
    assert_eq!(
        classify_opensearch_transport_action(LIST_TASKS_ACTION_NAME).disposition,
        OpenSearchTransportActionDisposition::Implemented
    );
    assert_eq!(
        classify_opensearch_transport_action(GET_TASK_ACTION_NAME).disposition,
        OpenSearchTransportActionDisposition::Rejected
    );
    assert_eq!(
        classify_opensearch_transport_action(CANCEL_TASKS_ACTION_NAME).disposition,
        OpenSearchTransportActionDisposition::Implemented
    );
    assert_eq!(
        classify_opensearch_transport_action(CLUSTER_UPDATE_SETTINGS_ACTION_NAME).disposition,
        OpenSearchTransportActionDisposition::Rejected
    );
    assert_eq!(
        classify_opensearch_transport_action(GET_REPOSITORIES_ACTION_NAME).disposition,
        OpenSearchTransportActionDisposition::Rejected
    );
    assert_eq!(
        classify_opensearch_transport_action(OPENSEARCH_SEARCH_ACTION_NAME).disposition,
        OpenSearchTransportActionDisposition::Missing
    );
    assert_eq!(
        classify_opensearch_transport_action(OPENSEARCH_GET_ACTION_NAME).disposition,
        OpenSearchTransportActionDisposition::Implemented
    );
    assert_eq!(
        classify_opensearch_transport_action(OPENSEARCH_MULTI_GET_ACTION_NAME).disposition,
        OpenSearchTransportActionDisposition::Implemented
    );
    assert_eq!(
        classify_opensearch_transport_action(OPENSEARCH_BULK_ACTION_NAME).disposition,
        OpenSearchTransportActionDisposition::Implemented
    );
    assert_eq!(
        classify_opensearch_transport_action(OPENSEARCH_INDEX_ACTION_NAME).disposition,
        OpenSearchTransportActionDisposition::Implemented
    );
    assert_eq!(
        classify_opensearch_transport_action(OPENSEARCH_UPDATE_ACTION_NAME).disposition,
        OpenSearchTransportActionDisposition::Implemented
    );
    assert_eq!(
        classify_opensearch_transport_action(OPENSEARCH_DELETE_ACTION_NAME).disposition,
        OpenSearchTransportActionDisposition::Implemented
    );
    assert_eq!(
        classify_opensearch_transport_action(OPENSEARCH_REFRESH_ACTION_NAME).disposition,
        OpenSearchTransportActionDisposition::Implemented
    );
    assert_eq!(
        classify_opensearch_transport_action(OPENSEARCH_INDICES_STATS_ACTION_NAME).disposition,
        OpenSearchTransportActionDisposition::Rejected
    );
    assert_eq!(
        classify_opensearch_transport_action(OPENSEARCH_GET_MAPPINGS_ACTION_NAME).disposition,
        OpenSearchTransportActionDisposition::Rejected
    );
    assert_eq!(
        classify_opensearch_transport_action(OPENSEARCH_GET_FIELD_MAPPINGS_ACTION_NAME)
            .disposition,
        OpenSearchTransportActionDisposition::Rejected
    );
    assert_eq!(
        classify_opensearch_transport_action(OPENSEARCH_GET_ALIASES_ACTION_NAME).disposition,
        OpenSearchTransportActionDisposition::Rejected
    );
    assert_eq!(
        classify_opensearch_transport_action(OPENSEARCH_GET_SETTINGS_ACTION_NAME).disposition,
        OpenSearchTransportActionDisposition::Rejected
    );
    assert_eq!(
        classify_opensearch_transport_action(OPENSEARCH_CLUSTER_SEARCH_SHARDS_ACTION_NAME)
            .disposition,
        OpenSearchTransportActionDisposition::Rejected
    );
    assert_eq!(
        classify_opensearch_transport_action(OPENSEARCH_RECOVERY_ACTION_NAME).disposition,
        OpenSearchTransportActionDisposition::Rejected
    );
    assert_eq!(
        classify_opensearch_transport_action(OPENSEARCH_INDICES_SEGMENTS_ACTION_NAME)
            .disposition,
        OpenSearchTransportActionDisposition::Rejected
    );
    assert_eq!(
        classify_opensearch_transport_action(OPENSEARCH_INDICES_SHARD_STORES_ACTION_NAME)
            .disposition,
        OpenSearchTransportActionDisposition::Rejected
    );
    assert_eq!(
        classify_opensearch_transport_action(OPENSEARCH_GET_DATA_STREAM_ACTION_NAME)
            .disposition,
        OpenSearchTransportActionDisposition::Rejected
    );
}

#[test]
fn opensearch_transport_action_dispatch_marks_priority_targets_explicitly() {
    for spec in OPENSEARCH_PRIORITY_TRANSPORT_ACTIONS() {
        let decision = classify_opensearch_transport_action(spec.action_name);
        if spec.action_name == OPENSEARCH_GET_ACTION_NAME
            || spec.action_name == OPENSEARCH_MULTI_GET_ACTION_NAME
            || spec.action_name == OPENSEARCH_BULK_ACTION_NAME
            || spec.action_name == OPENSEARCH_INDEX_ACTION_NAME
            || spec.action_name == OPENSEARCH_UPDATE_ACTION_NAME
            || spec.action_name == OPENSEARCH_DELETE_ACTION_NAME
            || spec.action_name == OPENSEARCH_REFRESH_ACTION_NAME
        {
            assert_eq!(
                decision.disposition,
                OpenSearchTransportActionDisposition::Implemented,
                "{}",
                spec.action_name
            );
            continue;
        }
        if spec.action_name == OPENSEARCH_INDICES_STATS_ACTION_NAME
            || spec.action_name == OPENSEARCH_GET_MAPPINGS_ACTION_NAME
            || spec.action_name == OPENSEARCH_GET_FIELD_MAPPINGS_ACTION_NAME
            || spec.action_name == OPENSEARCH_GET_ALIASES_ACTION_NAME
            || spec.action_name == OPENSEARCH_GET_SETTINGS_ACTION_NAME
            || spec.action_name == OPENSEARCH_CLUSTER_SEARCH_SHARDS_ACTION_NAME
            || spec.action_name == OPENSEARCH_RECOVERY_ACTION_NAME
            || spec.action_name == OPENSEARCH_INDICES_SEGMENTS_ACTION_NAME
            || spec.action_name == OPENSEARCH_INDICES_SHARD_STORES_ACTION_NAME
            || spec.action_name == OPENSEARCH_GET_DATA_STREAM_ACTION_NAME
        {
            assert_eq!(
                decision.disposition,
                OpenSearchTransportActionDisposition::Rejected,
                "{}",
                spec.action_name
            );
            continue;
        }

        assert_eq!(
            decision.disposition,
            OpenSearchTransportActionDisposition::Missing,
            "{}",
            spec.action_name
        );
        assert!(
            decision
                .reason
                .starts_with("priority transport adapter target"),
            "{}",
            spec.action_name
        );
    }

    let unknown = classify_opensearch_transport_action("indices:data/read/unknown");
    assert_eq!(
        unknown.disposition,
        OpenSearchTransportActionDisposition::Missing
    );
    assert_eq!(
        unknown.reason,
        "no OpenSearch transport action adapter is registered"
    );
}

#[test]
fn steelsearch_search_actions_have_internal_wire_types() {
    assert_eq!(
        STEELSEARCH_SEARCH_ACTIONS(),
        &[SourceTransportActionSpec {
            action_name: "steelsearch:internal/search/shard",
            action_type: "SteelsearchShardSearchAction",
            transport_action: "SteelsearchTransportShardSearchAction",
            request_wire_type: "SteelsearchShardSearchRequest",
            response_wire_type: "SteelsearchShardSearchResponse",
        }]
    );
}

#[test]
fn steelsearch_recovery_actions_have_internal_wire_types() {
    assert_eq!(STEELSEARCH_RECOVERY_ACTIONS().len(), 5);
    assert_eq!(
        STEELSEARCH_RECOVERY_ACTIONS()[0],
        SourceTransportActionSpec {
            action_name: "steelsearch:internal/recovery/start",
            action_type: "SteelsearchRecoveryStartAction",
            transport_action: "SteelsearchTransportRecoveryStartAction",
            request_wire_type: "SteelsearchRecoveryStartRequest",
            response_wire_type: "SteelsearchRecoveryResponse",
        }
    );
    assert_eq!(
        STEELSEARCH_RECOVERY_ACTIONS()[4].action_name,
        "steelsearch:internal/recovery/cancel"
    );
}

#[test]
fn steelsearch_replication_action_has_internal_wire_types() {
    assert_eq!(
        STEELSEARCH_REPLICATION_ACTIONS(),
        &[SourceTransportActionSpec {
            action_name: "steelsearch:internal/replication/replica_operation",
            action_type: "SteelsearchReplicaOperationAction",
            transport_action: "SteelsearchTransportReplicaOperationAction",
            request_wire_type: "SteelsearchReplicaOperationRequest",
            response_wire_type: "SteelsearchReplicaOperationResponse",
        }]
    );
}
