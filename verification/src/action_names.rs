//! Transport action names, and the tables that tie each action to its
//! OpenSearch action type, transport action and wire types.
use vstd::prelude::*;

verus! {
pub const CLUSTER_STATE_ACTION_NAME: &'static str = "cluster:monitor/state";
pub const CLUSTER_HEALTH_ACTION_NAME: &'static str = "cluster:monitor/health";
pub const CLUSTER_STATS_ACTION_NAME: &'static str = "cluster:monitor/stats";
pub const NODES_INFO_ACTION_NAME: &'static str = "cluster:monitor/nodes/info";
pub const NODES_STATS_ACTION_NAME: &'static str = "cluster:monitor/nodes/stats";
pub const NODES_USAGE_ACTION_NAME: &'static str = "cluster:monitor/nodes/usage";
pub const NODES_HOT_THREADS_ACTION_NAME: &'static str = "cluster:monitor/nodes/hot_threads";
pub const CLUSTER_UPDATE_SETTINGS_ACTION_NAME: &'static str = "cluster:admin/settings/update";
pub const GET_REPOSITORIES_ACTION_NAME: &'static str = "cluster:admin/repository/get";
pub const PENDING_CLUSTER_TASKS_ACTION_NAME: &'static str = "cluster:monitor/task";
pub const LIST_TASKS_ACTION_NAME: &'static str = "cluster:monitor/tasks/lists";
pub const GET_TASK_ACTION_NAME: &'static str = "cluster:monitor/task/get";
pub const CANCEL_TASKS_ACTION_NAME: &'static str = "cluster:admin/tasks/cancel";
pub const OPENSEARCH_SEARCH_ACTION_NAME: &'static str = "indices:data/read/search";
pub const OPENSEARCH_MULTI_SEARCH_ACTION_NAME: &'static str = "indices:data/read/msearch";
pub const OPENSEARCH_GET_MAPPINGS_ACTION_NAME: &'static str = "indices:admin/mappings/get";
pub const OPENSEARCH_GET_FIELD_MAPPINGS_ACTION_NAME: &'static str = "indices:admin/mappings/fields/get";
pub const OPENSEARCH_GET_ALIASES_ACTION_NAME: &'static str = "indices:admin/aliases/get";
pub const OPENSEARCH_GET_SETTINGS_ACTION_NAME: &'static str = "indices:monitor/settings/get";
pub const OPENSEARCH_CLUSTER_SEARCH_SHARDS_ACTION_NAME: &'static str = "indices:admin/shards/search_shards";
pub const OPENSEARCH_RECOVERY_ACTION_NAME: &'static str = "indices:monitor/recovery";
pub const OPENSEARCH_INDICES_SEGMENTS_ACTION_NAME: &'static str = "indices:monitor/segments";
pub const OPENSEARCH_INDICES_SHARD_STORES_ACTION_NAME: &'static str = "indices:monitor/shard_stores";
pub const OPENSEARCH_GET_DATA_STREAM_ACTION_NAME: &'static str = "indices:admin/data_stream/get";
pub const OPENSEARCH_GET_ACTION_NAME: &'static str = "indices:data/read/get";
pub const OPENSEARCH_MULTI_GET_ACTION_NAME: &'static str = "indices:data/read/mget";
pub const OPENSEARCH_BULK_ACTION_NAME: &'static str = "indices:data/write/bulk";
pub const OPENSEARCH_INDEX_ACTION_NAME: &'static str = "indices:data/write/index";
pub const OPENSEARCH_UPDATE_ACTION_NAME: &'static str = "indices:data/write/update";
pub const OPENSEARCH_DELETE_ACTION_NAME: &'static str = "indices:data/write/delete";
pub const OPENSEARCH_REFRESH_ACTION_NAME: &'static str = "indices:admin/refresh";
pub const OPENSEARCH_INDICES_STATS_ACTION_NAME: &'static str = "indices:monitor/stats";
pub const STEELSEARCH_SHARD_SEARCH_ACTION_NAME: &'static str = "steelsearch:internal/search/shard";
pub const STEELSEARCH_RECOVERY_START_ACTION_NAME: &'static str = "steelsearch:internal/recovery/start";
pub const STEELSEARCH_RECOVERY_CHUNK_ACTION_NAME: &'static str = "steelsearch:internal/recovery/chunk";
pub const STEELSEARCH_RECOVERY_TRANSLOG_ACTION_NAME: &'static str = "steelsearch:internal/recovery/translog";
pub const STEELSEARCH_RECOVERY_FINALIZE_ACTION_NAME: &'static str = "steelsearch:internal/recovery/finalize";
pub const STEELSEARCH_RECOVERY_CANCEL_ACTION_NAME: &'static str = "steelsearch:internal/recovery/cancel";
pub const STEELSEARCH_REPLICA_OPERATION_ACTION_NAME: &'static str = "steelsearch:internal/replication/replica_operation";

/// An action of the OpenSearch source with its action type, transport action
/// and request and response wire types.
#[derive(Clone, Copy, Debug, PartialEq, Eq)]
pub struct SourceTransportActionSpec {
    pub action_name: &'static str,
    pub action_type: &'static str,
    pub transport_action: &'static str,
    pub request_wire_type: &'static str,
    pub response_wire_type: &'static str,
}

/// The five names of a source action spec, in field order.
pub type SourceSpecView = (Seq<char>, Seq<char>, Seq<char>, Seq<char>, Seq<char>);

impl View for SourceTransportActionSpec {
    type V = SourceSpecView;

    open spec fn view(&self) -> SourceSpecView {
        (self.action_name@, self.action_type@, self.transport_action@, self.request_wire_type@, self.response_wire_type@)
    }
}

/// A priority OpenSearch action together with the adapter stage it belongs to
/// and the next step towards serving it.
#[derive(Clone, Copy, Debug, PartialEq, Eq)]
pub struct OpenSearchPriorityTransportActionSpec {
    pub action_name: &'static str,
    pub action_type: &'static str,
    pub transport_action: &'static str,
    pub request_wire_type: &'static str,
    pub response_wire_type: &'static str,
    pub adapter_stage: &'static str,
    pub next_step: &'static str,
}

/// The seven names of a priority action spec, in field order.
pub type PrioritySpecView = (Seq<char>, Seq<char>, Seq<char>, Seq<char>, Seq<char>, Seq<char>, Seq<char>);

impl View for OpenSearchPriorityTransportActionSpec {
    type V = PrioritySpecView;

    open spec fn view(&self) -> PrioritySpecView {
        (
            self.action_name@,
            self.action_type@,
            self.transport_action@,
            self.request_wire_type@,
            self.response_wire_type@,
            self.adapter_stage@,
            self.next_step@,
        )
    }
}

pub open spec fn source_views(v: Seq<SourceTransportActionSpec>) -> Seq<SourceSpecView> {
    v.map_values(|e: SourceTransportActionSpec| e@)
}

pub open spec fn priority_views(v: Seq<OpenSearchPriorityTransportActionSpec>) -> Seq<PrioritySpecView> {
    v.map_values(|e: OpenSearchPriorityTransportActionSpec| e@)
}

/// The cluster actions derived from the OpenSearch source, in source order.
pub open spec fn source_derived_cluster_actions_spec() -> Seq<SourceSpecView> {
    seq![
        (CLUSTER_STATE_ACTION_NAME@, "ClusterStateAction"@, "TransportClusterStateAction"@, "ClusterStateRequest"@, "ClusterStateResponse"@),
        (CLUSTER_HEALTH_ACTION_NAME@, "ClusterHealthAction"@, "TransportClusterHealthAction"@, "ClusterHealthRequest"@, "ClusterHealthResponse"@),
        (CLUSTER_STATS_ACTION_NAME@, "ClusterStatsAction"@, "TransportClusterStatsAction"@, "ClusterStatsRequest"@, "ClusterStatsResponse"@),
        (NODES_INFO_ACTION_NAME@, "NodesInfoAction"@, "TransportNodesInfoAction"@, "NodesInfoRequest"@, "NodesInfoResponse"@),
        (NODES_STATS_ACTION_NAME@, "NodesStatsAction"@, "TransportNodesStatsAction"@, "NodesStatsRequest"@, "NodesStatsResponse"@),
        (NODES_USAGE_ACTION_NAME@, "NodesUsageAction"@, "TransportNodesUsageAction"@, "NodesUsageRequest"@, "NodesUsageResponse"@),
        (NODES_HOT_THREADS_ACTION_NAME@, "NodesHotThreadsAction"@, "TransportNodesHotThreadsAction"@, "NodesHotThreadsRequest"@, "NodesHotThreadsResponse"@),
        (CLUSTER_UPDATE_SETTINGS_ACTION_NAME@, "ClusterUpdateSettingsAction"@, "TransportClusterUpdateSettingsAction"@, "ClusterUpdateSettingsRequest"@, "ClusterUpdateSettingsResponse"@),
        (GET_REPOSITORIES_ACTION_NAME@, "GetRepositoriesAction"@, "TransportGetRepositoriesAction"@, "GetRepositoriesRequest"@, "GetRepositoriesResponse"@),
        (PENDING_CLUSTER_TASKS_ACTION_NAME@, "PendingClusterTasksAction"@, "TransportPendingClusterTasksAction"@, "PendingClusterTasksRequest"@, "PendingClusterTasksResponse"@),
        (LIST_TASKS_ACTION_NAME@, "ListTasksAction"@, "TransportListTasksAction"@, "ListTasksRequest"@, "ListTasksResponse"@),
        (GET_TASK_ACTION_NAME@, "GetTaskAction"@, "TransportGetTaskAction"@, "GetTaskRequest"@, "GetTaskResponse"@),
        (CANCEL_TASKS_ACTION_NAME@, "CancelTasksAction"@, "TransportCancelTasksAction"@, "CancelTasksRequest"@, "CancelTasksResponse"@),
    ]
}

/// The cluster actions derived from the OpenSearch source, in source order.
#[allow(non_snake_case)]
pub fn SOURCE_DERIVED_CLUSTER_ACTIONS() -> (r: Vec<SourceTransportActionSpec>)
    ensures
        source_views(r@) == source_derived_cluster_actions_spec(),
{
    let mut v: Vec<SourceTransportActionSpec> = Vec::new();
    v.push(SourceTransportActionSpec {
        action_name: CLUSTER_STATE_ACTION_NAME,
        action_type: "ClusterStateAction",
        transport_action: "TransportClusterStateAction",
        request_wire_type: "ClusterStateRequest",
        response_wire_type: "ClusterStateResponse",
    });
    v.push(SourceTransportActionSpec {
        action_name: CLUSTER_HEALTH_ACTION_NAME,
        action_type: "ClusterHealthAction",
        transport_action: "TransportClusterHealthAction",
        request_wire_type: "ClusterHealthRequest",
        response_wire_type: "ClusterHealthResponse",
    });
    v.push(SourceTransportActionSpec {
        action_name: CLUSTER_STATS_ACTION_NAME,
        action_type: "ClusterStatsAction",
        transport_action: "TransportClusterStatsAction",
        request_wire_type: "ClusterStatsRequest",
        response_wire_type: "ClusterStatsResponse",
    });
    v.push(SourceTransportActionSpec {
        action_name: NODES_INFO_ACTION_NAME,
        action_type: "NodesInfoAction",
        transport_action: "TransportNodesInfoAction",
        request_wire_type: "NodesInfoRequest",
        response_wire_type: "NodesInfoResponse",
    });
    v.push(SourceTransportActionSpec {
        action_name: NODES_STATS_ACTION_NAME,
        action_type: "NodesStatsAction",
        transport_action: "TransportNodesStatsAction",
        request_wire_type: "NodesStatsRequest",
        response_wire_type: "NodesStatsResponse",
    });
    v.push(SourceTransportActionSpec {
        action_name: NODES_USAGE_ACTION_NAME,
        action_type: "NodesUsageAction",
        transport_action: "TransportNodesUsageAction",
        request_wire_type: "NodesUsageRequest",
        response_wire_type: "NodesUsageResponse",
    });
    v.push(SourceTransportActionSpec {
        action_name: NODES_HOT_THREADS_ACTION_NAME,
        action_type: "NodesHotThreadsAction",
        transport_action: "TransportNodesHotThreadsAction",
        request_wire_type: "NodesHotThreadsRequest",
        response_wire_type: "NodesHotThreadsResponse",
    });
    v.push(SourceTransportActionSpec {
        action_name: CLUSTER_UPDATE_SETTINGS_ACTION_NAME,
        action_type: "ClusterUpdateSettingsAction",
        transport_action: "TransportClusterUpdateSettingsAction",
        request_wire_type: "ClusterUpdateSettingsRequest",
        response_wire_type: "ClusterUpdateSettingsResponse",
    });
    v.push(SourceTransportActionSpec {
        action_name: GET_REPOSITORIES_ACTION_NAME,
        action_type: "GetRepositoriesAction",
        transport_action: "TransportGetRepositoriesAction",
        request_wire_type: "GetRepositoriesRequest",
        response_wire_type: "GetRepositoriesResponse",
    });
    v.push(SourceTransportActionSpec {
        action_name: PENDING_CLUSTER_TASKS_ACTION_NAME,
        action_type: "PendingClusterTasksAction",
        transport_action: "TransportPendingClusterTasksAction",
        request_wire_type: "PendingClusterTasksRequest",
        response_wire_type: "PendingClusterTasksResponse",
    });
    v.push(SourceTransportActionSpec {
        action_name: LIST_TASKS_ACTION_NAME,
        action_type: "ListTasksAction",
        transport_action: "TransportListTasksAction",
        request_wire_type: "ListTasksRequest",
        response_wire_type: "ListTasksResponse",
    });
    v.push(SourceTransportActionSpec {
        action_name: GET_TASK_ACTION_NAME,
        action_type: "GetTaskAction",
        transport_action: "TransportGetTaskAction",
        request_wire_type: "GetTaskRequest",
        response_wire_type: "GetTaskResponse",
    });
    v.push(SourceTransportActionSpec {
        action_name: CANCEL_TASKS_ACTION_NAME,
        action_type: "CancelTasksAction",
        transport_action: "TransportCancelTasksAction",
        request_wire_type: "CancelTasksRequest",
        response_wire_type: "CancelTasksResponse",
    });
    assert(source_views(v@) =~= source_derived_cluster_actions_spec());
    v
}

/// The OpenSearch actions to be served next, in priority order.
pub open spec fn opensearch_priority_transport_actions_spec() -> Seq<PrioritySpecView> {
    seq![
        (OPENSEARCH_SEARCH_ACTION_NAME@, "SearchAction"@, "TransportSearchAction"@, "SearchRequest"@, "SearchResponse"@, "search-read"@, "register request/response codec and route to the Rust search executor"@),
        (OPENSEARCH_MULTI_SEARCH_ACTION_NAME@, "MultiSearchAction"@, "TransportMultiSearchAction"@, "MultiSearchRequest"@, "MultiSearchResponse"@, "search-read"@, "decode batched search requests and aggregate Rust search responses"@),
        (OPENSEARCH_GET_MAPPINGS_ACTION_NAME@, "GetMappingsAction"@, "TransportGetMappingsAction"@, "GetMappingsRequest"@, "GetMappingsResponse"@, "metadata-read"@, "map bounded mapping reads onto Rust cluster metadata response rendering"@),
        (OPENSEARCH_GET_FIELD_MAPPINGS_ACTION_NAME@, "GetFieldMappingsAction"@, "TransportGetFieldMappingsAction"@, "GetFieldMappingsRequest"@, "GetFieldMappingsResponse"@, "metadata-read"@, "map bounded field-mapping reads onto Rust cluster metadata response rendering"@),
        (OPENSEARCH_GET_ALIASES_ACTION_NAME@, "GetAliasesAction"@, "TransportGetAliasesAction"@, "GetAliasesRequest"@, "GetAliasesResponse"@, "metadata-read"@, "map bounded alias metadata reads onto Rust cluster metadata response rendering"@),
        (OPENSEARCH_GET_SETTINGS_ACTION_NAME@, "GetSettingsAction"@, "TransportGetSettingsAction"@, "GetSettingsRequest"@, "GetSettingsResponse"@, "metadata-read"@, "map bounded index settings reads onto Rust cluster metadata response rendering"@),
        (OPENSEARCH_CLUSTER_SEARCH_SHARDS_ACTION_NAME@, "ClusterSearchShardsAction"@, "TransportClusterSearchShardsAction"@, "ClusterSearchShardsRequest"@, "ClusterSearchShardsResponse"@, "search-admin"@, "map bounded search-shards requests onto Rust shard routing metadata response rendering"@),
        (OPENSEARCH_RECOVERY_ACTION_NAME@, "RecoveryAction"@, "TransportRecoveryAction"@, "RecoveryRequest"@, "RecoveryResponse"@, "recovery-admin"@, "map bounded recovery reads onto Rust shard recovery metadata response rendering"@),
        (OPENSEARCH_INDICES_SEGMENTS_ACTION_NAME@, "IndicesSegmentsAction"@, "TransportIndicesSegmentsAction"@, "IndicesSegmentsRequest"@, "IndicesSegmentResponse"@, "segments-admin"@, "map bounded segment reads onto Rust shard segment metadata response rendering"@),
        (OPENSEARCH_INDICES_SHARD_STORES_ACTION_NAME@, "IndicesShardStoresAction"@, "TransportIndicesShardStoresAction"@, "IndicesShardStoresRequest"@, "IndicesShardStoresResponse"@, "shard-store-admin"@, "map bounded shard-store reads onto Rust shard allocation/store metadata response rendering"@),
        (OPENSEARCH_GET_DATA_STREAM_ACTION_NAME@, "GetDataStreamAction"@, "GetDataStreamAction.TransportAction"@, "GetDataStreamAction.Request"@, "GetDataStreamAction.Response"@, "data-stream-admin"@, "map bounded data-stream reads onto Rust data-stream metadata response rendering"@),
        (OPENSEARCH_GET_ACTION_NAME@, "GetAction"@, "TransportGetAction"@, "GetRequest"@, "GetResponse"@, "document-read"@, "map document get requests onto Rust point lookup semantics"@),
        (OPENSEARCH_MULTI_GET_ACTION_NAME@, "MultiGetAction"@, "TransportMultiGetAction"@, "MultiGetRequest"@, "MultiGetResponse"@, "document-read"@, "decode batched document gets and preserve per-item response status"@),
        (OPENSEARCH_BULK_ACTION_NAME@, "BulkAction"@, "TransportBulkAction"@, "BulkRequest"@, "BulkResponse"@, "write-replication"@, "decode bulk items and route index/update/delete operations through Rust writes"@),
        (OPENSEARCH_INDEX_ACTION_NAME@, "IndexAction"@, "TransportIndexAction"@, "IndexRequest"@, "IndexResponse"@, "write-replication"@, "map single-document index requests onto Rust write semantics"@),
        (OPENSEARCH_UPDATE_ACTION_NAME@, "UpdateAction"@, "TransportUpdateAction"@, "UpdateRequest"@, "UpdateResponse"@, "write-replication"@, "resolve update scripts/docs into Rust write operations with matching response status"@),
        (OPENSEARCH_DELETE_ACTION_NAME@, "DeleteAction"@, "TransportDeleteAction"@, "DeleteRequest"@, "DeleteResponse"@, "write-replication"@, "map single-document delete requests onto Rust tombstone/write semantics"@),
        (OPENSEARCH_REFRESH_ACTION_NAME@, "RefreshAction"@, "TransportRefreshAction"@, "RefreshRequest"@, "RefreshResponse"@, "refresh-visibility"@, "map refresh requests onto Rust visibility barriers and shard status reporting"@),
        (OPENSEARCH_INDICES_STATS_ACTION_NAME@, "IndicesStatsAction"@, "TransportIndicesStatsAction"@, "IndicesStatsRequest"@, "IndicesStatsResponse"@, "stats-admin"@, "map bounded index stats requests onto Rust runtime index stats aggregation"@),
    ]
}

/// The OpenSearch actions to be served next, in priority order.
#[allow(non_snake_case)]
pub fn OPENSEARCH_PRIORITY_TRANSPORT_ACTIONS() -> (r: Vec<OpenSearchPriorityTransportActionSpec>)
    ensures
        priority_views(r@) == opensearch_priority_transport_actions_spec(),
{
    let mut v: Vec<OpenSearchPriorityTransportActionSpec> = Vec::new();
    v.push(OpenSearchPriorityTransportActionSpec {
        action_name: OPENSEARCH_SEARCH_ACTION_NAME,
        action_type: "SearchAction",
        transport_action: "TransportSearchAction",
        request_wire_type: "SearchRequest",
        response_wire_type: "SearchResponse",
        adapter_stage: "search-read",
        next_step: "register request/response codec and route to the Rust search executor",
    });
    v.push(OpenSearchPriorityTransportActionSpec {
        action_name: OPENSEARCH_MULTI_SEARCH_ACTION_NAME,
        action_type: "MultiSearchAction",
        transport_action: "TransportMultiSearchAction",
        request_wire_type: "MultiSearchRequest",
        response_wire_type: "MultiSearchResponse",
        adapter_stage: "search-read",
        next_step: "decode batched search requests and aggregate Rust search responses",
    });
    v.push(OpenSearchPriorityTransportActionSpec {
        action_name: OPENSEARCH_GET_MAPPINGS_ACTION_NAME,
        action_type: "GetMappingsAction",
        transport_action: "TransportGetMappingsAction",
        request_wire_type: "GetMappingsRequest",
        response_wire_type: "GetMappingsResponse",
        adapter_stage: "metadata-read",
        next_step: "map bounded mapping reads onto Rust cluster metadata response rendering",
    });
    v.push(OpenSearchPriorityTransportActionSpec {
        action_name: OPENSEARCH_GET_FIELD_MAPPINGS_ACTION_NAME,
        action_type: "GetFieldMappingsAction",
        transport_action: "TransportGetFieldMappingsAction",
        request_wire_type: "GetFieldMappingsRequest",
        response_wire_type: "GetFieldMappingsResponse",
        adapter_stage: "metadata-read",
        next_step: "map bounded field-mapping reads onto Rust cluster metadata response rendering",
    });
    v.push(OpenSearchPriorityTransportActionSpec {
        action_name: OPENSEARCH_GET_ALIASES_ACTION_NAME,
        action_type: "GetAliasesAction",
        transport_action: "TransportGetAliasesAction",
        request_wire_type: "GetAliasesRequest",
        response_wire_type: "GetAliasesResponse",
        adapter_stage: "metadata-read",
        next_step: "map bounded alias metadata reads onto Rust cluster metadata response rendering",
    });
    v.push(OpenSearchPriorityTransportActionSpec {
        action_name: OPENSEARCH_GET_SETTINGS_ACTION_NAME,
        action_type: "GetSettingsAction",
        transport_action: "TransportGetSettingsAction",
        request_wire_type: "GetSettingsRequest",
        response_wire_type: "GetSettingsResponse",
        adapter_stage: "metadata-read",
        next_step: "map bounded index settings reads onto Rust cluster metadata response rendering",
    });
    v.push(OpenSearchPriorityTransportActionSpec {
        action_name: OPENSEARCH_CLUSTER_SEARCH_SHARDS_ACTION_NAME,
        action_type: "ClusterSearchShardsAction",
        transport_action: "TransportClusterSearchShardsAction",
        request_wire_type: "ClusterSearchShardsRequest",
        response_wire_type: "ClusterSearchShardsResponse",
        adapter_stage: "search-admin",
        next_step: "map bounded search-shards requests onto Rust shard routing metadata response rendering",
    });
    v.push(OpenSearchPriorityTransportActionSpec {
        action_name: OPENSEARCH_RECOVERY_ACTION_NAME,
        action_type: "RecoveryAction",
        transport_action: "TransportRecoveryAction",
        request_wire_type: "RecoveryRequest",
        response_wire_type: "RecoveryResponse",
        adapter_stage: "recovery-admin",
        next_step: "map bounded recovery reads onto Rust shard recovery metadata response rendering",
    });
    v.push(OpenSearchPriorityTransportActionSpec {
        action_name: OPENSEARCH_INDICES_SEGMENTS_ACTION_NAME,
        action_type: "IndicesSegmentsAction",
        transport_action: "TransportIndicesSegmentsAction",
        request_wire_type: "IndicesSegmentsRequest",
        response_wire_type: "IndicesSegmentResponse",
        adapter_stage: "segments-admin",
        next_step: "map bounded segment reads onto Rust shard segment metadata response rendering",
    });
    v.push(OpenSearchPriorityTransportActionSpec {
        action_name: OPENSEARCH_INDICES_SHARD_STORES_ACTION_NAME,
        action_type: "IndicesShardStoresAction",
        transport_action: "TransportIndicesShardStoresAction",
        request_wire_type: "IndicesShardStoresRequest",
        response_wire_type: "IndicesShardStoresResponse",
        adapter_stage: "shard-store-admin",
        next_step: "map bounded shard-store reads onto Rust shard allocation/store metadata response rendering",
    });
    v.push(OpenSearchPriorityTransportActionSpec {
        action_name: OPENSEARCH_GET_DATA_STREAM_ACTION_NAME,
        action_type: "GetDataStreamAction",
        transport_action: "GetDataStreamAction.TransportAction",
        request_wire_type: "GetDataStreamAction.Request",
        response_wire_type: "GetDataStreamAction.Response",
        adapter_stage: "data-stream-admin",
        next_step: "map bounded data-stream reads onto Rust data-stream metadata response rendering",
    });
    v.push(OpenSearchPriorityTransportActionSpec {
        action_name: OPENSEARCH_GET_ACTION_NAME,
        action_type: "GetAction",
        transport_action: "TransportGetAction",
        request_wire_type: "GetRequest",
        response_wire_type: "GetResponse",
        adapter_stage: "document-read",
        next_step: "map document get requests onto Rust point lookup semantics",
    });
    v.push(OpenSearchPriorityTransportActionSpec {
        action_name: OPENSEARCH_MULTI_GET_ACTION_NAME,
        action_type: "MultiGetAction",
        transport_action: "TransportMultiGetAction",
        request_wire_type: "MultiGetRequest",
        response_wire_type: "MultiGetResponse",
        adapter_stage: "document-read",
        next_step: "decode batched document gets and preserve per-item response status",
    });
    v.push(OpenSearchPriorityTransportActionSpec {
        action_name: OPENSEARCH_BULK_ACTION_NAME,
        action_type: "BulkAction",
        transport_action: "TransportBulkAction",
        request_wire_type: "BulkRequest",
        response_wire_type: "BulkResponse",
        adapter_stage: "write-replication",
        next_step: "decode bulk items and route index/update/delete operations through Rust writes",
    });
    v.push(OpenSearchPriorityTransportActionSpec {
        action_name: OPENSEARCH_INDEX_ACTION_NAME,
        action_type: "IndexAction",
        transport_action: "TransportIndexAction",
        request_wire_type: "IndexRequest",
        response_wire_type: "IndexResponse",
        adapter_stage: "write-replication",
        next_step: "map single-document index requests onto Rust write semantics",
    });
    v.push(OpenSearchPriorityTransportActionSpec {
        action_name: OPENSEARCH_UPDATE_ACTION_NAME,
        action_type: "UpdateAction",
        transport_action: "TransportUpdateAction",
        request_wire_type: "UpdateRequest",
        response_wire_type: "UpdateResponse",
        adapter_stage: "write-replication",
        next_step: "resolve update scripts/docs into Rust write operations with matching response status",
    });
    v.push(OpenSearchPriorityTransportActionSpec {
        action_name: OPENSEARCH_DELETE_ACTION_NAME,
        action_type: "DeleteAction",
        transport_action: "TransportDeleteAction",
        request_wire_type: "DeleteRequest",
        response_wire_type: "DeleteResponse",
        adapter_stage: "write-replication",
        next_step: "map single-document delete requests onto Rust tombstone/write semantics",
    });
    v.push(OpenSearchPriorityTransportActionSpec {
        action_name: OPENSEARCH_REFRESH_ACTION_NAME,
        action_type: "RefreshAction",
        transport_action: "TransportRefreshAction",
        request_wire_type: "RefreshRequest",
        response_wire_type: "RefreshResponse",
        adapter_stage: "refresh-visibility",
        next_step: "map refresh requests onto Rust visibility barriers and shard status reporting",
    });
    v.push(OpenSearchPriorityTransportActionSpec {
        action_name: OPENSEARCH_INDICES_STATS_ACTION_NAME,
        action_type: "IndicesStatsAction",
        transport_action: "TransportIndicesStatsAction",
        request_wire_type: "IndicesStatsRequest",
        response_wire_type: "IndicesStatsResponse",
        adapter_stage: "stats-admin",
        next_step: "map bounded index stats requests onto Rust runtime index stats aggregation",
    });
    assert(priority_views(v@) =~= opensearch_priority_transport_actions_spec());
    v
}

/// The internal shard search action.
pub open spec fn steelsearch_search_actions_spec() -> Seq<SourceSpecView> {
    seq![
        (STEELSEARCH_SHARD_SEARCH_ACTION_NAME@, "SteelsearchShardSearchAction"@, "SteelsearchTransportShardSearchAction"@, "SteelsearchShardSearchRequest"@, "SteelsearchShardSearchResponse"@),
    ]
}

/// The internal shard search action.
#[allow(non_snake_case)]
pub fn STEELSEARCH_SEARCH_ACTIONS() -> (r: Vec<SourceTransportActionSpec>)
    ensures
        source_views(r@) == steelsearch_search_actions_spec(),
{
    let mut v: Vec<SourceTransportActionSpec> = Vec::new();
    v.push(SourceTransportActionSpec {
        action_name: STEELSEARCH_SHARD_SEARCH_ACTION_NAME,
        action_type: "SteelsearchShardSearchAction",
        transport_action: "SteelsearchTransportShardSearchAction",
        request_wire_type: "SteelsearchShardSearchRequest",
        response_wire_type: "SteelsearchShardSearchResponse",
    });
    assert(source_views(v@) =~= steelsearch_search_actions_spec());
    v
}

/// The internal peer recovery actions: start, chunk, translog, finalize, cancel.
pub open spec fn steelsearch_recovery_actions_spec() -> Seq<SourceSpecView> {
    seq![
        (STEELSEARCH_RECOVERY_START_ACTION_NAME@, "SteelsearchRecoveryStartAction"@, "SteelsearchTransportRecoveryStartAction"@, "SteelsearchRecoveryStartRequest"@, "SteelsearchRecoveryResponse"@),
        (STEELSEARCH_RECOVERY_CHUNK_ACTION_NAME@, "SteelsearchRecoveryChunkAction"@, "SteelsearchTransportRecoveryChunkAction"@, "SteelsearchRecoveryChunkRequest"@, "SteelsearchRecoveryResponse"@),
        (STEELSEARCH_RECOVERY_TRANSLOG_ACTION_NAME@, "SteelsearchRecoveryTranslogAction"@, "SteelsearchTransportRecoveryTranslogAction"@, "SteelsearchRecoveryTranslogRequest"@, "SteelsearchRecoveryResponse"@),
        (STEELSEARCH_RECOVERY_FINALIZE_ACTION_NAME@, "SteelsearchRecoveryFinalizeAction"@, "SteelsearchTransportRecoveryFinalizeAction"@, "SteelsearchRecoveryFinalizeRequest"@, "SteelsearchRecoveryResponse"@),
        (STEELSEARCH_RECOVERY_CANCEL_ACTION_NAME@, "SteelsearchRecoveryCancelAction"@, "SteelsearchTransportRecoveryCancelAction"@, "SteelsearchRecoveryCancelRequest"@, "SteelsearchRecoveryResponse"@),
    ]
}

/// The internal peer recovery actions: start, chunk, translog, finalize, cancel.
#[allow(non_snake_case)]
pub fn STEELSEARCH_RECOVERY_ACTIONS() -> (r: Vec<SourceTransportActionSpec>)
    ensures
        source_views(r@) == steelsearch_recovery_actions_spec(),
{
    let mut v: Vec<SourceTransportActionSpec> = Vec::new();
    v.push(SourceTransportActionSpec {
        action_name: STEELSEARCH_RECOVERY_START_ACTION_NAME,
        action_type: "SteelsearchRecoveryStartAction",
        transport_action: "SteelsearchTransportRecoveryStartAction",
        request_wire_type: "SteelsearchRecoveryStartRequest",
        response_wire_type: "SteelsearchRecoveryResponse",
    });
    v.push(SourceTransportActionSpec {
        action_name: STEELSEARCH_RECOVERY_CHUNK_ACTION_NAME,
        action_type: "SteelsearchRecoveryChunkAction",
        transport_action: "SteelsearchTransportRecoveryChunkAction",
        request_wire_type: "SteelsearchRecoveryChunkRequest",
        response_wire_type: "SteelsearchRecoveryResponse",
    });
    v.push(SourceTransportActionSpec {
        action_name: STEELSEARCH_RECOVERY_TRANSLOG_ACTION_NAME,
        action_type: "SteelsearchRecoveryTranslogAction",
        transport_action: "SteelsearchTransportRecoveryTranslogAction",
        request_wire_type: "SteelsearchRecoveryTranslogRequest",
        response_wire_type: "SteelsearchRecoveryResponse",
    });
    v.push(SourceTransportActionSpec {
        action_name: STEELSEARCH_RECOVERY_FINALIZE_ACTION_NAME,
        action_type: "SteelsearchRecoveryFinalizeAction",
        transport_action: "SteelsearchTransportRecoveryFinalizeAction",
        request_wire_type: "SteelsearchRecoveryFinalizeRequest",
        response_wire_type: "SteelsearchRecoveryResponse",
    });
    v.push(SourceTransportActionSpec {
        action_name: STEELSEARCH_RECOVERY_CANCEL_ACTION_NAME,
        action_type: "SteelsearchRecoveryCancelAction",
        transport_action: "SteelsearchTransportRecoveryCancelAction",
        request_wire_type: "SteelsearchRecoveryCancelRequest",
        response_wire_type: "SteelsearchRecoveryResponse",
    });
    assert(source_views(v@) =~= steelsearch_recovery_actions_spec());
    v
}

/// The internal replica operation action.
pub open spec fn steelsearch_replication_actions_spec() -> Seq<SourceSpecView> {
    seq![
        (STEELSEARCH_REPLICA_OPERATION_ACTION_NAME@, "SteelsearchReplicaOperationAction"@, "SteelsearchTransportReplicaOperationAction"@, "SteelsearchReplicaOperationRequest"@, "SteelsearchReplicaOperationResponse"@),
    ]
}

/// The internal replica operation action.
#[allow(non_snake_case)]
pub fn STEELSEARCH_REPLICATION_ACTIONS() -> (r: Vec<SourceTransportActionSpec>)
    ensures
        source_views(r@) == steelsearch_replication_actions_spec(),
{
    let mut v: Vec<SourceTransportActionSpec> = Vec::new();
    v.push(SourceTransportActionSpec {
        action_name: STEELSEARCH_REPLICA_OPERATION_ACTION_NAME,
        action_type: "SteelsearchReplicaOperationAction",
        transport_action: "SteelsearchTransportReplicaOperationAction",
        request_wire_type: "SteelsearchReplicaOperationRequest",
        response_wire_type: "SteelsearchReplicaOperationResponse",
    });
    assert(source_views(v@) =~= steelsearch_replication_actions_spec());
    v
}

} // verus!
