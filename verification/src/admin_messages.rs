//! Administration and task actions as messages: the frames that carry their
//! requests and responses, and what a reader makes of a message for one of them.
use vstd::prelude::*;
use crate::action_frames::{frame_request, frame_response, gate_refusal, request_body, request_frame, request_gate, response_body, response_frame, response_gate};
use crate::action_names::{CANCEL_TASKS_ACTION_NAME, CLUSTER_HEALTH_ACTION_NAME, CLUSTER_STATS_ACTION_NAME, CLUSTER_UPDATE_SETTINGS_ACTION_NAME, GET_REPOSITORIES_ACTION_NAME, GET_TASK_ACTION_NAME, LIST_TASKS_ACTION_NAME, NODES_HOT_THREADS_ACTION_NAME, NODES_INFO_ACTION_NAME, NODES_STATS_ACTION_NAME, NODES_USAGE_ACTION_NAME, OPENSEARCH_CLUSTER_SEARCH_SHARDS_ACTION_NAME, OPENSEARCH_GET_ALIASES_ACTION_NAME, OPENSEARCH_GET_DATA_STREAM_ACTION_NAME, OPENSEARCH_GET_FIELD_MAPPINGS_ACTION_NAME, OPENSEARCH_GET_MAPPINGS_ACTION_NAME, OPENSEARCH_GET_SETTINGS_ACTION_NAME, OPENSEARCH_INDICES_SEGMENTS_ACTION_NAME, OPENSEARCH_INDICES_SHARD_STORES_ACTION_NAME, OPENSEARCH_INDICES_STATS_ACTION_NAME, OPENSEARCH_RECOVERY_ACTION_NAME};
use crate::action_wire::{is_unsupported, TransportActionWireError};
use crate::request_codecs::{cancel_tasks_request_read_result, cluster_health_request_read_result, cluster_stats_request_read_result, cluster_update_settings_request_read_result, enc_cancel_tasks_request, enc_cluster_health_request, enc_cluster_stats_request, enc_cluster_update_settings_request, enc_get_repositories_request, enc_get_task_request, enc_list_tasks_request, enc_list_tasks_response, enc_nodes_hot_threads_request, enc_nodes_info_request, enc_nodes_stats_request, enc_nodes_usage_request, enc_opensearch_cluster_search_shards_request, enc_opensearch_get_aliases_request, enc_opensearch_get_data_stream_request, enc_opensearch_get_field_mappings_request, enc_opensearch_get_mappings_request, enc_opensearch_get_settings_request, enc_opensearch_indices_segments_request, enc_opensearch_indices_shard_stores_request, enc_opensearch_indices_stats_request, enc_opensearch_recovery_request, get_repositories_request_read_result, get_task_request_read_result, get_task_response_read_result, list_tasks_request_read_result, list_tasks_response_read_result, list_tasks_response_write_refusal, nodes_hot_threads_request_read_result, nodes_info_request_read_result, nodes_stats_request_read_result, nodes_usage_request_read_result, opensearch_cluster_search_shards_request_read_result, opensearch_get_aliases_request_read_result, opensearch_get_data_stream_request_read_result, opensearch_get_field_mappings_request_read_result, opensearch_get_mappings_request_read_result, opensearch_get_settings_request_read_result, opensearch_indices_segments_request_read_result, opensearch_indices_shard_stores_request_read_result, opensearch_indices_stats_request_read_result, opensearch_recovery_request_read_result};
use crate::admin_requests::{ClusterHealthRequestWire, ClusterStatsRequestWire, ClusterUpdateSettingsRequestWire, GetRepositoriesRequestWire, NodesHotThreadsRequestWire, NodesInfoRequestWire, NodesStatsRequestWire, NodesUsageRequestWire, OpenSearchClusterSearchShardsRequestWire, OpenSearchGetAliasesRequestWire, OpenSearchGetDataStreamRequestWire, OpenSearchGetFieldMappingsRequestWire, OpenSearchGetMappingsRequestWire, OpenSearchGetSettingsRequestWire, OpenSearchIndicesSegmentsRequestWire, OpenSearchIndicesShardStoresRequestWire, OpenSearchIndicesStatsRequestWire, OpenSearchRecoveryRequestWire};
use crate::task_requests::{CancelTasksRequestWire, CancelTasksResponseWire, GetTaskRequestWire, GetTaskResponseWire, ListTasksRequestWire, ListTasksResponseWire};
use crate::message::TransportMessage;
use crate::stream::StreamOutput;
use crate::version::Version;

verus! {

/// Frames a cluster health request as request `request_id`.
pub fn build_cluster_health_request_message(
    request_id: i64,
    version: Version,
    request: &ClusterHealthRequestWire,
) -> (r: Result<Vec<u8>, TransportActionWireError>)
    ensures
        match request@.unserved_shape() {
            Some((shape, reason)) => is_unsupported(r, shape, reason),
            None => r matches Ok(b) && b@ == request_frame(request_id, version.id, CLUSTER_HEALTH_ACTION_NAME@, enc_cluster_health_request(request@)),
        },
{
    let mut body = StreamOutput::new();
    request.write(&mut body)?;
    proof {
        assert(body@ =~= enc_cluster_health_request(request@));
    }
    Ok(frame_request(request_id, version, CLUSTER_HEALTH_ACTION_NAME, body.freeze()))
}

/// Reads a cluster health request from a request message for its action.
pub fn read_cluster_health_request_message(message: &TransportMessage) -> (r: Result<ClusterHealthRequestWire, TransportActionWireError>)
    ensures
        gate_refusal(request_gate(message@, CLUSTER_HEALTH_ACTION_NAME@), message@, "request"@, CLUSTER_HEALTH_ACTION_NAME@, r),
        request_gate(message@, CLUSTER_HEALTH_ACTION_NAME@) is Pass ==> cluster_health_request_read_result(message@.4, r),
{
    let body = request_body(message, CLUSTER_HEALTH_ACTION_NAME)?;
    ClusterHealthRequestWire::read(body)
}

/// Frames a cluster stats request as request `request_id`.
pub fn build_cluster_stats_request_message(
    request_id: i64,
    version: Version,
    request: &ClusterStatsRequestWire,
) -> (r: Result<Vec<u8>, TransportActionWireError>)
    ensures
        r matches Ok(b) && b@ == request_frame(request_id, version.id, CLUSTER_STATS_ACTION_NAME@, enc_cluster_stats_request(request@)),
{
    let mut body = StreamOutput::new();
    request.write(&mut body);
    proof {
        assert(body@ =~= enc_cluster_stats_request(request@));
    }
    Ok(frame_request(request_id, version, CLUSTER_STATS_ACTION_NAME, body.freeze()))
}

/// Reads a cluster stats request from a request message for its action.
pub fn read_cluster_stats_request_message(message: &TransportMessage) -> (r: Result<ClusterStatsRequestWire, TransportActionWireError>)
    ensures
        gate_refusal(request_gate(message@, CLUSTER_STATS_ACTION_NAME@), message@, "request"@, CLUSTER_STATS_ACTION_NAME@, r),
        request_gate(message@, CLUSTER_STATS_ACTION_NAME@) is Pass ==> cluster_stats_request_read_result(message@.4, r),
{
    let body = request_body(message, CLUSTER_STATS_ACTION_NAME)?;
    ClusterStatsRequestWire::read(body)
}

/// Frames a nodes info request as request `request_id`.
pub fn build_nodes_info_request_message(
    request_id: i64,
    version: Version,
    request: &NodesInfoRequestWire,
) -> (r: Result<Vec<u8>, TransportActionWireError>)
    ensures
        r matches Ok(b) && b@ == request_frame(request_id, version.id, NODES_INFO_ACTION_NAME@, enc_nodes_info_request(request@)),
{
    let mut body = StreamOutput::new();
    request.write(&mut body);
    proof {
        assert(body@ =~= enc_nodes_info_request(request@));
    }
    Ok(frame_request(request_id, version, NODES_INFO_ACTION_NAME, body.freeze()))
}

/// Reads a nodes info request from a request message for its action.
pub fn read_nodes_info_request_message(message: &TransportMessage) -> (r: Result<NodesInfoRequestWire, TransportActionWireError>)
    ensures
        gate_refusal(request_gate(message@, NODES_INFO_ACTION_NAME@), message@, "request"@, NODES_INFO_ACTION_NAME@, r),
        request_gate(message@, NODES_INFO_ACTION_NAME@) is Pass ==> nodes_info_request_read_result(message@.4, r),
{
    let body = request_body(message, NODES_INFO_ACTION_NAME)?;
    NodesInfoRequestWire::read(body)
}

/// Frames a nodes stats request as request `request_id`.
pub fn build_nodes_stats_request_message(
    request_id: i64,
    version: Version,
    request: &NodesStatsRequestWire,
) -> (r: Result<Vec<u8>, TransportActionWireError>)
    ensures
        r matches Ok(b) && b@ == request_frame(request_id, version.id, NODES_STATS_ACTION_NAME@, enc_nodes_stats_request(request@)),
{
    let mut body = StreamOutput::new();
    request.write(&mut body);
    proof {
        assert(body@ =~= enc_nodes_stats_request(request@));
    }
    Ok(frame_request(request_id, version, NODES_STATS_ACTION_NAME, body.freeze()))
}

/// Reads a nodes stats request from a request message for its action.
pub fn read_nodes_stats_request_message(message: &TransportMessage) -> (r: Result<NodesStatsRequestWire, TransportActionWireError>)
    ensures
        gate_refusal(request_gate(message@, NODES_STATS_ACTION_NAME@), message@, "request"@, NODES_STATS_ACTION_NAME@, r),
        request_gate(message@, NODES_STATS_ACTION_NAME@) is Pass ==> nodes_stats_request_read_result(message@.4, r),
{
    let body = request_body(message, NODES_STATS_ACTION_NAME)?;
    NodesStatsRequestWire::read(body)
}

/// Frames a nodes usage request as request `request_id`.
pub fn build_nodes_usage_request_message(
    request_id: i64,
    version: Version,
    request: &NodesUsageRequestWire,
) -> (r: Result<Vec<u8>, TransportActionWireError>)
    ensures
        r matches Ok(b) && b@ == request_frame(request_id, version.id, NODES_USAGE_ACTION_NAME@, enc_nodes_usage_request(request@)),
{
    let mut body = StreamOutput::new();
    request.write(&mut body);
    proof {
        assert(body@ =~= enc_nodes_usage_request(request@));
    }
    Ok(frame_request(request_id, version, NODES_USAGE_ACTION_NAME, body.freeze()))
}

/// Reads a nodes usage request from a request message for its action.
pub fn read_nodes_usage_request_message(message: &TransportMessage) -> (r: Result<NodesUsageRequestWire, TransportActionWireError>)
    ensures
        gate_refusal(request_gate(message@, NODES_USAGE_ACTION_NAME@), message@, "request"@, NODES_USAGE_ACTION_NAME@, r),
        request_gate(message@, NODES_USAGE_ACTION_NAME@) is Pass ==> nodes_usage_request_read_result(message@.4, r),
{
    let body = request_body(message, NODES_USAGE_ACTION_NAME)?;
    NodesUsageRequestWire::read(body)
}

/// Frames a nodes hot threads request as request `request_id`.
pub fn build_nodes_hot_threads_request_message(
    request_id: i64,
    version: Version,
    request: &NodesHotThreadsRequestWire,
) -> (r: Result<Vec<u8>, TransportActionWireError>)
    ensures
        r matches Ok(b) && b@ == request_frame(request_id, version.id, NODES_HOT_THREADS_ACTION_NAME@, enc_nodes_hot_threads_request(request@)),
{
    let mut body = StreamOutput::new();
    request.write(&mut body);
    proof {
        assert(body@ =~= enc_nodes_hot_threads_request(request@));
    }
    Ok(frame_request(request_id, version, NODES_HOT_THREADS_ACTION_NAME, body.freeze()))
}

/// Reads a nodes hot threads request from a request message for its action.
pub fn read_nodes_hot_threads_request_message(message: &TransportMessage) -> (r: Result<NodesHotThreadsRequestWire, TransportActionWireError>)
    ensures
        gate_refusal(request_gate(message@, NODES_HOT_THREADS_ACTION_NAME@), message@, "request"@, NODES_HOT_THREADS_ACTION_NAME@, r),
        request_gate(message@, NODES_HOT_THREADS_ACTION_NAME@) is Pass ==> nodes_hot_threads_request_read_result(message@.4, r),
{
    let body = request_body(message, NODES_HOT_THREADS_ACTION_NAME)?;
    NodesHotThreadsRequestWire::read(body)
}

/// Frames an indices stats request as request `request_id`.
pub fn build_opensearch_indices_stats_request_message(
    request_id: i64,
    version: Version,
    request: &OpenSearchIndicesStatsRequestWire,
) -> (r: Result<Vec<u8>, TransportActionWireError>)
    ensures
        r matches Ok(b) && b@ == request_frame(request_id, version.id, OPENSEARCH_INDICES_STATS_ACTION_NAME@, enc_opensearch_indices_stats_request(request@)),
{
    let mut body = StreamOutput::new();
    request.write(&mut body);
    proof {
        assert(body@ =~= enc_opensearch_indices_stats_request(request@));
    }
    Ok(frame_request(request_id, version, OPENSEARCH_INDICES_STATS_ACTION_NAME, body.freeze()))
}

/// Reads an indices stats request from a request message for its action.
pub fn read_opensearch_indices_stats_request_message(message: &TransportMessage) -> (r: Result<OpenSearchIndicesStatsRequestWire, TransportActionWireError>)
    ensures
        gate_refusal(request_gate(message@, OPENSEARCH_INDICES_STATS_ACTION_NAME@), message@, "request"@, OPENSEARCH_INDICES_STATS_ACTION_NAME@, r),
        request_gate(message@, OPENSEARCH_INDICES_STATS_ACTION_NAME@) is Pass ==> opensearch_indices_stats_request_read_result(message@.4, r),
{
    let body = request_body(message, OPENSEARCH_INDICES_STATS_ACTION_NAME)?;
    OpenSearchIndicesStatsRequestWire::read(body)
}

/// Frames a cluster update settings request as request `request_id`.
pub fn build_cluster_update_settings_request_message(
    request_id: i64,
    version: Version,
    request: &ClusterUpdateSettingsRequestWire,
) -> (r: Result<Vec<u8>, TransportActionWireError>)
    ensures
        r matches Ok(b) && b@ == request_frame(request_id, version.id, CLUSTER_UPDATE_SETTINGS_ACTION_NAME@, enc_cluster_update_settings_request(request@)),
{
    let mut body = StreamOutput::new();
    request.write(&mut body);
    proof {
        assert(body@ =~= enc_cluster_update_settings_request(request@));
    }
    Ok(frame_request(request_id, version, CLUSTER_UPDATE_SETTINGS_ACTION_NAME, body.freeze()))
}

/// Reads a cluster update settings request from a request message for its action.
pub fn read_cluster_update_settings_request_message(message: &TransportMessage) -> (r: Result<ClusterUpdateSettingsRequestWire, TransportActionWireError>)
    ensures
        gate_refusal(request_gate(message@, CLUSTER_UPDATE_SETTINGS_ACTION_NAME@), message@, "request"@, CLUSTER_UPDATE_SETTINGS_ACTION_NAME@, r),
        request_gate(message@, CLUSTER_UPDATE_SETTINGS_ACTION_NAME@) is Pass ==> cluster_update_settings_request_read_result(message@.4, r),
{
    let body = request_body(message, CLUSTER_UPDATE_SETTINGS_ACTION_NAME)?;
    ClusterUpdateSettingsRequestWire::read(body)
}

/// Frames a get repositories request as request `request_id`.
pub fn build_get_repositories_request_message(
    request_id: i64,
    version: Version,
    request: &GetRepositoriesRequestWire,
) -> (r: Result<Vec<u8>, TransportActionWireError>)
    ensures
        r matches Ok(b) && b@ == request_frame(request_id, version.id, GET_REPOSITORIES_ACTION_NAME@, enc_get_repositories_request(request@)),
{
    let mut body = StreamOutput::new();
    request.write(&mut body);
    proof {
        assert(body@ =~= enc_get_repositories_request(request@));
    }
    Ok(frame_request(request_id, version, GET_REPOSITORIES_ACTION_NAME, body.freeze()))
}

/// Reads a get repositories request from a request message for its action.
pub fn read_get_repositories_request_message(message: &TransportMessage) -> (r: Result<GetRepositoriesRequestWire, TransportActionWireError>)
    ensures
        gate_refusal(request_gate(message@, GET_REPOSITORIES_ACTION_NAME@), message@, "request"@, GET_REPOSITORIES_ACTION_NAME@, r),
        request_gate(message@, GET_REPOSITORIES_ACTION_NAME@) is Pass ==> get_repositories_request_read_result(message@.4, r),
{
    let body = request_body(message, GET_REPOSITORIES_ACTION_NAME)?;
    GetRepositoriesRequestWire::read(body)
}

/// Frames a get mappings request as request `request_id`.
pub fn build_opensearch_get_mappings_request_message(
    request_id: i64,
    version: Version,
    request: &OpenSearchGetMappingsRequestWire,
) -> (r: Result<Vec<u8>, TransportActionWireError>)
    ensures
        r matches Ok(b) && b@ == request_frame(request_id, version.id, OPENSEARCH_GET_MAPPINGS_ACTION_NAME@, enc_opensearch_get_mappings_request(request@)),
{
    let mut body = StreamOutput::new();
    request.write(&mut body);
    proof {
        assert(body@ =~= enc_opensearch_get_mappings_request(request@));
    }
    Ok(frame_request(request_id, version, OPENSEARCH_GET_MAPPINGS_ACTION_NAME, body.freeze()))
}

/// Reads a get mappings request from a request message for its action.
pub fn read_opensearch_get_mappings_request_message(message: &TransportMessage) -> (r: Result<OpenSearchGetMappingsRequestWire, TransportActionWireError>)
    ensures
        gate_refusal(request_gate(message@, OPENSEARCH_GET_MAPPINGS_ACTION_NAME@), message@, "request"@, OPENSEARCH_GET_MAPPINGS_ACTION_NAME@, r),
        request_gate(message@, OPENSEARCH_GET_MAPPINGS_ACTION_NAME@) is Pass ==> opensearch_get_mappings_request_read_result(message@.4, r),
{
    let body = request_body(message, OPENSEARCH_GET_MAPPINGS_ACTION_NAME)?;
    OpenSearchGetMappingsRequestWire::read(body)
}

/// Frames a get field mappings request as request `request_id`.
pub fn build_opensearch_get_field_mappings_request_message(
    request_id: i64,
    version: Version,
    request: &OpenSearchGetFieldMappingsRequestWire,
) -> (r: Result<Vec<u8>, TransportActionWireError>)
    ensures
        r matches Ok(b) && b@ == request_frame(request_id, version.id, OPENSEARCH_GET_FIELD_MAPPINGS_ACTION_NAME@, enc_opensearch_get_field_mappings_request(request@)),
{
    let mut body = StreamOutput::new();
    request.write(&mut body);
    proof {
        assert(body@ =~= enc_opensearch_get_field_mappings_request(request@));
    }
    Ok(frame_request(request_id, version, OPENSEARCH_GET_FIELD_MAPPINGS_ACTION_NAME, body.freeze()))
}

/// Reads a get field mappings request from a request message for its action.
pub fn read_opensearch_get_field_mappings_request_message(message: &TransportMessage) -> (r: Result<OpenSearchGetFieldMappingsRequestWire, TransportActionWireError>)
    ensures
        gate_refusal(request_gate(message@, OPENSEARCH_GET_FIELD_MAPPINGS_ACTION_NAME@), message@, "request"@, OPENSEARCH_GET_FIELD_MAPPINGS_ACTION_NAME@, r),
        request_gate(message@, OPENSEARCH_GET_FIELD_MAPPINGS_ACTION_NAME@) is Pass ==> opensearch_get_field_mappings_request_read_result(message@.4, r),
{
    let body = request_body(message, OPENSEARCH_GET_FIELD_MAPPINGS_ACTION_NAME)?;
    OpenSearchGetFieldMappingsRequestWire::read(body)
}

/// Frames a get aliases request as request `request_id`.
pub fn build_opensearch_get_aliases_request_message(
    request_id: i64,
    version: Version,
    request: &OpenSearchGetAliasesRequestWire,
) -> (r: Result<Vec<u8>, TransportActionWireError>)
    ensures
        r matches Ok(b) && b@ == request_frame(request_id, version.id, OPENSEARCH_GET_ALIASES_ACTION_NAME@, enc_opensearch_get_aliases_request(request@)),
{
    let mut body = StreamOutput::new();
    request.write(&mut body);
    proof {
        assert(body@ =~= enc_opensearch_get_aliases_request(request@));
    }
    Ok(frame_request(request_id, version, OPENSEARCH_GET_ALIASES_ACTION_NAME, body.freeze()))
}

/// Reads a get aliases request from a request message for its action.
pub fn read_opensearch_get_aliases_request_message(message: &TransportMessage) -> (r: Result<OpenSearchGetAliasesRequestWire, TransportActionWireError>)
    ensures
        gate_refusal(request_gate(message@, OPENSEARCH_GET_ALIASES_ACTION_NAME@), message@, "request"@, OPENSEARCH_GET_ALIASES_ACTION_NAME@, r),
        request_gate(message@, OPENSEARCH_GET_ALIASES_ACTION_NAME@) is Pass ==> opensearch_get_aliases_request_read_result(message@.4, r),
{
    let body = request_body(message, OPENSEARCH_GET_ALIASES_ACTION_NAME)?;
    OpenSearchGetAliasesRequestWire::read(body)
}

/// Frames a get settings request as request `request_id`.
pub fn build_opensearch_get_settings_request_message(
    request_id: i64,
    version: Version,
    request: &OpenSearchGetSettingsRequestWire,
) -> (r: Result<Vec<u8>, TransportActionWireError>)
    ensures
        r matches Ok(b) && b@ == request_frame(request_id, version.id, OPENSEARCH_GET_SETTINGS_ACTION_NAME@, enc_opensearch_get_settings_request(request@)),
{
    let mut body = StreamOutput::new();
    request.write(&mut body);
    proof {
        assert(body@ =~= enc_opensearch_get_settings_request(request@));
    }
    Ok(frame_request(request_id, version, OPENSEARCH_GET_SETTINGS_ACTION_NAME, body.freeze()))
}

/// Reads a get settings request from a request message for its action.
pub fn read_opensearch_get_settings_request_message(message: &TransportMessage) -> (r: Result<OpenSearchGetSettingsRequestWire, TransportActionWireError>)
    ensures
        gate_refusal(request_gate(message@, OPENSEARCH_GET_SETTINGS_ACTION_NAME@), message@, "request"@, OPENSEARCH_GET_SETTINGS_ACTION_NAME@, r),
        request_gate(message@, OPENSEARCH_GET_SETTINGS_ACTION_NAME@) is Pass ==> opensearch_get_settings_request_read_result(message@.4, r),
{
    let body = request_body(message, OPENSEARCH_GET_SETTINGS_ACTION_NAME)?;
    OpenSearchGetSettingsRequestWire::read(body)
}

/// Frames a cluster search shards request as request `request_id`.
pub fn build_opensearch_cluster_search_shards_request_message(
    request_id: i64,
    version: Version,
    request: &OpenSearchClusterSearchShardsRequestWire,
) -> (r: Result<Vec<u8>, TransportActionWireError>)
    ensures
        r matches Ok(b) && b@ == request_frame(request_id, version.id, OPENSEARCH_CLUSTER_SEARCH_SHARDS_ACTION_NAME@, enc_opensearch_cluster_search_shards_request(request@)),
{
    let mut body = StreamOutput::new();
    request.write(&mut body);
    proof {
        assert(body@ =~= enc_opensearch_cluster_search_shards_request(request@));
    }
    Ok(frame_request(request_id, version, OPENSEARCH_CLUSTER_SEARCH_SHARDS_ACTION_NAME, body.freeze()))
}

/// Reads a cluster search shards request from a request message for its action.
pub fn read_opensearch_cluster_search_shards_request_message(message: &TransportMessage) -> (r: Result<OpenSearchClusterSearchShardsRequestWire, TransportActionWireError>)
    ensures
        gate_refusal(request_gate(message@, OPENSEARCH_CLUSTER_SEARCH_SHARDS_ACTION_NAME@), message@, "request"@, OPENSEARCH_CLUSTER_SEARCH_SHARDS_ACTION_NAME@, r),
        request_gate(message@, OPENSEARCH_CLUSTER_SEARCH_SHARDS_ACTION_NAME@) is Pass ==> opensearch_cluster_search_shards_request_read_result(message@.4, r),
{
    let body = request_body(message, OPENSEARCH_CLUSTER_SEARCH_SHARDS_ACTION_NAME)?;
    OpenSearchClusterSearchShardsRequestWire::read(body)
}

/// Frames a recovery request as request `request_id`.
pub fn build_opensearch_recovery_request_message(
    request_id: i64,
    version: Version,
    request: &OpenSearchRecoveryRequestWire,
) -> (r: Result<Vec<u8>, TransportActionWireError>)
    ensures
        r matches Ok(b) && b@ == request_frame(request_id, version.id, OPENSEARCH_RECOVERY_ACTION_NAME@, enc_opensearch_recovery_request(request@)),
{
    let mut body = StreamOutput::new();
    request.write(&mut body);
    proof {
        assert(body@ =~= enc_opensearch_recovery_request(request@));
    }
    Ok(frame_request(request_id, version, OPENSEARCH_RECOVERY_ACTION_NAME, body.freeze()))
}

/// Reads a recovery request from a request message for its action.
pub fn read_opensearch_recovery_request_message(message: &TransportMessage) -> (r: Result<OpenSearchRecoveryRequestWire, TransportActionWireError>)
    ensures
        gate_refusal(request_gate(message@, OPENSEARCH_RECOVERY_ACTION_NAME@), message@, "request"@, OPENSEARCH_RECOVERY_ACTION_NAME@, r),
        request_gate(message@, OPENSEARCH_RECOVERY_ACTION_NAME@) is Pass ==> opensearch_recovery_request_read_result(message@.4, r),
{
    let body = request_body(message, OPENSEARCH_RECOVERY_ACTION_NAME)?;
    OpenSearchRecoveryRequestWire::read(body)
}

/// Frames an indices segments request as request `request_id`.
pub fn build_opensearch_indices_segments_request_message(
    request_id: i64,
    version: Version,
    request: &OpenSearchIndicesSegmentsRequestWire,
) -> (r: Result<Vec<u8>, TransportActionWireError>)
    ensures
        r matches Ok(b) && b@ == request_frame(request_id, version.id, OPENSEARCH_INDICES_SEGMENTS_ACTION_NAME@, enc_opensearch_indices_segments_request(request@)),
{
    let mut body = StreamOutput::new();
    request.write(&mut body);
    proof {
        assert(body@ =~= enc_opensearch_indices_segments_request(request@));
    }
    Ok(frame_request(request_id, version, OPENSEARCH_INDICES_SEGMENTS_ACTION_NAME, body.freeze()))
}

/// Reads an indices segments request from a request message for its action.
pub fn read_opensearch_indices_segments_request_message(message: &TransportMessage) -> (r: Result<OpenSearchIndicesSegmentsRequestWire, TransportActionWireError>)
    ensures
        gate_refusal(request_gate(message@, OPENSEARCH_INDICES_SEGMENTS_ACTION_NAME@), message@, "request"@, OPENSEARCH_INDICES_SEGMENTS_ACTION_NAME@, r),
        request_gate(message@, OPENSEARCH_INDICES_SEGMENTS_ACTION_NAME@) is Pass ==> opensearch_indices_segments_request_read_result(message@.4, r),
{
    let body = request_body(message, OPENSEARCH_INDICES_SEGMENTS_ACTION_NAME)?;
    OpenSearchIndicesSegmentsRequestWire::read(body)
}

/// Frames an indices shard stores request as request `request_id`.
pub fn build_opensearch_indices_shard_stores_request_message(
    request_id: i64,
    version: Version,
    request: &OpenSearchIndicesShardStoresRequestWire,
) -> (r: Result<Vec<u8>, TransportActionWireError>)
    ensures
        r matches Ok(b) && b@ == request_frame(request_id, version.id, OPENSEARCH_INDICES_SHARD_STORES_ACTION_NAME@, enc_opensearch_indices_shard_stores_request(request@)),
{
    let mut body = StreamOutput::new();
    request.write(&mut body);
    proof {
        assert(body@ =~= enc_opensearch_indices_shard_stores_request(request@));
    }
    Ok(frame_request(request_id, version, OPENSEARCH_INDICES_SHARD_STORES_ACTION_NAME, body.freeze()))
}

/// Reads an indices shard stores request from a request message for its action.
pub fn read_opensearch_indices_shard_stores_request_message(message: &TransportMessage) -> (r: Result<OpenSearchIndicesShardStoresRequestWire, TransportActionWireError>)
    ensures
        gate_refusal(request_gate(message@, OPENSEARCH_INDICES_SHARD_STORES_ACTION_NAME@), message@, "request"@, OPENSEARCH_INDICES_SHARD_STORES_ACTION_NAME@, r),
        request_gate(message@, OPENSEARCH_INDICES_SHARD_STORES_ACTION_NAME@) is Pass ==> opensearch_indices_shard_stores_request_read_result(message@.4, r),
{
    let body = request_body(message, OPENSEARCH_INDICES_SHARD_STORES_ACTION_NAME)?;
    OpenSearchIndicesShardStoresRequestWire::read(body)
}

/// Frames a get data stream request as request `request_id`.
pub fn build_opensearch_get_data_stream_request_message(
    request_id: i64,
    version: Version,
    request: &OpenSearchGetDataStreamRequestWire,
) -> (r: Result<Vec<u8>, TransportActionWireError>)
    ensures
        r matches Ok(b) && b@ == request_frame(request_id, version.id, OPENSEARCH_GET_DATA_STREAM_ACTION_NAME@, enc_opensearch_get_data_stream_request(request@)),
{
    let mut body = StreamOutput::new();
    request.write(&mut body);
    proof {
        assert(body@ =~= enc_opensearch_get_data_stream_request(request@));
    }
    Ok(frame_request(request_id, version, OPENSEARCH_GET_DATA_STREAM_ACTION_NAME, body.freeze()))
}

/// Reads a get data stream request from a request message for its action.
pub fn read_opensearch_get_data_stream_request_message(message: &TransportMessage) -> (r: Result<OpenSearchGetDataStreamRequestWire, TransportActionWireError>)
    ensures
        gate_refusal(request_gate(message@, OPENSEARCH_GET_DATA_STREAM_ACTION_NAME@), message@, "request"@, OPENSEARCH_GET_DATA_STREAM_ACTION_NAME@, r),
        request_gate(message@, OPENSEARCH_GET_DATA_STREAM_ACTION_NAME@) is Pass ==> opensearch_get_data_stream_request_read_result(message@.4, r),
{
    let body = request_body(message, OPENSEARCH_GET_DATA_STREAM_ACTION_NAME)?;
    OpenSearchGetDataStreamRequestWire::read(body)
}

/// Frames a list tasks request as request `request_id`.
pub fn build_list_tasks_request_message(
    request_id: i64,
    version: Version,
    request: &ListTasksRequestWire,
) -> (r: Result<Vec<u8>, TransportActionWireError>)
    ensures
        match request@.unserved_shape() {
            Some((shape, reason)) => is_unsupported(r, shape, reason),
            None => r matches Ok(b) && b@ == request_frame(request_id, version.id, LIST_TASKS_ACTION_NAME@, enc_list_tasks_request(request@)),
        },
{
    let mut body = StreamOutput::new();
    request.write(&mut body)?;
    proof {
        assert(body@ =~= enc_list_tasks_request(request@));
    }
    Ok(frame_request(request_id, version, LIST_TASKS_ACTION_NAME, body.freeze()))
}

/// Reads a list tasks request from a request message for its action.
pub fn read_list_tasks_request_message(message: &TransportMessage) -> (r: Result<ListTasksRequestWire, TransportActionWireError>)
    ensures
        gate_refusal(request_gate(message@, LIST_TASKS_ACTION_NAME@), message@, "request"@, LIST_TASKS_ACTION_NAME@, r),
        request_gate(message@, LIST_TASKS_ACTION_NAME@) is Pass ==> list_tasks_request_read_result(message@.4, r),
{
    let body = request_body(message, LIST_TASKS_ACTION_NAME)?;
    ListTasksRequestWire::read(body)
}

/// Frames a get task request as request `request_id`.
pub fn build_get_task_request_message(
    request_id: i64,
    version: Version,
    request: &GetTaskRequestWire,
) -> (r: Result<Vec<u8>, TransportActionWireError>)
    ensures
        r matches Ok(b) && b@ == request_frame(request_id, version.id, GET_TASK_ACTION_NAME@, enc_get_task_request(request@)),
{
    let mut body = StreamOutput::new();
    request.write(&mut body);
    proof {
        assert(body@ =~= enc_get_task_request(request@));
    }
    Ok(frame_request(request_id, version, GET_TASK_ACTION_NAME, body.freeze()))
}

/// Reads a get task request from a request message for its action.
pub fn read_get_task_request_message(message: &TransportMessage) -> (r: Result<GetTaskRequestWire, TransportActionWireError>)
    ensures
        gate_refusal(request_gate(message@, GET_TASK_ACTION_NAME@), message@, "request"@, GET_TASK_ACTION_NAME@, r),
        request_gate(message@, GET_TASK_ACTION_NAME@) is Pass ==> get_task_request_read_result(message@.4, r),
{
    let body = request_body(message, GET_TASK_ACTION_NAME)?;
    GetTaskRequestWire::read(body)
}

/// Frames a cancel tasks request as request `request_id`.
pub fn build_cancel_tasks_request_message(
    request_id: i64,
    version: Version,
    request: &CancelTasksRequestWire,
) -> (r: Result<Vec<u8>, TransportActionWireError>)
    ensures
        match request@.unserved_shape() {
            Some((shape, reason)) => is_unsupported(r, shape, reason),
            None => r matches Ok(b) && b@ == request_frame(request_id, version.id, CANCEL_TASKS_ACTION_NAME@, enc_cancel_tasks_request(request@)),
        },
{
    let mut body = StreamOutput::new();
    request.write(&mut body)?;
    proof {
        assert(body@ =~= enc_cancel_tasks_request(request@));
    }
    Ok(frame_request(request_id, version, CANCEL_TASKS_ACTION_NAME, body.freeze()))
}

/// Reads a cancel tasks request from a request message for its action.
pub fn read_cancel_tasks_request_message(message: &TransportMessage) -> (r: Result<CancelTasksRequestWire, TransportActionWireError>)
    ensures
        gate_refusal(request_gate(message@, CANCEL_TASKS_ACTION_NAME@), message@, "request"@, CANCEL_TASKS_ACTION_NAME@, r),
        request_gate(message@, CANCEL_TASKS_ACTION_NAME@) is Pass ==> cancel_tasks_request_read_result(message@.4, r),
{
    let body = request_body(message, CANCEL_TASKS_ACTION_NAME)?;
    CancelTasksRequestWire::read(body)
}

/// Frames a list tasks response as the response to request `request_id`.
pub fn build_list_tasks_response_message(
    request_id: i64,
    version: Version,
    response: &ListTasksResponseWire,
) -> (r: Result<Vec<u8>, TransportActionWireError>)
    ensures
        match list_tasks_response_write_refusal(response@) {
            Some((shape, reason)) => is_unsupported(r, shape, reason),
            None => r matches Ok(b) && b@ == response_frame(request_id, version.id, enc_list_tasks_response(response@)),
        },
{
    let mut body = StreamOutput::new();
    response.write(&mut body)?;
    proof {
        assert(body@ =~= enc_list_tasks_response(response@));
    }
    Ok(frame_response(request_id, version, body.freeze()))
}

/// Reads a list tasks response from a response message.
pub fn read_list_tasks_response_message(message: &TransportMessage) -> (r: Result<ListTasksResponseWire, TransportActionWireError>)
    ensures
        gate_refusal(response_gate(message@), message@, "response"@, Seq::empty(), r),
        response_gate(message@) is Pass ==> list_tasks_response_read_result(message@.4, r),
{
    let body = response_body(message)?;
    ListTasksResponseWire::read(body)
}

/// Reads a get task response from a response message.
pub fn read_get_task_response_message(message: &TransportMessage) -> (r: Result<GetTaskResponseWire, TransportActionWireError>)
    ensures
        gate_refusal(response_gate(message@), message@, "response"@, Seq::empty(), r),
        response_gate(message@) is Pass ==> get_task_response_read_result(message@.4, r),
{
    let body = response_body(message)?;
    GetTaskResponseWire::read(body)
}

/// Frames a cancel tasks response as the response to request `request_id`.
pub fn build_cancel_tasks_response_message(
    request_id: i64,
    version: Version,
    response: &CancelTasksResponseWire,
) -> (r: Result<Vec<u8>, TransportActionWireError>)
    ensures
        match list_tasks_response_write_refusal(response@) {
            Some((shape, reason)) => is_unsupported(r, shape, reason),
            None => r matches Ok(b) && b@ == response_frame(request_id, version.id, enc_list_tasks_response(response@)),
        },
{
    let mut body = StreamOutput::new();
    response.write(&mut body)?;
    proof {
        assert(body@ =~= enc_list_tasks_response(response@));
    }
    Ok(frame_response(request_id, version, body.freeze()))
}

/// Reads a cancel tasks response from a response message.
pub fn read_cancel_tasks_response_message(message: &TransportMessage) -> (r: Result<CancelTasksResponseWire, TransportActionWireError>)
    ensures
        gate_refusal(response_gate(message@), message@, "response"@, Seq::empty(), r),
        response_gate(message@) is Pass ==> list_tasks_response_read_result(message@.4, r),
{
    let body = response_body(message)?;
    CancelTasksResponseWire::read(body)
}

} // verus!

