//! Which OpenSearch transport actions this library serves, refuses, or
//! does not know yet.
use vstd::prelude::*;
use crate::action_names::{
    opensearch_priority_transport_actions_spec, priority_views, source_derived_cluster_actions_spec, OPENSEARCH_PRIORITY_TRANSPORT_ACTIONS,
    CANCEL_TASKS_ACTION_NAME,
    CLUSTER_HEALTH_ACTION_NAME,
    CLUSTER_STATE_ACTION_NAME,
    CLUSTER_STATS_ACTION_NAME,
    CLUSTER_UPDATE_SETTINGS_ACTION_NAME,
    GET_REPOSITORIES_ACTION_NAME,
    GET_TASK_ACTION_NAME,
    LIST_TASKS_ACTION_NAME,
    NODES_HOT_THREADS_ACTION_NAME,
    NODES_INFO_ACTION_NAME,
    NODES_STATS_ACTION_NAME,
    NODES_USAGE_ACTION_NAME,
    OPENSEARCH_BULK_ACTION_NAME,
    OPENSEARCH_CLUSTER_SEARCH_SHARDS_ACTION_NAME,
    OPENSEARCH_DELETE_ACTION_NAME,
    OPENSEARCH_GET_ACTION_NAME,
    OPENSEARCH_GET_ALIASES_ACTION_NAME,
    OPENSEARCH_GET_DATA_STREAM_ACTION_NAME,
    OPENSEARCH_GET_FIELD_MAPPINGS_ACTION_NAME,
    OPENSEARCH_GET_MAPPINGS_ACTION_NAME,
    OPENSEARCH_GET_SETTINGS_ACTION_NAME,
    OPENSEARCH_INDEX_ACTION_NAME,
    OPENSEARCH_INDICES_SEGMENTS_ACTION_NAME,
    OPENSEARCH_INDICES_SHARD_STORES_ACTION_NAME,
    OPENSEARCH_INDICES_STATS_ACTION_NAME,
    OPENSEARCH_MULTI_GET_ACTION_NAME,
    OPENSEARCH_RECOVERY_ACTION_NAME,
    OPENSEARCH_REFRESH_ACTION_NAME,
    OPENSEARCH_UPDATE_ACTION_NAME,
    PENDING_CLUSTER_TASKS_ACTION_NAME,
};
use crate::action_wire::TransportActionWireError;
use crate::message::TransportMessage;
use crate::status::STATUS_REQRES;
use crate::text::str_eq;
use crate::variable_header::{parse_request_variable_header, RequestVariableHeader};

verus! {

/// How a transport action is handled.
#[derive(Clone, Copy, Debug, PartialEq, Eq, Structural)]
pub enum OpenSearchTransportActionDisposition {
    /// An adapter serves the action.
    Implemented,
    /// An adapter decodes the action and refuses to execute it.
    Rejected,
    /// No adapter handles the action.
    Missing,
}

/// The outcome of classifying one action name.
#[derive(Clone, Debug, PartialEq, Eq)]
pub struct OpenSearchTransportDispatchDecision {
    pub action_name: String,
    pub disposition: OpenSearchTransportActionDisposition,
    pub reason: &'static str,
}

/// Reason given for a priority action that no adapter serves yet.
pub const PRIORITY_TARGET_REASON: &'static str = "priority transport adapter target; request/response codec and semantic adapter are not registered yet";

/// Reason given for an action that is neither served nor a priority target.
pub const NO_ADAPTER_REASON: &'static str = "no OpenSearch transport action adapter is registered";

/// The disposition and reason of an action that has an adapter, if it has one.
pub open spec fn registered_dispatch(name: Seq<char>) -> Option<(OpenSearchTransportActionDisposition, Seq<char>)> {
    if name == CLUSTER_STATE_ACTION_NAME@ {
        Some((OpenSearchTransportActionDisposition::Implemented, "cluster-state observer transport adapter is available"@))
    } else if name == CLUSTER_HEALTH_ACTION_NAME@ {
        Some((OpenSearchTransportActionDisposition::Implemented, "cluster-health transport adapter is available for the standalone cluster-level subset"@))
    } else if name == CLUSTER_STATS_ACTION_NAME@ {
        Some((OpenSearchTransportActionDisposition::Rejected, "cluster-stats transport execution requires runtime stats aggregation mapping"@))
    } else if name == NODES_INFO_ACTION_NAME@ {
        Some((OpenSearchTransportActionDisposition::Rejected, "nodes-info transport execution requires runtime node info mapping"@))
    } else if name == NODES_STATS_ACTION_NAME@ {
        Some((OpenSearchTransportActionDisposition::Rejected, "nodes-stats transport execution requires runtime node telemetry mapping"@))
    } else if name == NODES_USAGE_ACTION_NAME@ {
        Some((OpenSearchTransportActionDisposition::Rejected, "nodes-usage transport execution requires runtime usage telemetry mapping"@))
    } else if name == NODES_HOT_THREADS_ACTION_NAME@ {
        Some((OpenSearchTransportActionDisposition::Rejected, "nodes-hot-threads transport execution requires runtime stack sampling mapping"@))
    } else if name == PENDING_CLUSTER_TASKS_ACTION_NAME@ {
        Some((OpenSearchTransportActionDisposition::Implemented, "pending-tasks observer transport adapter is available"@))
    } else if name == LIST_TASKS_ACTION_NAME@ {
        Some((OpenSearchTransportActionDisposition::Implemented, "list-tasks transport adapter is available for the empty default subset"@))
    } else if name == GET_TASK_ACTION_NAME@ {
        Some((OpenSearchTransportActionDisposition::Rejected, "get-task transport execution requires runtime task result lifecycle mapping"@))
    } else if name == CANCEL_TASKS_ACTION_NAME@ {
        Some((OpenSearchTransportActionDisposition::Implemented, "cancel-tasks transport adapter is available for the no-active-task default subset"@))
    } else if name == CLUSTER_UPDATE_SETTINGS_ACTION_NAME@ {
        Some((OpenSearchTransportActionDisposition::Rejected, "cluster settings mutation is not admitted through transport"@))
    } else if name == GET_REPOSITORIES_ACTION_NAME@ {
        Some((OpenSearchTransportActionDisposition::Rejected, "get-repositories transport execution requires repository metadata mapping"@))
    } else if name == OPENSEARCH_GET_MAPPINGS_ACTION_NAME@ {
        Some((OpenSearchTransportActionDisposition::Rejected, "get-mappings transport execution requires mapping metadata response rendering"@))
    } else if name == OPENSEARCH_GET_FIELD_MAPPINGS_ACTION_NAME@ {
        Some((OpenSearchTransportActionDisposition::Rejected, "get-field-mappings transport execution requires field mapping metadata response rendering"@))
    } else if name == OPENSEARCH_GET_ALIASES_ACTION_NAME@ {
        Some((OpenSearchTransportActionDisposition::Rejected, "get-aliases transport execution requires alias metadata response rendering"@))
    } else if name == OPENSEARCH_GET_SETTINGS_ACTION_NAME@ {
        Some((OpenSearchTransportActionDisposition::Rejected, "get-settings transport execution requires index settings metadata response rendering"@))
    } else if name == OPENSEARCH_CLUSTER_SEARCH_SHARDS_ACTION_NAME@ {
        Some((OpenSearchTransportActionDisposition::Rejected, "cluster-search-shards transport execution requires shard routing metadata response rendering"@))
    } else if name == OPENSEARCH_RECOVERY_ACTION_NAME@ {
        Some((OpenSearchTransportActionDisposition::Rejected, "recovery transport execution requires shard recovery metadata response rendering"@))
    } else if name == OPENSEARCH_INDICES_SEGMENTS_ACTION_NAME@ {
        Some((OpenSearchTransportActionDisposition::Rejected, "indices-segments transport execution requires shard segment metadata response rendering"@))
    } else if name == OPENSEARCH_INDICES_SHARD_STORES_ACTION_NAME@ {
        Some((OpenSearchTransportActionDisposition::Rejected, "indices-shard-stores transport execution requires shard allocation/store metadata response rendering"@))
    } else if name == OPENSEARCH_GET_DATA_STREAM_ACTION_NAME@ {
        Some((OpenSearchTransportActionDisposition::Rejected, "get-data-stream transport execution requires data-stream metadata response rendering"@))
    } else if name == OPENSEARCH_GET_ACTION_NAME@ {
        Some((OpenSearchTransportActionDisposition::Implemented, "get transport adapter is available for the default single-document subset"@))
    } else if name == OPENSEARCH_MULTI_GET_ACTION_NAME@ {
        Some((OpenSearchTransportActionDisposition::Implemented, "multi-get transport adapter is available for the default document subset"@))
    } else if name == OPENSEARCH_BULK_ACTION_NAME@ {
        Some((OpenSearchTransportActionDisposition::Implemented, "bulk transport adapter is available for the bounded index/delete subset"@))
    } else if name == OPENSEARCH_INDEX_ACTION_NAME@ {
        Some((OpenSearchTransportActionDisposition::Implemented, "index transport adapter is available for the default single-document subset"@))
    } else if name == OPENSEARCH_UPDATE_ACTION_NAME@ {
        Some((OpenSearchTransportActionDisposition::Implemented, "update transport adapter is available for the default doc-update subset"@))
    } else if name == OPENSEARCH_DELETE_ACTION_NAME@ {
        Some((OpenSearchTransportActionDisposition::Implemented, "delete transport adapter is available for the default single-document subset"@))
    } else if name == OPENSEARCH_REFRESH_ACTION_NAME@ {
        Some((OpenSearchTransportActionDisposition::Implemented, "refresh transport adapter is available"@))
    } else if name == OPENSEARCH_INDICES_STATS_ACTION_NAME@ {
        Some((OpenSearchTransportActionDisposition::Rejected, "indices-stats transport execution requires runtime index stats aggregation mapping"@))
    } else {
        None
    }
}

/// True when `name` is one of the priority actions.
pub open spec fn is_priority_action(name: Seq<char>) -> bool {
    exists|i: int| 0 <= i < opensearch_priority_transport_actions_spec().len()
        && #[trigger] opensearch_priority_transport_actions_spec()[i].0 == name
}

/// The disposition and reason for `name`: its adapter's, else the priority
/// target reason for a priority action, else the no-adapter reason.
pub open spec fn dispatch(name: Seq<char>) -> (OpenSearchTransportActionDisposition, Seq<char>) {
    match registered_dispatch(name) {
        Some(d) => d,
        None => if is_priority_action(name) {
            (OpenSearchTransportActionDisposition::Missing, PRIORITY_TARGET_REASON@)
        } else {
            (OpenSearchTransportActionDisposition::Missing, NO_ADAPTER_REASON@)
        },
    }
}

fn decision(
    action_name: &str,
    disposition: OpenSearchTransportActionDisposition,
    reason: &'static str,
) -> (d: OpenSearchTransportDispatchDecision)
    ensures
        d.action_name@ == action_name@,
        d.disposition == disposition,
        d.reason == reason,
{
    OpenSearchTransportDispatchDecision { action_name: crate::text::owned(action_name), disposition, reason }
}

fn is_priority_action_name(action_name: &str) -> (b: bool)
    ensures
        b == is_priority_action(action_name@),
{
    let table = OPENSEARCH_PRIORITY_TRANSPORT_ACTIONS();
    let mut i: usize = 0;
    while i < table.len()
        invariant
            priority_views(table@) == opensearch_priority_transport_actions_spec(),
            i <= table@.len(),
            forall|j: int| 0 <= j < i ==> #[trigger] opensearch_priority_transport_actions_spec()[j].0 != action_name@,
        decreases table@.len() - i,
    {
        assert(opensearch_priority_transport_actions_spec()[i as int] == table@[i as int]@);
        if str_eq(table[i].action_name, action_name) {
            assert(opensearch_priority_transport_actions_spec()[i as int].0 == action_name@);
            return true;
        }
        i = i + 1;
    }
    false
}

/// Classifies an action name by the adapter that handles it.
pub fn classify_opensearch_transport_action(action_name: &str) -> (d: OpenSearchTransportDispatchDecision)
    ensures
        d.action_name@ == action_name@,
        (d.disposition, d.reason@) == dispatch(action_name@),
{
    if str_eq(action_name, CLUSTER_STATE_ACTION_NAME) {
        decision(action_name, OpenSearchTransportActionDisposition::Implemented, "cluster-state observer transport adapter is available")
    } else if str_eq(action_name, CLUSTER_HEALTH_ACTION_NAME) {
        decision(action_name, OpenSearchTransportActionDisposition::Implemented, "cluster-health transport adapter is available for the standalone cluster-level subset")
    } else if str_eq(action_name, CLUSTER_STATS_ACTION_NAME) {
        decision(action_name, OpenSearchTransportActionDisposition::Rejected, "cluster-stats transport execution requires runtime stats aggregation mapping")
    } else if str_eq(action_name, NODES_INFO_ACTION_NAME) {
        decision(action_name, OpenSearchTransportActionDisposition::Rejected, "nodes-info transport execution requires runtime node info mapping")
    } else if str_eq(action_name, NODES_STATS_ACTION_NAME) {
        decision(action_name, OpenSearchTransportActionDisposition::Rejected, "nodes-stats transport execution requires runtime node telemetry mapping")
    } else if str_eq(action_name, NODES_USAGE_ACTION_NAME) {
        decision(action_name, OpenSearchTransportActionDisposition::Rejected, "nodes-usage transport execution requires runtime usage telemetry mapping")
    } else if str_eq(action_name, NODES_HOT_THREADS_ACTION_NAME) {
        decision(action_name, OpenSearchTransportActionDisposition::Rejected, "nodes-hot-threads transport execution requires runtime stack sampling mapping")
    } else if str_eq(action_name, PENDING_CLUSTER_TASKS_ACTION_NAME) {
        decision(action_name, OpenSearchTransportActionDisposition::Implemented, "pending-tasks observer transport adapter is available")
    } else if str_eq(action_name, LIST_TASKS_ACTION_NAME) {
        decision(action_name, OpenSearchTransportActionDisposition::Implemented, "list-tasks transport adapter is available for the empty default subset")
    } else if str_eq(action_name, GET_TASK_ACTION_NAME) {
        decision(action_name, OpenSearchTransportActionDisposition::Rejected, "get-task transport execution requires runtime task result lifecycle mapping")
    } else if str_eq(action_name, CANCEL_TASKS_ACTION_NAME) {
        decision(action_name, OpenSearchTransportActionDisposition::Implemented, "cancel-tasks transport adapter is available for the no-active-task default subset")
    } else if str_eq(action_name, CLUSTER_UPDATE_SETTINGS_ACTION_NAME) {
        decision(action_name, OpenSearchTransportActionDisposition::Rejected, "cluster settings mutation is not admitted through transport")
    } else if str_eq(action_name, GET_REPOSITORIES_ACTION_NAME) {
        decision(action_name, OpenSearchTransportActionDisposition::Rejected, "get-repositories transport execution requires repository metadata mapping")
    } else if str_eq(action_name, OPENSEARCH_GET_MAPPINGS_ACTION_NAME) {
        decision(action_name, OpenSearchTransportActionDisposition::Rejected, "get-mappings transport execution requires mapping metadata response rendering")
    } else if str_eq(action_name, OPENSEARCH_GET_FIELD_MAPPINGS_ACTION_NAME) {
        decision(action_name, OpenSearchTransportActionDisposition::Rejected, "get-field-mappings transport execution requires field mapping metadata response rendering")
    } else if str_eq(action_name, OPENSEARCH_GET_ALIASES_ACTION_NAME) {
        decision(action_name, OpenSearchTransportActionDisposition::Rejected, "get-aliases transport execution requires alias metadata response rendering")
    } else if str_eq(action_name, OPENSEARCH_GET_SETTINGS_ACTION_NAME) {
        decision(action_name, OpenSearchTransportActionDisposition::Rejected, "get-settings transport execution requires index settings metadata response rendering")
    } else if str_eq(action_name, OPENSEARCH_CLUSTER_SEARCH_SHARDS_ACTION_NAME) {
        decision(action_name, OpenSearchTransportActionDisposition::Rejected, "cluster-search-shards transport execution requires shard routing metadata response rendering")
    } else if str_eq(action_name, OPENSEARCH_RECOVERY_ACTION_NAME) {
        decision(action_name, OpenSearchTransportActionDisposition::Rejected, "recovery transport execution requires shard recovery metadata response rendering")
    } else if str_eq(action_name, OPENSEARCH_INDICES_SEGMENTS_ACTION_NAME) {
        decision(action_name, OpenSearchTransportActionDisposition::Rejected, "indices-segments transport execution requires shard segment metadata response rendering")
    } else if str_eq(action_name, OPENSEARCH_INDICES_SHARD_STORES_ACTION_NAME) {
        decision(action_name, OpenSearchTransportActionDisposition::Rejected, "indices-shard-stores transport execution requires shard allocation/store metadata response rendering")
    } else if str_eq(action_name, OPENSEARCH_GET_DATA_STREAM_ACTION_NAME) {
        decision(action_name, OpenSearchTransportActionDisposition::Rejected, "get-data-stream transport execution requires data-stream metadata response rendering")
    } else if str_eq(action_name, OPENSEARCH_GET_ACTION_NAME) {
        decision(action_name, OpenSearchTransportActionDisposition::Implemented, "get transport adapter is available for the default single-document subset")
    } else if str_eq(action_name, OPENSEARCH_MULTI_GET_ACTION_NAME) {
        decision(action_name, OpenSearchTransportActionDisposition::Implemented, "multi-get transport adapter is available for the default document subset")
    } else if str_eq(action_name, OPENSEARCH_BULK_ACTION_NAME) {
        decision(action_name, OpenSearchTransportActionDisposition::Implemented, "bulk transport adapter is available for the bounded index/delete subset")
    } else if str_eq(action_name, OPENSEARCH_INDEX_ACTION_NAME) {
        decision(action_name, OpenSearchTransportActionDisposition::Implemented, "index transport adapter is available for the default single-document subset")
    } else if str_eq(action_name, OPENSEARCH_UPDATE_ACTION_NAME) {
        decision(action_name, OpenSearchTransportActionDisposition::Implemented, "update transport adapter is available for the default doc-update subset")
    } else if str_eq(action_name, OPENSEARCH_DELETE_ACTION_NAME) {
        decision(action_name, OpenSearchTransportActionDisposition::Implemented, "delete transport adapter is available for the default single-document subset")
    } else if str_eq(action_name, OPENSEARCH_REFRESH_ACTION_NAME) {
        decision(action_name, OpenSearchTransportActionDisposition::Implemented, "refresh transport adapter is available")
    } else if str_eq(action_name, OPENSEARCH_INDICES_STATS_ACTION_NAME) {
        decision(action_name, OpenSearchTransportActionDisposition::Rejected, "indices-stats transport execution requires runtime index stats aggregation mapping")
    } else if is_priority_action_name(action_name) {
        decision(action_name, OpenSearchTransportActionDisposition::Missing, PRIORITY_TARGET_REASON)
    } else {
        decision(action_name, OpenSearchTransportActionDisposition::Missing, NO_ADAPTER_REASON)
    }
}

/// Classifies a request message by the action named in its variable header.
/// A response message is refused; so is a variable header that cannot be read.
pub fn classify_opensearch_transport_request_message(
    message: &TransportMessage,
) -> (r: Result<OpenSearchTransportDispatchDecision, TransportActionWireError>)
    ensures
        message.status@ & STATUS_REQRES != 0 ==> r == Err::<OpenSearchTransportDispatchDecision, TransportActionWireError>(
            TransportActionWireError::UnexpectedMessageStatus { expected: "request", actual: message.status@ },
        ),
        message.status@ & STATUS_REQRES == 0 ==> match parse_request_variable_header(message.variable_header@) {
            Some((h, _)) => r matches Ok(d) && d.action_name@ == h.2 && (d.disposition, d.reason@) == dispatch(h.2),
            None => r is Err,
        },
{
    if !message.status.is_request() {
        return Err(
            TransportActionWireError::UnexpectedMessageStatus { expected: "request", actual: message.status.bits() },
        );
    }
    match RequestVariableHeader::read(message.variable_header.clone()) {
        Ok(header) => Ok(classify_opensearch_transport_action(header.action.as_str())),
        Err(e) => Err(TransportActionWireError::Stream(e)),
    }
}

/// Every cluster action derived from the OpenSearch source has an adapter,
/// which serves it or refuses it: none of them is classified as missing.
pub proof fn lemma_source_derived_actions_have_adapters(i: int)
    requires
        0 <= i < source_derived_cluster_actions_spec().len(),
    ensures
        registered_dispatch(source_derived_cluster_actions_spec()[i].0) is Some,
        dispatch(source_derived_cluster_actions_spec()[i].0).0 != OpenSearchTransportActionDisposition::Missing,
{
    let t = source_derived_cluster_actions_spec();
    assert(t.len() == 13);
    if i == 0 {
        assert(t[0].0 == CLUSTER_STATE_ACTION_NAME@);
    }
    if i == 1 {
        assert(t[1].0 == CLUSTER_HEALTH_ACTION_NAME@);
    }
    if i == 2 {
        assert(t[2].0 == CLUSTER_STATS_ACTION_NAME@);
    }
    if i == 3 {
        assert(t[3].0 == NODES_INFO_ACTION_NAME@);
    }
    if i == 4 {
        assert(t[4].0 == NODES_STATS_ACTION_NAME@);
    }
    if i == 5 {
        assert(t[5].0 == NODES_USAGE_ACTION_NAME@);
    }
    if i == 6 {
        assert(t[6].0 == NODES_HOT_THREADS_ACTION_NAME@);
    }
    if i == 7 {
        assert(t[7].0 == CLUSTER_UPDATE_SETTINGS_ACTION_NAME@);
    }
    if i == 8 {
        assert(t[8].0 == GET_REPOSITORIES_ACTION_NAME@);
    }
    if i == 9 {
        assert(t[9].0 == PENDING_CLUSTER_TASKS_ACTION_NAME@);
    }
    if i == 10 {
        assert(t[10].0 == LIST_TASKS_ACTION_NAME@);
    }
    if i == 11 {
        assert(t[11].0 == GET_TASK_ACTION_NAME@);
    }
    if i == 12 {
        assert(t[12].0 == CANCEL_TASKS_ACTION_NAME@);
    }
}

/// A priority action without an adapter is marked as a priority target, never
/// as an action nobody plans to serve.
pub proof fn lemma_priority_actions_are_marked(i: int)
    requires
        0 <= i < opensearch_priority_transport_actions_spec().len(),
    ensures
        registered_dispatch(opensearch_priority_transport_actions_spec()[i].0) is None ==> dispatch(
            opensearch_priority_transport_actions_spec()[i].0,
        ) == (OpenSearchTransportActionDisposition::Missing, PRIORITY_TARGET_REASON@),
{
    assert(is_priority_action(opensearch_priority_transport_actions_spec()[i].0));
}

} // verus!
