//! Requests of cluster, node and index administration actions: their
//! defaults, and which of their shapes this library serves.
use vstd::prelude::*;
use crate::action_wire::{is_unsupported, TimeValueWire, TransportActionWireError, TIME_UNIT_MILLISECONDS, TIME_UNIT_MINUTES, TIME_UNIT_SECONDS};
use crate::indices_options::{
    expand_open_closed_allow_no_indices_spec, lenient_expand_open_spec, strict_expand_hidden_spec,
    strict_expand_open_forbid_closed_spec, strict_expand_open_spec, OpenSearchIndicesOptionsWire,
};
use crate::smap::StringMap;
use crate::stream::strings_view;
use crate::text::{bytes_eq, char_count, owned, str_eq};

verus! {

/// Health status ordinal of a green cluster.
pub const OPENSEARCH_CLUSTER_HEALTH_STATUS_GREEN: u8 = 0;
/// Health status ordinal of a yellow cluster.
pub const OPENSEARCH_CLUSTER_HEALTH_STATUS_YELLOW: u8 = 1;
/// Health status ordinal of a red cluster.
pub const OPENSEARCH_CLUSTER_HEALTH_STATUS_RED: u8 = 2;
/// Active shard count meaning "wait for none".
pub const OPENSEARCH_HEALTH_ACTIVE_SHARD_COUNT_NONE: i32 = 0;
/// Health level ordinal of the cluster level.
pub const OPENSEARCH_HEALTH_LEVEL_CLUSTER: u8 = 0;
/// Index statistics flags asked for by default: all but the fourteenth of the
/// first seventeen.
pub const OPENSEARCH_COMMON_STATS_DEFAULT_FLAGS: i64 = 114687;

/// True when `o` is `Some(b)`.
pub fn opt_bool_is(o: Option<bool>, b: bool) -> (r: bool)
    ensures
        r == (o == Some(b)),
{
    match o {
        Some(x) => x == b,
        None => false,
    }
}

/// The metrics a nodes info request asks for by default.
pub open spec fn nodes_info_default_metrics_spec() -> Seq<Seq<char>> {
    seq![
        "settings"@, "os"@, "process"@, "jvm"@, "thread_pool"@, "transport"@, "http"@, "plugins"@, "ingest"@,
        "aggregations"@, "indices"@,
    ]
}

/// The metrics a nodes info request asks for by default.
pub fn nodes_info_default_metrics() -> (v: Vec<String>)
    ensures
        strings_view(v@) == nodes_info_default_metrics_spec(),
{
    let mut v: Vec<String> = Vec::new();
    v.push(owned("settings"));
    v.push(owned("os"));
    v.push(owned("process"));
    v.push(owned("jvm"));
    v.push(owned("thread_pool"));
    v.push(owned("transport"));
    v.push(owned("http"));
    v.push(owned("plugins"));
    v.push(owned("ingest"));
    v.push(owned("aggregations"));
    v.push(owned("indices"));
    assert(strings_view(v@) =~= nodes_info_default_metrics_spec());
    v
}

/// True when `metrics` are the default nodes info metrics, in order.
pub fn nodes_info_metrics_are_default(metrics: &[String]) -> (b: bool)
    ensures
        b == (strings_view(metrics@) == nodes_info_default_metrics_spec()),
{
    let expected = nodes_info_default_metrics();
    if metrics.len() != expected.len() {
        proof {
            assert(strings_view(metrics@).len() != nodes_info_default_metrics_spec().len());
        }
        return false;
    }
    let mut i: usize = 0;
    while i < metrics.len()
        invariant
            i <= metrics@.len(),
            metrics@.len() == expected@.len(),
            strings_view(expected@) == nodes_info_default_metrics_spec(),
            forall|j: int| 0 <= j < i ==> #[trigger] metrics@[j]@ == expected@[j]@,
        decreases metrics@.len() - i,
    {
        if !str_eq(metrics[i].as_str(), expected[i].as_str()) {
            proof {
                assert(strings_view(metrics@)[i as int] != nodes_info_default_metrics_spec()[i as int]);
            }
            return false;
        }
        i = i + 1;
    }
    assert(strings_view(metrics@) =~= nodes_info_default_metrics_spec()) by {
        assert forall|j: int| 0 <= j < metrics@.len() implies strings_view(metrics@)[j] == nodes_info_default_metrics_spec()[j] by {
            assert(metrics@[j]@ == expected@[j]@);
        }
    }
    true
}

/// True when `f` asks for the default statistics with no extra options.
pub open spec fn common_stats_flags_are_default(f: CommonStatsFlagsWire) -> bool {
    &&& f.flags == OPENSEARCH_COMMON_STATS_DEFAULT_FLAGS
    &&& f.groups@.len() == 0
    &&& f.field_data_fields@.len() == 0
    &&& f.completion_data_fields@.len() == 0
    &&& !f.include_segment_file_sizes
    &&& !f.include_unloaded_segments
    &&& !f.include_all_shard_indexing_pressure_trackers
    &&& !f.include_only_top_indexing_pressure_metrics
    &&& f.include_caches@.len() == 0
    &&& f.levels@.len() == 0
    &&& !f.include_indices_stats_by_level
}

impl CommonStatsFlagsWire {
    /// True when these are the default flags.
    pub fn is_default_all_stats_shape(&self) -> (b: bool)
        ensures
            b == common_stats_flags_are_default(*self),
    {
        self.flags == OPENSEARCH_COMMON_STATS_DEFAULT_FLAGS && self.groups.len() == 0 && self.field_data_fields.len() == 0
            && self.completion_data_fields.len() == 0 && !self.include_segment_file_sizes
            && !self.include_unloaded_segments && !self.include_all_shard_indexing_pressure_trackers
            && !self.include_only_top_indexing_pressure_metrics && self.include_caches.len() == 0
            && self.levels.len() == 0 && !self.include_indices_stats_by_level
    }
}

/// A cluster state request.
#[derive(Clone, Debug, PartialEq, Eq)]
pub struct ClusterStateRequestWire {
    pub parent_task_node: String,
    pub parent_task_id: Option<i64>,
    pub cluster_manager_timeout: TimeValueWire,
    pub local: bool,
    pub routing_table: bool,
    pub nodes: bool,
    pub metadata: bool,
    pub blocks: bool,
    pub customs: bool,
    pub indices: Vec<String>,
    pub indices_options: String,
    pub wait_for_timeout: TimeValueWire,
    pub wait_for_metadata_version: Option<i64>,
}

impl Default for ClusterStateRequestWire {
    fn default() -> (d: Self)
        ensures
            d.parent_task_node@ == Seq::<char>::empty(),
            d.parent_task_id is None,
            d.cluster_manager_timeout == (TimeValueWire { duration: 30, time_unit_ordinal: TIME_UNIT_SECONDS }),
            d.local == false,
            d.routing_table == true,
            d.nodes == true,
            d.metadata == true,
            d.blocks == true,
            d.customs == true,
            d.indices@.len() == 0,
            d.indices_options@ == "lenient_expand_open"@,
            d.wait_for_timeout == (TimeValueWire { duration: 1, time_unit_ordinal: TIME_UNIT_MINUTES }),
            d.wait_for_metadata_version is None,
    {
        ClusterStateRequestWire {
            parent_task_node: String::new(),
            parent_task_id: None,
            cluster_manager_timeout: TimeValueWire::seconds(30),
            local: false,
            routing_table: true,
            nodes: true,
            metadata: true,
            blocks: true,
            customs: true,
            indices: Vec::new(),
            indices_options: owned("lenient_expand_open"),
            wait_for_timeout: TimeValueWire::minutes(1),
            wait_for_metadata_version: None,
        }
    }
}

/// A cluster health request.
#[derive(Clone, Debug, PartialEq, Eq)]
pub struct ClusterHealthRequestWire {
    pub parent_task_node: String,
    pub parent_task_id: Option<i64>,
    pub cluster_manager_timeout: TimeValueWire,
    pub local: bool,
    pub indices: Vec<String>,
    pub timeout: TimeValueWire,
    pub wait_for_status: Option<u8>,
    pub wait_for_no_relocating_shards: bool,
    pub wait_for_active_shards: i32,
    pub wait_for_nodes: String,
    pub wait_for_events: Option<u8>,
    pub wait_for_no_initializing_shards: bool,
    pub indices_options: Vec<u8>,
    pub expand_wildcards: Vec<u8>,
    pub awareness_attribute: Option<String>,
    pub level: u8,
    pub ensure_node_weighed_in: bool,
    pub apply_level_at_transport_layer: bool,
}

impl Default for ClusterHealthRequestWire {
    fn default() -> (d: Self)
        ensures
            d.parent_task_node@ == Seq::<char>::empty(),
            d.parent_task_id is None,
            d.cluster_manager_timeout == (TimeValueWire { duration: 30, time_unit_ordinal: TIME_UNIT_SECONDS }),
            d.local == false,
            d.indices@.len() == 0,
            d.timeout == (TimeValueWire { duration: 30, time_unit_ordinal: TIME_UNIT_SECONDS }),
            d.wait_for_status is None,
            d.wait_for_no_relocating_shards == false,
            d.wait_for_active_shards == OPENSEARCH_HEALTH_ACTIVE_SHARD_COUNT_NONE,
            d.wait_for_nodes@ == Seq::<char>::empty(),
            d.wait_for_events is None,
            d.wait_for_no_initializing_shards == false,
            d.indices_options@ == seq![0u8, 2u8],
            d.expand_wildcards@ == seq![0u8, 1u8, 2u8],
            d.awareness_attribute is None,
            d.level == OPENSEARCH_HEALTH_LEVEL_CLUSTER,
            d.ensure_node_weighed_in == false,
            d.apply_level_at_transport_layer == false,
    {
        ClusterHealthRequestWire {
            parent_task_node: String::new(),
            parent_task_id: None,
            cluster_manager_timeout: TimeValueWire::seconds(30),
            local: false,
            indices: Vec::new(),
            timeout: TimeValueWire::seconds(30),
            wait_for_status: None,
            wait_for_no_relocating_shards: false,
            wait_for_active_shards: OPENSEARCH_HEALTH_ACTIVE_SHARD_COUNT_NONE,
            wait_for_nodes: String::new(),
            wait_for_events: None,
            wait_for_no_initializing_shards: false,
            indices_options: vec![0u8, 2u8],
            expand_wildcards: vec![0u8, 1u8, 2u8],
            awareness_attribute: None,
            level: OPENSEARCH_HEALTH_LEVEL_CLUSTER,
            ensure_node_weighed_in: false,
            apply_level_at_transport_layer: false,
        }
    }
}

impl ClusterHealthRequestWire {
    /// The first shape of this request that is not served, with the reason, or
    /// `None` when every shape checked is served.
    pub open spec fn unserved_shape(&self) -> Option<(Seq<char>, Seq<char>)> {
        if self.cluster_manager_timeout != (TimeValueWire { duration: 30, time_unit_ordinal: TIME_UNIT_SECONDS }) {
            Some(("cluster health cluster-manager timeout"@, "custom cluster-manager timeout is not mapped by the health adapter yet"@))
        } else if self.indices@.len() != 0 {
            Some(("cluster health index scope"@, "index-scoped transport health is not mapped by the cluster-level adapter yet"@))
        } else if self.timeout != (TimeValueWire { duration: 30, time_unit_ordinal: TIME_UNIT_SECONDS }) {
            Some(("cluster health timeout"@, "custom wait timeout is not mapped by the health adapter yet"@))
        } else if (self.wait_for_status is Some) || (self.wait_for_no_relocating_shards) || (self.wait_for_active_shards != OPENSEARCH_HEALTH_ACTIVE_SHARD_COUNT_NONE) || (self.wait_for_nodes@.len() != 0) || (self.wait_for_events is Some) || (self.wait_for_no_initializing_shards) {
            Some(("cluster health wait condition"@, "wait conditions are not mapped by the cluster-level health adapter yet"@))
        } else if (self.indices_options@ != seq![0u8, 2u8]) || (self.expand_wildcards@ != seq![0u8, 1u8, 2u8]) {
            Some(("cluster health indices options"@, "non-default indices options are not mapped by the health adapter yet"@))
        } else if self.awareness_attribute is Some {
            Some(("cluster health awareness attribute"@, "awareness health is not mapped by the cluster-level adapter yet"@))
        } else if self.level != OPENSEARCH_HEALTH_LEVEL_CLUSTER {
            Some(("cluster health level"@, "index, shard, and awareness health levels are not mapped yet"@))
        } else if self.ensure_node_weighed_in {
            Some(("cluster health node weighing"@, "weighted-routing admission is not mapped by the health adapter yet"@))
        } else if self.apply_level_at_transport_layer {
            Some(("cluster health transport-level level application"@, "transport-level index/shard health filtering is not mapped yet"@))
        } else {
            None
        }
    }

    /// Accepts the request exactly when every shape it uses is served.
    pub fn validate_supported_subset(&self) -> (r: Result<(), TransportActionWireError>)
        ensures
            match self.unserved_shape() {
                Some((shape, reason)) => is_unsupported(r, shape, reason),
                None => r is Ok,
            },
    {
        if self.cluster_manager_timeout != TimeValueWire::seconds(30) {
            return Err(
                TransportActionWireError::UnsupportedWireShape {
                    shape: "cluster health cluster-manager timeout",
                    reason: "custom cluster-manager timeout is not mapped by the health adapter yet",
                },
            );
        }
        if self.indices.len() != 0 {
            return Err(
                TransportActionWireError::UnsupportedWireShape {
                    shape: "cluster health index scope",
                    reason: "index-scoped transport health is not mapped by the cluster-level adapter yet",
                },
            );
        }
        if self.timeout != TimeValueWire::seconds(30) {
            return Err(
                TransportActionWireError::UnsupportedWireShape {
                    shape: "cluster health timeout",
                    reason: "custom wait timeout is not mapped by the health adapter yet",
                },
            );
        }
        if self.wait_for_status.is_some() || self.wait_for_no_relocating_shards || self.wait_for_active_shards != OPENSEARCH_HEALTH_ACTIVE_SHARD_COUNT_NONE || char_count(self.wait_for_nodes.as_str()) != 0 || self.wait_for_events.is_some() || self.wait_for_no_initializing_shards {
            return Err(
                TransportActionWireError::UnsupportedWireShape {
                    shape: "cluster health wait condition",
                    reason: "wait conditions are not mapped by the cluster-level health adapter yet",
                },
            );
        }
        if !bytes_eq(self.indices_options.as_slice(), &[0u8, 2u8]) || !bytes_eq(self.expand_wildcards.as_slice(), &[0u8, 1u8, 2u8]) {
            return Err(
                TransportActionWireError::UnsupportedWireShape {
                    shape: "cluster health indices options",
                    reason: "non-default indices options are not mapped by the health adapter yet",
                },
            );
        }
        if self.awareness_attribute.is_some() {
            return Err(
                TransportActionWireError::UnsupportedWireShape {
                    shape: "cluster health awareness attribute",
                    reason: "awareness health is not mapped by the cluster-level adapter yet",
                },
            );
        }
        if self.level != OPENSEARCH_HEALTH_LEVEL_CLUSTER {
            return Err(
                TransportActionWireError::UnsupportedWireShape {
                    shape: "cluster health level",
                    reason: "index, shard, and awareness health levels are not mapped yet",
                },
            );
        }
        if self.ensure_node_weighed_in {
            return Err(
                TransportActionWireError::UnsupportedWireShape {
                    shape: "cluster health node weighing",
                    reason: "weighted-routing admission is not mapped by the health adapter yet",
                },
            );
        }
        if self.apply_level_at_transport_layer {
            return Err(
                TransportActionWireError::UnsupportedWireShape {
                    shape: "cluster health transport-level level application",
                    reason: "transport-level index/shard health filtering is not mapped yet",
                },
            );
        }
        Ok(())
    }
}

/// A cluster stats request.
#[derive(Clone, Debug, PartialEq, Eq)]
pub struct ClusterStatsRequestWire {
    pub parent_task_node: String,
    pub parent_task_id: Option<i64>,
    pub node_ids: Vec<String>,
    pub timeout: Option<TimeValueWire>,
    pub use_aggregated_node_level_responses: Option<bool>,
    pub compute_all_metrics: Option<bool>,
    pub metric_flags: i64,
    pub index_metric_flags: i64,
}

impl Default for ClusterStatsRequestWire {
    fn default() -> (d: Self)
        ensures
            d.parent_task_node@ == Seq::<char>::empty(),
            d.parent_task_id is None,
            d.node_ids@.len() == 0,
            d.timeout is None,
            d.use_aggregated_node_level_responses == Some(false),
            d.compute_all_metrics == Some(true),
            d.metric_flags == 0,
            d.index_metric_flags == 0,
    {
        ClusterStatsRequestWire {
            parent_task_node: String::new(),
            parent_task_id: None,
            node_ids: Vec::new(),
            timeout: None,
            use_aggregated_node_level_responses: Some(false),
            compute_all_metrics: Some(true),
            metric_flags: 0,
            index_metric_flags: 0,
        }
    }
}

impl ClusterStatsRequestWire {
    /// The first shape of this request that is not served, with the reason, or
    /// `None` when every shape checked is served.
    pub open spec fn unserved_shape(&self) -> Option<(Seq<char>, Seq<char>)> {
        if self.node_ids@.len() != 0 {
            Some(("cluster stats node filter"@, "cluster-stats node-scoped routing requires runtime node stats aggregation mapping"@))
        } else if self.timeout is Some {
            Some(("cluster stats timeout"@, "cluster-stats timeout semantics require runtime stats aggregation mapping"@))
        } else if self.use_aggregated_node_level_responses != Some(false) {
            Some(("cluster stats aggregated node responses"@, "aggregated node-level cluster-stats responses are not mapped by this adapter"@))
        } else if self.compute_all_metrics != Some(true) {
            Some(("cluster stats metric selection"@, "partial cluster-stats metric selection requires field-level runtime aggregation mapping"@))
        } else if (self.metric_flags != 0) || (self.index_metric_flags != 0) {
            Some(("cluster stats metric flags"@, "cluster-stats metric bitsets require field-level runtime aggregation mapping"@))
        } else {
            None
        }
    }

    /// Refuses to execute the request: with the first unserved shape, else
    /// because execution itself is not served.
    pub fn reject_unsupported_execution(&self) -> (r: Result<(), TransportActionWireError>)
        ensures
            match self.unserved_shape() {
                Some((shape, reason)) => is_unsupported(r, shape, reason),
                None => is_unsupported(r, "cluster stats execution"@, "cluster-stats transport execution requires runtime stats aggregation mapping"@),
            },
    {
        if self.node_ids.len() != 0 {
            return Err(
                TransportActionWireError::UnsupportedWireShape {
                    shape: "cluster stats node filter",
                    reason: "cluster-stats node-scoped routing requires runtime node stats aggregation mapping",
                },
            );
        }
        if self.timeout.is_some() {
            return Err(
                TransportActionWireError::UnsupportedWireShape {
                    shape: "cluster stats timeout",
                    reason: "cluster-stats timeout semantics require runtime stats aggregation mapping",
                },
            );
        }
        if !opt_bool_is(self.use_aggregated_node_level_responses, false) {
            return Err(
                TransportActionWireError::UnsupportedWireShape {
                    shape: "cluster stats aggregated node responses",
                    reason: "aggregated node-level cluster-stats responses are not mapped by this adapter",
                },
            );
        }
        if !opt_bool_is(self.compute_all_metrics, true) {
            return Err(
                TransportActionWireError::UnsupportedWireShape {
                    shape: "cluster stats metric selection",
                    reason: "partial cluster-stats metric selection requires field-level runtime aggregation mapping",
                },
            );
        }
        if self.metric_flags != 0 || self.index_metric_flags != 0 {
            return Err(
                TransportActionWireError::UnsupportedWireShape {
                    shape: "cluster stats metric flags",
                    reason: "cluster-stats metric bitsets require field-level runtime aggregation mapping",
                },
            );
        }
        Err(
            TransportActionWireError::UnsupportedWireShape {
                shape: "cluster stats execution",
                reason: "cluster-stats transport execution requires runtime stats aggregation mapping",
            },
        )
    }
}

/// Which index statistics a stats request asks for.
#[derive(Clone, Debug, PartialEq, Eq)]
pub struct CommonStatsFlagsWire {
    pub flags: i64,
    pub groups: Vec<String>,
    pub field_data_fields: Vec<String>,
    pub completion_data_fields: Vec<String>,
    pub include_segment_file_sizes: bool,
    pub include_unloaded_segments: bool,
    pub include_all_shard_indexing_pressure_trackers: bool,
    pub include_only_top_indexing_pressure_metrics: bool,
    pub include_caches: Vec<u8>,
    pub levels: Vec<String>,
    pub include_indices_stats_by_level: bool,
}

impl Default for CommonStatsFlagsWire {
    fn default() -> (d: Self)
        ensures
            d.flags == OPENSEARCH_COMMON_STATS_DEFAULT_FLAGS,
            d.groups@.len() == 0,
            d.field_data_fields@.len() == 0,
            d.completion_data_fields@.len() == 0,
            d.include_segment_file_sizes == false,
            d.include_unloaded_segments == false,
            d.include_all_shard_indexing_pressure_trackers == false,
            d.include_only_top_indexing_pressure_metrics == false,
            d.include_caches@.len() == 0,
            d.levels@.len() == 0,
            d.include_indices_stats_by_level == false,
    {
        CommonStatsFlagsWire {
            flags: OPENSEARCH_COMMON_STATS_DEFAULT_FLAGS,
            groups: Vec::new(),
            field_data_fields: Vec::new(),
            completion_data_fields: Vec::new(),
            include_segment_file_sizes: false,
            include_unloaded_segments: false,
            include_all_shard_indexing_pressure_trackers: false,
            include_only_top_indexing_pressure_metrics: false,
            include_caches: Vec::new(),
            levels: Vec::new(),
            include_indices_stats_by_level: false,
        }
    }
}

/// A nodes info request.
#[derive(Clone, Debug, PartialEq, Eq)]
pub struct NodesInfoRequestWire {
    pub parent_task_node: String,
    pub parent_task_id: Option<i64>,
    pub node_ids: Vec<String>,
    pub timeout: Option<TimeValueWire>,
    pub requested_metrics: Vec<String>,
}

impl Default for NodesInfoRequestWire {
    fn default() -> (d: Self)
        ensures
            d.parent_task_node@ == Seq::<char>::empty(),
            d.parent_task_id is None,
            d.node_ids@.len() == 0,
            d.timeout is None,
            strings_view(d.requested_metrics@) == nodes_info_default_metrics_spec(),
    {
        NodesInfoRequestWire {
            parent_task_node: String::new(),
            parent_task_id: None,
            node_ids: Vec::new(),
            timeout: None,
            requested_metrics: nodes_info_default_metrics(),
        }
    }
}

impl NodesInfoRequestWire {
    /// The first shape of this request that is not served, with the reason, or
    /// `None` when every shape checked is served.
    pub open spec fn unserved_shape(&self) -> Option<(Seq<char>, Seq<char>)> {
        if self.node_ids@.len() != 0 {
            Some(("nodes info node filter"@, "nodes-info node-scoped routing requires runtime node info mapping"@))
        } else if self.timeout is Some {
            Some(("nodes info timeout"@, "nodes-info timeout semantics require runtime node info mapping"@))
        } else if strings_view(self.requested_metrics@) != nodes_info_default_metrics_spec() {
            Some(("nodes info requested metrics"@, "nodes-info metric selection requires field-level node info mapping"@))
        } else {
            None
        }
    }

    /// Refuses to execute the request: with the first unserved shape, else
    /// because execution itself is not served.
    pub fn reject_unsupported_execution(&self) -> (r: Result<(), TransportActionWireError>)
        ensures
            match self.unserved_shape() {
                Some((shape, reason)) => is_unsupported(r, shape, reason),
                None => is_unsupported(r, "nodes info execution"@, "nodes-info transport execution requires runtime node info mapping"@),
            },
    {
        if self.node_ids.len() != 0 {
            return Err(
                TransportActionWireError::UnsupportedWireShape {
                    shape: "nodes info node filter",
                    reason: "nodes-info node-scoped routing requires runtime node info mapping",
                },
            );
        }
        if self.timeout.is_some() {
            return Err(
                TransportActionWireError::UnsupportedWireShape {
                    shape: "nodes info timeout",
                    reason: "nodes-info timeout semantics require runtime node info mapping",
                },
            );
        }
        if !nodes_info_metrics_are_default(self.requested_metrics.as_slice()) {
            return Err(
                TransportActionWireError::UnsupportedWireShape {
                    shape: "nodes info requested metrics",
                    reason: "nodes-info metric selection requires field-level node info mapping",
                },
            );
        }
        Err(
            TransportActionWireError::UnsupportedWireShape {
                shape: "nodes info execution",
                reason: "nodes-info transport execution requires runtime node info mapping",
            },
        )
    }
}

/// A nodes stats request.
#[derive(Clone, Debug, PartialEq, Eq)]
pub struct NodesStatsRequestWire {
    pub parent_task_node: String,
    pub parent_task_id: Option<i64>,
    pub node_ids: Vec<String>,
    pub timeout: Option<TimeValueWire>,
    pub indices: CommonStatsFlagsWire,
    pub requested_metrics: Vec<String>,
}

impl Default for NodesStatsRequestWire {
    fn default() -> (d: Self)
        ensures
            d.parent_task_node@ == Seq::<char>::empty(),
            d.parent_task_id is None,
            d.node_ids@.len() == 0,
            d.timeout is None,
            common_stats_flags_are_default(d.indices),
            d.requested_metrics@.len() == 0,
    {
        NodesStatsRequestWire {
            parent_task_node: String::new(),
            parent_task_id: None,
            node_ids: Vec::new(),
            timeout: None,
            indices: CommonStatsFlagsWire::default(),
            requested_metrics: Vec::new(),
        }
    }
}

impl NodesStatsRequestWire {
    /// The first shape of this request that is not served, with the reason, or
    /// `None` when every shape checked is served.
    pub open spec fn unserved_shape(&self) -> Option<(Seq<char>, Seq<char>)> {
        if self.node_ids@.len() != 0 {
            Some(("nodes stats node filter"@, "nodes-stats node-scoped routing requires runtime node telemetry mapping"@))
        } else if self.timeout is Some {
            Some(("nodes stats timeout"@, "nodes-stats timeout semantics require runtime node telemetry mapping"@))
        } else if !common_stats_flags_are_default(self.indices) {
            Some(("nodes stats indices flags"@, "nodes-stats index flag subsets require field-level telemetry mapping"@))
        } else if self.requested_metrics@.len() != 0 {
            Some(("nodes stats requested metrics"@, "nodes-stats metric selection requires field-level telemetry mapping"@))
        } else {
            None
        }
    }

    /// Refuses to execute the request: with the first unserved shape, else
    /// because execution itself is not served.
    pub fn reject_unsupported_execution(&self) -> (r: Result<(), TransportActionWireError>)
        ensures
            match self.unserved_shape() {
                Some((shape, reason)) => is_unsupported(r, shape, reason),
                None => is_unsupported(r, "nodes stats execution"@, "nodes-stats transport execution requires runtime node telemetry mapping"@),
            },
    {
        if self.node_ids.len() != 0 {
            return Err(
                TransportActionWireError::UnsupportedWireShape {
                    shape: "nodes stats node filter",
                    reason: "nodes-stats node-scoped routing requires runtime node telemetry mapping",
                },
            );
        }
        if self.timeout.is_some() {
            return Err(
                TransportActionWireError::UnsupportedWireShape {
                    shape: "nodes stats timeout",
                    reason: "nodes-stats timeout semantics require runtime node telemetry mapping",
                },
            );
        }
        if !self.indices.is_default_all_stats_shape() {
            return Err(
                TransportActionWireError::UnsupportedWireShape {
                    shape: "nodes stats indices flags",
                    reason: "nodes-stats index flag subsets require field-level telemetry mapping",
                },
            );
        }
        if self.requested_metrics.len() != 0 {
            return Err(
                TransportActionWireError::UnsupportedWireShape {
                    shape: "nodes stats requested metrics",
                    reason: "nodes-stats metric selection requires field-level telemetry mapping",
                },
            );
        }
        Err(
            TransportActionWireError::UnsupportedWireShape {
                shape: "nodes stats execution",
                reason: "nodes-stats transport execution requires runtime node telemetry mapping",
            },
        )
    }
}

/// A nodes usage request.
#[derive(Clone, Debug, PartialEq, Eq)]
pub struct NodesUsageRequestWire {
    pub parent_task_node: String,
    pub parent_task_id: Option<i64>,
    pub node_ids: Vec<String>,
    pub timeout: Option<TimeValueWire>,
    pub rest_actions: bool,
    pub aggregations: bool,
}

impl Default for NodesUsageRequestWire {
    fn default() -> (d: Self)
        ensures
            d.parent_task_node@ == Seq::<char>::empty(),
            d.parent_task_id is None,
            d.node_ids@.len() == 0,
            d.timeout is None,
            d.rest_actions == false,
            d.aggregations == false,
    {
        NodesUsageRequestWire {
            parent_task_node: String::new(),
            parent_task_id: None,
            node_ids: Vec::new(),
            timeout: None,
            rest_actions: false,
            aggregations: false,
        }
    }
}

impl NodesUsageRequestWire {
    /// The first shape of this request that is not served, with the reason, or
    /// `None` when every shape checked is served.
    pub open spec fn unserved_shape(&self) -> Option<(Seq<char>, Seq<char>)> {
        if self.node_ids@.len() != 0 {
            Some(("nodes usage node filter"@, "nodes-usage node-scoped routing requires runtime usage telemetry mapping"@))
        } else if self.timeout is Some {
            Some(("nodes usage timeout"@, "nodes-usage timeout semantics require runtime usage telemetry mapping"@))
        } else if self.rest_actions {
            Some(("nodes usage rest actions"@, "REST action usage telemetry is not mapped by this adapter"@))
        } else if self.aggregations {
            Some(("nodes usage aggregations"@, "aggregation usage telemetry is not mapped by this adapter"@))
        } else {
            None
        }
    }

    /// Refuses to execute the request: with the first unserved shape, else
    /// because execution itself is not served.
    pub fn reject_unsupported_execution(&self) -> (r: Result<(), TransportActionWireError>)
        ensures
            match self.unserved_shape() {
                Some((shape, reason)) => is_unsupported(r, shape, reason),
                None => is_unsupported(r, "nodes usage execution"@, "nodes-usage transport execution requires runtime usage telemetry mapping"@),
            },
    {
        if self.node_ids.len() != 0 {
            return Err(
                TransportActionWireError::UnsupportedWireShape {
                    shape: "nodes usage node filter",
                    reason: "nodes-usage node-scoped routing requires runtime usage telemetry mapping",
                },
            );
        }
        if self.timeout.is_some() {
            return Err(
                TransportActionWireError::UnsupportedWireShape {
                    shape: "nodes usage timeout",
                    reason: "nodes-usage timeout semantics require runtime usage telemetry mapping",
                },
            );
        }
        if self.rest_actions {
            return Err(
                TransportActionWireError::UnsupportedWireShape {
                    shape: "nodes usage rest actions",
                    reason: "REST action usage telemetry is not mapped by this adapter",
                },
            );
        }
        if self.aggregations {
            return Err(
                TransportActionWireError::UnsupportedWireShape {
                    shape: "nodes usage aggregations",
                    reason: "aggregation usage telemetry is not mapped by this adapter",
                },
            );
        }
        Err(
            TransportActionWireError::UnsupportedWireShape {
                shape: "nodes usage execution",
                reason: "nodes-usage transport execution requires runtime usage telemetry mapping",
            },
        )
    }
}

/// A nodes hot threads request.
#[derive(Clone, Debug, PartialEq, Eq)]
pub struct NodesHotThreadsRequestWire {
    pub parent_task_node: String,
    pub parent_task_id: Option<i64>,
    pub node_ids: Vec<String>,
    pub timeout: Option<TimeValueWire>,
    pub threads: i32,
    pub ignore_idle_threads: bool,
    pub hot_threads_type: String,
    pub interval: TimeValueWire,
    pub snapshots: i32,
}

impl Default for NodesHotThreadsRequestWire {
    fn default() -> (d: Self)
        ensures
            d.parent_task_node@ == Seq::<char>::empty(),
            d.parent_task_id is None,
            d.node_ids@.len() == 0,
            d.timeout is None,
            d.threads == 3,
            d.ignore_idle_threads == true,
            d.hot_threads_type@ == "cpu"@,
            d.interval == (TimeValueWire { duration: 500, time_unit_ordinal: TIME_UNIT_MILLISECONDS }),
            d.snapshots == 10,
    {
        NodesHotThreadsRequestWire {
            parent_task_node: String::new(),
            parent_task_id: None,
            node_ids: Vec::new(),
            timeout: None,
            threads: 3,
            ignore_idle_threads: true,
            hot_threads_type: owned("cpu"),
            interval: TimeValueWire::millis(500),
            snapshots: 10,
        }
    }
}

impl NodesHotThreadsRequestWire {
    /// The first shape of this request that is not served, with the reason, or
    /// `None` when every shape checked is served.
    pub open spec fn unserved_shape(&self) -> Option<(Seq<char>, Seq<char>)> {
        if self.node_ids@.len() != 0 {
            Some(("nodes hot threads node filter"@, "nodes-hot-threads node-scoped routing requires runtime stack sampling mapping"@))
        } else if self.timeout is Some {
            Some(("nodes hot threads timeout"@, "nodes-hot-threads timeout semantics require runtime stack sampling mapping"@))
        } else if self.threads != 3 {
            Some(("nodes hot threads thread count"@, "nodes-hot-threads thread count selection is not mapped by this adapter"@))
        } else if !self.ignore_idle_threads {
            Some(("nodes hot threads idle thread inclusion"@, "nodes-hot-threads idle thread inclusion is not mapped by this adapter"@))
        } else if self.hot_threads_type@ != "cpu"@ {
            Some(("nodes hot threads type"@, "nodes-hot-threads non-cpu sampling type is not mapped by this adapter"@))
        } else if self.interval != (TimeValueWire { duration: 500, time_unit_ordinal: TIME_UNIT_MILLISECONDS }) {
            Some(("nodes hot threads interval"@, "nodes-hot-threads custom sampling interval is not mapped by this adapter"@))
        } else if self.snapshots != 10 {
            Some(("nodes hot threads snapshots"@, "nodes-hot-threads snapshot count selection is not mapped by this adapter"@))
        } else {
            None
        }
    }

    /// Refuses to execute the request: with the first unserved shape, else
    /// because execution itself is not served.
    pub fn reject_unsupported_execution(&self) -> (r: Result<(), TransportActionWireError>)
        ensures
            match self.unserved_shape() {
                Some((shape, reason)) => is_unsupported(r, shape, reason),
                None => is_unsupported(r, "nodes hot threads execution"@, "nodes-hot-threads transport execution requires runtime stack sampling mapping"@),
            },
    {
        if self.node_ids.len() != 0 {
            return Err(
                TransportActionWireError::UnsupportedWireShape {
                    shape: "nodes hot threads node filter",
                    reason: "nodes-hot-threads node-scoped routing requires runtime stack sampling mapping",
                },
            );
        }
        if self.timeout.is_some() {
            return Err(
                TransportActionWireError::UnsupportedWireShape {
                    shape: "nodes hot threads timeout",
                    reason: "nodes-hot-threads timeout semantics require runtime stack sampling mapping",
                },
            );
        }
        if self.threads != 3 {
            return Err(
                TransportActionWireError::UnsupportedWireShape {
                    shape: "nodes hot threads thread count",
                    reason: "nodes-hot-threads thread count selection is not mapped by this adapter",
                },
            );
        }
        if !self.ignore_idle_threads {
            return Err(
                TransportActionWireError::UnsupportedWireShape {
                    shape: "nodes hot threads idle thread inclusion",
                    reason: "nodes-hot-threads idle thread inclusion is not mapped by this adapter",
                },
            );
        }
        if !str_eq(self.hot_threads_type.as_str(), "cpu") {
            return Err(
                TransportActionWireError::UnsupportedWireShape {
                    shape: "nodes hot threads type",
                    reason: "nodes-hot-threads non-cpu sampling type is not mapped by this adapter",
                },
            );
        }
        if self.interval != TimeValueWire::millis(500) {
            return Err(
                TransportActionWireError::UnsupportedWireShape {
                    shape: "nodes hot threads interval",
                    reason: "nodes-hot-threads custom sampling interval is not mapped by this adapter",
                },
            );
        }
        if self.snapshots != 10 {
            return Err(
                TransportActionWireError::UnsupportedWireShape {
                    shape: "nodes hot threads snapshots",
                    reason: "nodes-hot-threads snapshot count selection is not mapped by this adapter",
                },
            );
        }
        Err(
            TransportActionWireError::UnsupportedWireShape {
                shape: "nodes hot threads execution",
                reason: "nodes-hot-threads transport execution requires runtime stack sampling mapping",
            },
        )
    }
}

/// An indices stats request.
#[derive(Clone, Debug, PartialEq, Eq)]
pub struct OpenSearchIndicesStatsRequestWire {
    pub parent_task_node: String,
    pub parent_task_id: Option<i64>,
    pub indices: Vec<String>,
    pub indices_options: OpenSearchIndicesOptionsWire,
    pub flags: CommonStatsFlagsWire,
}

impl Default for OpenSearchIndicesStatsRequestWire {
    fn default() -> (d: Self)
        ensures
            d.parent_task_node@ == Seq::<char>::empty(),
            d.parent_task_id is None,
            d.indices@.len() == 0,
            d.indices_options == strict_expand_open_forbid_closed_spec(),
            common_stats_flags_are_default(d.flags),
    {
        OpenSearchIndicesStatsRequestWire {
            parent_task_node: String::new(),
            parent_task_id: None,
            indices: Vec::new(),
            indices_options: OpenSearchIndicesOptionsWire::strict_expand_open_forbid_closed(),
            flags: CommonStatsFlagsWire::default(),
        }
    }
}

impl OpenSearchIndicesStatsRequestWire {
    /// The first shape of this request that is not served, with the reason, or
    /// `None` when every shape checked is served.
    pub open spec fn unserved_shape(&self) -> Option<(Seq<char>, Seq<char>)> {
        if self.indices@.len() != 0 {
            Some(("indices stats index filter"@, "indices-stats index-scoped aggregation requires runtime index stats mapping"@))
        } else if self.indices_options != strict_expand_open_forbid_closed_spec() {
            Some(("indices stats indices options"@, "indices-stats non-default indices options require runtime index resolution mapping"@))
        } else if !common_stats_flags_are_default(self.flags) {
            Some(("indices stats flags"@, "indices-stats metric subsets require field-level stats aggregation mapping"@))
        } else {
            None
        }
    }

    /// Refuses to execute the request: with the first unserved shape, else
    /// because execution itself is not served.
    pub fn reject_unsupported_execution(&self) -> (r: Result<(), TransportActionWireError>)
        ensures
            match self.unserved_shape() {
                Some((shape, reason)) => is_unsupported(r, shape, reason),
                None => is_unsupported(r, "indices stats execution"@, "indices-stats transport execution requires runtime index stats aggregation mapping"@),
            },
    {
        if self.indices.len() != 0 {
            return Err(
                TransportActionWireError::UnsupportedWireShape {
                    shape: "indices stats index filter",
                    reason: "indices-stats index-scoped aggregation requires runtime index stats mapping",
                },
            );
        }
        if self.indices_options != OpenSearchIndicesOptionsWire::strict_expand_open_forbid_closed() {
            return Err(
                TransportActionWireError::UnsupportedWireShape {
                    shape: "indices stats indices options",
                    reason: "indices-stats non-default indices options require runtime index resolution mapping",
                },
            );
        }
        if !self.flags.is_default_all_stats_shape() {
            return Err(
                TransportActionWireError::UnsupportedWireShape {
                    shape: "indices stats flags",
                    reason: "indices-stats metric subsets require field-level stats aggregation mapping",
                },
            );
        }
        Err(
            TransportActionWireError::UnsupportedWireShape {
                shape: "indices stats execution",
                reason: "indices-stats transport execution requires runtime index stats aggregation mapping",
            },
        )
    }
}

/// A cluster settings update request.
#[derive(Debug, PartialEq, Eq)]
pub struct ClusterUpdateSettingsRequestWire {
    pub parent_task_node: String,
    pub parent_task_id: Option<i64>,
    pub cluster_manager_timeout: TimeValueWire,
    pub ack_timeout: TimeValueWire,
    pub transient_settings: StringMap<String>,
    pub persistent_settings: StringMap<String>,
}

impl Default for ClusterUpdateSettingsRequestWire {
    fn default() -> (d: Self)
        ensures
            d.parent_task_node@ == Seq::<char>::empty(),
            d.parent_task_id is None,
            d.cluster_manager_timeout == (TimeValueWire { duration: 30, time_unit_ordinal: TIME_UNIT_SECONDS }),
            d.ack_timeout == (TimeValueWire { duration: 30, time_unit_ordinal: TIME_UNIT_SECONDS }),
            d.transient_settings@.len() == 0,
            d.persistent_settings@.len() == 0,
    {
        ClusterUpdateSettingsRequestWire {
            parent_task_node: String::new(),
            parent_task_id: None,
            cluster_manager_timeout: TimeValueWire::seconds(30),
            ack_timeout: TimeValueWire::seconds(30),
            transient_settings: StringMap::new(),
            persistent_settings: StringMap::new(),
        }
    }
}

impl ClusterUpdateSettingsRequestWire {
    /// The first shape of this request that is not served, with the reason, or
    /// `None` when every shape checked is served.
    pub open spec fn unserved_shape(&self) -> Option<(Seq<char>, Seq<char>)> {
        if self.cluster_manager_timeout != (TimeValueWire { duration: 30, time_unit_ordinal: TIME_UNIT_SECONDS }) {
            Some(("cluster update settings cluster-manager timeout"@, "custom cluster-manager timeout is not admitted through transport settings mutation"@))
        } else if self.ack_timeout != (TimeValueWire { duration: 30, time_unit_ordinal: TIME_UNIT_SECONDS }) {
            Some(("cluster update settings ack timeout"@, "custom acknowledgement timeout is not admitted through transport settings mutation"@))
        } else if self.transient_settings@.len() != 0 {
            Some(("cluster update settings transient settings"@, "transient cluster-settings mutation is not admitted through transport"@))
        } else if self.persistent_settings@.len() != 0 {
            Some(("cluster update settings persistent settings"@, "persistent cluster-settings mutation is not admitted through transport"@))
        } else {
            None
        }
    }

    /// Refuses to execute the request: with the first unserved shape, else
    /// because execution itself is not served.
    pub fn reject_unsupported_execution(&self) -> (r: Result<(), TransportActionWireError>)
        ensures
            match self.unserved_shape() {
                Some((shape, reason)) => is_unsupported(r, shape, reason),
                None => is_unsupported(r, "cluster update settings execution"@, "cluster settings mutation is not admitted through transport"@),
            },
    {
        if self.cluster_manager_timeout != TimeValueWire::seconds(30) {
            return Err(
                TransportActionWireError::UnsupportedWireShape {
                    shape: "cluster update settings cluster-manager timeout",
                    reason: "custom cluster-manager timeout is not admitted through transport settings mutation",
                },
            );
        }
        if self.ack_timeout != TimeValueWire::seconds(30) {
            return Err(
                TransportActionWireError::UnsupportedWireShape {
                    shape: "cluster update settings ack timeout",
                    reason: "custom acknowledgement timeout is not admitted through transport settings mutation",
                },
            );
        }
        if self.transient_settings.len() != 0 {
            return Err(
                TransportActionWireError::UnsupportedWireShape {
                    shape: "cluster update settings transient settings",
                    reason: "transient cluster-settings mutation is not admitted through transport",
                },
            );
        }
        if self.persistent_settings.len() != 0 {
            return Err(
                TransportActionWireError::UnsupportedWireShape {
                    shape: "cluster update settings persistent settings",
                    reason: "persistent cluster-settings mutation is not admitted through transport",
                },
            );
        }
        Err(
            TransportActionWireError::UnsupportedWireShape {
                shape: "cluster update settings execution",
                reason: "cluster settings mutation is not admitted through transport",
            },
        )
    }
}

/// A get-repositories request.
#[derive(Clone, Debug, PartialEq, Eq)]
pub struct GetRepositoriesRequestWire {
    pub parent_task_node: String,
    pub parent_task_id: Option<i64>,
    pub cluster_manager_timeout: TimeValueWire,
    pub local: bool,
    pub repositories: Vec<String>,
}

impl Default for GetRepositoriesRequestWire {
    fn default() -> (d: Self)
        ensures
            d.parent_task_node@ == Seq::<char>::empty(),
            d.parent_task_id is None,
            d.cluster_manager_timeout == (TimeValueWire { duration: 30, time_unit_ordinal: TIME_UNIT_SECONDS }),
            d.local == false,
            d.repositories@.len() == 0,
    {
        GetRepositoriesRequestWire {
            parent_task_node: String::new(),
            parent_task_id: None,
            cluster_manager_timeout: TimeValueWire::seconds(30),
            local: false,
            repositories: Vec::new(),
        }
    }
}

impl GetRepositoriesRequestWire {
    /// The first shape of this request that is not served, with the reason, or
    /// `None` when every shape checked is served.
    pub open spec fn unserved_shape(&self) -> Option<(Seq<char>, Seq<char>)> {
        if self.cluster_manager_timeout != (TimeValueWire { duration: 30, time_unit_ordinal: TIME_UNIT_SECONDS }) {
            Some(("get repositories cluster-manager timeout"@, "custom cluster-manager timeout is not mapped by the get-repositories adapter yet"@))
        } else if self.repositories@.len() != 0 {
            Some(("get repositories selection"@, "repository name and pattern selection requires repository metadata mapping"@))
        } else if self.local {
            Some(("get repositories local"@, "local repository metadata reads require local cluster-state response semantics"@))
        } else {
            None
        }
    }

    /// Refuses to execute the request: with the first unserved shape, else
    /// because execution itself is not served.
    pub fn reject_unsupported_execution(&self) -> (r: Result<(), TransportActionWireError>)
        ensures
            match self.unserved_shape() {
                Some((shape, reason)) => is_unsupported(r, shape, reason),
                None => is_unsupported(r, "get repositories execution"@, "get-repositories transport execution requires repository metadata mapping"@),
            },
    {
        if self.cluster_manager_timeout != TimeValueWire::seconds(30) {
            return Err(
                TransportActionWireError::UnsupportedWireShape {
                    shape: "get repositories cluster-manager timeout",
                    reason: "custom cluster-manager timeout is not mapped by the get-repositories adapter yet",
                },
            );
        }
        if self.repositories.len() != 0 {
            return Err(
                TransportActionWireError::UnsupportedWireShape {
                    shape: "get repositories selection",
                    reason: "repository name and pattern selection requires repository metadata mapping",
                },
            );
        }
        if self.local {
            return Err(
                TransportActionWireError::UnsupportedWireShape {
                    shape: "get repositories local",
                    reason: "local repository metadata reads require local cluster-state response semantics",
                },
            );
        }
        Err(
            TransportActionWireError::UnsupportedWireShape {
                shape: "get repositories execution",
                reason: "get-repositories transport execution requires repository metadata mapping",
            },
        )
    }
}

/// A get-mappings request.
#[derive(Clone, Debug, PartialEq, Eq)]
pub struct OpenSearchGetMappingsRequestWire {
    pub parent_task_node: String,
    pub parent_task_id: Option<i64>,
    pub cluster_manager_timeout: TimeValueWire,
    pub local: bool,
    pub indices: Vec<String>,
    pub indices_options: OpenSearchIndicesOptionsWire,
}

impl Default for OpenSearchGetMappingsRequestWire {
    fn default() -> (d: Self)
        ensures
            d.parent_task_node@ == Seq::<char>::empty(),
            d.parent_task_id is None,
            d.cluster_manager_timeout == (TimeValueWire { duration: 30, time_unit_ordinal: TIME_UNIT_SECONDS }),
            d.local == false,
            d.indices@.len() == 0,
            d.indices_options == strict_expand_open_spec(),
    {
        OpenSearchGetMappingsRequestWire {
            parent_task_node: String::new(),
            parent_task_id: None,
            cluster_manager_timeout: TimeValueWire::seconds(30),
            local: false,
            indices: Vec::new(),
            indices_options: OpenSearchIndicesOptionsWire::strict_expand_open(),
        }
    }
}

impl OpenSearchGetMappingsRequestWire {
    /// The first shape of this request that is not served, with the reason, or
    /// `None` when every shape checked is served.
    pub open spec fn unserved_shape(&self) -> Option<(Seq<char>, Seq<char>)> {
        if self.cluster_manager_timeout != (TimeValueWire { duration: 30, time_unit_ordinal: TIME_UNIT_SECONDS }) {
            Some(("get mappings cluster-manager timeout"@, "custom cluster-manager timeout is not mapped by the get-mappings adapter yet"@))
        } else if self.indices@.len() != 0 {
            Some(("get mappings index filter"@, "index-scoped mapping reads require cluster metadata response rendering"@))
        } else if self.local {
            Some(("get mappings local"@, "local mapping reads require local cluster-state response semantics"@))
        } else if self.indices_options != strict_expand_open_spec() {
            Some(("get mappings indices options"@, "custom get-mappings indices options require cluster metadata resolution semantics"@))
        } else {
            None
        }
    }

    /// Refuses to execute the request: with the first unserved shape, else
    /// because execution itself is not served.
    pub fn reject_unsupported_execution(&self) -> (r: Result<(), TransportActionWireError>)
        ensures
            match self.unserved_shape() {
                Some((shape, reason)) => is_unsupported(r, shape, reason),
                None => is_unsupported(r, "get mappings execution"@, "get-mappings transport execution requires mapping metadata response rendering"@),
            },
    {
        if self.cluster_manager_timeout != TimeValueWire::seconds(30) {
            return Err(
                TransportActionWireError::UnsupportedWireShape {
                    shape: "get mappings cluster-manager timeout",
                    reason: "custom cluster-manager timeout is not mapped by the get-mappings adapter yet",
                },
            );
        }
        if self.indices.len() != 0 {
            return Err(
                TransportActionWireError::UnsupportedWireShape {
                    shape: "get mappings index filter",
                    reason: "index-scoped mapping reads require cluster metadata response rendering",
                },
            );
        }
        if self.local {
            return Err(
                TransportActionWireError::UnsupportedWireShape {
                    shape: "get mappings local",
                    reason: "local mapping reads require local cluster-state response semantics",
                },
            );
        }
        if self.indices_options != OpenSearchIndicesOptionsWire::strict_expand_open() {
            return Err(
                TransportActionWireError::UnsupportedWireShape {
                    shape: "get mappings indices options",
                    reason: "custom get-mappings indices options require cluster metadata resolution semantics",
                },
            );
        }
        Err(
            TransportActionWireError::UnsupportedWireShape {
                shape: "get mappings execution",
                reason: "get-mappings transport execution requires mapping metadata response rendering",
            },
        )
    }
}

/// A get-field-mappings request.
#[derive(Clone, Debug, PartialEq, Eq)]
pub struct OpenSearchGetFieldMappingsRequestWire {
    pub parent_task_node: String,
    pub parent_task_id: Option<i64>,
    pub indices: Vec<String>,
    pub indices_options: OpenSearchIndicesOptionsWire,
    pub local: bool,
    pub fields: Vec<String>,
    pub include_defaults: bool,
}

impl Default for OpenSearchGetFieldMappingsRequestWire {
    fn default() -> (d: Self)
        ensures
            d.parent_task_node@ == Seq::<char>::empty(),
            d.parent_task_id is None,
            d.indices@.len() == 0,
            d.indices_options == strict_expand_open_spec(),
            d.local == false,
            d.fields@.len() == 0,
            d.include_defaults == false,
    {
        OpenSearchGetFieldMappingsRequestWire {
            parent_task_node: String::new(),
            parent_task_id: None,
            indices: Vec::new(),
            indices_options: OpenSearchIndicesOptionsWire::strict_expand_open(),
            local: false,
            fields: Vec::new(),
            include_defaults: false,
        }
    }
}

impl OpenSearchGetFieldMappingsRequestWire {
    /// The first shape of this request that is not served, with the reason, or
    /// `None` when every shape checked is served.
    pub open spec fn unserved_shape(&self) -> Option<(Seq<char>, Seq<char>)> {
        if self.indices@.len() != 0 {
            Some(("get field mappings index filter"@, "index-scoped field-mapping reads require cluster metadata response rendering"@))
        } else if self.indices_options != strict_expand_open_spec() {
            Some(("get field mappings indices options"@, "custom get-field-mappings indices options require cluster metadata resolution semantics"@))
        } else if self.local {
            Some(("get field mappings local"@, "local field-mapping reads require local cluster-state response semantics"@))
        } else if self.fields@.len() != 0 {
            Some(("get field mappings field filter"@, "field-scoped mapping reads require field mapping response rendering"@))
        } else if self.include_defaults {
            Some(("get field mappings include defaults"@, "field-mapping default expansion is not mapped by this adapter"@))
        } else {
            None
        }
    }

    /// Refuses to execute the request: with the first unserved shape, else
    /// because execution itself is not served.
    pub fn reject_unsupported_execution(&self) -> (r: Result<(), TransportActionWireError>)
        ensures
            match self.unserved_shape() {
                Some((shape, reason)) => is_unsupported(r, shape, reason),
                None => is_unsupported(r, "get field mappings execution"@, "get-field-mappings transport execution requires field mapping metadata response rendering"@),
            },
    {
        if self.indices.len() != 0 {
            return Err(
                TransportActionWireError::UnsupportedWireShape {
                    shape: "get field mappings index filter",
                    reason: "index-scoped field-mapping reads require cluster metadata response rendering",
                },
            );
        }
        if self.indices_options != OpenSearchIndicesOptionsWire::strict_expand_open() {
            return Err(
                TransportActionWireError::UnsupportedWireShape {
                    shape: "get field mappings indices options",
                    reason: "custom get-field-mappings indices options require cluster metadata resolution semantics",
                },
            );
        }
        if self.local {
            return Err(
                TransportActionWireError::UnsupportedWireShape {
                    shape: "get field mappings local",
                    reason: "local field-mapping reads require local cluster-state response semantics",
                },
            );
        }
        if self.fields.len() != 0 {
            return Err(
                TransportActionWireError::UnsupportedWireShape {
                    shape: "get field mappings field filter",
                    reason: "field-scoped mapping reads require field mapping response rendering",
                },
            );
        }
        if self.include_defaults {
            return Err(
                TransportActionWireError::UnsupportedWireShape {
                    shape: "get field mappings include defaults",
                    reason: "field-mapping default expansion is not mapped by this adapter",
                },
            );
        }
        Err(
            TransportActionWireError::UnsupportedWireShape {
                shape: "get field mappings execution",
                reason: "get-field-mappings transport execution requires field mapping metadata response rendering",
            },
        )
    }
}

/// A get-aliases request.
#[derive(Clone, Debug, PartialEq, Eq)]
pub struct OpenSearchGetAliasesRequestWire {
    pub parent_task_node: String,
    pub parent_task_id: Option<i64>,
    pub cluster_manager_timeout: TimeValueWire,
    pub local: bool,
    pub indices: Vec<String>,
    pub aliases: Vec<String>,
    pub indices_options: OpenSearchIndicesOptionsWire,
    pub original_aliases: Vec<String>,
}

impl Default for OpenSearchGetAliasesRequestWire {
    fn default() -> (d: Self)
        ensures
            d.parent_task_node@ == Seq::<char>::empty(),
            d.parent_task_id is None,
            d.cluster_manager_timeout == (TimeValueWire { duration: 30, time_unit_ordinal: TIME_UNIT_SECONDS }),
            d.local == false,
            d.indices@.len() == 0,
            d.aliases@.len() == 0,
            d.indices_options == strict_expand_hidden_spec(),
            d.original_aliases@.len() == 0,
    {
        OpenSearchGetAliasesRequestWire {
            parent_task_node: String::new(),
            parent_task_id: None,
            cluster_manager_timeout: TimeValueWire::seconds(30),
            local: false,
            indices: Vec::new(),
            aliases: Vec::new(),
            indices_options: OpenSearchIndicesOptionsWire::strict_expand_hidden(),
            original_aliases: Vec::new(),
        }
    }
}

impl OpenSearchGetAliasesRequestWire {
    /// The first shape of this request that is not served, with the reason, or
    /// `None` when every shape checked is served.
    pub open spec fn unserved_shape(&self) -> Option<(Seq<char>, Seq<char>)> {
        if self.cluster_manager_timeout != (TimeValueWire { duration: 30, time_unit_ordinal: TIME_UNIT_SECONDS }) {
            Some(("get aliases cluster-manager timeout"@, "custom cluster-manager timeout is not mapped by the get-aliases adapter yet"@))
        } else if self.indices@.len() != 0 {
            Some(("get aliases index filter"@, "index-scoped alias reads require cluster metadata response rendering"@))
        } else if self.local {
            Some(("get aliases local"@, "local alias metadata reads require local cluster-state response semantics"@))
        } else if self.aliases@.len() != 0 {
            Some(("get aliases alias filter"@, "alias-scoped reads require alias metadata response rendering"@))
        } else if self.indices_options != strict_expand_hidden_spec() {
            Some(("get aliases indices options"@, "custom get-aliases indices options require cluster metadata resolution semantics"@))
        } else if self.original_aliases@.len() != 0 {
            Some(("get aliases original alias filter"@, "original alias filters require alias post-processing response semantics"@))
        } else {
            None
        }
    }

    /// Refuses to execute the request: with the first unserved shape, else
    /// because execution itself is not served.
    pub fn reject_unsupported_execution(&self) -> (r: Result<(), TransportActionWireError>)
        ensures
            match self.unserved_shape() {
                Some((shape, reason)) => is_unsupported(r, shape, reason),
                None => is_unsupported(r, "get aliases execution"@, "get-aliases transport execution requires alias metadata response rendering"@),
            },
    {
        if self.cluster_manager_timeout != TimeValueWire::seconds(30) {
            return Err(
                TransportActionWireError::UnsupportedWireShape {
                    shape: "get aliases cluster-manager timeout",
                    reason: "custom cluster-manager timeout is not mapped by the get-aliases adapter yet",
                },
            );
        }
        if self.indices.len() != 0 {
            return Err(
                TransportActionWireError::UnsupportedWireShape {
                    shape: "get aliases index filter",
                    reason: "index-scoped alias reads require cluster metadata response rendering",
                },
            );
        }
        if self.local {
            return Err(
                TransportActionWireError::UnsupportedWireShape {
                    shape: "get aliases local",
                    reason: "local alias metadata reads require local cluster-state response semantics",
                },
            );
        }
        if self.aliases.len() != 0 {
            return Err(
                TransportActionWireError::UnsupportedWireShape {
                    shape: "get aliases alias filter",
                    reason: "alias-scoped reads require alias metadata response rendering",
                },
            );
        }
        if self.indices_options != OpenSearchIndicesOptionsWire::strict_expand_hidden() {
            return Err(
                TransportActionWireError::UnsupportedWireShape {
                    shape: "get aliases indices options",
                    reason: "custom get-aliases indices options require cluster metadata resolution semantics",
                },
            );
        }
        if self.original_aliases.len() != 0 {
            return Err(
                TransportActionWireError::UnsupportedWireShape {
                    shape: "get aliases original alias filter",
                    reason: "original alias filters require alias post-processing response semantics",
                },
            );
        }
        Err(
            TransportActionWireError::UnsupportedWireShape {
                shape: "get aliases execution",
                reason: "get-aliases transport execution requires alias metadata response rendering",
            },
        )
    }
}

/// A get-settings request.
#[derive(Clone, Debug, PartialEq, Eq)]
pub struct OpenSearchGetSettingsRequestWire {
    pub parent_task_node: String,
    pub parent_task_id: Option<i64>,
    pub cluster_manager_timeout: TimeValueWire,
    pub local: bool,
    pub indices: Vec<String>,
    pub indices_options: OpenSearchIndicesOptionsWire,
    pub names: Vec<String>,
    pub human_readable: bool,
    pub include_defaults: bool,
}

impl Default for OpenSearchGetSettingsRequestWire {
    fn default() -> (d: Self)
        ensures
            d.parent_task_node@ == Seq::<char>::empty(),
            d.parent_task_id is None,
            d.cluster_manager_timeout == (TimeValueWire { duration: 30, time_unit_ordinal: TIME_UNIT_SECONDS }),
            d.local == false,
            d.indices@.len() == 0,
            d.indices_options == expand_open_closed_allow_no_indices_spec(),
            d.names@.len() == 0,
            d.human_readable == false,
            d.include_defaults == false,
    {
        OpenSearchGetSettingsRequestWire {
            parent_task_node: String::new(),
            parent_task_id: None,
            cluster_manager_timeout: TimeValueWire::seconds(30),
            local: false,
            indices: Vec::new(),
            indices_options: OpenSearchIndicesOptionsWire::expand_open_closed_allow_no_indices(),
            names: Vec::new(),
            human_readable: false,
            include_defaults: false,
        }
    }
}

impl OpenSearchGetSettingsRequestWire {
    /// The first shape of this request that is not served, with the reason, or
    /// `None` when every shape checked is served.
    pub open spec fn unserved_shape(&self) -> Option<(Seq<char>, Seq<char>)> {
        if self.cluster_manager_timeout != (TimeValueWire { duration: 30, time_unit_ordinal: TIME_UNIT_SECONDS }) {
            Some(("get settings cluster-manager timeout"@, "custom cluster-manager timeout is not mapped by the get-settings adapter yet"@))
        } else if self.indices@.len() != 0 {
            Some(("get settings index filter"@, "index-scoped settings reads require cluster metadata response rendering"@))
        } else if self.local {
            Some(("get settings local"@, "local settings reads require local cluster-state response semantics"@))
        } else if self.indices_options != expand_open_closed_allow_no_indices_spec() {
            Some(("get settings indices options"@, "custom get-settings indices options require cluster metadata resolution semantics"@))
        } else if self.names@.len() != 0 {
            Some(("get settings name filter"@, "settings name filters require settings response filtering semantics"@))
        } else if self.human_readable {
            Some(("get settings human readable"@, "human-readable settings formatting is not mapped by this adapter"@))
        } else if self.include_defaults {
            Some(("get settings include defaults"@, "default settings expansion is not mapped by this adapter"@))
        } else {
            None
        }
    }

    /// Refuses to execute the request: with the first unserved shape, else
    /// because execution itself is not served.
    pub fn reject_unsupported_execution(&self) -> (r: Result<(), TransportActionWireError>)
        ensures
            match self.unserved_shape() {
                Some((shape, reason)) => is_unsupported(r, shape, reason),
                None => is_unsupported(r, "get settings execution"@, "get-settings transport execution requires index settings metadata response rendering"@),
            },
    {
        if self.cluster_manager_timeout != TimeValueWire::seconds(30) {
            return Err(
                TransportActionWireError::UnsupportedWireShape {
                    shape: "get settings cluster-manager timeout",
                    reason: "custom cluster-manager timeout is not mapped by the get-settings adapter yet",
                },
            );
        }
        if self.indices.len() != 0 {
            return Err(
                TransportActionWireError::UnsupportedWireShape {
                    shape: "get settings index filter",
                    reason: "index-scoped settings reads require cluster metadata response rendering",
                },
            );
        }
        if self.local {
            return Err(
                TransportActionWireError::UnsupportedWireShape {
                    shape: "get settings local",
                    reason: "local settings reads require local cluster-state response semantics",
                },
            );
        }
        if self.indices_options != OpenSearchIndicesOptionsWire::expand_open_closed_allow_no_indices() {
            return Err(
                TransportActionWireError::UnsupportedWireShape {
                    shape: "get settings indices options",
                    reason: "custom get-settings indices options require cluster metadata resolution semantics",
                },
            );
        }
        if self.names.len() != 0 {
            return Err(
                TransportActionWireError::UnsupportedWireShape {
                    shape: "get settings name filter",
                    reason: "settings name filters require settings response filtering semantics",
                },
            );
        }
        if self.human_readable {
            return Err(
                TransportActionWireError::UnsupportedWireShape {
                    shape: "get settings human readable",
                    reason: "human-readable settings formatting is not mapped by this adapter",
                },
            );
        }
        if self.include_defaults {
            return Err(
                TransportActionWireError::UnsupportedWireShape {
                    shape: "get settings include defaults",
                    reason: "default settings expansion is not mapped by this adapter",
                },
            );
        }
        Err(
            TransportActionWireError::UnsupportedWireShape {
                shape: "get settings execution",
                reason: "get-settings transport execution requires index settings metadata response rendering",
            },
        )
    }
}

/// A cluster search-shards request.
#[derive(Clone, Debug, PartialEq, Eq)]
pub struct OpenSearchClusterSearchShardsRequestWire {
    pub parent_task_node: String,
    pub parent_task_id: Option<i64>,
    pub cluster_manager_timeout: TimeValueWire,
    pub local: bool,
    pub indices: Vec<String>,
    pub routing: Option<String>,
    pub preference: Option<String>,
    pub indices_options: OpenSearchIndicesOptionsWire,
    pub has_slice: bool,
}

impl Default for OpenSearchClusterSearchShardsRequestWire {
    fn default() -> (d: Self)
        ensures
            d.parent_task_node@ == Seq::<char>::empty(),
            d.parent_task_id is None,
            d.cluster_manager_timeout == (TimeValueWire { duration: 30, time_unit_ordinal: TIME_UNIT_SECONDS }),
            d.local == false,
            d.indices@.len() == 0,
            d.routing is None,
            d.preference is None,
            d.indices_options == lenient_expand_open_spec(),
            d.has_slice == false,
    {
        OpenSearchClusterSearchShardsRequestWire {
            parent_task_node: String::new(),
            parent_task_id: None,
            cluster_manager_timeout: TimeValueWire::seconds(30),
            local: false,
            indices: Vec::new(),
            routing: None,
            preference: None,
            indices_options: OpenSearchIndicesOptionsWire::lenient_expand_open(),
            has_slice: false,
        }
    }
}

impl OpenSearchClusterSearchShardsRequestWire {
    /// The first shape of this request that is not served, with the reason, or
    /// `None` when every shape checked is served.
    pub open spec fn unserved_shape(&self) -> Option<(Seq<char>, Seq<char>)> {
        if self.cluster_manager_timeout != (TimeValueWire { duration: 30, time_unit_ordinal: TIME_UNIT_SECONDS }) {
            Some(("cluster search shards cluster-manager timeout"@, "custom cluster-manager timeout is not mapped by the cluster-search-shards adapter yet"@))
        } else if self.local {
            Some(("cluster search shards local"@, "local search-shards reads require local cluster-state response semantics"@))
        } else if self.indices@.len() != 0 {
            Some(("cluster search shards index filter"@, "index-scoped search-shards reads require shard routing metadata rendering"@))
        } else if self.routing is Some {
            Some(("cluster search shards routing"@, "routing-aware search-shards reads require operation routing semantics"@))
        } else if self.preference is Some {
            Some(("cluster search shards preference"@, "preference-aware search-shards reads require shard iterator ordering semantics"@))
        } else if self.indices_options != lenient_expand_open_spec() {
            Some(("cluster search shards indices options"@, "custom cluster-search-shards indices options require cluster metadata resolution semantics"@))
        } else if self.has_slice {
            Some(("cluster search shards slice"@, "sliced search-shards routing is not mapped by this adapter"@))
        } else {
            None
        }
    }

    /// Refuses to execute the request: with the first unserved shape, else
    /// because execution itself is not served.
    pub fn reject_unsupported_execution(&self) -> (r: Result<(), TransportActionWireError>)
        ensures
            match self.unserved_shape() {
                Some((shape, reason)) => is_unsupported(r, shape, reason),
                None => is_unsupported(r, "cluster search shards execution"@, "cluster-search-shards transport execution requires shard routing metadata response rendering"@),
            },
    {
        if self.cluster_manager_timeout != TimeValueWire::seconds(30) {
            return Err(
                TransportActionWireError::UnsupportedWireShape {
                    shape: "cluster search shards cluster-manager timeout",
                    reason: "custom cluster-manager timeout is not mapped by the cluster-search-shards adapter yet",
                },
            );
        }
        if self.local {
            return Err(
                TransportActionWireError::UnsupportedWireShape {
                    shape: "cluster search shards local",
                    reason: "local search-shards reads require local cluster-state response semantics",
                },
            );
        }
        if self.indices.len() != 0 {
            return Err(
                TransportActionWireError::UnsupportedWireShape {
                    shape: "cluster search shards index filter",
                    reason: "index-scoped search-shards reads require shard routing metadata rendering",
                },
            );
        }
        if self.routing.is_some() {
            return Err(
                TransportActionWireError::UnsupportedWireShape {
                    shape: "cluster search shards routing",
                    reason: "routing-aware search-shards reads require operation routing semantics",
                },
            );
        }
        if self.preference.is_some() {
            return Err(
                TransportActionWireError::UnsupportedWireShape {
                    shape: "cluster search shards preference",
                    reason: "preference-aware search-shards reads require shard iterator ordering semantics",
                },
            );
        }
        if self.indices_options != OpenSearchIndicesOptionsWire::lenient_expand_open() {
            return Err(
                TransportActionWireError::UnsupportedWireShape {
                    shape: "cluster search shards indices options",
                    reason: "custom cluster-search-shards indices options require cluster metadata resolution semantics",
                },
            );
        }
        if self.has_slice {
            return Err(
                TransportActionWireError::UnsupportedWireShape {
                    shape: "cluster search shards slice",
                    reason: "sliced search-shards routing is not mapped by this adapter",
                },
            );
        }
        Err(
            TransportActionWireError::UnsupportedWireShape {
                shape: "cluster search shards execution",
                reason: "cluster-search-shards transport execution requires shard routing metadata response rendering",
            },
        )
    }
}

/// A recovery request.
#[derive(Clone, Debug, PartialEq, Eq)]
pub struct OpenSearchRecoveryRequestWire {
    pub parent_task_node: String,
    pub parent_task_id: Option<i64>,
    pub indices: Vec<String>,
    pub indices_options: OpenSearchIndicesOptionsWire,
    pub detailed: bool,
    pub active_only: bool,
}

impl Default for OpenSearchRecoveryRequestWire {
    fn default() -> (d: Self)
        ensures
            d.parent_task_node@ == Seq::<char>::empty(),
            d.parent_task_id is None,
            d.indices@.len() == 0,
            d.indices_options == expand_open_closed_allow_no_indices_spec(),
            d.detailed == false,
            d.active_only == false,
    {
        OpenSearchRecoveryRequestWire {
            parent_task_node: String::new(),
            parent_task_id: None,
            indices: Vec::new(),
            indices_options: OpenSearchIndicesOptionsWire::expand_open_closed_allow_no_indices(),
            detailed: false,
            active_only: false,
        }
    }
}

impl OpenSearchRecoveryRequestWire {
    /// The first shape of this request that is not served, with the reason, or
    /// `None` when every shape checked is served.
    pub open spec fn unserved_shape(&self) -> Option<(Seq<char>, Seq<char>)> {
        if self.indices@.len() != 0 {
            Some(("recovery index filter"@, "index-scoped recovery reads require shard recovery metadata rendering"@))
        } else if self.indices_options != expand_open_closed_allow_no_indices_spec() {
            Some(("recovery indices options"@, "custom recovery indices options require index resolution semantics"@))
        } else if self.detailed {
            Some(("recovery detailed"@, "detailed recovery output requires file-level recovery metadata rendering"@))
        } else if self.active_only {
            Some(("recovery active only"@, "active-only recovery filtering requires shard recovery stage mapping"@))
        } else {
            None
        }
    }

    /// Refuses to execute the request: with the first unserved shape, else
    /// because execution itself is not served.
    pub fn reject_unsupported_execution(&self) -> (r: Result<(), TransportActionWireError>)
        ensures
            match self.unserved_shape() {
                Some((shape, reason)) => is_unsupported(r, shape, reason),
                None => is_unsupported(r, "recovery execution"@, "recovery transport execution requires shard recovery metadata response rendering"@),
            },
    {
        if self.indices.len() != 0 {
            return Err(
                TransportActionWireError::UnsupportedWireShape {
                    shape: "recovery index filter",
                    reason: "index-scoped recovery reads require shard recovery metadata rendering",
                },
            );
        }
        if self.indices_options != OpenSearchIndicesOptionsWire::expand_open_closed_allow_no_indices() {
            return Err(
                TransportActionWireError::UnsupportedWireShape {
                    shape: "recovery indices options",
                    reason: "custom recovery indices options require index resolution semantics",
                },
            );
        }
        if self.detailed {
            return Err(
                TransportActionWireError::UnsupportedWireShape {
                    shape: "recovery detailed",
                    reason: "detailed recovery output requires file-level recovery metadata rendering",
                },
            );
        }
        if self.active_only {
            return Err(
                TransportActionWireError::UnsupportedWireShape {
                    shape: "recovery active only",
                    reason: "active-only recovery filtering requires shard recovery stage mapping",
                },
            );
        }
        Err(
            TransportActionWireError::UnsupportedWireShape {
                shape: "recovery execution",
                reason: "recovery transport execution requires shard recovery metadata response rendering",
            },
        )
    }
}

/// An indices segments request.
#[derive(Clone, Debug, PartialEq, Eq)]
pub struct OpenSearchIndicesSegmentsRequestWire {
    pub parent_task_node: String,
    pub parent_task_id: Option<i64>,
    pub indices: Vec<String>,
    pub indices_options: OpenSearchIndicesOptionsWire,
    pub verbose: bool,
}

impl Default for OpenSearchIndicesSegmentsRequestWire {
    fn default() -> (d: Self)
        ensures
            d.parent_task_node@ == Seq::<char>::empty(),
            d.parent_task_id is None,
            d.indices@.len() == 0,
            d.indices_options == strict_expand_open_forbid_closed_spec(),
            d.verbose == false,
    {
        OpenSearchIndicesSegmentsRequestWire {
            parent_task_node: String::new(),
            parent_task_id: None,
            indices: Vec::new(),
            indices_options: OpenSearchIndicesOptionsWire::strict_expand_open_forbid_closed(),
            verbose: false,
        }
    }
}

impl OpenSearchIndicesSegmentsRequestWire {
    /// The first shape of this request that is not served, with the reason, or
    /// `None` when every shape checked is served.
    pub open spec fn unserved_shape(&self) -> Option<(Seq<char>, Seq<char>)> {
        if self.indices@.len() != 0 {
            Some(("indices segments index filter"@, "index-scoped segment reads require shard segment metadata rendering"@))
        } else if self.indices_options != strict_expand_open_forbid_closed_spec() {
            Some(("indices segments indices options"@, "custom indices-segments options require index resolution semantics"@))
        } else if self.verbose {
            Some(("indices segments verbose"@, "verbose segment output requires extended shard segment metadata rendering"@))
        } else {
            None
        }
    }

    /// Refuses to execute the request: with the first unserved shape, else
    /// because execution itself is not served.
    pub fn reject_unsupported_execution(&self) -> (r: Result<(), TransportActionWireError>)
        ensures
            match self.unserved_shape() {
                Some((shape, reason)) => is_unsupported(r, shape, reason),
                None => is_unsupported(r, "indices segments execution"@, "indices-segments transport execution requires shard segment metadata response rendering"@),
            },
    {
        if self.indices.len() != 0 {
            return Err(
                TransportActionWireError::UnsupportedWireShape {
                    shape: "indices segments index filter",
                    reason: "index-scoped segment reads require shard segment metadata rendering",
                },
            );
        }
        if self.indices_options != OpenSearchIndicesOptionsWire::strict_expand_open_forbid_closed() {
            return Err(
                TransportActionWireError::UnsupportedWireShape {
                    shape: "indices segments indices options",
                    reason: "custom indices-segments options require index resolution semantics",
                },
            );
        }
        if self.verbose {
            return Err(
                TransportActionWireError::UnsupportedWireShape {
                    shape: "indices segments verbose",
                    reason: "verbose segment output requires extended shard segment metadata rendering",
                },
            );
        }
        Err(
            TransportActionWireError::UnsupportedWireShape {
                shape: "indices segments execution",
                reason: "indices-segments transport execution requires shard segment metadata response rendering",
            },
        )
    }
}

/// An indices shard stores request.
#[derive(Clone, Debug, PartialEq, Eq)]
pub struct OpenSearchIndicesShardStoresRequestWire {
    pub parent_task_node: String,
    pub parent_task_id: Option<i64>,
    pub cluster_manager_timeout: TimeValueWire,
    pub local: bool,
    pub indices: Vec<String>,
    pub statuses: Vec<u8>,
    pub indices_options: OpenSearchIndicesOptionsWire,
}

impl Default for OpenSearchIndicesShardStoresRequestWire {
    fn default() -> (d: Self)
        ensures
            d.parent_task_node@ == Seq::<char>::empty(),
            d.parent_task_id is None,
            d.cluster_manager_timeout == (TimeValueWire { duration: 30, time_unit_ordinal: TIME_UNIT_SECONDS }),
            d.local == false,
            d.indices@.len() == 0,
            d.statuses@ == seq![1u8, 2u8],
            d.indices_options == expand_open_closed_allow_no_indices_spec(),
    {
        OpenSearchIndicesShardStoresRequestWire {
            parent_task_node: String::new(),
            parent_task_id: None,
            cluster_manager_timeout: TimeValueWire::seconds(30),
            local: false,
            indices: Vec::new(),
            statuses: vec![1u8, 2u8],
            indices_options: OpenSearchIndicesOptionsWire::expand_open_closed_allow_no_indices(),
        }
    }
}

impl OpenSearchIndicesShardStoresRequestWire {
    /// The first shape of this request that is not served, with the reason, or
    /// `None` when every shape checked is served.
    pub open spec fn unserved_shape(&self) -> Option<(Seq<char>, Seq<char>)> {
        if self.cluster_manager_timeout != (TimeValueWire { duration: 30, time_unit_ordinal: TIME_UNIT_SECONDS }) {
            Some(("indices shard stores cluster-manager timeout"@, "custom cluster-manager timeout is not mapped by the shard-stores adapter yet"@))
        } else if self.local {
            Some(("indices shard stores local"@, "local shard-store reads require local cluster-state response semantics"@))
        } else if self.indices@.len() != 0 {
            Some(("indices shard stores index filter"@, "index-scoped shard-store reads require shard allocation/store metadata rendering"@))
        } else if self.statuses@ != seq![1u8, 2u8] {
            Some(("indices shard stores statuses"@, "custom shard-store status filtering requires shard health mapping"@))
        } else if self.indices_options != expand_open_closed_allow_no_indices_spec() {
            Some(("indices shard stores indices options"@, "custom shard-store indices options require index resolution semantics"@))
        } else {
            None
        }
    }

    /// Refuses to execute the request: with the first unserved shape, else
    /// because execution itself is not served.
    pub fn reject_unsupported_execution(&self) -> (r: Result<(), TransportActionWireError>)
        ensures
            match self.unserved_shape() {
                Some((shape, reason)) => is_unsupported(r, shape, reason),
                None => is_unsupported(r, "indices shard stores execution"@, "indices-shard-stores transport execution requires shard allocation/store metadata response rendering"@),
            },
    {
        if self.cluster_manager_timeout != TimeValueWire::seconds(30) {
            return Err(
                TransportActionWireError::UnsupportedWireShape {
                    shape: "indices shard stores cluster-manager timeout",
                    reason: "custom cluster-manager timeout is not mapped by the shard-stores adapter yet",
                },
            );
        }
        if self.local {
            return Err(
                TransportActionWireError::UnsupportedWireShape {
                    shape: "indices shard stores local",
                    reason: "local shard-store reads require local cluster-state response semantics",
                },
            );
        }
        if self.indices.len() != 0 {
            return Err(
                TransportActionWireError::UnsupportedWireShape {
                    shape: "indices shard stores index filter",
                    reason: "index-scoped shard-store reads require shard allocation/store metadata rendering",
                },
            );
        }
        if !bytes_eq(self.statuses.as_slice(), &[1u8, 2u8]) {
            return Err(
                TransportActionWireError::UnsupportedWireShape {
                    shape: "indices shard stores statuses",
                    reason: "custom shard-store status filtering requires shard health mapping",
                },
            );
        }
        if self.indices_options != OpenSearchIndicesOptionsWire::expand_open_closed_allow_no_indices() {
            return Err(
                TransportActionWireError::UnsupportedWireShape {
                    shape: "indices shard stores indices options",
                    reason: "custom shard-store indices options require index resolution semantics",
                },
            );
        }
        Err(
            TransportActionWireError::UnsupportedWireShape {
                shape: "indices shard stores execution",
                reason: "indices-shard-stores transport execution requires shard allocation/store metadata response rendering",
            },
        )
    }
}

/// A get-data-stream request.
#[derive(Clone, Debug, PartialEq, Eq)]
pub struct OpenSearchGetDataStreamRequestWire {
    pub parent_task_node: String,
    pub parent_task_id: Option<i64>,
    pub cluster_manager_timeout: TimeValueWire,
    pub local: bool,
    pub names: Option<Vec<String>>,
}

impl Default for OpenSearchGetDataStreamRequestWire {
    fn default() -> (d: Self)
        ensures
            d.parent_task_node@ == Seq::<char>::empty(),
            d.parent_task_id is None,
            d.cluster_manager_timeout == (TimeValueWire { duration: 30, time_unit_ordinal: TIME_UNIT_SECONDS }),
            d.local == false,
            d.names matches Some(v) && v@.len() == 0,
    {
        OpenSearchGetDataStreamRequestWire {
            parent_task_node: String::new(),
            parent_task_id: None,
            cluster_manager_timeout: TimeValueWire::seconds(30),
            local: false,
            names: Some(Vec::new()),
        }
    }
}

/// A response that only says whether a change was acknowledged.
#[derive(Clone, Debug, PartialEq, Eq)]
pub struct AcknowledgedResponseWire {
    pub acknowledged: bool,
}


impl OpenSearchGetDataStreamRequestWire {
    /// The first shape of this request that is not served, with the reason, or
    /// `None` when every shape checked is served.
    pub open spec fn unserved_shape(&self) -> Option<(Seq<char>, Seq<char>)> {
        if self.cluster_manager_timeout != (TimeValueWire { duration: 30, time_unit_ordinal: TIME_UNIT_SECONDS }) {
            Some(("get data stream cluster-manager timeout"@, "custom cluster-manager timeout is not mapped by the get-data-stream adapter yet"@))
        } else if self.local {
            Some(("get data stream local"@, "local data-stream reads require local cluster-state response semantics"@))
        } else {
            match self.names {
                Some(names) => if names@.len() == 0 {
                    None
                } else {
                    Some(("get data stream name filter"@, "name-filtered data-stream reads require data-stream metadata filtering"@))
                },
                None => Some(("get data stream null names"@, "null data-stream name arrays are not emitted by the REST default path"@)),
            }
        }
    }

    /// Refuses to execute the request: with the first unserved shape, else
    /// because execution itself is not served.
    pub fn reject_unsupported_execution(&self) -> (r: Result<(), TransportActionWireError>)
        ensures
            match self.unserved_shape() {
                Some((shape, reason)) => is_unsupported(r, shape, reason),
                None => is_unsupported(r, "get data stream execution"@, "get-data-stream transport execution requires data-stream metadata response rendering"@),
            },
    {
        if self.cluster_manager_timeout != TimeValueWire::seconds(30) {
            return Err(
                TransportActionWireError::UnsupportedWireShape {
                    shape: "get data stream cluster-manager timeout",
                    reason: "custom cluster-manager timeout is not mapped by the get-data-stream adapter yet",
                },
            );
        }
        if self.local {
            return Err(
                TransportActionWireError::UnsupportedWireShape {
                    shape: "get data stream local",
                    reason: "local data-stream reads require local cluster-state response semantics",
                },
            );
        }
        match &self.names {
            Some(names) => {
                if names.len() != 0 {
                    return Err(
                        TransportActionWireError::UnsupportedWireShape {
                            shape: "get data stream name filter",
                            reason: "name-filtered data-stream reads require data-stream metadata filtering",
                        },
                    );
                }
            },
            None => {
                return Err(
                    TransportActionWireError::UnsupportedWireShape {
                        shape: "get data stream null names",
                        reason: "null data-stream name arrays are not emitted by the REST default path",
                    },
                );
            },
        }
        Err(
            TransportActionWireError::UnsupportedWireShape {
                shape: "get data stream execution",
                reason: "get-data-stream transport execution requires data-stream metadata response rendering",
            },
        )
    }
}

} // verus!
