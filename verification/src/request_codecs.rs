//! The bodies of administration and task actions: what each one writes, what
//! a reader makes of its bytes, and that a written body reads back.
use vstd::prelude::*;
use crate::action_wire::{
    enc_enum_set, enc_optional_bool, enc_optional_i64, enc_optional_time_value, enc_parent_task_id, enc_time_value,
    is_unsupported, lemma_enum_set_roundtrip, lift, no_repeats, ordinals_below, parse_enum_set, parse_optional_bool,
    parse_optional_i64, parse_optional_time_value, parse_parent_task_id, parse_time_value, read_enum_set,
    read_optional_bool, read_optional_i64, read_optional_time_value, read_parent_task_id, require_no_trailing_bytes,
    write_enum_set, write_optional_bool, write_optional_i64, write_optional_time_value, write_parent_task_id,
    EnumItems, TimeValueWire, TransportActionWireError, ENUM_ORDINAL_REASON, TIME_UNIT_SECONDS,
};
use crate::admin_requests::{
    ClusterHealthRequestWire, ClusterStateRequestWire, ClusterStatsRequestWire, ClusterUpdateSettingsRequestWire,
    CommonStatsFlagsWire, GetRepositoriesRequestWire, NodesHotThreadsRequestWire, NodesInfoRequestWire,
    NodesStatsRequestWire, NodesUsageRequestWire, OpenSearchClusterSearchShardsRequestWire,
    OpenSearchGetAliasesRequestWire, OpenSearchGetDataStreamRequestWire, OpenSearchGetFieldMappingsRequestWire,
    OpenSearchGetMappingsRequestWire, OpenSearchGetSettingsRequestWire, OpenSearchIndicesSegmentsRequestWire,
    OpenSearchIndicesStatsRequestWire, OpenSearchRecoveryRequestWire, AcknowledgedResponseWire,
    OpenSearchIndicesShardStoresRequestWire,
    OPENSEARCH_HEALTH_ACTIVE_SHARD_COUNT_NONE, OPENSEARCH_HEALTH_LEVEL_CLUSTER,
};
use crate::codec::{
    enc_bool, enc_i32, enc_i64, enc_optional_string, enc_string, enc_string_array, enc_vint, lemma_i32_roundtrip,
    lemma_i64_roundtrip, lemma_optional_string_roundtrip, lemma_string_array_roundtrip, lemma_string_roundtrip,
    lemma_vint_roundtrip, parse_bool, parse_byte, parse_i32, parse_i64, parse_optional_string, parse_string,
    parse_string_array, parse_vint, string_fits, strings_fit,
};
use crate::indices_options::{
    enc_indices_options, lemma_indices_options_roundtrip, parse_indices_options, OpenSearchIndicesOptionsWire,
};
use crate::stream::{strings_view, StreamInput, StreamOutput};
use crate::smap::sorted_keys;
use crate::stream_maps::{enc_string_map, lemma_string_map_roundtrip, pairs_fit, parse_string_map};
use crate::task_requests::{
    CancelTasksRequestWire, GetTaskRequestWire, GetTaskResponseWire, ListTasksRequestWire, ListTasksResponseWire,
    PendingClusterTasksRequestWire, TaskIdWire,
};
use crate::wire_fields::{
    enc_optional_byte, enc_optional_string_array, lemma_bool_roundtrip, lemma_optional_bool_roundtrip,
    lemma_optional_byte_roundtrip, lemma_optional_i64_roundtrip, lemma_optional_string_array_roundtrip,
    lemma_optional_time_value_roundtrip, lemma_parent_task_id_roundtrip, lemma_time_value_roundtrip, opt_string_view,
    opt_strings_view, parent_task_id_canonical, parse_optional_byte, parse_optional_string_array, read_optional_byte,
    read_optional_string_array, write_optional_byte, write_optional_string_array, WireRead, lemma_append_assoc,
    lemma_skip_append, lemma_enum_set_field_roundtrip, parse_enum_set_field, read_enum_set_field,
    enc_status_bytes, lemma_status_bytes_roundtrip, parse_status_bytes, read_status_bytes, write_status_bytes,
};

verus! {

/// The fields of a cluster state request, as its bytes carry them.
pub struct ClusterStateRequestView {
    pub parent_task_node: Seq<char>,
    pub parent_task_id: Option<i64>,
    pub cluster_manager_timeout: TimeValueWire,
    pub local: bool,
    pub routing_table: bool,
    pub nodes: bool,
    pub metadata: bool,
    pub blocks: bool,
    pub customs: bool,
    pub indices: Seq<Seq<char>>,
    pub indices_options: Seq<char>,
    pub wait_for_timeout: TimeValueWire,
    pub wait_for_metadata_version: Option<i64>,
}

impl View for ClusterStateRequestWire {
    type V = ClusterStateRequestView;

    open spec fn view(&self) -> ClusterStateRequestView {
        ClusterStateRequestView {
            parent_task_node: self.parent_task_node@,
            parent_task_id: self.parent_task_id,
            cluster_manager_timeout: self.cluster_manager_timeout,
            local: self.local,
            routing_table: self.routing_table,
            nodes: self.nodes,
            metadata: self.metadata,
            blocks: self.blocks,
            customs: self.customs,
            indices: strings_view(self.indices@),
            indices_options: self.indices_options@,
            wait_for_timeout: self.wait_for_timeout,
            wait_for_metadata_version: self.wait_for_metadata_version,
        }
    }
}

/// The bytes of a cluster state request.
pub open spec fn enc_cluster_state_request(v: ClusterStateRequestView) -> Seq<u8> {
    enc_parent_task_id(v.parent_task_node, v.parent_task_id)
        + enc_time_value(v.cluster_manager_timeout)
        + enc_bool(v.local)
        + enc_bool(v.routing_table)
        + enc_bool(v.nodes)
        + enc_bool(v.metadata)
        + enc_bool(v.blocks)
        + enc_bool(v.customs)
        + enc_string_array(v.indices)
        + enc_string(v.indices_options)
        + enc_time_value(v.wait_for_timeout)
        + enc_optional_i64(v.wait_for_metadata_version)
}

/// What a reader makes of the bytes of a cluster state request.
pub open spec fn parse_cluster_state_request(s: Seq<u8>) -> WireRead<ClusterStateRequestView> {
    match parse_parent_task_id(s) {
        Some((pt, k0)) => {
            match parse_time_value(s.skip(k0)) {
                Some((cluster_manager_timeout, k1)) => {
                    match parse_bool(s.skip(k0 + k1)) {
                        Some((local, k2)) => {
                            match parse_bool(s.skip(k0 + k1 + k2)) {
                                Some((routing_table, k3)) => {
                                    parse_cluster_state_request_from_4(s, k0 + k1 + k2 + k3, pt, cluster_manager_timeout, local, routing_table)
                                },
                                None => WireRead::Malformed,
                            }
                        },
                        None => WireRead::Malformed,
                    }
                },
                None => WireRead::Malformed,
            }
        },
        None => WireRead::Malformed,
    }
}

/// What a reader makes of the fields of a cluster state request from its
/// 5th field on, at offset `o`, given the fields before them.
pub open spec fn parse_cluster_state_request_from_4(s: Seq<u8>, o: int, pt: (Seq<char>, Option<i64>), cluster_manager_timeout: TimeValueWire, local: bool, routing_table: bool) -> WireRead<ClusterStateRequestView> {
    match parse_bool(s.skip(o)) {
        Some((nodes, k4)) => {
            match parse_bool(s.skip(o + k4)) {
                Some((metadata, k5)) => {
                    match parse_bool(s.skip(o + k4 + k5)) {
                        Some((blocks, k6)) => {
                            match parse_bool(s.skip(o + k4 + k5 + k6)) {
                                Some((customs, k7)) => {
                                    parse_cluster_state_request_from_8(s, o + k4 + k5 + k6 + k7, pt, cluster_manager_timeout, local, routing_table, nodes, metadata, blocks, customs)
                                },
                                None => WireRead::Malformed,
                            }
                        },
                        None => WireRead::Malformed,
                    }
                },
                None => WireRead::Malformed,
            }
        },
        None => WireRead::Malformed,
    }
}

/// What a reader makes of the fields of a cluster state request from its
/// 9th field on, at offset `o`, given the fields before them.
pub open spec fn parse_cluster_state_request_from_8(s: Seq<u8>, o: int, pt: (Seq<char>, Option<i64>), cluster_manager_timeout: TimeValueWire, local: bool, routing_table: bool, nodes: bool, metadata: bool, blocks: bool, customs: bool) -> WireRead<ClusterStateRequestView> {
    match parse_string_array(s.skip(o)) {
        Some((indices, k8)) => {
            match parse_string(s.skip(o + k8)) {
                Some((indices_options, k9)) => {
                    match parse_time_value(s.skip(o + k8 + k9)) {
                        Some((wait_for_timeout, k10)) => {
                            match parse_optional_i64(s.skip(o + k8 + k9 + k10)) {
                                Some((wait_for_metadata_version, k11)) => {
                                    WireRead::Decoded(ClusterStateRequestView { parent_task_node: pt.0, parent_task_id: pt.1, cluster_manager_timeout: cluster_manager_timeout, local: local, routing_table: routing_table, nodes: nodes, metadata: metadata, blocks: blocks, customs: customs, indices: indices, indices_options: indices_options, wait_for_timeout: wait_for_timeout, wait_for_metadata_version: wait_for_metadata_version }, o + k8 + k9 + k10 + k11)
                                },
                                None => WireRead::Malformed,
                            }
                        },
                        None => WireRead::Malformed,
                    }
                },
                None => WireRead::Malformed,
            }
        },
        None => WireRead::Malformed,
    }
}

/// True when a cluster state request reads back as written.
pub open spec fn cluster_state_request_fits(v: ClusterStateRequestView) -> bool {
    &&& parent_task_id_canonical(v.parent_task_node, v.parent_task_id)
    &&& strings_fit(v.indices)
    &&& v.indices.len() < 0x8000_0000
    &&& string_fits(v.indices_options)
}

/// Reading the fields of a cluster state request from its 9th field on gives the
/// fields written.
#[verifier::spinoff_prover]
#[verifier::rlimit(100)]
proof fn lemma_cluster_state_request_from_8_roundtrip(v: ClusterStateRequestView, rest: Seq<u8>)
    requires
        cluster_state_request_fits(v),
    ensures
        parse_cluster_state_request_from_8(enc_cluster_state_request(v) + rest, (enc_parent_task_id(v.parent_task_node, v.parent_task_id) + enc_time_value(v.cluster_manager_timeout) + enc_bool(v.local) + enc_bool(v.routing_table) + enc_bool(v.nodes) + enc_bool(v.metadata) + enc_bool(v.blocks) + enc_bool(v.customs)).len() as int, (v.parent_task_node, v.parent_task_id), v.cluster_manager_timeout, v.local, v.routing_table, v.nodes, v.metadata, v.blocks, v.customs) == WireRead::Decoded(v, enc_cluster_state_request(v).len() as int),
{
    let s = enc_cluster_state_request(v) + rest;
    let t11 = enc_optional_i64(v.wait_for_metadata_version) + rest;
    let t10 = enc_time_value(v.wait_for_timeout) + t11;
    let t9 = enc_string(v.indices_options) + t10;
    let t8 = enc_string_array(v.indices) + t9;
    let t7 = enc_bool(v.customs) + t8;
    let t6 = enc_bool(v.blocks) + t7;
    let t5 = enc_bool(v.metadata) + t6;
    let t4 = enc_bool(v.nodes) + t5;
    let t3 = enc_bool(v.routing_table) + t4;
    let t2 = enc_bool(v.local) + t3;
    let t1 = enc_time_value(v.cluster_manager_timeout) + t2;
    let t0 = enc_parent_task_id(v.parent_task_node, v.parent_task_id) + t1;
    let u0 = enc_parent_task_id(v.parent_task_node, v.parent_task_id);
    let u1 = u0 + enc_time_value(v.cluster_manager_timeout);
    let u2 = u1 + enc_bool(v.local);
    let u3 = u2 + enc_bool(v.routing_table);
    let u4 = u3 + enc_bool(v.nodes);
    let u5 = u4 + enc_bool(v.metadata);
    let u6 = u5 + enc_bool(v.blocks);
    let u7 = u6 + enc_bool(v.customs);
    let u8 = u7 + enc_string_array(v.indices);
    let u9 = u8 + enc_string(v.indices_options);
    let u10 = u9 + enc_time_value(v.wait_for_timeout);
    let u11 = u10 + enc_optional_i64(v.wait_for_metadata_version);
    assert(s == u11 + rest);
    lemma_append_assoc(u10, enc_optional_i64(v.wait_for_metadata_version), rest);
    lemma_append_assoc(u9, enc_time_value(v.wait_for_timeout), t11);
    lemma_append_assoc(u8, enc_string(v.indices_options), t10);
    lemma_append_assoc(u7, enc_string_array(v.indices), t9);
    lemma_append_assoc(u6, enc_bool(v.customs), t8);
    lemma_append_assoc(u5, enc_bool(v.blocks), t7);
    lemma_append_assoc(u4, enc_bool(v.metadata), t6);
    lemma_append_assoc(u3, enc_bool(v.nodes), t5);
    lemma_append_assoc(u2, enc_bool(v.routing_table), t4);
    lemma_append_assoc(u1, enc_bool(v.local), t3);
    lemma_append_assoc(u0, enc_time_value(v.cluster_manager_timeout), t2);
    assert(s == t0);
    lemma_skip_append(u7, t8);
    lemma_string_array_roundtrip(v.indices, t9);
    lemma_skip_append(u8, t9);
    lemma_string_roundtrip(v.indices_options, t10);
    lemma_skip_append(u9, t10);
    lemma_time_value_roundtrip(v.wait_for_timeout, t11);
    lemma_skip_append(u10, t11);
    lemma_optional_i64_roundtrip(v.wait_for_metadata_version, rest);
}

/// Reading the fields of a cluster state request from its 5th field on gives the
/// fields written.
#[verifier::spinoff_prover]
#[verifier::rlimit(100)]
proof fn lemma_cluster_state_request_from_4_roundtrip(v: ClusterStateRequestView, rest: Seq<u8>)
    requires
        cluster_state_request_fits(v),
    ensures
        parse_cluster_state_request_from_4(enc_cluster_state_request(v) + rest, (enc_parent_task_id(v.parent_task_node, v.parent_task_id) + enc_time_value(v.cluster_manager_timeout) + enc_bool(v.local) + enc_bool(v.routing_table)).len() as int, (v.parent_task_node, v.parent_task_id), v.cluster_manager_timeout, v.local, v.routing_table) == WireRead::Decoded(v, enc_cluster_state_request(v).len() as int),
{
    let s = enc_cluster_state_request(v) + rest;
    let t11 = enc_optional_i64(v.wait_for_metadata_version) + rest;
    let t10 = enc_time_value(v.wait_for_timeout) + t11;
    let t9 = enc_string(v.indices_options) + t10;
    let t8 = enc_string_array(v.indices) + t9;
    let t7 = enc_bool(v.customs) + t8;
    let t6 = enc_bool(v.blocks) + t7;
    let t5 = enc_bool(v.metadata) + t6;
    let t4 = enc_bool(v.nodes) + t5;
    let t3 = enc_bool(v.routing_table) + t4;
    let t2 = enc_bool(v.local) + t3;
    let t1 = enc_time_value(v.cluster_manager_timeout) + t2;
    let t0 = enc_parent_task_id(v.parent_task_node, v.parent_task_id) + t1;
    let u0 = enc_parent_task_id(v.parent_task_node, v.parent_task_id);
    let u1 = u0 + enc_time_value(v.cluster_manager_timeout);
    let u2 = u1 + enc_bool(v.local);
    let u3 = u2 + enc_bool(v.routing_table);
    let u4 = u3 + enc_bool(v.nodes);
    let u5 = u4 + enc_bool(v.metadata);
    let u6 = u5 + enc_bool(v.blocks);
    let u7 = u6 + enc_bool(v.customs);
    let u8 = u7 + enc_string_array(v.indices);
    let u9 = u8 + enc_string(v.indices_options);
    let u10 = u9 + enc_time_value(v.wait_for_timeout);
    let u11 = u10 + enc_optional_i64(v.wait_for_metadata_version);
    assert(s == u11 + rest);
    lemma_append_assoc(u10, enc_optional_i64(v.wait_for_metadata_version), rest);
    lemma_append_assoc(u9, enc_time_value(v.wait_for_timeout), t11);
    lemma_append_assoc(u8, enc_string(v.indices_options), t10);
    lemma_append_assoc(u7, enc_string_array(v.indices), t9);
    lemma_append_assoc(u6, enc_bool(v.customs), t8);
    lemma_append_assoc(u5, enc_bool(v.blocks), t7);
    lemma_append_assoc(u4, enc_bool(v.metadata), t6);
    lemma_append_assoc(u3, enc_bool(v.nodes), t5);
    lemma_append_assoc(u2, enc_bool(v.routing_table), t4);
    lemma_append_assoc(u1, enc_bool(v.local), t3);
    lemma_append_assoc(u0, enc_time_value(v.cluster_manager_timeout), t2);
    assert(s == t0);
    lemma_skip_append(u3, t4);
    lemma_bool_roundtrip(v.nodes, t5);
    lemma_skip_append(u4, t5);
    lemma_bool_roundtrip(v.metadata, t6);
    lemma_skip_append(u5, t6);
    lemma_bool_roundtrip(v.blocks, t7);
    lemma_skip_append(u6, t7);
    lemma_bool_roundtrip(v.customs, t8);
    lemma_skip_append(u7, t8);
    lemma_cluster_state_request_from_8_roundtrip(v, rest);
}

/// Reading a cluster state request back gives the fields written.
#[verifier::spinoff_prover]
#[verifier::rlimit(100)]
pub proof fn lemma_cluster_state_request_roundtrip(v: ClusterStateRequestView, rest: Seq<u8>)
    requires
        cluster_state_request_fits(v),
    ensures
        parse_cluster_state_request(enc_cluster_state_request(v) + rest) == WireRead::Decoded(v, enc_cluster_state_request(v).len() as int),
{
    let s = enc_cluster_state_request(v) + rest;
    let t11 = enc_optional_i64(v.wait_for_metadata_version) + rest;
    let t10 = enc_time_value(v.wait_for_timeout) + t11;
    let t9 = enc_string(v.indices_options) + t10;
    let t8 = enc_string_array(v.indices) + t9;
    let t7 = enc_bool(v.customs) + t8;
    let t6 = enc_bool(v.blocks) + t7;
    let t5 = enc_bool(v.metadata) + t6;
    let t4 = enc_bool(v.nodes) + t5;
    let t3 = enc_bool(v.routing_table) + t4;
    let t2 = enc_bool(v.local) + t3;
    let t1 = enc_time_value(v.cluster_manager_timeout) + t2;
    let t0 = enc_parent_task_id(v.parent_task_node, v.parent_task_id) + t1;
    let u0 = enc_parent_task_id(v.parent_task_node, v.parent_task_id);
    let u1 = u0 + enc_time_value(v.cluster_manager_timeout);
    let u2 = u1 + enc_bool(v.local);
    let u3 = u2 + enc_bool(v.routing_table);
    let u4 = u3 + enc_bool(v.nodes);
    let u5 = u4 + enc_bool(v.metadata);
    let u6 = u5 + enc_bool(v.blocks);
    let u7 = u6 + enc_bool(v.customs);
    let u8 = u7 + enc_string_array(v.indices);
    let u9 = u8 + enc_string(v.indices_options);
    let u10 = u9 + enc_time_value(v.wait_for_timeout);
    let u11 = u10 + enc_optional_i64(v.wait_for_metadata_version);
    assert(s == u11 + rest);
    lemma_append_assoc(u10, enc_optional_i64(v.wait_for_metadata_version), rest);
    lemma_append_assoc(u9, enc_time_value(v.wait_for_timeout), t11);
    lemma_append_assoc(u8, enc_string(v.indices_options), t10);
    lemma_append_assoc(u7, enc_string_array(v.indices), t9);
    lemma_append_assoc(u6, enc_bool(v.customs), t8);
    lemma_append_assoc(u5, enc_bool(v.blocks), t7);
    lemma_append_assoc(u4, enc_bool(v.metadata), t6);
    lemma_append_assoc(u3, enc_bool(v.nodes), t5);
    lemma_append_assoc(u2, enc_bool(v.routing_table), t4);
    lemma_append_assoc(u1, enc_bool(v.local), t3);
    lemma_append_assoc(u0, enc_time_value(v.cluster_manager_timeout), t2);
    assert(s == t0);
    lemma_parent_task_id_roundtrip(v.parent_task_node, v.parent_task_id, t1);
    lemma_skip_append(u0, t1);
    lemma_time_value_roundtrip(v.cluster_manager_timeout, t2);
    lemma_skip_append(u1, t2);
    lemma_bool_roundtrip(v.local, t3);
    lemma_skip_append(u2, t3);
    lemma_bool_roundtrip(v.routing_table, t4);
    lemma_skip_append(u3, t4);
    lemma_cluster_state_request_from_4_roundtrip(v, rest);
}

/// What reading a cluster state request from the whole of `bytes` gives: the fields read, a
/// refused shape, or an error.
pub open spec fn cluster_state_request_read_result(bytes: Seq<u8>, r: Result<ClusterStateRequestWire, TransportActionWireError>) -> bool {
    match parse_cluster_state_request(bytes) {
        WireRead::Decoded(v, n) => if n < bytes.len() {
            r == Err::<ClusterStateRequestWire, TransportActionWireError>(TransportActionWireError::TrailingBytes((bytes.len() - n) as usize))
        } else {
            r matches Ok(x) && x@ == v
        },
        WireRead::Unsupported(shape, reason) => is_unsupported(r, shape, reason),
        WireRead::Malformed => r is Err,
    }
}

/// Reading the whole of a written a cluster state request gives back the fields written.
pub proof fn lemma_cluster_state_request_read_back(v: ClusterStateRequestView, r: Result<ClusterStateRequestWire, TransportActionWireError>)
    requires
        cluster_state_request_fits(v),
        cluster_state_request_read_result(enc_cluster_state_request(v), r),
    ensures
        r matches Ok(x) && x@ == v,
{
    lemma_cluster_state_request_roundtrip(v, Seq::empty());
    assert(enc_cluster_state_request(v) + Seq::<u8>::empty() =~= enc_cluster_state_request(v));
}

impl ClusterStateRequestWire {
    /// Writes a cluster state request.
    #[verifier::spinoff_prover]
    #[verifier::rlimit(100)]
    pub fn write(&self, output: &mut StreamOutput)
        ensures
            final(output)@ == old(output)@ + enc_cluster_state_request(self@),
    {
        write_parent_task_id(output, self.parent_task_node.as_str(), self.parent_task_id);
        assert(output@ == old(output)@ + enc_parent_task_id(self@.parent_task_node, self@.parent_task_id));
        self.cluster_manager_timeout.write(output);
        output.write_bool(self.local);
        output.write_bool(self.routing_table);
        output.write_bool(self.nodes);
        output.write_bool(self.metadata);
        output.write_bool(self.blocks);
        output.write_bool(self.customs);
        output.write_string_array(self.indices.as_slice());
        output.write_string(self.indices_options.as_str());
        self.wait_for_timeout.write(output);
        write_optional_i64(output, self.wait_for_metadata_version);
        assert(output@ == old(output)@ + enc_cluster_state_request(self@));
    }

    /// Reads a cluster state request from the whole of `bytes`.
    pub fn read(bytes: Vec<u8>) -> (r: Result<Self, TransportActionWireError>)
        ensures
            cluster_state_request_read_result(bytes@, r),
    {
        let mut input = StreamInput::new(bytes);
        let ghost s = input.rest();
        let pt = read_parent_task_id(&mut input)?;
        proof {
            assert(input.rest() =~= s.skip(input.pos() - 0));
        }
        let cluster_manager_timeout = TimeValueWire::read(&mut input)?;
        proof {
            assert(input.rest() =~= s.skip(input.pos() - 0));
        }
        let local = lift(input.read_bool())?;
        proof {
            assert(input.rest() =~= s.skip(input.pos() - 0));
        }
        let routing_table = lift(input.read_bool())?;
        proof {
            assert(input.rest() =~= s.skip(input.pos() - 0));
        }
        let nodes = lift(input.read_bool())?;
        proof {
            assert(input.rest() =~= s.skip(input.pos() - 0));
        }
        let metadata = lift(input.read_bool())?;
        proof {
            assert(input.rest() =~= s.skip(input.pos() - 0));
        }
        let blocks = lift(input.read_bool())?;
        proof {
            assert(input.rest() =~= s.skip(input.pos() - 0));
        }
        let customs = lift(input.read_bool())?;
        proof {
            assert(input.rest() =~= s.skip(input.pos() - 0));
        }
        let indices = lift(input.read_string_array())?;
        proof {
            assert(input.rest() =~= s.skip(input.pos() - 0));
        }
        let indices_options = lift(input.read_string())?;
        proof {
            assert(input.rest() =~= s.skip(input.pos() - 0));
        }
        let wait_for_timeout = TimeValueWire::read(&mut input)?;
        proof {
            assert(input.rest() =~= s.skip(input.pos() - 0));
        }
        let wait_for_metadata_version = read_optional_i64(&mut input)?;
        proof {
            assert(input.rest() =~= s.skip(input.pos() - 0));
        }
        let value = ClusterStateRequestWire { parent_task_node: pt.0, parent_task_id: pt.1, cluster_manager_timeout, local, routing_table, nodes, metadata, blocks, customs, indices, indices_options, wait_for_timeout, wait_for_metadata_version };
        require_no_trailing_bytes(&input)?;
        Ok(value)
    }
}

/// The fields of a cluster health request, as its bytes carry them.
pub struct ClusterHealthRequestView {
    pub parent_task_node: Seq<char>,
    pub parent_task_id: Option<i64>,
    pub cluster_manager_timeout: TimeValueWire,
    pub local: bool,
    pub indices: Seq<Seq<char>>,
    pub timeout: TimeValueWire,
    pub wait_for_status: Option<u8>,
    pub wait_for_no_relocating_shards: bool,
    pub wait_for_active_shards: i32,
    pub wait_for_nodes: Seq<char>,
    pub wait_for_events: Option<u8>,
    pub wait_for_no_initializing_shards: bool,
    pub indices_options: Seq<u8>,
    pub expand_wildcards: Seq<u8>,
    pub awareness_attribute: Option<Seq<char>>,
    pub level: u8,
    pub ensure_node_weighed_in: bool,
    pub apply_level_at_transport_layer: bool,
}

impl View for ClusterHealthRequestWire {
    type V = ClusterHealthRequestView;

    open spec fn view(&self) -> ClusterHealthRequestView {
        ClusterHealthRequestView {
            parent_task_node: self.parent_task_node@,
            parent_task_id: self.parent_task_id,
            cluster_manager_timeout: self.cluster_manager_timeout,
            local: self.local,
            indices: strings_view(self.indices@),
            timeout: self.timeout,
            wait_for_status: self.wait_for_status,
            wait_for_no_relocating_shards: self.wait_for_no_relocating_shards,
            wait_for_active_shards: self.wait_for_active_shards,
            wait_for_nodes: self.wait_for_nodes@,
            wait_for_events: self.wait_for_events,
            wait_for_no_initializing_shards: self.wait_for_no_initializing_shards,
            indices_options: self.indices_options@,
            expand_wildcards: self.expand_wildcards@,
            awareness_attribute: opt_string_view(self.awareness_attribute),
            level: self.level,
            ensure_node_weighed_in: self.ensure_node_weighed_in,
            apply_level_at_transport_layer: self.apply_level_at_transport_layer,
        }
    }
}

impl ClusterHealthRequestView {
    /// The first shape of these fields that is not served, with the reason,
    /// or `None` when every shape checked is served.
    pub open spec fn unserved_shape(self) -> Option<(Seq<char>, Seq<char>)> {
        if self.cluster_manager_timeout != (TimeValueWire { duration: 30, time_unit_ordinal: TIME_UNIT_SECONDS }) {
            Some(("cluster health cluster-manager timeout"@, "custom cluster-manager timeout is not mapped by the health adapter yet"@))
        } else if self.indices.len() != 0 {
            Some(("cluster health index scope"@, "index-scoped transport health is not mapped by the cluster-level adapter yet"@))
        } else if self.timeout != (TimeValueWire { duration: 30, time_unit_ordinal: TIME_UNIT_SECONDS }) {
            Some(("cluster health timeout"@, "custom wait timeout is not mapped by the health adapter yet"@))
        } else if (self.wait_for_status is Some) || (self.wait_for_no_relocating_shards) || (self.wait_for_active_shards != OPENSEARCH_HEALTH_ACTIVE_SHARD_COUNT_NONE) || (self.wait_for_nodes.len() != 0) || (self.wait_for_events is Some) || (self.wait_for_no_initializing_shards) {
            Some(("cluster health wait condition"@, "wait conditions are not mapped by the cluster-level health adapter yet"@))
        } else if (self.indices_options != seq![0u8, 2u8]) || (self.expand_wildcards != seq![0u8, 1u8, 2u8]) {
            Some(("cluster health indices options"@, "non-default indices options are not mapped by the health adapter yet"@))
        } else if self.awareness_attribute is Some {
            Some(("cluster health awareness attribute"@, "awareness health is not mapped by the cluster-level adapter yet"@))
        } else if self.level != OPENSEARCH_HEALTH_LEVEL_CLUSTER {
            Some(("cluster health level"@, "index, shard, and awareness health levels are not mapped yet"@))
        } else if self.ensure_node_weighed_in {
            Some(("cluster health node weighing"@, "weighted-routing admission is not mapped by the health adapter yet"@))
        } else if self.apply_level_at_transport_layer {
            Some(("cluster health transport-level level application"@, "transport-level index/shard health filtering is not mapped yet"@))
        } else {
            None
        }
    }
}

/// The bytes of a cluster health request.
pub open spec fn enc_cluster_health_request(v: ClusterHealthRequestView) -> Seq<u8> {
    enc_parent_task_id(v.parent_task_node, v.parent_task_id)
        + enc_time_value(v.cluster_manager_timeout)
        + enc_bool(v.local)
        + enc_string_array(v.indices)
        + enc_time_value(v.timeout)
        + enc_optional_byte(v.wait_for_status)
        + enc_bool(v.wait_for_no_relocating_shards)
        + enc_i32(v.wait_for_active_shards)
        + enc_string(v.wait_for_nodes)
        + enc_optional_byte(v.wait_for_events)
        + enc_bool(v.wait_for_no_initializing_shards)
        + enc_enum_set(v.indices_options)
        + enc_enum_set(v.expand_wildcards)
        + enc_optional_string(v.awareness_attribute)
        + enc_vint(v.level as i32)
        + enc_bool(v.ensure_node_weighed_in)
        + enc_bool(v.apply_level_at_transport_layer)
}

/// What a reader makes of the bytes of a cluster health request.
pub open spec fn parse_cluster_health_request(s: Seq<u8>) -> WireRead<ClusterHealthRequestView> {
    match parse_parent_task_id(s) {
        Some((pt, k0)) => {
            match parse_time_value(s.skip(k0)) {
                Some((cluster_manager_timeout, k1)) => {
                    match parse_bool(s.skip(k0 + k1)) {
                        Some((local, k2)) => {
                            match parse_string_array(s.skip(k0 + k1 + k2)) {
                                Some((indices, k3)) => {
                                    parse_cluster_health_request_from_4(s, k0 + k1 + k2 + k3, pt, cluster_manager_timeout, local, indices)
                                },
                                None => WireRead::Malformed,
                            }
                        },
                        None => WireRead::Malformed,
                    }
                },
                None => WireRead::Malformed,
            }
        },
        None => WireRead::Malformed,
    }
}

/// What a reader makes of the fields of a cluster health request from its
/// 5th field on, at offset `o`, given the fields before them.
pub open spec fn parse_cluster_health_request_from_4(s: Seq<u8>, o: int, pt: (Seq<char>, Option<i64>), cluster_manager_timeout: TimeValueWire, local: bool, indices: Seq<Seq<char>>) -> WireRead<ClusterHealthRequestView> {
    match parse_time_value(s.skip(o)) {
        Some((timeout, k4)) => {
            match parse_optional_byte(s.skip(o + k4)) {
                Some((wait_for_status, k5)) => {
                    match parse_bool(s.skip(o + k4 + k5)) {
                        Some((wait_for_no_relocating_shards, k6)) => {
                            match parse_i32(s.skip(o + k4 + k5 + k6)) {
                                Some((wait_for_active_shards, k7)) => {
                                    parse_cluster_health_request_from_8(s, o + k4 + k5 + k6 + k7, pt, cluster_manager_timeout, local, indices, timeout, wait_for_status, wait_for_no_relocating_shards, wait_for_active_shards)
                                },
                                None => WireRead::Malformed,
                            }
                        },
                        None => WireRead::Malformed,
                    }
                },
                None => WireRead::Malformed,
            }
        },
        None => WireRead::Malformed,
    }
}

/// What a reader makes of the fields of a cluster health request from its
/// 9th field on, at offset `o`, given the fields before them.
pub open spec fn parse_cluster_health_request_from_8(s: Seq<u8>, o: int, pt: (Seq<char>, Option<i64>), cluster_manager_timeout: TimeValueWire, local: bool, indices: Seq<Seq<char>>, timeout: TimeValueWire, wait_for_status: Option<u8>, wait_for_no_relocating_shards: bool, wait_for_active_shards: i32) -> WireRead<ClusterHealthRequestView> {
    match parse_string(s.skip(o)) {
        Some((wait_for_nodes, k8)) => {
            match parse_optional_byte(s.skip(o + k8)) {
                Some((wait_for_events, k9)) => {
                    match parse_bool(s.skip(o + k8 + k9)) {
                        Some((wait_for_no_initializing_shards, k10)) => {
                            match parse_enum_set_field(s.skip(o + k8 + k9 + k10), 6u8, "cluster health indices options"@) {
                                WireRead::Decoded(indices_options, k11) => {
                                    parse_cluster_health_request_from_12(s, o + k8 + k9 + k10 + k11, pt, cluster_manager_timeout, local, indices, timeout, wait_for_status, wait_for_no_relocating_shards, wait_for_active_shards, wait_for_nodes, wait_for_events, wait_for_no_initializing_shards, indices_options)
                                },
                                WireRead::Unsupported(shape, reason) => WireRead::Unsupported(shape, reason),
                                WireRead::Malformed => WireRead::Malformed,
                            }
                        },
                        None => WireRead::Malformed,
                    }
                },
                None => WireRead::Malformed,
            }
        },
        None => WireRead::Malformed,
    }
}

/// What a reader makes of the fields of a cluster health request from its
/// 13th field on, at offset `o`, given the fields before them.
pub open spec fn parse_cluster_health_request_from_12(s: Seq<u8>, o: int, pt: (Seq<char>, Option<i64>), cluster_manager_timeout: TimeValueWire, local: bool, indices: Seq<Seq<char>>, timeout: TimeValueWire, wait_for_status: Option<u8>, wait_for_no_relocating_shards: bool, wait_for_active_shards: i32, wait_for_nodes: Seq<char>, wait_for_events: Option<u8>, wait_for_no_initializing_shards: bool, indices_options: Seq<u8>) -> WireRead<ClusterHealthRequestView> {
    match parse_enum_set_field(s.skip(o), 3u8, "cluster health expand wildcards"@) {
        WireRead::Decoded(expand_wildcards, k12) => {
            match parse_optional_string(s.skip(o + k12)) {
                Some((awareness_attribute, k13)) => {
                    match parse_vint(s.skip(o + k12 + k13)) {
                        Some((level_raw, k14)) => {
                            let level = level_raw as u8;
                            match parse_bool(s.skip(o + k12 + k13 + k14)) {
                                Some((ensure_node_weighed_in, k15)) => {
                                    match parse_bool(s.skip(o + k12 + k13 + k14 + k15)) {
                                        Some((apply_level_at_transport_layer, k16)) => {
                                            WireRead::Decoded(ClusterHealthRequestView { parent_task_node: pt.0, parent_task_id: pt.1, cluster_manager_timeout: cluster_manager_timeout, local: local, indices: indices, timeout: timeout, wait_for_status: wait_for_status, wait_for_no_relocating_shards: wait_for_no_relocating_shards, wait_for_active_shards: wait_for_active_shards, wait_for_nodes: wait_for_nodes, wait_for_events: wait_for_events, wait_for_no_initializing_shards: wait_for_no_initializing_shards, indices_options: indices_options, expand_wildcards: expand_wildcards, awareness_attribute: awareness_attribute, level: level, ensure_node_weighed_in: ensure_node_weighed_in, apply_level_at_transport_layer: apply_level_at_transport_layer }, o + k12 + k13 + k14 + k15 + k16)
                                        },
                                        None => WireRead::Malformed,
                                    }
                                },
                                None => WireRead::Malformed,
                            }
                        },
                        None => WireRead::Malformed,
                    }
                },
                None => WireRead::Malformed,
            }
        },
        WireRead::Unsupported(shape, reason) => WireRead::Unsupported(shape, reason),
        WireRead::Malformed => WireRead::Malformed,
    }
}

/// True when a cluster health request reads back as written.
pub open spec fn cluster_health_request_fits(v: ClusterHealthRequestView) -> bool {
    &&& parent_task_id_canonical(v.parent_task_node, v.parent_task_id)
    &&& strings_fit(v.indices)
    &&& v.indices.len() < 0x8000_0000
    &&& string_fits(v.wait_for_nodes)
    &&& ordinals_below(v.indices_options, 6u8)
    &&& no_repeats(v.indices_options)
    &&& v.indices_options.len() < 0x8000_0000
    &&& ordinals_below(v.expand_wildcards, 3u8)
    &&& no_repeats(v.expand_wildcards)
    &&& v.expand_wildcards.len() < 0x8000_0000
    &&& v.awareness_attribute matches Some(c) ==> string_fits(c)
}

/// Reading the fields of a cluster health request from its 13th field on gives the
/// fields written.
#[verifier::spinoff_prover]
#[verifier::rlimit(100)]
proof fn lemma_cluster_health_request_from_12_roundtrip(v: ClusterHealthRequestView, rest: Seq<u8>)
    requires
        cluster_health_request_fits(v),
    ensures
        parse_cluster_health_request_from_12(enc_cluster_health_request(v) + rest, (enc_parent_task_id(v.parent_task_node, v.parent_task_id) + enc_time_value(v.cluster_manager_timeout) + enc_bool(v.local) + enc_string_array(v.indices) + enc_time_value(v.timeout) + enc_optional_byte(v.wait_for_status) + enc_bool(v.wait_for_no_relocating_shards) + enc_i32(v.wait_for_active_shards) + enc_string(v.wait_for_nodes) + enc_optional_byte(v.wait_for_events) + enc_bool(v.wait_for_no_initializing_shards) + enc_enum_set(v.indices_options)).len() as int, (v.parent_task_node, v.parent_task_id), v.cluster_manager_timeout, v.local, v.indices, v.timeout, v.wait_for_status, v.wait_for_no_relocating_shards, v.wait_for_active_shards, v.wait_for_nodes, v.wait_for_events, v.wait_for_no_initializing_shards, v.indices_options) == WireRead::Decoded(v, enc_cluster_health_request(v).len() as int),
{
    let s = enc_cluster_health_request(v) + rest;
    let t16 = enc_bool(v.apply_level_at_transport_layer) + rest;
    let t15 = enc_bool(v.ensure_node_weighed_in) + t16;
    let t14 = enc_vint(v.level as i32) + t15;
    let t13 = enc_optional_string(v.awareness_attribute) + t14;
    let t12 = enc_enum_set(v.expand_wildcards) + t13;
    let t11 = enc_enum_set(v.indices_options) + t12;
    let t10 = enc_bool(v.wait_for_no_initializing_shards) + t11;
    let t9 = enc_optional_byte(v.wait_for_events) + t10;
    let t8 = enc_string(v.wait_for_nodes) + t9;
    let t7 = enc_i32(v.wait_for_active_shards) + t8;
    let t6 = enc_bool(v.wait_for_no_relocating_shards) + t7;
    let t5 = enc_optional_byte(v.wait_for_status) + t6;
    let t4 = enc_time_value(v.timeout) + t5;
    let t3 = enc_string_array(v.indices) + t4;
    let t2 = enc_bool(v.local) + t3;
    let t1 = enc_time_value(v.cluster_manager_timeout) + t2;
    let t0 = enc_parent_task_id(v.parent_task_node, v.parent_task_id) + t1;
    let u0 = enc_parent_task_id(v.parent_task_node, v.parent_task_id);
    let u1 = u0 + enc_time_value(v.cluster_manager_timeout);
    let u2 = u1 + enc_bool(v.local);
    let u3 = u2 + enc_string_array(v.indices);
    let u4 = u3 + enc_time_value(v.timeout);
    let u5 = u4 + enc_optional_byte(v.wait_for_status);
    let u6 = u5 + enc_bool(v.wait_for_no_relocating_shards);
    let u7 = u6 + enc_i32(v.wait_for_active_shards);
    let u8 = u7 + enc_string(v.wait_for_nodes);
    let u9 = u8 + enc_optional_byte(v.wait_for_events);
    let u10 = u9 + enc_bool(v.wait_for_no_initializing_shards);
    let u11 = u10 + enc_enum_set(v.indices_options);
    let u12 = u11 + enc_enum_set(v.expand_wildcards);
    let u13 = u12 + enc_optional_string(v.awareness_attribute);
    let u14 = u13 + enc_vint(v.level as i32);
    let u15 = u14 + enc_bool(v.ensure_node_weighed_in);
    let u16 = u15 + enc_bool(v.apply_level_at_transport_layer);
    assert(s == u16 + rest);
    lemma_append_assoc(u15, enc_bool(v.apply_level_at_transport_layer), rest);
    lemma_append_assoc(u14, enc_bool(v.ensure_node_weighed_in), t16);
    lemma_append_assoc(u13, enc_vint(v.level as i32), t15);
    lemma_append_assoc(u12, enc_optional_string(v.awareness_attribute), t14);
    lemma_append_assoc(u11, enc_enum_set(v.expand_wildcards), t13);
    lemma_append_assoc(u10, enc_enum_set(v.indices_options), t12);
    lemma_append_assoc(u9, enc_bool(v.wait_for_no_initializing_shards), t11);
    lemma_append_assoc(u8, enc_optional_byte(v.wait_for_events), t10);
    lemma_append_assoc(u7, enc_string(v.wait_for_nodes), t9);
    lemma_append_assoc(u6, enc_i32(v.wait_for_active_shards), t8);
    lemma_append_assoc(u5, enc_bool(v.wait_for_no_relocating_shards), t7);
    lemma_append_assoc(u4, enc_optional_byte(v.wait_for_status), t6);
    lemma_append_assoc(u3, enc_time_value(v.timeout), t5);
    lemma_append_assoc(u2, enc_string_array(v.indices), t4);
    lemma_append_assoc(u1, enc_bool(v.local), t3);
    lemma_append_assoc(u0, enc_time_value(v.cluster_manager_timeout), t2);
    assert(s == t0);
    lemma_skip_append(u11, t12);
    lemma_enum_set_field_roundtrip(v.expand_wildcards, t13, 3u8, "cluster health expand wildcards"@);
    lemma_skip_append(u12, t13);
    lemma_optional_string_roundtrip(v.awareness_attribute, t14);
    lemma_skip_append(u13, t14);
    lemma_vint_roundtrip(v.level as i32, t15);
    lemma_skip_append(u14, t15);
    lemma_bool_roundtrip(v.ensure_node_weighed_in, t16);
    lemma_skip_append(u15, t16);
    lemma_bool_roundtrip(v.apply_level_at_transport_layer, rest);
}

/// Reading the fields of a cluster health request from its 9th field on gives the
/// fields written.
#[verifier::spinoff_prover]
#[verifier::rlimit(100)]
proof fn lemma_cluster_health_request_from_8_roundtrip(v: ClusterHealthRequestView, rest: Seq<u8>)
    requires
        cluster_health_request_fits(v),
    ensures
        parse_cluster_health_request_from_8(enc_cluster_health_request(v) + rest, (enc_parent_task_id(v.parent_task_node, v.parent_task_id) + enc_time_value(v.cluster_manager_timeout) + enc_bool(v.local) + enc_string_array(v.indices) + enc_time_value(v.timeout) + enc_optional_byte(v.wait_for_status) + enc_bool(v.wait_for_no_relocating_shards) + enc_i32(v.wait_for_active_shards)).len() as int, (v.parent_task_node, v.parent_task_id), v.cluster_manager_timeout, v.local, v.indices, v.timeout, v.wait_for_status, v.wait_for_no_relocating_shards, v.wait_for_active_shards) == WireRead::Decoded(v, enc_cluster_health_request(v).len() as int),
{
    let s = enc_cluster_health_request(v) + rest;
    let t16 = enc_bool(v.apply_level_at_transport_layer) + rest;
    let t15 = enc_bool(v.ensure_node_weighed_in) + t16;
    let t14 = enc_vint(v.level as i32) + t15;
    let t13 = enc_optional_string(v.awareness_attribute) + t14;
    let t12 = enc_enum_set(v.expand_wildcards) + t13;
    let t11 = enc_enum_set(v.indices_options) + t12;
    let t10 = enc_bool(v.wait_for_no_initializing_shards) + t11;
    let t9 = enc_optional_byte(v.wait_for_events) + t10;
    let t8 = enc_string(v.wait_for_nodes) + t9;
    let t7 = enc_i32(v.wait_for_active_shards) + t8;
    let t6 = enc_bool(v.wait_for_no_relocating_shards) + t7;
    let t5 = enc_optional_byte(v.wait_for_status) + t6;
    let t4 = enc_time_value(v.timeout) + t5;
    let t3 = enc_string_array(v.indices) + t4;
    let t2 = enc_bool(v.local) + t3;
    let t1 = enc_time_value(v.cluster_manager_timeout) + t2;
    let t0 = enc_parent_task_id(v.parent_task_node, v.parent_task_id) + t1;
    let u0 = enc_parent_task_id(v.parent_task_node, v.parent_task_id);
    let u1 = u0 + enc_time_value(v.cluster_manager_timeout);
    let u2 = u1 + enc_bool(v.local);
    let u3 = u2 + enc_string_array(v.indices);
    let u4 = u3 + enc_time_value(v.timeout);
    let u5 = u4 + enc_optional_byte(v.wait_for_status);
    let u6 = u5 + enc_bool(v.wait_for_no_relocating_shards);
    let u7 = u6 + enc_i32(v.wait_for_active_shards);
    let u8 = u7 + enc_string(v.wait_for_nodes);
    let u9 = u8 + enc_optional_byte(v.wait_for_events);
    let u10 = u9 + enc_bool(v.wait_for_no_initializing_shards);
    let u11 = u10 + enc_enum_set(v.indices_options);
    let u12 = u11 + enc_enum_set(v.expand_wildcards);
    let u13 = u12 + enc_optional_string(v.awareness_attribute);
    let u14 = u13 + enc_vint(v.level as i32);
    let u15 = u14 + enc_bool(v.ensure_node_weighed_in);
    let u16 = u15 + enc_bool(v.apply_level_at_transport_layer);
    assert(s == u16 + rest);
    lemma_append_assoc(u15, enc_bool(v.apply_level_at_transport_layer), rest);
    lemma_append_assoc(u14, enc_bool(v.ensure_node_weighed_in), t16);
    lemma_append_assoc(u13, enc_vint(v.level as i32), t15);
    lemma_append_assoc(u12, enc_optional_string(v.awareness_attribute), t14);
    lemma_append_assoc(u11, enc_enum_set(v.expand_wildcards), t13);
    lemma_append_assoc(u10, enc_enum_set(v.indices_options), t12);
    lemma_append_assoc(u9, enc_bool(v.wait_for_no_initializing_shards), t11);
    lemma_append_assoc(u8, enc_optional_byte(v.wait_for_events), t10);
    lemma_append_assoc(u7, enc_string(v.wait_for_nodes), t9);
    lemma_append_assoc(u6, enc_i32(v.wait_for_active_shards), t8);
    lemma_append_assoc(u5, enc_bool(v.wait_for_no_relocating_shards), t7);
    lemma_append_assoc(u4, enc_optional_byte(v.wait_for_status), t6);
    lemma_append_assoc(u3, enc_time_value(v.timeout), t5);
    lemma_append_assoc(u2, enc_string_array(v.indices), t4);
    lemma_append_assoc(u1, enc_bool(v.local), t3);
    lemma_append_assoc(u0, enc_time_value(v.cluster_manager_timeout), t2);
    assert(s == t0);
    lemma_skip_append(u7, t8);
    lemma_string_roundtrip(v.wait_for_nodes, t9);
    lemma_skip_append(u8, t9);
    lemma_optional_byte_roundtrip(v.wait_for_events, t10);
    lemma_skip_append(u9, t10);
    lemma_bool_roundtrip(v.wait_for_no_initializing_shards, t11);
    lemma_skip_append(u10, t11);
    lemma_enum_set_field_roundtrip(v.indices_options, t12, 6u8, "cluster health indices options"@);
    lemma_skip_append(u11, t12);
    lemma_cluster_health_request_from_12_roundtrip(v, rest);
}

/// Reading the fields of a cluster health request from its 5th field on gives the
/// fields written.
#[verifier::spinoff_prover]
#[verifier::rlimit(100)]
proof fn lemma_cluster_health_request_from_4_roundtrip(v: ClusterHealthRequestView, rest: Seq<u8>)
    requires
        cluster_health_request_fits(v),
    ensures
        parse_cluster_health_request_from_4(enc_cluster_health_request(v) + rest, (enc_parent_task_id(v.parent_task_node, v.parent_task_id) + enc_time_value(v.cluster_manager_timeout) + enc_bool(v.local) + enc_string_array(v.indices)).len() as int, (v.parent_task_node, v.parent_task_id), v.cluster_manager_timeout, v.local, v.indices) == WireRead::Decoded(v, enc_cluster_health_request(v).len() as int),
{
    let s = enc_cluster_health_request(v) + rest;
    let t16 = enc_bool(v.apply_level_at_transport_layer) + rest;
    let t15 = enc_bool(v.ensure_node_weighed_in) + t16;
    let t14 = enc_vint(v.level as i32) + t15;
    let t13 = enc_optional_string(v.awareness_attribute) + t14;
    let t12 = enc_enum_set(v.expand_wildcards) + t13;
    let t11 = enc_enum_set(v.indices_options) + t12;
    let t10 = enc_bool(v.wait_for_no_initializing_shards) + t11;
    let t9 = enc_optional_byte(v.wait_for_events) + t10;
    let t8 = enc_string(v.wait_for_nodes) + t9;
    let t7 = enc_i32(v.wait_for_active_shards) + t8;
    let t6 = enc_bool(v.wait_for_no_relocating_shards) + t7;
    let t5 = enc_optional_byte(v.wait_for_status) + t6;
    let t4 = enc_time_value(v.timeout) + t5;
    let t3 = enc_string_array(v.indices) + t4;
    let t2 = enc_bool(v.local) + t3;
    let t1 = enc_time_value(v.cluster_manager_timeout) + t2;
    let t0 = enc_parent_task_id(v.parent_task_node, v.parent_task_id) + t1;
    let u0 = enc_parent_task_id(v.parent_task_node, v.parent_task_id);
    let u1 = u0 + enc_time_value(v.cluster_manager_timeout);
    let u2 = u1 + enc_bool(v.local);
    let u3 = u2 + enc_string_array(v.indices);
    let u4 = u3 + enc_time_value(v.timeout);
    let u5 = u4 + enc_optional_byte(v.wait_for_status);
    let u6 = u5 + enc_bool(v.wait_for_no_relocating_shards);
    let u7 = u6 + enc_i32(v.wait_for_active_shards);
    let u8 = u7 + enc_string(v.wait_for_nodes);
    let u9 = u8 + enc_optional_byte(v.wait_for_events);
    let u10 = u9 + enc_bool(v.wait_for_no_initializing_shards);
    let u11 = u10 + enc_enum_set(v.indices_options);
    let u12 = u11 + enc_enum_set(v.expand_wildcards);
    let u13 = u12 + enc_optional_string(v.awareness_attribute);
    let u14 = u13 + enc_vint(v.level as i32);
    let u15 = u14 + enc_bool(v.ensure_node_weighed_in);
    let u16 = u15 + enc_bool(v.apply_level_at_transport_layer);
    assert(s == u16 + rest);
    lemma_append_assoc(u15, enc_bool(v.apply_level_at_transport_layer), rest);
    lemma_append_assoc(u14, enc_bool(v.ensure_node_weighed_in), t16);
    lemma_append_assoc(u13, enc_vint(v.level as i32), t15);
    lemma_append_assoc(u12, enc_optional_string(v.awareness_attribute), t14);
    lemma_append_assoc(u11, enc_enum_set(v.expand_wildcards), t13);
    lemma_append_assoc(u10, enc_enum_set(v.indices_options), t12);
    lemma_append_assoc(u9, enc_bool(v.wait_for_no_initializing_shards), t11);
    lemma_append_assoc(u8, enc_optional_byte(v.wait_for_events), t10);
    lemma_append_assoc(u7, enc_string(v.wait_for_nodes), t9);
    lemma_append_assoc(u6, enc_i32(v.wait_for_active_shards), t8);
    lemma_append_assoc(u5, enc_bool(v.wait_for_no_relocating_shards), t7);
    lemma_append_assoc(u4, enc_optional_byte(v.wait_for_status), t6);
    lemma_append_assoc(u3, enc_time_value(v.timeout), t5);
    lemma_append_assoc(u2, enc_string_array(v.indices), t4);
    lemma_append_assoc(u1, enc_bool(v.local), t3);
    lemma_append_assoc(u0, enc_time_value(v.cluster_manager_timeout), t2);
    assert(s == t0);
    lemma_skip_append(u3, t4);
    lemma_time_value_roundtrip(v.timeout, t5);
    lemma_skip_append(u4, t5);
    lemma_optional_byte_roundtrip(v.wait_for_status, t6);
    lemma_skip_append(u5, t6);
    lemma_bool_roundtrip(v.wait_for_no_relocating_shards, t7);
    lemma_skip_append(u6, t7);
    lemma_i32_roundtrip(v.wait_for_active_shards, t8);
    lemma_skip_append(u7, t8);
    lemma_cluster_health_request_from_8_roundtrip(v, rest);
}

/// Reading a cluster health request back gives the fields written.
#[verifier::spinoff_prover]
#[verifier::rlimit(100)]
pub proof fn lemma_cluster_health_request_roundtrip(v: ClusterHealthRequestView, rest: Seq<u8>)
    requires
        cluster_health_request_fits(v),
    ensures
        parse_cluster_health_request(enc_cluster_health_request(v) + rest) == WireRead::Decoded(v, enc_cluster_health_request(v).len() as int),
{
    let s = enc_cluster_health_request(v) + rest;
    let t16 = enc_bool(v.apply_level_at_transport_layer) + rest;
    let t15 = enc_bool(v.ensure_node_weighed_in) + t16;
    let t14 = enc_vint(v.level as i32) + t15;
    let t13 = enc_optional_string(v.awareness_attribute) + t14;
    let t12 = enc_enum_set(v.expand_wildcards) + t13;
    let t11 = enc_enum_set(v.indices_options) + t12;
    let t10 = enc_bool(v.wait_for_no_initializing_shards) + t11;
    let t9 = enc_optional_byte(v.wait_for_events) + t10;
    let t8 = enc_string(v.wait_for_nodes) + t9;
    let t7 = enc_i32(v.wait_for_active_shards) + t8;
    let t6 = enc_bool(v.wait_for_no_relocating_shards) + t7;
    let t5 = enc_optional_byte(v.wait_for_status) + t6;
    let t4 = enc_time_value(v.timeout) + t5;
    let t3 = enc_string_array(v.indices) + t4;
    let t2 = enc_bool(v.local) + t3;
    let t1 = enc_time_value(v.cluster_manager_timeout) + t2;
    let t0 = enc_parent_task_id(v.parent_task_node, v.parent_task_id) + t1;
    let u0 = enc_parent_task_id(v.parent_task_node, v.parent_task_id);
    let u1 = u0 + enc_time_value(v.cluster_manager_timeout);
    let u2 = u1 + enc_bool(v.local);
    let u3 = u2 + enc_string_array(v.indices);
    let u4 = u3 + enc_time_value(v.timeout);
    let u5 = u4 + enc_optional_byte(v.wait_for_status);
    let u6 = u5 + enc_bool(v.wait_for_no_relocating_shards);
    let u7 = u6 + enc_i32(v.wait_for_active_shards);
    let u8 = u7 + enc_string(v.wait_for_nodes);
    let u9 = u8 + enc_optional_byte(v.wait_for_events);
    let u10 = u9 + enc_bool(v.wait_for_no_initializing_shards);
    let u11 = u10 + enc_enum_set(v.indices_options);
    let u12 = u11 + enc_enum_set(v.expand_wildcards);
    let u13 = u12 + enc_optional_string(v.awareness_attribute);
    let u14 = u13 + enc_vint(v.level as i32);
    let u15 = u14 + enc_bool(v.ensure_node_weighed_in);
    let u16 = u15 + enc_bool(v.apply_level_at_transport_layer);
    assert(s == u16 + rest);
    lemma_append_assoc(u15, enc_bool(v.apply_level_at_transport_layer), rest);
    lemma_append_assoc(u14, enc_bool(v.ensure_node_weighed_in), t16);
    lemma_append_assoc(u13, enc_vint(v.level as i32), t15);
    lemma_append_assoc(u12, enc_optional_string(v.awareness_attribute), t14);
    lemma_append_assoc(u11, enc_enum_set(v.expand_wildcards), t13);
    lemma_append_assoc(u10, enc_enum_set(v.indices_options), t12);
    lemma_append_assoc(u9, enc_bool(v.wait_for_no_initializing_shards), t11);
    lemma_append_assoc(u8, enc_optional_byte(v.wait_for_events), t10);
    lemma_append_assoc(u7, enc_string(v.wait_for_nodes), t9);
    lemma_append_assoc(u6, enc_i32(v.wait_for_active_shards), t8);
    lemma_append_assoc(u5, enc_bool(v.wait_for_no_relocating_shards), t7);
    lemma_append_assoc(u4, enc_optional_byte(v.wait_for_status), t6);
    lemma_append_assoc(u3, enc_time_value(v.timeout), t5);
    lemma_append_assoc(u2, enc_string_array(v.indices), t4);
    lemma_append_assoc(u1, enc_bool(v.local), t3);
    lemma_append_assoc(u0, enc_time_value(v.cluster_manager_timeout), t2);
    assert(s == t0);
    lemma_parent_task_id_roundtrip(v.parent_task_node, v.parent_task_id, t1);
    lemma_skip_append(u0, t1);
    lemma_time_value_roundtrip(v.cluster_manager_timeout, t2);
    lemma_skip_append(u1, t2);
    lemma_bool_roundtrip(v.local, t3);
    lemma_skip_append(u2, t3);
    lemma_string_array_roundtrip(v.indices, t4);
    lemma_skip_append(u3, t4);
    lemma_cluster_health_request_from_4_roundtrip(v, rest);
}

/// What reading a cluster health request from the whole of `bytes` gives: the fields read, a
/// refused shape, or an error.
pub open spec fn cluster_health_request_read_result(bytes: Seq<u8>, r: Result<ClusterHealthRequestWire, TransportActionWireError>) -> bool {
    match parse_cluster_health_request(bytes) {
        WireRead::Decoded(v, n) => if n < bytes.len() {
            r == Err::<ClusterHealthRequestWire, TransportActionWireError>(TransportActionWireError::TrailingBytes((bytes.len() - n) as usize))
        } else {
            match v.unserved_shape() {
                Some((shape, reason)) => is_unsupported(r, shape, reason),
                None => r matches Ok(x) && x@ == v,
            }
        },
        WireRead::Unsupported(shape, reason) => is_unsupported(r, shape, reason),
        WireRead::Malformed => r is Err,
    }
}

/// Reading the whole of a written a cluster health request gives back the fields written.
pub proof fn lemma_cluster_health_request_read_back(v: ClusterHealthRequestView, r: Result<ClusterHealthRequestWire, TransportActionWireError>)
    requires
        cluster_health_request_fits(v),
        v.unserved_shape() is None,
        cluster_health_request_read_result(enc_cluster_health_request(v), r),
    ensures
        r matches Ok(x) && x@ == v,
{
    lemma_cluster_health_request_roundtrip(v, Seq::empty());
    assert(enc_cluster_health_request(v) + Seq::<u8>::empty() =~= enc_cluster_health_request(v));
}

impl ClusterHealthRequestWire {
    /// Writes a cluster health request, once every shape it uses is served.
    #[verifier::spinoff_prover]
    #[verifier::rlimit(100)]
    pub fn write(&self, output: &mut StreamOutput) -> (r: Result<(), TransportActionWireError>)
        ensures
            match self@.unserved_shape() {
                Some((shape, reason)) => is_unsupported(r, shape, reason) && final(output)@ == old(output)@,
                None => r is Ok && final(output)@ == old(output)@ + enc_cluster_health_request(self@),
            },
    {
        self.validate_supported_subset()?;
        write_parent_task_id(output, self.parent_task_node.as_str(), self.parent_task_id);
        assert(output@ == old(output)@ + enc_parent_task_id(self@.parent_task_node, self@.parent_task_id));
        self.cluster_manager_timeout.write(output);
        output.write_bool(self.local);
        output.write_string_array(self.indices.as_slice());
        self.timeout.write(output);
        write_optional_byte(output, self.wait_for_status);
        output.write_bool(self.wait_for_no_relocating_shards);
        output.write_i32(self.wait_for_active_shards);
        output.write_string(self.wait_for_nodes.as_str());
        write_optional_byte(output, self.wait_for_events);
        output.write_bool(self.wait_for_no_initializing_shards);
        write_enum_set(output, self.indices_options.as_slice());
        write_enum_set(output, self.expand_wildcards.as_slice());
        match &self.awareness_attribute {
            Some(x) => output.write_optional_string(Some(x.as_str())),
            None => output.write_optional_string(None),
        }
        output.write_vint(self.level as i32);
        output.write_bool(self.ensure_node_weighed_in);
        output.write_bool(self.apply_level_at_transport_layer);
        assert(output@ == old(output)@ + enc_cluster_health_request(self@));
        Ok(())
    }

    /// Reads a cluster health request from the whole of `bytes`.
    pub fn read(bytes: Vec<u8>) -> (r: Result<Self, TransportActionWireError>)
        ensures
            cluster_health_request_read_result(bytes@, r),
    {
        let mut input = StreamInput::new(bytes);
        let ghost s = input.rest();
        let pt = read_parent_task_id(&mut input)?;
        proof {
            assert(input.rest() =~= s.skip(input.pos() - 0));
        }
        let cluster_manager_timeout = TimeValueWire::read(&mut input)?;
        proof {
            assert(input.rest() =~= s.skip(input.pos() - 0));
        }
        let local = lift(input.read_bool())?;
        proof {
            assert(input.rest() =~= s.skip(input.pos() - 0));
        }
        let indices = lift(input.read_string_array())?;
        proof {
            assert(input.rest() =~= s.skip(input.pos() - 0));
        }
        let timeout = TimeValueWire::read(&mut input)?;
        proof {
            assert(input.rest() =~= s.skip(input.pos() - 0));
        }
        let wait_for_status = read_optional_byte(&mut input)?;
        proof {
            assert(input.rest() =~= s.skip(input.pos() - 0));
        }
        let wait_for_no_relocating_shards = lift(input.read_bool())?;
        proof {
            assert(input.rest() =~= s.skip(input.pos() - 0));
        }
        let wait_for_active_shards = lift(input.read_i32())?;
        proof {
            assert(input.rest() =~= s.skip(input.pos() - 0));
        }
        let wait_for_nodes = lift(input.read_string())?;
        proof {
            assert(input.rest() =~= s.skip(input.pos() - 0));
        }
        let wait_for_events = read_optional_byte(&mut input)?;
        proof {
            assert(input.rest() =~= s.skip(input.pos() - 0));
        }
        let wait_for_no_initializing_shards = lift(input.read_bool())?;
        proof {
            assert(input.rest() =~= s.skip(input.pos() - 0));
        }
        let indices_options = read_enum_set_field(&mut input, 6, "cluster health indices options")?;
        proof {
            assert(input.rest() =~= s.skip(input.pos() - 0));
        }
        let expand_wildcards = read_enum_set_field(&mut input, 3, "cluster health expand wildcards")?;
        proof {
            assert(input.rest() =~= s.skip(input.pos() - 0));
        }
        let awareness_attribute = lift(input.read_optional_string())?;
        proof {
            assert(input.rest() =~= s.skip(input.pos() - 0));
        }
        let level = lift(input.read_vint())? as u8;
        proof {
            assert(input.rest() =~= s.skip(input.pos() - 0));
        }
        let ensure_node_weighed_in = lift(input.read_bool())?;
        proof {
            assert(input.rest() =~= s.skip(input.pos() - 0));
        }
        let apply_level_at_transport_layer = lift(input.read_bool())?;
        proof {
            assert(input.rest() =~= s.skip(input.pos() - 0));
        }
        let value = ClusterHealthRequestWire { parent_task_node: pt.0, parent_task_id: pt.1, cluster_manager_timeout, local, indices, timeout, wait_for_status, wait_for_no_relocating_shards, wait_for_active_shards, wait_for_nodes, wait_for_events, wait_for_no_initializing_shards, indices_options, expand_wildcards, awareness_attribute, level, ensure_node_weighed_in, apply_level_at_transport_layer };
        require_no_trailing_bytes(&input)?;
        value.validate_supported_subset()?;
        Ok(value)
    }
}

/// The fields of a cluster stats request, as its bytes carry them.
pub struct ClusterStatsRequestView {
    pub parent_task_node: Seq<char>,
    pub parent_task_id: Option<i64>,
    pub node_ids: Seq<Seq<char>>,
    pub timeout: Option<TimeValueWire>,
    pub use_aggregated_node_level_responses: Option<bool>,
    pub compute_all_metrics: Option<bool>,
    pub metric_flags: i64,
    pub index_metric_flags: i64,
}

impl View for ClusterStatsRequestWire {
    type V = ClusterStatsRequestView;

    open spec fn view(&self) -> ClusterStatsRequestView {
        ClusterStatsRequestView {
            parent_task_node: self.parent_task_node@,
            parent_task_id: self.parent_task_id,
            node_ids: strings_view(self.node_ids@),
            timeout: self.timeout,
            use_aggregated_node_level_responses: self.use_aggregated_node_level_responses,
            compute_all_metrics: self.compute_all_metrics,
            metric_flags: self.metric_flags,
            index_metric_flags: self.index_metric_flags,
        }
    }
}

/// The bytes of a cluster stats request.
pub open spec fn enc_cluster_stats_request(v: ClusterStatsRequestView) -> Seq<u8> {
    enc_parent_task_id(v.parent_task_node, v.parent_task_id)
        + enc_string_array(v.node_ids)
        + enc_bool(false)
        + enc_optional_time_value(v.timeout)
        + enc_optional_bool(v.use_aggregated_node_level_responses)
        + enc_optional_bool(v.compute_all_metrics)
        + enc_i64(v.metric_flags)
        + enc_i64(v.index_metric_flags)
}

/// What a reader makes of the bytes of a cluster stats request.
pub open spec fn parse_cluster_stats_request(s: Seq<u8>) -> WireRead<ClusterStatsRequestView> {
    match parse_parent_task_id(s) {
        Some((pt, k0)) => {
            match parse_string_array(s.skip(k0)) {
                Some((node_ids, k1)) => {
                    match parse_bool(s.skip(k0 + k1)) {
                        Some((flag, k2)) => {
                            if flag {
                                WireRead::Unsupported("cluster stats concrete nodes"@, "cluster-stats concrete DiscoveryNode payloads are not decoded by this adapter"@)
                            } else {
                                match parse_optional_time_value(s.skip(k0 + k1 + k2)) {
                                    Some((timeout, k3)) => {
                                        match parse_optional_bool(s.skip(k0 + k1 + k2 + k3)) {
                                            Some((use_aggregated_node_level_responses, k4)) => {
                                                match parse_optional_bool(s.skip(k0 + k1 + k2 + k3 + k4)) {
                                                    Some((compute_all_metrics, k5)) => {
                                                        match parse_i64(s.skip(k0 + k1 + k2 + k3 + k4 + k5)) {
                                                            Some((metric_flags, k6)) => {
                                                                match parse_i64(s.skip(k0 + k1 + k2 + k3 + k4 + k5 + k6)) {
                                                                    Some((index_metric_flags, k7)) => {
                                                                        WireRead::Decoded(ClusterStatsRequestView { parent_task_node: pt.0, parent_task_id: pt.1, node_ids: node_ids, timeout: timeout, use_aggregated_node_level_responses: use_aggregated_node_level_responses, compute_all_metrics: compute_all_metrics, metric_flags: metric_flags, index_metric_flags: index_metric_flags }, k0 + k1 + k2 + k3 + k4 + k5 + k6 + k7)
                                                                    },
                                                                    None => WireRead::Malformed,
                                                                }
                                                            },
                                                            None => WireRead::Malformed,
                                                        }
                                                    },
                                                    None => if parse_byte(s.skip(k0 + k1 + k2 + k3 + k4)) matches Some((b, _)) && b > 2 {
                                                        WireRead::Unsupported("optional boolean"@, "optional boolean must use the OpenSearch 0/1/2 wire encoding"@)
                                                    } else {
                                                        WireRead::Malformed
                                                    },
                                                }
                                            },
                                            None => if parse_byte(s.skip(k0 + k1 + k2 + k3)) matches Some((b, _)) && b > 2 {
                                                WireRead::Unsupported("optional boolean"@, "optional boolean must use the OpenSearch 0/1/2 wire encoding"@)
                                            } else {
                                                WireRead::Malformed
                                            },
                                        }
                                    },
                                    None => WireRead::Malformed,
                                }
                            }
                        },
                        None => WireRead::Malformed,
                    }
                },
                None => WireRead::Malformed,
            }
        },
        None => WireRead::Malformed,
    }
}

/// True when a cluster stats request reads back as written.
pub open spec fn cluster_stats_request_fits(v: ClusterStatsRequestView) -> bool {
    &&& parent_task_id_canonical(v.parent_task_node, v.parent_task_id)
    &&& strings_fit(v.node_ids)
    &&& v.node_ids.len() < 0x8000_0000
}

/// Reading a cluster stats request back gives the fields written.
#[verifier::spinoff_prover]
#[verifier::rlimit(100)]
pub proof fn lemma_cluster_stats_request_roundtrip(v: ClusterStatsRequestView, rest: Seq<u8>)
    requires
        cluster_stats_request_fits(v),
    ensures
        parse_cluster_stats_request(enc_cluster_stats_request(v) + rest) == WireRead::Decoded(v, enc_cluster_stats_request(v).len() as int),
{
    let s = enc_cluster_stats_request(v) + rest;
    let t7 = enc_i64(v.index_metric_flags) + rest;
    let t6 = enc_i64(v.metric_flags) + t7;
    let t5 = enc_optional_bool(v.compute_all_metrics) + t6;
    let t4 = enc_optional_bool(v.use_aggregated_node_level_responses) + t5;
    let t3 = enc_optional_time_value(v.timeout) + t4;
    let t2 = enc_bool(false) + t3;
    let t1 = enc_string_array(v.node_ids) + t2;
    let t0 = enc_parent_task_id(v.parent_task_node, v.parent_task_id) + t1;
    let u0 = enc_parent_task_id(v.parent_task_node, v.parent_task_id);
    let u1 = u0 + enc_string_array(v.node_ids);
    let u2 = u1 + enc_bool(false);
    let u3 = u2 + enc_optional_time_value(v.timeout);
    let u4 = u3 + enc_optional_bool(v.use_aggregated_node_level_responses);
    let u5 = u4 + enc_optional_bool(v.compute_all_metrics);
    let u6 = u5 + enc_i64(v.metric_flags);
    let u7 = u6 + enc_i64(v.index_metric_flags);
    assert(s == u7 + rest);
    lemma_append_assoc(u6, enc_i64(v.index_metric_flags), rest);
    lemma_append_assoc(u5, enc_i64(v.metric_flags), t7);
    lemma_append_assoc(u4, enc_optional_bool(v.compute_all_metrics), t6);
    lemma_append_assoc(u3, enc_optional_bool(v.use_aggregated_node_level_responses), t5);
    lemma_append_assoc(u2, enc_optional_time_value(v.timeout), t4);
    lemma_append_assoc(u1, enc_bool(false), t3);
    lemma_append_assoc(u0, enc_string_array(v.node_ids), t2);
    assert(s == t0);
    lemma_parent_task_id_roundtrip(v.parent_task_node, v.parent_task_id, t1);
    lemma_skip_append(u0, t1);
    lemma_string_array_roundtrip(v.node_ids, t2);
    lemma_skip_append(u1, t2);
    lemma_bool_roundtrip(false, t3);
    lemma_skip_append(u2, t3);
    lemma_optional_time_value_roundtrip(v.timeout, t4);
    lemma_skip_append(u3, t4);
    lemma_optional_bool_roundtrip(v.use_aggregated_node_level_responses, t5);
    lemma_skip_append(u4, t5);
    lemma_optional_bool_roundtrip(v.compute_all_metrics, t6);
    lemma_skip_append(u5, t6);
    lemma_i64_roundtrip(v.metric_flags, t7);
    lemma_skip_append(u6, t7);
    lemma_i64_roundtrip(v.index_metric_flags, rest);
}

/// What reading a cluster stats request from the whole of `bytes` gives: the fields read, a
/// refused shape, or an error.
pub open spec fn cluster_stats_request_read_result(bytes: Seq<u8>, r: Result<ClusterStatsRequestWire, TransportActionWireError>) -> bool {
    match parse_cluster_stats_request(bytes) {
        WireRead::Decoded(v, n) => if n < bytes.len() {
            r == Err::<ClusterStatsRequestWire, TransportActionWireError>(TransportActionWireError::TrailingBytes((bytes.len() - n) as usize))
        } else {
            r matches Ok(x) && x@ == v
        },
        WireRead::Unsupported(shape, reason) => is_unsupported(r, shape, reason),
        WireRead::Malformed => r is Err,
    }
}

/// Reading the whole of a written a cluster stats request gives back the fields written.
pub proof fn lemma_cluster_stats_request_read_back(v: ClusterStatsRequestView, r: Result<ClusterStatsRequestWire, TransportActionWireError>)
    requires
        cluster_stats_request_fits(v),
        cluster_stats_request_read_result(enc_cluster_stats_request(v), r),
    ensures
        r matches Ok(x) && x@ == v,
{
    lemma_cluster_stats_request_roundtrip(v, Seq::empty());
    assert(enc_cluster_stats_request(v) + Seq::<u8>::empty() =~= enc_cluster_stats_request(v));
}

impl ClusterStatsRequestWire {
    /// Writes a cluster stats request.
    pub fn write(&self, output: &mut StreamOutput)
        ensures
            final(output)@ == old(output)@ + enc_cluster_stats_request(self@),
    {
        write_parent_task_id(output, self.parent_task_node.as_str(), self.parent_task_id);
        assert(output@ == old(output)@ + enc_parent_task_id(self@.parent_task_node, self@.parent_task_id));
        output.write_string_array(self.node_ids.as_slice());
        output.write_bool(false);
        match &self.timeout {
            Some(t) => write_optional_time_value(output, Some(t)),
            None => write_optional_time_value(output, None),
        }
        write_optional_bool(output, self.use_aggregated_node_level_responses);
        write_optional_bool(output, self.compute_all_metrics);
        output.write_i64(self.metric_flags);
        output.write_i64(self.index_metric_flags);
        assert(output@ == old(output)@ + enc_cluster_stats_request(self@));
    }

    /// Reads a cluster stats request from the whole of `bytes`.
    pub fn read(bytes: Vec<u8>) -> (r: Result<Self, TransportActionWireError>)
        ensures
            cluster_stats_request_read_result(bytes@, r),
    {
        let mut input = StreamInput::new(bytes);
        let ghost s = input.rest();
        let pt = read_parent_task_id(&mut input)?;
        proof {
            assert(input.rest() =~= s.skip(input.pos() - 0));
        }
        let node_ids = lift(input.read_string_array())?;
        proof {
            assert(input.rest() =~= s.skip(input.pos() - 0));
        }
        let present = lift(input.read_bool())?;
        if present {
            return Err(TransportActionWireError::UnsupportedWireShape { shape: "cluster stats concrete nodes", reason: "cluster-stats concrete DiscoveryNode payloads are not decoded by this adapter" });
        }
        proof {
            assert(input.rest() =~= s.skip(input.pos() - 0));
        }
        let timeout = read_optional_time_value(&mut input)?;
        proof {
            assert(input.rest() =~= s.skip(input.pos() - 0));
        }
        let use_aggregated_node_level_responses = read_optional_bool(&mut input)?;
        proof {
            assert(input.rest() =~= s.skip(input.pos() - 0));
        }
        let compute_all_metrics = read_optional_bool(&mut input)?;
        proof {
            assert(input.rest() =~= s.skip(input.pos() - 0));
        }
        let metric_flags = lift(input.read_i64())?;
        proof {
            assert(input.rest() =~= s.skip(input.pos() - 0));
        }
        let index_metric_flags = lift(input.read_i64())?;
        proof {
            assert(input.rest() =~= s.skip(input.pos() - 0));
        }
        let value = ClusterStatsRequestWire { parent_task_node: pt.0, parent_task_id: pt.1, node_ids, timeout, use_aggregated_node_level_responses, compute_all_metrics, metric_flags, index_metric_flags };
        require_no_trailing_bytes(&input)?;
        Ok(value)
    }
}

/// The fields of index statistics flags, as its bytes carry them.
pub struct CommonStatsFlagsView {
    pub flags: i64,
    pub groups: Seq<Seq<char>>,
    pub field_data_fields: Seq<Seq<char>>,
    pub completion_data_fields: Seq<Seq<char>>,
    pub include_segment_file_sizes: bool,
    pub include_unloaded_segments: bool,
    pub include_all_shard_indexing_pressure_trackers: bool,
    pub include_only_top_indexing_pressure_metrics: bool,
    pub include_caches: Seq<u8>,
    pub levels: Seq<Seq<char>>,
    pub include_indices_stats_by_level: bool,
}

impl View for CommonStatsFlagsWire {
    type V = CommonStatsFlagsView;

    open spec fn view(&self) -> CommonStatsFlagsView {
        CommonStatsFlagsView {
            flags: self.flags,
            groups: strings_view(self.groups@),
            field_data_fields: strings_view(self.field_data_fields@),
            completion_data_fields: strings_view(self.completion_data_fields@),
            include_segment_file_sizes: self.include_segment_file_sizes,
            include_unloaded_segments: self.include_unloaded_segments,
            include_all_shard_indexing_pressure_trackers: self.include_all_shard_indexing_pressure_trackers,
            include_only_top_indexing_pressure_metrics: self.include_only_top_indexing_pressure_metrics,
            include_caches: self.include_caches@,
            levels: strings_view(self.levels@),
            include_indices_stats_by_level: self.include_indices_stats_by_level,
        }
    }
}

/// The bytes of index statistics flags.
pub open spec fn enc_common_stats_flags(v: CommonStatsFlagsView) -> Seq<u8> {
    enc_i64(v.flags)
        + enc_string_array(v.groups)
        + enc_string_array(v.field_data_fields)
        + enc_string_array(v.completion_data_fields)
        + enc_bool(v.include_segment_file_sizes)
        + enc_bool(v.include_unloaded_segments)
        + enc_bool(v.include_all_shard_indexing_pressure_trackers)
        + enc_bool(v.include_only_top_indexing_pressure_metrics)
        + enc_enum_set(v.include_caches)
        + enc_string_array(v.levels)
        + enc_bool(v.include_indices_stats_by_level)
}

/// What a reader makes of the bytes of index statistics flags.
pub open spec fn parse_common_stats_flags(s: Seq<u8>) -> WireRead<CommonStatsFlagsView> {
    match parse_i64(s) {
        Some((flags, k0)) => {
            match parse_string_array(s.skip(k0)) {
                Some((groups, k1)) => {
                    match parse_string_array(s.skip(k0 + k1)) {
                        Some((field_data_fields, k2)) => {
                            match parse_string_array(s.skip(k0 + k1 + k2)) {
                                Some((completion_data_fields, k3)) => {
                                    parse_common_stats_flags_from_4(s, k0 + k1 + k2 + k3, flags, groups, field_data_fields, completion_data_fields)
                                },
                                None => WireRead::Malformed,
                            }
                        },
                        None => WireRead::Malformed,
                    }
                },
                None => WireRead::Malformed,
            }
        },
        None => WireRead::Malformed,
    }
}

/// What a reader makes of the fields of index statistics flags from its
/// 5th field on, at offset `o`, given the fields before them.
pub open spec fn parse_common_stats_flags_from_4(s: Seq<u8>, o: int, flags: i64, groups: Seq<Seq<char>>, field_data_fields: Seq<Seq<char>>, completion_data_fields: Seq<Seq<char>>) -> WireRead<CommonStatsFlagsView> {
    match parse_bool(s.skip(o)) {
        Some((include_segment_file_sizes, k4)) => {
            match parse_bool(s.skip(o + k4)) {
                Some((include_unloaded_segments, k5)) => {
                    match parse_bool(s.skip(o + k4 + k5)) {
                        Some((include_all_shard_indexing_pressure_trackers, k6)) => {
                            match parse_bool(s.skip(o + k4 + k5 + k6)) {
                                Some((include_only_top_indexing_pressure_metrics, k7)) => {
                                    parse_common_stats_flags_from_8(s, o + k4 + k5 + k6 + k7, flags, groups, field_data_fields, completion_data_fields, include_segment_file_sizes, include_unloaded_segments, include_all_shard_indexing_pressure_trackers, include_only_top_indexing_pressure_metrics)
                                },
                                None => WireRead::Malformed,
                            }
                        },
                        None => WireRead::Malformed,
                    }
                },
                None => WireRead::Malformed,
            }
        },
        None => WireRead::Malformed,
    }
}

/// What a reader makes of the fields of index statistics flags from its
/// 9th field on, at offset `o`, given the fields before them.
pub open spec fn parse_common_stats_flags_from_8(s: Seq<u8>, o: int, flags: i64, groups: Seq<Seq<char>>, field_data_fields: Seq<Seq<char>>, completion_data_fields: Seq<Seq<char>>, include_segment_file_sizes: bool, include_unloaded_segments: bool, include_all_shard_indexing_pressure_trackers: bool, include_only_top_indexing_pressure_metrics: bool) -> WireRead<CommonStatsFlagsView> {
    match parse_enum_set_field(s.skip(o), 1u8, "common stats cache types"@) {
        WireRead::Decoded(include_caches, k8) => {
            match parse_string_array(s.skip(o + k8)) {
                Some((levels, k9)) => {
                    match parse_bool(s.skip(o + k8 + k9)) {
                        Some((include_indices_stats_by_level, k10)) => {
                            WireRead::Decoded(CommonStatsFlagsView { flags: flags, groups: groups, field_data_fields: field_data_fields, completion_data_fields: completion_data_fields, include_segment_file_sizes: include_segment_file_sizes, include_unloaded_segments: include_unloaded_segments, include_all_shard_indexing_pressure_trackers: include_all_shard_indexing_pressure_trackers, include_only_top_indexing_pressure_metrics: include_only_top_indexing_pressure_metrics, include_caches: include_caches, levels: levels, include_indices_stats_by_level: include_indices_stats_by_level }, o + k8 + k9 + k10)
                        },
                        None => WireRead::Malformed,
                    }
                },
                None => WireRead::Malformed,
            }
        },
        WireRead::Unsupported(shape, reason) => WireRead::Unsupported(shape, reason),
        WireRead::Malformed => WireRead::Malformed,
    }
}

/// True when index statistics flags reads back as written.
pub open spec fn common_stats_flags_fits(v: CommonStatsFlagsView) -> bool {
    &&& strings_fit(v.groups)
    &&& v.groups.len() < 0x8000_0000
    &&& strings_fit(v.field_data_fields)
    &&& v.field_data_fields.len() < 0x8000_0000
    &&& strings_fit(v.completion_data_fields)
    &&& v.completion_data_fields.len() < 0x8000_0000
    &&& ordinals_below(v.include_caches, 1u8)
    &&& no_repeats(v.include_caches)
    &&& v.include_caches.len() < 0x8000_0000
    &&& strings_fit(v.levels)
    &&& v.levels.len() < 0x8000_0000
}

/// Reading the fields of index statistics flags from its 9th field on gives the
/// fields written.
#[verifier::spinoff_prover]
#[verifier::rlimit(100)]
proof fn lemma_common_stats_flags_from_8_roundtrip(v: CommonStatsFlagsView, rest: Seq<u8>)
    requires
        common_stats_flags_fits(v),
    ensures
        parse_common_stats_flags_from_8(enc_common_stats_flags(v) + rest, (enc_i64(v.flags) + enc_string_array(v.groups) + enc_string_array(v.field_data_fields) + enc_string_array(v.completion_data_fields) + enc_bool(v.include_segment_file_sizes) + enc_bool(v.include_unloaded_segments) + enc_bool(v.include_all_shard_indexing_pressure_trackers) + enc_bool(v.include_only_top_indexing_pressure_metrics)).len() as int, v.flags, v.groups, v.field_data_fields, v.completion_data_fields, v.include_segment_file_sizes, v.include_unloaded_segments, v.include_all_shard_indexing_pressure_trackers, v.include_only_top_indexing_pressure_metrics) == WireRead::Decoded(v, enc_common_stats_flags(v).len() as int),
{
    let s = enc_common_stats_flags(v) + rest;
    let t10 = enc_bool(v.include_indices_stats_by_level) + rest;
    let t9 = enc_string_array(v.levels) + t10;
    let t8 = enc_enum_set(v.include_caches) + t9;
    let t7 = enc_bool(v.include_only_top_indexing_pressure_metrics) + t8;
    let t6 = enc_bool(v.include_all_shard_indexing_pressure_trackers) + t7;
    let t5 = enc_bool(v.include_unloaded_segments) + t6;
    let t4 = enc_bool(v.include_segment_file_sizes) + t5;
    let t3 = enc_string_array(v.completion_data_fields) + t4;
    let t2 = enc_string_array(v.field_data_fields) + t3;
    let t1 = enc_string_array(v.groups) + t2;
    let t0 = enc_i64(v.flags) + t1;
    let u0 = enc_i64(v.flags);
    let u1 = u0 + enc_string_array(v.groups);
    let u2 = u1 + enc_string_array(v.field_data_fields);
    let u3 = u2 + enc_string_array(v.completion_data_fields);
    let u4 = u3 + enc_bool(v.include_segment_file_sizes);
    let u5 = u4 + enc_bool(v.include_unloaded_segments);
    let u6 = u5 + enc_bool(v.include_all_shard_indexing_pressure_trackers);
    let u7 = u6 + enc_bool(v.include_only_top_indexing_pressure_metrics);
    let u8 = u7 + enc_enum_set(v.include_caches);
    let u9 = u8 + enc_string_array(v.levels);
    let u10 = u9 + enc_bool(v.include_indices_stats_by_level);
    assert(s == u10 + rest);
    lemma_append_assoc(u9, enc_bool(v.include_indices_stats_by_level), rest);
    lemma_append_assoc(u8, enc_string_array(v.levels), t10);
    lemma_append_assoc(u7, enc_enum_set(v.include_caches), t9);
    lemma_append_assoc(u6, enc_bool(v.include_only_top_indexing_pressure_metrics), t8);
    lemma_append_assoc(u5, enc_bool(v.include_all_shard_indexing_pressure_trackers), t7);
    lemma_append_assoc(u4, enc_bool(v.include_unloaded_segments), t6);
    lemma_append_assoc(u3, enc_bool(v.include_segment_file_sizes), t5);
    lemma_append_assoc(u2, enc_string_array(v.completion_data_fields), t4);
    lemma_append_assoc(u1, enc_string_array(v.field_data_fields), t3);
    lemma_append_assoc(u0, enc_string_array(v.groups), t2);
    assert(s == t0);
    lemma_skip_append(u7, t8);
    lemma_enum_set_field_roundtrip(v.include_caches, t9, 1u8, "common stats cache types"@);
    lemma_skip_append(u8, t9);
    lemma_string_array_roundtrip(v.levels, t10);
    lemma_skip_append(u9, t10);
    lemma_bool_roundtrip(v.include_indices_stats_by_level, rest);
}

/// Reading the fields of index statistics flags from its 5th field on gives the
/// fields written.
#[verifier::spinoff_prover]
#[verifier::rlimit(100)]
proof fn lemma_common_stats_flags_from_4_roundtrip(v: CommonStatsFlagsView, rest: Seq<u8>)
    requires
        common_stats_flags_fits(v),
    ensures
        parse_common_stats_flags_from_4(enc_common_stats_flags(v) + rest, (enc_i64(v.flags) + enc_string_array(v.groups) + enc_string_array(v.field_data_fields) + enc_string_array(v.completion_data_fields)).len() as int, v.flags, v.groups, v.field_data_fields, v.completion_data_fields) == WireRead::Decoded(v, enc_common_stats_flags(v).len() as int),
{
    let s = enc_common_stats_flags(v) + rest;
    let t10 = enc_bool(v.include_indices_stats_by_level) + rest;
    let t9 = enc_string_array(v.levels) + t10;
    let t8 = enc_enum_set(v.include_caches) + t9;
    let t7 = enc_bool(v.include_only_top_indexing_pressure_metrics) + t8;
    let t6 = enc_bool(v.include_all_shard_indexing_pressure_trackers) + t7;
    let t5 = enc_bool(v.include_unloaded_segments) + t6;
    let t4 = enc_bool(v.include_segment_file_sizes) + t5;
    let t3 = enc_string_array(v.completion_data_fields) + t4;
    let t2 = enc_string_array(v.field_data_fields) + t3;
    let t1 = enc_string_array(v.groups) + t2;
    let t0 = enc_i64(v.flags) + t1;
    let u0 = enc_i64(v.flags);
    let u1 = u0 + enc_string_array(v.groups);
    let u2 = u1 + enc_string_array(v.field_data_fields);
    let u3 = u2 + enc_string_array(v.completion_data_fields);
    let u4 = u3 + enc_bool(v.include_segment_file_sizes);
    let u5 = u4 + enc_bool(v.include_unloaded_segments);
    let u6 = u5 + enc_bool(v.include_all_shard_indexing_pressure_trackers);
    let u7 = u6 + enc_bool(v.include_only_top_indexing_pressure_metrics);
    let u8 = u7 + enc_enum_set(v.include_caches);
    let u9 = u8 + enc_string_array(v.levels);
    let u10 = u9 + enc_bool(v.include_indices_stats_by_level);
    assert(s == u10 + rest);
    lemma_append_assoc(u9, enc_bool(v.include_indices_stats_by_level), rest);
    lemma_append_assoc(u8, enc_string_array(v.levels), t10);
    lemma_append_assoc(u7, enc_enum_set(v.include_caches), t9);
    lemma_append_assoc(u6, enc_bool(v.include_only_top_indexing_pressure_metrics), t8);
    lemma_append_assoc(u5, enc_bool(v.include_all_shard_indexing_pressure_trackers), t7);
    lemma_append_assoc(u4, enc_bool(v.include_unloaded_segments), t6);
    lemma_append_assoc(u3, enc_bool(v.include_segment_file_sizes), t5);
    lemma_append_assoc(u2, enc_string_array(v.completion_data_fields), t4);
    lemma_append_assoc(u1, enc_string_array(v.field_data_fields), t3);
    lemma_append_assoc(u0, enc_string_array(v.groups), t2);
    assert(s == t0);
    lemma_skip_append(u3, t4);
    lemma_bool_roundtrip(v.include_segment_file_sizes, t5);
    lemma_skip_append(u4, t5);
    lemma_bool_roundtrip(v.include_unloaded_segments, t6);
    lemma_skip_append(u5, t6);
    lemma_bool_roundtrip(v.include_all_shard_indexing_pressure_trackers, t7);
    lemma_skip_append(u6, t7);
    lemma_bool_roundtrip(v.include_only_top_indexing_pressure_metrics, t8);
    lemma_skip_append(u7, t8);
    lemma_common_stats_flags_from_8_roundtrip(v, rest);
}

/// Reading index statistics flags back gives the fields written.
#[verifier::spinoff_prover]
#[verifier::rlimit(100)]
pub proof fn lemma_common_stats_flags_roundtrip(v: CommonStatsFlagsView, rest: Seq<u8>)
    requires
        common_stats_flags_fits(v),
    ensures
        parse_common_stats_flags(enc_common_stats_flags(v) + rest) == WireRead::Decoded(v, enc_common_stats_flags(v).len() as int),
{
    let s = enc_common_stats_flags(v) + rest;
    let t10 = enc_bool(v.include_indices_stats_by_level) + rest;
    let t9 = enc_string_array(v.levels) + t10;
    let t8 = enc_enum_set(v.include_caches) + t9;
    let t7 = enc_bool(v.include_only_top_indexing_pressure_metrics) + t8;
    let t6 = enc_bool(v.include_all_shard_indexing_pressure_trackers) + t7;
    let t5 = enc_bool(v.include_unloaded_segments) + t6;
    let t4 = enc_bool(v.include_segment_file_sizes) + t5;
    let t3 = enc_string_array(v.completion_data_fields) + t4;
    let t2 = enc_string_array(v.field_data_fields) + t3;
    let t1 = enc_string_array(v.groups) + t2;
    let t0 = enc_i64(v.flags) + t1;
    let u0 = enc_i64(v.flags);
    let u1 = u0 + enc_string_array(v.groups);
    let u2 = u1 + enc_string_array(v.field_data_fields);
    let u3 = u2 + enc_string_array(v.completion_data_fields);
    let u4 = u3 + enc_bool(v.include_segment_file_sizes);
    let u5 = u4 + enc_bool(v.include_unloaded_segments);
    let u6 = u5 + enc_bool(v.include_all_shard_indexing_pressure_trackers);
    let u7 = u6 + enc_bool(v.include_only_top_indexing_pressure_metrics);
    let u8 = u7 + enc_enum_set(v.include_caches);
    let u9 = u8 + enc_string_array(v.levels);
    let u10 = u9 + enc_bool(v.include_indices_stats_by_level);
    assert(s == u10 + rest);
    lemma_append_assoc(u9, enc_bool(v.include_indices_stats_by_level), rest);
    lemma_append_assoc(u8, enc_string_array(v.levels), t10);
    lemma_append_assoc(u7, enc_enum_set(v.include_caches), t9);
    lemma_append_assoc(u6, enc_bool(v.include_only_top_indexing_pressure_metrics), t8);
    lemma_append_assoc(u5, enc_bool(v.include_all_shard_indexing_pressure_trackers), t7);
    lemma_append_assoc(u4, enc_bool(v.include_unloaded_segments), t6);
    lemma_append_assoc(u3, enc_bool(v.include_segment_file_sizes), t5);
    lemma_append_assoc(u2, enc_string_array(v.completion_data_fields), t4);
    lemma_append_assoc(u1, enc_string_array(v.field_data_fields), t3);
    lemma_append_assoc(u0, enc_string_array(v.groups), t2);
    assert(s == t0);
    lemma_i64_roundtrip(v.flags, t1);
    lemma_skip_append(u0, t1);
    lemma_string_array_roundtrip(v.groups, t2);
    lemma_skip_append(u1, t2);
    lemma_string_array_roundtrip(v.field_data_fields, t3);
    lemma_skip_append(u2, t3);
    lemma_string_array_roundtrip(v.completion_data_fields, t4);
    lemma_skip_append(u3, t4);
    lemma_common_stats_flags_from_4_roundtrip(v, rest);
}

impl CommonStatsFlagsWire {
    /// Writes index statistics flags.
    pub fn write(&self, output: &mut StreamOutput)
        ensures
            final(output)@ == old(output)@ + enc_common_stats_flags(self@),
    {
        output.write_i64(self.flags);
        assert(output@ == old(output)@ + enc_i64(self@.flags));
        output.write_string_array(self.groups.as_slice());
        output.write_string_array(self.field_data_fields.as_slice());
        output.write_string_array(self.completion_data_fields.as_slice());
        output.write_bool(self.include_segment_file_sizes);
        output.write_bool(self.include_unloaded_segments);
        output.write_bool(self.include_all_shard_indexing_pressure_trackers);
        output.write_bool(self.include_only_top_indexing_pressure_metrics);
        write_enum_set(output, self.include_caches.as_slice());
        output.write_string_array(self.levels.as_slice());
        output.write_bool(self.include_indices_stats_by_level);
        assert(output@ == old(output)@ + enc_common_stats_flags(self@));
    }

    /// Reads index statistics flags.
    pub fn read(input: &mut StreamInput) -> (r: Result<Self, TransportActionWireError>)
        ensures
            final(input).data() == old(input).data(),
            old(input).pos() <= final(input).pos() <= final(input).data().len(),
            match parse_common_stats_flags(old(input).rest()) {
                WireRead::Decoded(v, n) => r matches Ok(x) && x@ == v && final(input).pos() == old(input).pos() + n,
                WireRead::Unsupported(shape, reason) => is_unsupported(r, shape, reason),
                WireRead::Malformed => r is Err,
            },
    {
        let ghost s = old(input).rest();
        let ghost p0 = old(input).pos();
        let flags = lift(input.read_i64())?;
        proof {
            assert(input.rest() =~= s.skip(input.pos() - p0));
        }
        let groups = lift(input.read_string_array())?;
        proof {
            assert(input.rest() =~= s.skip(input.pos() - p0));
        }
        let field_data_fields = lift(input.read_string_array())?;
        proof {
            assert(input.rest() =~= s.skip(input.pos() - p0));
        }
        let completion_data_fields = lift(input.read_string_array())?;
        proof {
            assert(input.rest() =~= s.skip(input.pos() - p0));
        }
        let include_segment_file_sizes = lift(input.read_bool())?;
        proof {
            assert(input.rest() =~= s.skip(input.pos() - p0));
        }
        let include_unloaded_segments = lift(input.read_bool())?;
        proof {
            assert(input.rest() =~= s.skip(input.pos() - p0));
        }
        let include_all_shard_indexing_pressure_trackers = lift(input.read_bool())?;
        proof {
            assert(input.rest() =~= s.skip(input.pos() - p0));
        }
        let include_only_top_indexing_pressure_metrics = lift(input.read_bool())?;
        proof {
            assert(input.rest() =~= s.skip(input.pos() - p0));
        }
        let include_caches = read_enum_set_field(input, 1, "common stats cache types")?;
        proof {
            assert(input.rest() =~= s.skip(input.pos() - p0));
        }
        let levels = lift(input.read_string_array())?;
        proof {
            assert(input.rest() =~= s.skip(input.pos() - p0));
        }
        let include_indices_stats_by_level = lift(input.read_bool())?;
        proof {
            assert(input.rest() =~= s.skip(input.pos() - p0));
        }
        Ok(CommonStatsFlagsWire { flags, groups, field_data_fields, completion_data_fields, include_segment_file_sizes, include_unloaded_segments, include_all_shard_indexing_pressure_trackers, include_only_top_indexing_pressure_metrics, include_caches, levels, include_indices_stats_by_level })
    }
}

/// The fields of a nodes info request, as its bytes carry them.
pub struct NodesInfoRequestView {
    pub parent_task_node: Seq<char>,
    pub parent_task_id: Option<i64>,
    pub node_ids: Seq<Seq<char>>,
    pub timeout: Option<TimeValueWire>,
    pub requested_metrics: Seq<Seq<char>>,
}

impl View for NodesInfoRequestWire {
    type V = NodesInfoRequestView;

    open spec fn view(&self) -> NodesInfoRequestView {
        NodesInfoRequestView {
            parent_task_node: self.parent_task_node@,
            parent_task_id: self.parent_task_id,
            node_ids: strings_view(self.node_ids@),
            timeout: self.timeout,
            requested_metrics: strings_view(self.requested_metrics@),
        }
    }
}

/// The bytes of a nodes info request.
pub open spec fn enc_nodes_info_request(v: NodesInfoRequestView) -> Seq<u8> {
    enc_parent_task_id(v.parent_task_node, v.parent_task_id)
        + enc_string_array(v.node_ids)
        + enc_bool(false)
        + enc_optional_time_value(v.timeout)
        + enc_string_array(v.requested_metrics)
}

/// What a reader makes of the bytes of a nodes info request.
pub open spec fn parse_nodes_info_request(s: Seq<u8>) -> WireRead<NodesInfoRequestView> {
    match parse_parent_task_id(s) {
        Some((pt, k0)) => {
            match parse_string_array(s.skip(k0)) {
                Some((node_ids, k1)) => {
                    match parse_bool(s.skip(k0 + k1)) {
                        Some((flag, k2)) => {
                            if flag {
                                WireRead::Unsupported("nodes info concrete nodes"@, "nodes-info concrete DiscoveryNode payloads are not decoded by this adapter"@)
                            } else {
                                match parse_optional_time_value(s.skip(k0 + k1 + k2)) {
                                    Some((timeout, k3)) => {
                                        match parse_string_array(s.skip(k0 + k1 + k2 + k3)) {
                                            Some((requested_metrics, k4)) => {
                                                WireRead::Decoded(NodesInfoRequestView { parent_task_node: pt.0, parent_task_id: pt.1, node_ids: node_ids, timeout: timeout, requested_metrics: requested_metrics }, k0 + k1 + k2 + k3 + k4)
                                            },
                                            None => WireRead::Malformed,
                                        }
                                    },
                                    None => WireRead::Malformed,
                                }
                            }
                        },
                        None => WireRead::Malformed,
                    }
                },
                None => WireRead::Malformed,
            }
        },
        None => WireRead::Malformed,
    }
}

/// True when a nodes info request reads back as written.
pub open spec fn nodes_info_request_fits(v: NodesInfoRequestView) -> bool {
    &&& parent_task_id_canonical(v.parent_task_node, v.parent_task_id)
    &&& strings_fit(v.node_ids)
    &&& v.node_ids.len() < 0x8000_0000
    &&& strings_fit(v.requested_metrics)
    &&& v.requested_metrics.len() < 0x8000_0000
}

/// Reading a nodes info request back gives the fields written.
#[verifier::spinoff_prover]
#[verifier::rlimit(100)]
pub proof fn lemma_nodes_info_request_roundtrip(v: NodesInfoRequestView, rest: Seq<u8>)
    requires
        nodes_info_request_fits(v),
    ensures
        parse_nodes_info_request(enc_nodes_info_request(v) + rest) == WireRead::Decoded(v, enc_nodes_info_request(v).len() as int),
{
    let s = enc_nodes_info_request(v) + rest;
    let t4 = enc_string_array(v.requested_metrics) + rest;
    let t3 = enc_optional_time_value(v.timeout) + t4;
    let t2 = enc_bool(false) + t3;
    let t1 = enc_string_array(v.node_ids) + t2;
    let t0 = enc_parent_task_id(v.parent_task_node, v.parent_task_id) + t1;
    let u0 = enc_parent_task_id(v.parent_task_node, v.parent_task_id);
    let u1 = u0 + enc_string_array(v.node_ids);
    let u2 = u1 + enc_bool(false);
    let u3 = u2 + enc_optional_time_value(v.timeout);
    let u4 = u3 + enc_string_array(v.requested_metrics);
    assert(s == u4 + rest);
    lemma_append_assoc(u3, enc_string_array(v.requested_metrics), rest);
    lemma_append_assoc(u2, enc_optional_time_value(v.timeout), t4);
    lemma_append_assoc(u1, enc_bool(false), t3);
    lemma_append_assoc(u0, enc_string_array(v.node_ids), t2);
    assert(s == t0);
    lemma_parent_task_id_roundtrip(v.parent_task_node, v.parent_task_id, t1);
    lemma_skip_append(u0, t1);
    lemma_string_array_roundtrip(v.node_ids, t2);
    lemma_skip_append(u1, t2);
    lemma_bool_roundtrip(false, t3);
    lemma_skip_append(u2, t3);
    lemma_optional_time_value_roundtrip(v.timeout, t4);
    lemma_skip_append(u3, t4);
    lemma_string_array_roundtrip(v.requested_metrics, rest);
}

/// What reading a nodes info request from the whole of `bytes` gives: the fields read, a
/// refused shape, or an error.
pub open spec fn nodes_info_request_read_result(bytes: Seq<u8>, r: Result<NodesInfoRequestWire, TransportActionWireError>) -> bool {
    match parse_nodes_info_request(bytes) {
        WireRead::Decoded(v, n) => if n < bytes.len() {
            r == Err::<NodesInfoRequestWire, TransportActionWireError>(TransportActionWireError::TrailingBytes((bytes.len() - n) as usize))
        } else {
            r matches Ok(x) && x@ == v
        },
        WireRead::Unsupported(shape, reason) => is_unsupported(r, shape, reason),
        WireRead::Malformed => r is Err,
    }
}

/// Reading the whole of a written a nodes info request gives back the fields written.
pub proof fn lemma_nodes_info_request_read_back(v: NodesInfoRequestView, r: Result<NodesInfoRequestWire, TransportActionWireError>)
    requires
        nodes_info_request_fits(v),
        nodes_info_request_read_result(enc_nodes_info_request(v), r),
    ensures
        r matches Ok(x) && x@ == v,
{
    lemma_nodes_info_request_roundtrip(v, Seq::empty());
    assert(enc_nodes_info_request(v) + Seq::<u8>::empty() =~= enc_nodes_info_request(v));
}

impl NodesInfoRequestWire {
    /// Writes a nodes info request.
    pub fn write(&self, output: &mut StreamOutput)
        ensures
            final(output)@ == old(output)@ + enc_nodes_info_request(self@),
    {
        write_parent_task_id(output, self.parent_task_node.as_str(), self.parent_task_id);
        assert(output@ == old(output)@ + enc_parent_task_id(self@.parent_task_node, self@.parent_task_id));
        output.write_string_array(self.node_ids.as_slice());
        output.write_bool(false);
        match &self.timeout {
            Some(t) => write_optional_time_value(output, Some(t)),
            None => write_optional_time_value(output, None),
        }
        output.write_string_array(self.requested_metrics.as_slice());
        assert(output@ == old(output)@ + enc_nodes_info_request(self@));
    }

    /// Reads a nodes info request from the whole of `bytes`.
    pub fn read(bytes: Vec<u8>) -> (r: Result<Self, TransportActionWireError>)
        ensures
            nodes_info_request_read_result(bytes@, r),
    {
        let mut input = StreamInput::new(bytes);
        let ghost s = input.rest();
        let pt = read_parent_task_id(&mut input)?;
        proof {
            assert(input.rest() =~= s.skip(input.pos() - 0));
        }
        let node_ids = lift(input.read_string_array())?;
        proof {
            assert(input.rest() =~= s.skip(input.pos() - 0));
        }
        let present = lift(input.read_bool())?;
        if present {
            return Err(TransportActionWireError::UnsupportedWireShape { shape: "nodes info concrete nodes", reason: "nodes-info concrete DiscoveryNode payloads are not decoded by this adapter" });
        }
        proof {
            assert(input.rest() =~= s.skip(input.pos() - 0));
        }
        let timeout = read_optional_time_value(&mut input)?;
        proof {
            assert(input.rest() =~= s.skip(input.pos() - 0));
        }
        let requested_metrics = lift(input.read_string_array())?;
        proof {
            assert(input.rest() =~= s.skip(input.pos() - 0));
        }
        let value = NodesInfoRequestWire { parent_task_node: pt.0, parent_task_id: pt.1, node_ids, timeout, requested_metrics };
        require_no_trailing_bytes(&input)?;
        Ok(value)
    }
}

/// The fields of a nodes stats request, as its bytes carry them.
pub struct NodesStatsRequestView {
    pub parent_task_node: Seq<char>,
    pub parent_task_id: Option<i64>,
    pub node_ids: Seq<Seq<char>>,
    pub timeout: Option<TimeValueWire>,
    pub indices: CommonStatsFlagsView,
    pub requested_metrics: Seq<Seq<char>>,
}

impl View for NodesStatsRequestWire {
    type V = NodesStatsRequestView;

    open spec fn view(&self) -> NodesStatsRequestView {
        NodesStatsRequestView {
            parent_task_node: self.parent_task_node@,
            parent_task_id: self.parent_task_id,
            node_ids: strings_view(self.node_ids@),
            timeout: self.timeout,
            indices: self.indices@,
            requested_metrics: strings_view(self.requested_metrics@),
        }
    }
}

/// The bytes of a nodes stats request.
pub open spec fn enc_nodes_stats_request(v: NodesStatsRequestView) -> Seq<u8> {
    enc_parent_task_id(v.parent_task_node, v.parent_task_id)
        + enc_string_array(v.node_ids)
        + enc_bool(false)
        + enc_optional_time_value(v.timeout)
        + enc_common_stats_flags(v.indices)
        + enc_string_array(v.requested_metrics)
}

/// What a reader makes of the bytes of a nodes stats request.
pub open spec fn parse_nodes_stats_request(s: Seq<u8>) -> WireRead<NodesStatsRequestView> {
    match parse_parent_task_id(s) {
        Some((pt, k0)) => {
            match parse_string_array(s.skip(k0)) {
                Some((node_ids, k1)) => {
                    match parse_bool(s.skip(k0 + k1)) {
                        Some((flag, k2)) => {
                            if flag {
                                WireRead::Unsupported("nodes stats concrete nodes"@, "nodes-stats concrete DiscoveryNode payloads are not decoded by this adapter"@)
                            } else {
                                match parse_optional_time_value(s.skip(k0 + k1 + k2)) {
                                    Some((timeout, k3)) => {
                                        match parse_common_stats_flags(s.skip(k0 + k1 + k2 + k3)) {
                                            WireRead::Decoded(indices, k4) => {
                                                match parse_string_array(s.skip(k0 + k1 + k2 + k3 + k4)) {
                                                    Some((requested_metrics, k5)) => {
                                                        WireRead::Decoded(NodesStatsRequestView { parent_task_node: pt.0, parent_task_id: pt.1, node_ids: node_ids, timeout: timeout, indices: indices, requested_metrics: requested_metrics }, k0 + k1 + k2 + k3 + k4 + k5)
                                                    },
                                                    None => WireRead::Malformed,
                                                }
                                            },
                                            WireRead::Unsupported(shape, reason) => WireRead::Unsupported(shape, reason),
                                            WireRead::Malformed => WireRead::Malformed,
                                        }
                                    },
                                    None => WireRead::Malformed,
                                }
                            }
                        },
                        None => WireRead::Malformed,
                    }
                },
                None => WireRead::Malformed,
            }
        },
        None => WireRead::Malformed,
    }
}

/// True when a nodes stats request reads back as written.
pub open spec fn nodes_stats_request_fits(v: NodesStatsRequestView) -> bool {
    &&& parent_task_id_canonical(v.parent_task_node, v.parent_task_id)
    &&& strings_fit(v.node_ids)
    &&& v.node_ids.len() < 0x8000_0000
    &&& common_stats_flags_fits(v.indices)
    &&& strings_fit(v.requested_metrics)
    &&& v.requested_metrics.len() < 0x8000_0000
}

/// Reading a nodes stats request back gives the fields written.
#[verifier::spinoff_prover]
#[verifier::rlimit(100)]
pub proof fn lemma_nodes_stats_request_roundtrip(v: NodesStatsRequestView, rest: Seq<u8>)
    requires
        nodes_stats_request_fits(v),
    ensures
        parse_nodes_stats_request(enc_nodes_stats_request(v) + rest) == WireRead::Decoded(v, enc_nodes_stats_request(v).len() as int),
{
    let s = enc_nodes_stats_request(v) + rest;
    let t5 = enc_string_array(v.requested_metrics) + rest;
    let t4 = enc_common_stats_flags(v.indices) + t5;
    let t3 = enc_optional_time_value(v.timeout) + t4;
    let t2 = enc_bool(false) + t3;
    let t1 = enc_string_array(v.node_ids) + t2;
    let t0 = enc_parent_task_id(v.parent_task_node, v.parent_task_id) + t1;
    let u0 = enc_parent_task_id(v.parent_task_node, v.parent_task_id);
    let u1 = u0 + enc_string_array(v.node_ids);
    let u2 = u1 + enc_bool(false);
    let u3 = u2 + enc_optional_time_value(v.timeout);
    let u4 = u3 + enc_common_stats_flags(v.indices);
    let u5 = u4 + enc_string_array(v.requested_metrics);
    assert(s == u5 + rest);
    lemma_append_assoc(u4, enc_string_array(v.requested_metrics), rest);
    lemma_append_assoc(u3, enc_common_stats_flags(v.indices), t5);
    lemma_append_assoc(u2, enc_optional_time_value(v.timeout), t4);
    lemma_append_assoc(u1, enc_bool(false), t3);
    lemma_append_assoc(u0, enc_string_array(v.node_ids), t2);
    assert(s == t0);
    lemma_parent_task_id_roundtrip(v.parent_task_node, v.parent_task_id, t1);
    lemma_skip_append(u0, t1);
    lemma_string_array_roundtrip(v.node_ids, t2);
    lemma_skip_append(u1, t2);
    lemma_bool_roundtrip(false, t3);
    lemma_skip_append(u2, t3);
    lemma_optional_time_value_roundtrip(v.timeout, t4);
    lemma_skip_append(u3, t4);
    lemma_common_stats_flags_roundtrip(v.indices, t5);
    lemma_skip_append(u4, t5);
    lemma_string_array_roundtrip(v.requested_metrics, rest);
}

/// What reading a nodes stats request from the whole of `bytes` gives: the fields read, a
/// refused shape, or an error.
pub open spec fn nodes_stats_request_read_result(bytes: Seq<u8>, r: Result<NodesStatsRequestWire, TransportActionWireError>) -> bool {
    match parse_nodes_stats_request(bytes) {
        WireRead::Decoded(v, n) => if n < bytes.len() {
            r == Err::<NodesStatsRequestWire, TransportActionWireError>(TransportActionWireError::TrailingBytes((bytes.len() - n) as usize))
        } else {
            r matches Ok(x) && x@ == v
        },
        WireRead::Unsupported(shape, reason) => is_unsupported(r, shape, reason),
        WireRead::Malformed => r is Err,
    }
}

/// Reading the whole of a written a nodes stats request gives back the fields written.
pub proof fn lemma_nodes_stats_request_read_back(v: NodesStatsRequestView, r: Result<NodesStatsRequestWire, TransportActionWireError>)
    requires
        nodes_stats_request_fits(v),
        nodes_stats_request_read_result(enc_nodes_stats_request(v), r),
    ensures
        r matches Ok(x) && x@ == v,
{
    lemma_nodes_stats_request_roundtrip(v, Seq::empty());
    assert(enc_nodes_stats_request(v) + Seq::<u8>::empty() =~= enc_nodes_stats_request(v));
}

impl NodesStatsRequestWire {
    /// Writes a nodes stats request.
    pub fn write(&self, output: &mut StreamOutput)
        ensures
            final(output)@ == old(output)@ + enc_nodes_stats_request(self@),
    {
        write_parent_task_id(output, self.parent_task_node.as_str(), self.parent_task_id);
        assert(output@ == old(output)@ + enc_parent_task_id(self@.parent_task_node, self@.parent_task_id));
        output.write_string_array(self.node_ids.as_slice());
        output.write_bool(false);
        match &self.timeout {
            Some(t) => write_optional_time_value(output, Some(t)),
            None => write_optional_time_value(output, None),
        }
        self.indices.write(output);
        output.write_string_array(self.requested_metrics.as_slice());
        assert(output@ == old(output)@ + enc_nodes_stats_request(self@));
    }

    /// Reads a nodes stats request from the whole of `bytes`.
    pub fn read(bytes: Vec<u8>) -> (r: Result<Self, TransportActionWireError>)
        ensures
            nodes_stats_request_read_result(bytes@, r),
    {
        let mut input = StreamInput::new(bytes);
        let ghost s = input.rest();
        let pt = read_parent_task_id(&mut input)?;
        proof {
            assert(input.rest() =~= s.skip(input.pos() - 0));
        }
        let node_ids = lift(input.read_string_array())?;
        proof {
            assert(input.rest() =~= s.skip(input.pos() - 0));
        }
        let present = lift(input.read_bool())?;
        if present {
            return Err(TransportActionWireError::UnsupportedWireShape { shape: "nodes stats concrete nodes", reason: "nodes-stats concrete DiscoveryNode payloads are not decoded by this adapter" });
        }
        proof {
            assert(input.rest() =~= s.skip(input.pos() - 0));
        }
        let timeout = read_optional_time_value(&mut input)?;
        proof {
            assert(input.rest() =~= s.skip(input.pos() - 0));
        }
        let indices = CommonStatsFlagsWire::read(&mut input)?;
        proof {
            assert(input.rest() =~= s.skip(input.pos() - 0));
        }
        let requested_metrics = lift(input.read_string_array())?;
        proof {
            assert(input.rest() =~= s.skip(input.pos() - 0));
        }
        let value = NodesStatsRequestWire { parent_task_node: pt.0, parent_task_id: pt.1, node_ids, timeout, indices, requested_metrics };
        require_no_trailing_bytes(&input)?;
        Ok(value)
    }
}

/// The fields of a nodes usage request, as its bytes carry them.
pub struct NodesUsageRequestView {
    pub parent_task_node: Seq<char>,
    pub parent_task_id: Option<i64>,
    pub node_ids: Seq<Seq<char>>,
    pub timeout: Option<TimeValueWire>,
    pub rest_actions: bool,
    pub aggregations: bool,
}

impl View for NodesUsageRequestWire {
    type V = NodesUsageRequestView;

    open spec fn view(&self) -> NodesUsageRequestView {
        NodesUsageRequestView {
            parent_task_node: self.parent_task_node@,
            parent_task_id: self.parent_task_id,
            node_ids: strings_view(self.node_ids@),
            timeout: self.timeout,
            rest_actions: self.rest_actions,
            aggregations: self.aggregations,
        }
    }
}

/// The bytes of a nodes usage request.
pub open spec fn enc_nodes_usage_request(v: NodesUsageRequestView) -> Seq<u8> {
    enc_parent_task_id(v.parent_task_node, v.parent_task_id)
        + enc_string_array(v.node_ids)
        + enc_bool(false)
        + enc_optional_time_value(v.timeout)
        + enc_bool(v.rest_actions)
        + enc_bool(v.aggregations)
}

/// What a reader makes of the bytes of a nodes usage request.
pub open spec fn parse_nodes_usage_request(s: Seq<u8>) -> WireRead<NodesUsageRequestView> {
    match parse_parent_task_id(s) {
        Some((pt, k0)) => {
            match parse_string_array(s.skip(k0)) {
                Some((node_ids, k1)) => {
                    match parse_bool(s.skip(k0 + k1)) {
                        Some((flag, k2)) => {
                            if flag {
                                WireRead::Unsupported("nodes usage concrete nodes"@, "nodes-usage concrete DiscoveryNode payloads are not decoded by this adapter"@)
                            } else {
                                match parse_optional_time_value(s.skip(k0 + k1 + k2)) {
                                    Some((timeout, k3)) => {
                                        match parse_bool(s.skip(k0 + k1 + k2 + k3)) {
                                            Some((rest_actions, k4)) => {
                                                match parse_bool(s.skip(k0 + k1 + k2 + k3 + k4)) {
                                                    Some((aggregations, k5)) => {
                                                        WireRead::Decoded(NodesUsageRequestView { parent_task_node: pt.0, parent_task_id: pt.1, node_ids: node_ids, timeout: timeout, rest_actions: rest_actions, aggregations: aggregations }, k0 + k1 + k2 + k3 + k4 + k5)
                                                    },
                                                    None => WireRead::Malformed,
                                                }
                                            },
                                            None => WireRead::Malformed,
                                        }
                                    },
                                    None => WireRead::Malformed,
                                }
                            }
                        },
                        None => WireRead::Malformed,
                    }
                },
                None => WireRead::Malformed,
            }
        },
        None => WireRead::Malformed,
    }
}

/// True when a nodes usage request reads back as written.
pub open spec fn nodes_usage_request_fits(v: NodesUsageRequestView) -> bool {
    &&& parent_task_id_canonical(v.parent_task_node, v.parent_task_id)
    &&& strings_fit(v.node_ids)
    &&& v.node_ids.len() < 0x8000_0000
}

/// Reading a nodes usage request back gives the fields written.
#[verifier::spinoff_prover]
#[verifier::rlimit(100)]
pub proof fn lemma_nodes_usage_request_roundtrip(v: NodesUsageRequestView, rest: Seq<u8>)
    requires
        nodes_usage_request_fits(v),
    ensures
        parse_nodes_usage_request(enc_nodes_usage_request(v) + rest) == WireRead::Decoded(v, enc_nodes_usage_request(v).len() as int),
{
    let s = enc_nodes_usage_request(v) + rest;
    let t5 = enc_bool(v.aggregations) + rest;
    let t4 = enc_bool(v.rest_actions) + t5;
    let t3 = enc_optional_time_value(v.timeout) + t4;
    let t2 = enc_bool(false) + t3;
    let t1 = enc_string_array(v.node_ids) + t2;
    let t0 = enc_parent_task_id(v.parent_task_node, v.parent_task_id) + t1;
    let u0 = enc_parent_task_id(v.parent_task_node, v.parent_task_id);
    let u1 = u0 + enc_string_array(v.node_ids);
    let u2 = u1 + enc_bool(false);
    let u3 = u2 + enc_optional_time_value(v.timeout);
    let u4 = u3 + enc_bool(v.rest_actions);
    let u5 = u4 + enc_bool(v.aggregations);
    assert(s == u5 + rest);
    lemma_append_assoc(u4, enc_bool(v.aggregations), rest);
    lemma_append_assoc(u3, enc_bool(v.rest_actions), t5);
    lemma_append_assoc(u2, enc_optional_time_value(v.timeout), t4);
    lemma_append_assoc(u1, enc_bool(false), t3);
    lemma_append_assoc(u0, enc_string_array(v.node_ids), t2);
    assert(s == t0);
    lemma_parent_task_id_roundtrip(v.parent_task_node, v.parent_task_id, t1);
    lemma_skip_append(u0, t1);
    lemma_string_array_roundtrip(v.node_ids, t2);
    lemma_skip_append(u1, t2);
    lemma_bool_roundtrip(false, t3);
    lemma_skip_append(u2, t3);
    lemma_optional_time_value_roundtrip(v.timeout, t4);
    lemma_skip_append(u3, t4);
    lemma_bool_roundtrip(v.rest_actions, t5);
    lemma_skip_append(u4, t5);
    lemma_bool_roundtrip(v.aggregations, rest);
}

/// What reading a nodes usage request from the whole of `bytes` gives: the fields read, a
/// refused shape, or an error.
pub open spec fn nodes_usage_request_read_result(bytes: Seq<u8>, r: Result<NodesUsageRequestWire, TransportActionWireError>) -> bool {
    match parse_nodes_usage_request(bytes) {
        WireRead::Decoded(v, n) => if n < bytes.len() {
            r == Err::<NodesUsageRequestWire, TransportActionWireError>(TransportActionWireError::TrailingBytes((bytes.len() - n) as usize))
        } else {
            r matches Ok(x) && x@ == v
        },
        WireRead::Unsupported(shape, reason) => is_unsupported(r, shape, reason),
        WireRead::Malformed => r is Err,
    }
}

/// Reading the whole of a written a nodes usage request gives back the fields written.
pub proof fn lemma_nodes_usage_request_read_back(v: NodesUsageRequestView, r: Result<NodesUsageRequestWire, TransportActionWireError>)
    requires
        nodes_usage_request_fits(v),
        nodes_usage_request_read_result(enc_nodes_usage_request(v), r),
    ensures
        r matches Ok(x) && x@ == v,
{
    lemma_nodes_usage_request_roundtrip(v, Seq::empty());
    assert(enc_nodes_usage_request(v) + Seq::<u8>::empty() =~= enc_nodes_usage_request(v));
}

impl NodesUsageRequestWire {
    /// Writes a nodes usage request.
    pub fn write(&self, output: &mut StreamOutput)
        ensures
            final(output)@ == old(output)@ + enc_nodes_usage_request(self@),
    {
        write_parent_task_id(output, self.parent_task_node.as_str(), self.parent_task_id);
        assert(output@ == old(output)@ + enc_parent_task_id(self@.parent_task_node, self@.parent_task_id));
        output.write_string_array(self.node_ids.as_slice());
        output.write_bool(false);
        match &self.timeout {
            Some(t) => write_optional_time_value(output, Some(t)),
            None => write_optional_time_value(output, None),
        }
        output.write_bool(self.rest_actions);
        output.write_bool(self.aggregations);
        assert(output@ == old(output)@ + enc_nodes_usage_request(self@));
    }

    /// Reads a nodes usage request from the whole of `bytes`.
    pub fn read(bytes: Vec<u8>) -> (r: Result<Self, TransportActionWireError>)
        ensures
            nodes_usage_request_read_result(bytes@, r),
    {
        let mut input = StreamInput::new(bytes);
        let ghost s = input.rest();
        let pt = read_parent_task_id(&mut input)?;
        proof {
            assert(input.rest() =~= s.skip(input.pos() - 0));
        }
        let node_ids = lift(input.read_string_array())?;
        proof {
            assert(input.rest() =~= s.skip(input.pos() - 0));
        }
        let present = lift(input.read_bool())?;
        if present {
            return Err(TransportActionWireError::UnsupportedWireShape { shape: "nodes usage concrete nodes", reason: "nodes-usage concrete DiscoveryNode payloads are not decoded by this adapter" });
        }
        proof {
            assert(input.rest() =~= s.skip(input.pos() - 0));
        }
        let timeout = read_optional_time_value(&mut input)?;
        proof {
            assert(input.rest() =~= s.skip(input.pos() - 0));
        }
        let rest_actions = lift(input.read_bool())?;
        proof {
            assert(input.rest() =~= s.skip(input.pos() - 0));
        }
        let aggregations = lift(input.read_bool())?;
        proof {
            assert(input.rest() =~= s.skip(input.pos() - 0));
        }
        let value = NodesUsageRequestWire { parent_task_node: pt.0, parent_task_id: pt.1, node_ids, timeout, rest_actions, aggregations };
        require_no_trailing_bytes(&input)?;
        Ok(value)
    }
}

/// The fields of a nodes hot threads request, as its bytes carry them.
pub struct NodesHotThreadsRequestView {
    pub parent_task_node: Seq<char>,
    pub parent_task_id: Option<i64>,
    pub node_ids: Seq<Seq<char>>,
    pub timeout: Option<TimeValueWire>,
    pub threads: i32,
    pub ignore_idle_threads: bool,
    pub hot_threads_type: Seq<char>,
    pub interval: TimeValueWire,
    pub snapshots: i32,
}

impl View for NodesHotThreadsRequestWire {
    type V = NodesHotThreadsRequestView;

    open spec fn view(&self) -> NodesHotThreadsRequestView {
        NodesHotThreadsRequestView {
            parent_task_node: self.parent_task_node@,
            parent_task_id: self.parent_task_id,
            node_ids: strings_view(self.node_ids@),
            timeout: self.timeout,
            threads: self.threads,
            ignore_idle_threads: self.ignore_idle_threads,
            hot_threads_type: self.hot_threads_type@,
            interval: self.interval,
            snapshots: self.snapshots,
        }
    }
}

/// The bytes of a nodes hot threads request.
pub open spec fn enc_nodes_hot_threads_request(v: NodesHotThreadsRequestView) -> Seq<u8> {
    enc_parent_task_id(v.parent_task_node, v.parent_task_id)
        + enc_string_array(v.node_ids)
        + enc_bool(false)
        + enc_optional_time_value(v.timeout)
        + enc_i32(v.threads)
        + enc_bool(v.ignore_idle_threads)
        + enc_string(v.hot_threads_type)
        + enc_time_value(v.interval)
        + enc_i32(v.snapshots)
}

/// What a reader makes of the bytes of a nodes hot threads request.
pub open spec fn parse_nodes_hot_threads_request(s: Seq<u8>) -> WireRead<NodesHotThreadsRequestView> {
    match parse_parent_task_id(s) {
        Some((pt, k0)) => {
            match parse_string_array(s.skip(k0)) {
                Some((node_ids, k1)) => {
                    match parse_bool(s.skip(k0 + k1)) {
                        Some((flag, k2)) => {
                            if flag {
                                WireRead::Unsupported("nodes hot threads concrete nodes"@, "nodes-hot-threads concrete DiscoveryNode payloads are not decoded by this adapter"@)
                            } else {
                                match parse_optional_time_value(s.skip(k0 + k1 + k2)) {
                                    Some((timeout, k3)) => {
                                        parse_nodes_hot_threads_request_from_4(s, k0 + k1 + k2 + k3, pt, node_ids, timeout)
                                    },
                                    None => WireRead::Malformed,
                                }
                            }
                        },
                        None => WireRead::Malformed,
                    }
                },
                None => WireRead::Malformed,
            }
        },
        None => WireRead::Malformed,
    }
}

/// What a reader makes of the fields of a nodes hot threads request from its
/// 5th field on, at offset `o`, given the fields before them.
pub open spec fn parse_nodes_hot_threads_request_from_4(s: Seq<u8>, o: int, pt: (Seq<char>, Option<i64>), node_ids: Seq<Seq<char>>, timeout: Option<TimeValueWire>) -> WireRead<NodesHotThreadsRequestView> {
    match parse_i32(s.skip(o)) {
        Some((threads, k4)) => {
            match parse_bool(s.skip(o + k4)) {
                Some((ignore_idle_threads, k5)) => {
                    match parse_string(s.skip(o + k4 + k5)) {
                        Some((hot_threads_type, k6)) => {
                            match parse_time_value(s.skip(o + k4 + k5 + k6)) {
                                Some((interval, k7)) => {
                                    match parse_i32(s.skip(o + k4 + k5 + k6 + k7)) {
                                        Some((snapshots, k8)) => {
                                            WireRead::Decoded(NodesHotThreadsRequestView { parent_task_node: pt.0, parent_task_id: pt.1, node_ids: node_ids, timeout: timeout, threads: threads, ignore_idle_threads: ignore_idle_threads, hot_threads_type: hot_threads_type, interval: interval, snapshots: snapshots }, o + k4 + k5 + k6 + k7 + k8)
                                        },
                                        None => WireRead::Malformed,
                                    }
                                },
                                None => WireRead::Malformed,
                            }
                        },
                        None => WireRead::Malformed,
                    }
                },
                None => WireRead::Malformed,
            }
        },
        None => WireRead::Malformed,
    }
}

/// True when a nodes hot threads request reads back as written.
pub open spec fn nodes_hot_threads_request_fits(v: NodesHotThreadsRequestView) -> bool {
    &&& parent_task_id_canonical(v.parent_task_node, v.parent_task_id)
    &&& strings_fit(v.node_ids)
    &&& v.node_ids.len() < 0x8000_0000
    &&& string_fits(v.hot_threads_type)
}

/// Reading the fields of a nodes hot threads request from its 5th field on gives the
/// fields written.
#[verifier::spinoff_prover]
#[verifier::rlimit(100)]
proof fn lemma_nodes_hot_threads_request_from_4_roundtrip(v: NodesHotThreadsRequestView, rest: Seq<u8>)
    requires
        nodes_hot_threads_request_fits(v),
    ensures
        parse_nodes_hot_threads_request_from_4(enc_nodes_hot_threads_request(v) + rest, (enc_parent_task_id(v.parent_task_node, v.parent_task_id) + enc_string_array(v.node_ids) + enc_bool(false) + enc_optional_time_value(v.timeout)).len() as int, (v.parent_task_node, v.parent_task_id), v.node_ids, v.timeout) == WireRead::Decoded(v, enc_nodes_hot_threads_request(v).len() as int),
{
    let s = enc_nodes_hot_threads_request(v) + rest;
    let t8 = enc_i32(v.snapshots) + rest;
    let t7 = enc_time_value(v.interval) + t8;
    let t6 = enc_string(v.hot_threads_type) + t7;
    let t5 = enc_bool(v.ignore_idle_threads) + t6;
    let t4 = enc_i32(v.threads) + t5;
    let t3 = enc_optional_time_value(v.timeout) + t4;
    let t2 = enc_bool(false) + t3;
    let t1 = enc_string_array(v.node_ids) + t2;
    let t0 = enc_parent_task_id(v.parent_task_node, v.parent_task_id) + t1;
    let u0 = enc_parent_task_id(v.parent_task_node, v.parent_task_id);
    let u1 = u0 + enc_string_array(v.node_ids);
    let u2 = u1 + enc_bool(false);
    let u3 = u2 + enc_optional_time_value(v.timeout);
    let u4 = u3 + enc_i32(v.threads);
    let u5 = u4 + enc_bool(v.ignore_idle_threads);
    let u6 = u5 + enc_string(v.hot_threads_type);
    let u7 = u6 + enc_time_value(v.interval);
    let u8 = u7 + enc_i32(v.snapshots);
    assert(s == u8 + rest);
    lemma_append_assoc(u7, enc_i32(v.snapshots), rest);
    lemma_append_assoc(u6, enc_time_value(v.interval), t8);
    lemma_append_assoc(u5, enc_string(v.hot_threads_type), t7);
    lemma_append_assoc(u4, enc_bool(v.ignore_idle_threads), t6);
    lemma_append_assoc(u3, enc_i32(v.threads), t5);
    lemma_append_assoc(u2, enc_optional_time_value(v.timeout), t4);
    lemma_append_assoc(u1, enc_bool(false), t3);
    lemma_append_assoc(u0, enc_string_array(v.node_ids), t2);
    assert(s == t0);
    lemma_skip_append(u3, t4);
    lemma_i32_roundtrip(v.threads, t5);
    lemma_skip_append(u4, t5);
    lemma_bool_roundtrip(v.ignore_idle_threads, t6);
    lemma_skip_append(u5, t6);
    lemma_string_roundtrip(v.hot_threads_type, t7);
    lemma_skip_append(u6, t7);
    lemma_time_value_roundtrip(v.interval, t8);
    lemma_skip_append(u7, t8);
    lemma_i32_roundtrip(v.snapshots, rest);
}

/// Reading a nodes hot threads request back gives the fields written.
#[verifier::spinoff_prover]
#[verifier::rlimit(100)]
pub proof fn lemma_nodes_hot_threads_request_roundtrip(v: NodesHotThreadsRequestView, rest: Seq<u8>)
    requires
        nodes_hot_threads_request_fits(v),
    ensures
        parse_nodes_hot_threads_request(enc_nodes_hot_threads_request(v) + rest) == WireRead::Decoded(v, enc_nodes_hot_threads_request(v).len() as int),
{
    let s = enc_nodes_hot_threads_request(v) + rest;
    let t8 = enc_i32(v.snapshots) + rest;
    let t7 = enc_time_value(v.interval) + t8;
    let t6 = enc_string(v.hot_threads_type) + t7;
    let t5 = enc_bool(v.ignore_idle_threads) + t6;
    let t4 = enc_i32(v.threads) + t5;
    let t3 = enc_optional_time_value(v.timeout) + t4;
    let t2 = enc_bool(false) + t3;
    let t1 = enc_string_array(v.node_ids) + t2;
    let t0 = enc_parent_task_id(v.parent_task_node, v.parent_task_id) + t1;
    let u0 = enc_parent_task_id(v.parent_task_node, v.parent_task_id);
    let u1 = u0 + enc_string_array(v.node_ids);
    let u2 = u1 + enc_bool(false);
    let u3 = u2 + enc_optional_time_value(v.timeout);
    let u4 = u3 + enc_i32(v.threads);
    let u5 = u4 + enc_bool(v.ignore_idle_threads);
    let u6 = u5 + enc_string(v.hot_threads_type);
    let u7 = u6 + enc_time_value(v.interval);
    let u8 = u7 + enc_i32(v.snapshots);
    assert(s == u8 + rest);
    lemma_append_assoc(u7, enc_i32(v.snapshots), rest);
    lemma_append_assoc(u6, enc_time_value(v.interval), t8);
    lemma_append_assoc(u5, enc_string(v.hot_threads_type), t7);
    lemma_append_assoc(u4, enc_bool(v.ignore_idle_threads), t6);
    lemma_append_assoc(u3, enc_i32(v.threads), t5);
    lemma_append_assoc(u2, enc_optional_time_value(v.timeout), t4);
    lemma_append_assoc(u1, enc_bool(false), t3);
    lemma_append_assoc(u0, enc_string_array(v.node_ids), t2);
    assert(s == t0);
    lemma_parent_task_id_roundtrip(v.parent_task_node, v.parent_task_id, t1);
    lemma_skip_append(u0, t1);
    lemma_string_array_roundtrip(v.node_ids, t2);
    lemma_skip_append(u1, t2);
    lemma_bool_roundtrip(false, t3);
    lemma_skip_append(u2, t3);
    lemma_optional_time_value_roundtrip(v.timeout, t4);
    lemma_skip_append(u3, t4);
    lemma_nodes_hot_threads_request_from_4_roundtrip(v, rest);
}

/// What reading a nodes hot threads request from the whole of `bytes` gives: the fields read, a
/// refused shape, or an error.
pub open spec fn nodes_hot_threads_request_read_result(bytes: Seq<u8>, r: Result<NodesHotThreadsRequestWire, TransportActionWireError>) -> bool {
    match parse_nodes_hot_threads_request(bytes) {
        WireRead::Decoded(v, n) => if n < bytes.len() {
            r == Err::<NodesHotThreadsRequestWire, TransportActionWireError>(TransportActionWireError::TrailingBytes((bytes.len() - n) as usize))
        } else {
            r matches Ok(x) && x@ == v
        },
        WireRead::Unsupported(shape, reason) => is_unsupported(r, shape, reason),
        WireRead::Malformed => r is Err,
    }
}

/// Reading the whole of a written a nodes hot threads request gives back the fields written.
pub proof fn lemma_nodes_hot_threads_request_read_back(v: NodesHotThreadsRequestView, r: Result<NodesHotThreadsRequestWire, TransportActionWireError>)
    requires
        nodes_hot_threads_request_fits(v),
        nodes_hot_threads_request_read_result(enc_nodes_hot_threads_request(v), r),
    ensures
        r matches Ok(x) && x@ == v,
{
    lemma_nodes_hot_threads_request_roundtrip(v, Seq::empty());
    assert(enc_nodes_hot_threads_request(v) + Seq::<u8>::empty() =~= enc_nodes_hot_threads_request(v));
}

impl NodesHotThreadsRequestWire {
    /// Writes a nodes hot threads request.
    pub fn write(&self, output: &mut StreamOutput)
        ensures
            final(output)@ == old(output)@ + enc_nodes_hot_threads_request(self@),
    {
        write_parent_task_id(output, self.parent_task_node.as_str(), self.parent_task_id);
        assert(output@ == old(output)@ + enc_parent_task_id(self@.parent_task_node, self@.parent_task_id));
        output.write_string_array(self.node_ids.as_slice());
        output.write_bool(false);
        match &self.timeout {
            Some(t) => write_optional_time_value(output, Some(t)),
            None => write_optional_time_value(output, None),
        }
        output.write_i32(self.threads);
        output.write_bool(self.ignore_idle_threads);
        output.write_string(self.hot_threads_type.as_str());
        self.interval.write(output);
        output.write_i32(self.snapshots);
        assert(output@ == old(output)@ + enc_nodes_hot_threads_request(self@));
    }

    /// Reads a nodes hot threads request from the whole of `bytes`.
    pub fn read(bytes: Vec<u8>) -> (r: Result<Self, TransportActionWireError>)
        ensures
            nodes_hot_threads_request_read_result(bytes@, r),
    {
        let mut input = StreamInput::new(bytes);
        let ghost s = input.rest();
        let pt = read_parent_task_id(&mut input)?;
        proof {
            assert(input.rest() =~= s.skip(input.pos() - 0));
        }
        let node_ids = lift(input.read_string_array())?;
        proof {
            assert(input.rest() =~= s.skip(input.pos() - 0));
        }
        let present = lift(input.read_bool())?;
        if present {
            return Err(TransportActionWireError::UnsupportedWireShape { shape: "nodes hot threads concrete nodes", reason: "nodes-hot-threads concrete DiscoveryNode payloads are not decoded by this adapter" });
        }
        proof {
            assert(input.rest() =~= s.skip(input.pos() - 0));
        }
        let timeout = read_optional_time_value(&mut input)?;
        proof {
            assert(input.rest() =~= s.skip(input.pos() - 0));
        }
        let threads = lift(input.read_i32())?;
        proof {
            assert(input.rest() =~= s.skip(input.pos() - 0));
        }
        let ignore_idle_threads = lift(input.read_bool())?;
        proof {
            assert(input.rest() =~= s.skip(input.pos() - 0));
        }
        let hot_threads_type = lift(input.read_string())?;
        proof {
            assert(input.rest() =~= s.skip(input.pos() - 0));
        }
        let interval = TimeValueWire::read(&mut input)?;
        proof {
            assert(input.rest() =~= s.skip(input.pos() - 0));
        }
        let snapshots = lift(input.read_i32())?;
        proof {
            assert(input.rest() =~= s.skip(input.pos() - 0));
        }
        let value = NodesHotThreadsRequestWire { parent_task_node: pt.0, parent_task_id: pt.1, node_ids, timeout, threads, ignore_idle_threads, hot_threads_type, interval, snapshots };
        require_no_trailing_bytes(&input)?;
        Ok(value)
    }
}

/// The fields of an indices stats request, as its bytes carry them.
pub struct OpenSearchIndicesStatsRequestView {
    pub parent_task_node: Seq<char>,
    pub parent_task_id: Option<i64>,
    pub indices: Seq<Seq<char>>,
    pub indices_options: OpenSearchIndicesOptionsWire,
    pub flags: CommonStatsFlagsView,
}

impl View for OpenSearchIndicesStatsRequestWire {
    type V = OpenSearchIndicesStatsRequestView;

    open spec fn view(&self) -> OpenSearchIndicesStatsRequestView {
        OpenSearchIndicesStatsRequestView {
            parent_task_node: self.parent_task_node@,
            parent_task_id: self.parent_task_id,
            indices: strings_view(self.indices@),
            indices_options: self.indices_options,
            flags: self.flags@,
        }
    }
}

/// The bytes of an indices stats request.
pub open spec fn enc_opensearch_indices_stats_request(v: OpenSearchIndicesStatsRequestView) -> Seq<u8> {
    enc_parent_task_id(v.parent_task_node, v.parent_task_id)
        + enc_string_array(v.indices)
        + enc_indices_options(v.indices_options)
        + enc_common_stats_flags(v.flags)
}

/// What a reader makes of the bytes of an indices stats request.
pub open spec fn parse_opensearch_indices_stats_request(s: Seq<u8>) -> WireRead<OpenSearchIndicesStatsRequestView> {
    match parse_parent_task_id(s) {
        Some((pt, k0)) => {
            match parse_string_array(s.skip(k0)) {
                Some((indices, k1)) => {
                    match parse_indices_options(s.skip(k0 + k1)) {
                        Some((indices_options, k2)) => {
                            match parse_common_stats_flags(s.skip(k0 + k1 + k2)) {
                                WireRead::Decoded(flags, k3) => {
                                    WireRead::Decoded(OpenSearchIndicesStatsRequestView { parent_task_node: pt.0, parent_task_id: pt.1, indices: indices, indices_options: indices_options, flags: flags }, k0 + k1 + k2 + k3)
                                },
                                WireRead::Unsupported(shape, reason) => WireRead::Unsupported(shape, reason),
                                WireRead::Malformed => WireRead::Malformed,
                            }
                        },
                        None => WireRead::Malformed,
                    }
                },
                None => WireRead::Malformed,
            }
        },
        None => WireRead::Malformed,
    }
}

/// True when an indices stats request reads back as written.
pub open spec fn opensearch_indices_stats_request_fits(v: OpenSearchIndicesStatsRequestView) -> bool {
    &&& parent_task_id_canonical(v.parent_task_node, v.parent_task_id)
    &&& strings_fit(v.indices)
    &&& v.indices.len() < 0x8000_0000
    &&& common_stats_flags_fits(v.flags)
}

/// Reading an indices stats request back gives the fields written.
#[verifier::spinoff_prover]
#[verifier::rlimit(100)]
pub proof fn lemma_opensearch_indices_stats_request_roundtrip(v: OpenSearchIndicesStatsRequestView, rest: Seq<u8>)
    requires
        opensearch_indices_stats_request_fits(v),
    ensures
        parse_opensearch_indices_stats_request(enc_opensearch_indices_stats_request(v) + rest) == WireRead::Decoded(v, enc_opensearch_indices_stats_request(v).len() as int),
{
    let s = enc_opensearch_indices_stats_request(v) + rest;
    let t3 = enc_common_stats_flags(v.flags) + rest;
    let t2 = enc_indices_options(v.indices_options) + t3;
    let t1 = enc_string_array(v.indices) + t2;
    let t0 = enc_parent_task_id(v.parent_task_node, v.parent_task_id) + t1;
    let u0 = enc_parent_task_id(v.parent_task_node, v.parent_task_id);
    let u1 = u0 + enc_string_array(v.indices);
    let u2 = u1 + enc_indices_options(v.indices_options);
    let u3 = u2 + enc_common_stats_flags(v.flags);
    assert(s == u3 + rest);
    lemma_append_assoc(u2, enc_common_stats_flags(v.flags), rest);
    lemma_append_assoc(u1, enc_indices_options(v.indices_options), t3);
    lemma_append_assoc(u0, enc_string_array(v.indices), t2);
    assert(s == t0);
    lemma_parent_task_id_roundtrip(v.parent_task_node, v.parent_task_id, t1);
    lemma_skip_append(u0, t1);
    lemma_string_array_roundtrip(v.indices, t2);
    lemma_skip_append(u1, t2);
    lemma_indices_options_roundtrip(v.indices_options, t3);
    lemma_skip_append(u2, t3);
    lemma_common_stats_flags_roundtrip(v.flags, rest);
}

/// What reading an indices stats request from the whole of `bytes` gives: the fields read, a
/// refused shape, or an error.
pub open spec fn opensearch_indices_stats_request_read_result(bytes: Seq<u8>, r: Result<OpenSearchIndicesStatsRequestWire, TransportActionWireError>) -> bool {
    match parse_opensearch_indices_stats_request(bytes) {
        WireRead::Decoded(v, n) => if n < bytes.len() {
            r == Err::<OpenSearchIndicesStatsRequestWire, TransportActionWireError>(TransportActionWireError::TrailingBytes((bytes.len() - n) as usize))
        } else {
            r matches Ok(x) && x@ == v
        },
        WireRead::Unsupported(shape, reason) => is_unsupported(r, shape, reason),
        WireRead::Malformed => r is Err,
    }
}

/// Reading the whole of a written an indices stats request gives back the fields written.
pub proof fn lemma_opensearch_indices_stats_request_read_back(v: OpenSearchIndicesStatsRequestView, r: Result<OpenSearchIndicesStatsRequestWire, TransportActionWireError>)
    requires
        opensearch_indices_stats_request_fits(v),
        opensearch_indices_stats_request_read_result(enc_opensearch_indices_stats_request(v), r),
    ensures
        r matches Ok(x) && x@ == v,
{
    lemma_opensearch_indices_stats_request_roundtrip(v, Seq::empty());
    assert(enc_opensearch_indices_stats_request(v) + Seq::<u8>::empty() =~= enc_opensearch_indices_stats_request(v));
}

impl OpenSearchIndicesStatsRequestWire {
    /// Writes an indices stats request.
    pub fn write(&self, output: &mut StreamOutput)
        ensures
            final(output)@ == old(output)@ + enc_opensearch_indices_stats_request(self@),
    {
        write_parent_task_id(output, self.parent_task_node.as_str(), self.parent_task_id);
        assert(output@ == old(output)@ + enc_parent_task_id(self@.parent_task_node, self@.parent_task_id));
        output.write_string_array(self.indices.as_slice());
        self.indices_options.write(output);
        self.flags.write(output);
        assert(output@ == old(output)@ + enc_opensearch_indices_stats_request(self@));
    }

    /// Reads an indices stats request from the whole of `bytes`.
    pub fn read(bytes: Vec<u8>) -> (r: Result<Self, TransportActionWireError>)
        ensures
            opensearch_indices_stats_request_read_result(bytes@, r),
    {
        let mut input = StreamInput::new(bytes);
        let ghost s = input.rest();
        let pt = read_parent_task_id(&mut input)?;
        proof {
            assert(input.rest() =~= s.skip(input.pos() - 0));
        }
        let indices = lift(input.read_string_array())?;
        proof {
            assert(input.rest() =~= s.skip(input.pos() - 0));
        }
        let indices_options = OpenSearchIndicesOptionsWire::read(&mut input)?;
        proof {
            assert(input.rest() =~= s.skip(input.pos() - 0));
        }
        let flags = CommonStatsFlagsWire::read(&mut input)?;
        proof {
            assert(input.rest() =~= s.skip(input.pos() - 0));
        }
        let value = OpenSearchIndicesStatsRequestWire { parent_task_node: pt.0, parent_task_id: pt.1, indices, indices_options, flags };
        require_no_trailing_bytes(&input)?;
        Ok(value)
    }
}

/// The fields of a cluster update settings request, as its bytes carry them.
pub struct ClusterUpdateSettingsRequestView {
    pub parent_task_node: Seq<char>,
    pub parent_task_id: Option<i64>,
    pub cluster_manager_timeout: TimeValueWire,
    pub ack_timeout: TimeValueWire,
    pub transient_settings: Seq<(Seq<char>, Seq<char>)>,
    pub persistent_settings: Seq<(Seq<char>, Seq<char>)>,
}

impl View for ClusterUpdateSettingsRequestWire {
    type V = ClusterUpdateSettingsRequestView;

    open spec fn view(&self) -> ClusterUpdateSettingsRequestView {
        ClusterUpdateSettingsRequestView {
            parent_task_node: self.parent_task_node@,
            parent_task_id: self.parent_task_id,
            cluster_manager_timeout: self.cluster_manager_timeout,
            ack_timeout: self.ack_timeout,
            transient_settings: self.transient_settings@,
            persistent_settings: self.persistent_settings@,
        }
    }
}

/// The bytes of a cluster update settings request.
pub open spec fn enc_cluster_update_settings_request(v: ClusterUpdateSettingsRequestView) -> Seq<u8> {
    enc_parent_task_id(v.parent_task_node, v.parent_task_id)
        + enc_time_value(v.cluster_manager_timeout)
        + enc_time_value(v.ack_timeout)
        + enc_string_map(v.transient_settings)
        + enc_string_map(v.persistent_settings)
}

/// What a reader makes of the bytes of a cluster update settings request.
pub open spec fn parse_cluster_update_settings_request(s: Seq<u8>) -> WireRead<ClusterUpdateSettingsRequestView> {
    match parse_parent_task_id(s) {
        Some((pt, k0)) => {
            match parse_time_value(s.skip(k0)) {
                Some((cluster_manager_timeout, k1)) => {
                    match parse_time_value(s.skip(k0 + k1)) {
                        Some((ack_timeout, k2)) => {
                            match parse_string_map(s.skip(k0 + k1 + k2)) {
                                Some((transient_settings, k3)) => {
                                    match parse_string_map(s.skip(k0 + k1 + k2 + k3)) {
                                        Some((persistent_settings, k4)) => {
                                            WireRead::Decoded(ClusterUpdateSettingsRequestView { parent_task_node: pt.0, parent_task_id: pt.1, cluster_manager_timeout: cluster_manager_timeout, ack_timeout: ack_timeout, transient_settings: transient_settings, persistent_settings: persistent_settings }, k0 + k1 + k2 + k3 + k4)
                                        },
                                        None => WireRead::Malformed,
                                    }
                                },
                                None => WireRead::Malformed,
                            }
                        },
                        None => WireRead::Malformed,
                    }
                },
                None => WireRead::Malformed,
            }
        },
        None => WireRead::Malformed,
    }
}

/// True when a cluster update settings request reads back as written.
pub open spec fn cluster_update_settings_request_fits(v: ClusterUpdateSettingsRequestView) -> bool {
    &&& parent_task_id_canonical(v.parent_task_node, v.parent_task_id)
    &&& sorted_keys(v.transient_settings)
    &&& pairs_fit(v.transient_settings)
    &&& v.transient_settings.len() < 0x8000_0000
    &&& sorted_keys(v.persistent_settings)
    &&& pairs_fit(v.persistent_settings)
    &&& v.persistent_settings.len() < 0x8000_0000
}

/// Reading a cluster update settings request back gives the fields written.
#[verifier::spinoff_prover]
#[verifier::rlimit(100)]
pub proof fn lemma_cluster_update_settings_request_roundtrip(v: ClusterUpdateSettingsRequestView, rest: Seq<u8>)
    requires
        cluster_update_settings_request_fits(v),
    ensures
        parse_cluster_update_settings_request(enc_cluster_update_settings_request(v) + rest) == WireRead::Decoded(v, enc_cluster_update_settings_request(v).len() as int),
{
    let s = enc_cluster_update_settings_request(v) + rest;
    let t4 = enc_string_map(v.persistent_settings) + rest;
    let t3 = enc_string_map(v.transient_settings) + t4;
    let t2 = enc_time_value(v.ack_timeout) + t3;
    let t1 = enc_time_value(v.cluster_manager_timeout) + t2;
    let t0 = enc_parent_task_id(v.parent_task_node, v.parent_task_id) + t1;
    let u0 = enc_parent_task_id(v.parent_task_node, v.parent_task_id);
    let u1 = u0 + enc_time_value(v.cluster_manager_timeout);
    let u2 = u1 + enc_time_value(v.ack_timeout);
    let u3 = u2 + enc_string_map(v.transient_settings);
    let u4 = u3 + enc_string_map(v.persistent_settings);
    assert(s == u4 + rest);
    lemma_append_assoc(u3, enc_string_map(v.persistent_settings), rest);
    lemma_append_assoc(u2, enc_string_map(v.transient_settings), t4);
    lemma_append_assoc(u1, enc_time_value(v.ack_timeout), t3);
    lemma_append_assoc(u0, enc_time_value(v.cluster_manager_timeout), t2);
    assert(s == t0);
    lemma_parent_task_id_roundtrip(v.parent_task_node, v.parent_task_id, t1);
    lemma_skip_append(u0, t1);
    lemma_time_value_roundtrip(v.cluster_manager_timeout, t2);
    lemma_skip_append(u1, t2);
    lemma_time_value_roundtrip(v.ack_timeout, t3);
    lemma_skip_append(u2, t3);
    lemma_string_map_roundtrip(v.transient_settings, t4);
    lemma_skip_append(u3, t4);
    lemma_string_map_roundtrip(v.persistent_settings, rest);
}

/// What reading a cluster update settings request from the whole of `bytes` gives: the fields read, a
/// refused shape, or an error.
pub open spec fn cluster_update_settings_request_read_result(bytes: Seq<u8>, r: Result<ClusterUpdateSettingsRequestWire, TransportActionWireError>) -> bool {
    match parse_cluster_update_settings_request(bytes) {
        WireRead::Decoded(v, n) => if n < bytes.len() {
            r == Err::<ClusterUpdateSettingsRequestWire, TransportActionWireError>(TransportActionWireError::TrailingBytes((bytes.len() - n) as usize))
        } else {
            r matches Ok(x) && x@ == v
        },
        WireRead::Unsupported(shape, reason) => is_unsupported(r, shape, reason),
        WireRead::Malformed => r is Err,
    }
}

/// Reading the whole of a written a cluster update settings request gives back the fields written.
pub proof fn lemma_cluster_update_settings_request_read_back(v: ClusterUpdateSettingsRequestView, r: Result<ClusterUpdateSettingsRequestWire, TransportActionWireError>)
    requires
        cluster_update_settings_request_fits(v),
        cluster_update_settings_request_read_result(enc_cluster_update_settings_request(v), r),
    ensures
        r matches Ok(x) && x@ == v,
{
    lemma_cluster_update_settings_request_roundtrip(v, Seq::empty());
    assert(enc_cluster_update_settings_request(v) + Seq::<u8>::empty() =~= enc_cluster_update_settings_request(v));
}

impl ClusterUpdateSettingsRequestWire {
    /// Writes a cluster update settings request.
    pub fn write(&self, output: &mut StreamOutput)
        ensures
            final(output)@ == old(output)@ + enc_cluster_update_settings_request(self@),
    {
        write_parent_task_id(output, self.parent_task_node.as_str(), self.parent_task_id);
        assert(output@ == old(output)@ + enc_parent_task_id(self@.parent_task_node, self@.parent_task_id));
        self.cluster_manager_timeout.write(output);
        self.ack_timeout.write(output);
        output.write_string_map(&self.transient_settings);
        output.write_string_map(&self.persistent_settings);
        assert(output@ == old(output)@ + enc_cluster_update_settings_request(self@));
    }

    /// Reads a cluster update settings request from the whole of `bytes`.
    pub fn read(bytes: Vec<u8>) -> (r: Result<Self, TransportActionWireError>)
        ensures
            cluster_update_settings_request_read_result(bytes@, r),
    {
        let mut input = StreamInput::new(bytes);
        let ghost s = input.rest();
        let pt = read_parent_task_id(&mut input)?;
        proof {
            assert(input.rest() =~= s.skip(input.pos() - 0));
        }
        let cluster_manager_timeout = TimeValueWire::read(&mut input)?;
        proof {
            assert(input.rest() =~= s.skip(input.pos() - 0));
        }
        let ack_timeout = TimeValueWire::read(&mut input)?;
        proof {
            assert(input.rest() =~= s.skip(input.pos() - 0));
        }
        let transient_settings = lift(input.read_string_map())?;
        proof {
            assert(input.rest() =~= s.skip(input.pos() - 0));
        }
        let persistent_settings = lift(input.read_string_map())?;
        proof {
            assert(input.rest() =~= s.skip(input.pos() - 0));
        }
        let value = ClusterUpdateSettingsRequestWire { parent_task_node: pt.0, parent_task_id: pt.1, cluster_manager_timeout, ack_timeout, transient_settings, persistent_settings };
        require_no_trailing_bytes(&input)?;
        Ok(value)
    }
}

/// The fields of a get repositories request, as its bytes carry them.
pub struct GetRepositoriesRequestView {
    pub parent_task_node: Seq<char>,
    pub parent_task_id: Option<i64>,
    pub cluster_manager_timeout: TimeValueWire,
    pub local: bool,
    pub repositories: Seq<Seq<char>>,
}

impl View for GetRepositoriesRequestWire {
    type V = GetRepositoriesRequestView;

    open spec fn view(&self) -> GetRepositoriesRequestView {
        GetRepositoriesRequestView {
            parent_task_node: self.parent_task_node@,
            parent_task_id: self.parent_task_id,
            cluster_manager_timeout: self.cluster_manager_timeout,
            local: self.local,
            repositories: strings_view(self.repositories@),
        }
    }
}

/// The bytes of a get repositories request.
pub open spec fn enc_get_repositories_request(v: GetRepositoriesRequestView) -> Seq<u8> {
    enc_parent_task_id(v.parent_task_node, v.parent_task_id)
        + enc_time_value(v.cluster_manager_timeout)
        + enc_bool(v.local)
        + enc_string_array(v.repositories)
}

/// What a reader makes of the bytes of a get repositories request.
pub open spec fn parse_get_repositories_request(s: Seq<u8>) -> WireRead<GetRepositoriesRequestView> {
    match parse_parent_task_id(s) {
        Some((pt, k0)) => {
            match parse_time_value(s.skip(k0)) {
                Some((cluster_manager_timeout, k1)) => {
                    match parse_bool(s.skip(k0 + k1)) {
                        Some((local, k2)) => {
                            match parse_string_array(s.skip(k0 + k1 + k2)) {
                                Some((repositories, k3)) => {
                                    WireRead::Decoded(GetRepositoriesRequestView { parent_task_node: pt.0, parent_task_id: pt.1, cluster_manager_timeout: cluster_manager_timeout, local: local, repositories: repositories }, k0 + k1 + k2 + k3)
                                },
                                None => WireRead::Malformed,
                            }
                        },
                        None => WireRead::Malformed,
                    }
                },
                None => WireRead::Malformed,
            }
        },
        None => WireRead::Malformed,
    }
}

/// True when a get repositories request reads back as written.
pub open spec fn get_repositories_request_fits(v: GetRepositoriesRequestView) -> bool {
    &&& parent_task_id_canonical(v.parent_task_node, v.parent_task_id)
    &&& strings_fit(v.repositories)
    &&& v.repositories.len() < 0x8000_0000
}

/// Reading a get repositories request back gives the fields written.
#[verifier::spinoff_prover]
#[verifier::rlimit(100)]
pub proof fn lemma_get_repositories_request_roundtrip(v: GetRepositoriesRequestView, rest: Seq<u8>)
    requires
        get_repositories_request_fits(v),
    ensures
        parse_get_repositories_request(enc_get_repositories_request(v) + rest) == WireRead::Decoded(v, enc_get_repositories_request(v).len() as int),
{
    let s = enc_get_repositories_request(v) + rest;
    let t3 = enc_string_array(v.repositories) + rest;
    let t2 = enc_bool(v.local) + t3;
    let t1 = enc_time_value(v.cluster_manager_timeout) + t2;
    let t0 = enc_parent_task_id(v.parent_task_node, v.parent_task_id) + t1;
    let u0 = enc_parent_task_id(v.parent_task_node, v.parent_task_id);
    let u1 = u0 + enc_time_value(v.cluster_manager_timeout);
    let u2 = u1 + enc_bool(v.local);
    let u3 = u2 + enc_string_array(v.repositories);
    assert(s == u3 + rest);
    lemma_append_assoc(u2, enc_string_array(v.repositories), rest);
    lemma_append_assoc(u1, enc_bool(v.local), t3);
    lemma_append_assoc(u0, enc_time_value(v.cluster_manager_timeout), t2);
    assert(s == t0);
    lemma_parent_task_id_roundtrip(v.parent_task_node, v.parent_task_id, t1);
    lemma_skip_append(u0, t1);
    lemma_time_value_roundtrip(v.cluster_manager_timeout, t2);
    lemma_skip_append(u1, t2);
    lemma_bool_roundtrip(v.local, t3);
    lemma_skip_append(u2, t3);
    lemma_string_array_roundtrip(v.repositories, rest);
}

/// What reading a get repositories request from the whole of `bytes` gives: the fields read, a
/// refused shape, or an error.
pub open spec fn get_repositories_request_read_result(bytes: Seq<u8>, r: Result<GetRepositoriesRequestWire, TransportActionWireError>) -> bool {
    match parse_get_repositories_request(bytes) {
        WireRead::Decoded(v, n) => if n < bytes.len() {
            r == Err::<GetRepositoriesRequestWire, TransportActionWireError>(TransportActionWireError::TrailingBytes((bytes.len() - n) as usize))
        } else {
            r matches Ok(x) && x@ == v
        },
        WireRead::Unsupported(shape, reason) => is_unsupported(r, shape, reason),
        WireRead::Malformed => r is Err,
    }
}

/// Reading the whole of a written a get repositories request gives back the fields written.
pub proof fn lemma_get_repositories_request_read_back(v: GetRepositoriesRequestView, r: Result<GetRepositoriesRequestWire, TransportActionWireError>)
    requires
        get_repositories_request_fits(v),
        get_repositories_request_read_result(enc_get_repositories_request(v), r),
    ensures
        r matches Ok(x) && x@ == v,
{
    lemma_get_repositories_request_roundtrip(v, Seq::empty());
    assert(enc_get_repositories_request(v) + Seq::<u8>::empty() =~= enc_get_repositories_request(v));
}

impl GetRepositoriesRequestWire {
    /// Writes a get repositories request.
    pub fn write(&self, output: &mut StreamOutput)
        ensures
            final(output)@ == old(output)@ + enc_get_repositories_request(self@),
    {
        write_parent_task_id(output, self.parent_task_node.as_str(), self.parent_task_id);
        assert(output@ == old(output)@ + enc_parent_task_id(self@.parent_task_node, self@.parent_task_id));
        self.cluster_manager_timeout.write(output);
        output.write_bool(self.local);
        output.write_string_array(self.repositories.as_slice());
        assert(output@ == old(output)@ + enc_get_repositories_request(self@));
    }

    /// Reads a get repositories request from the whole of `bytes`.
    pub fn read(bytes: Vec<u8>) -> (r: Result<Self, TransportActionWireError>)
        ensures
            get_repositories_request_read_result(bytes@, r),
    {
        let mut input = StreamInput::new(bytes);
        let ghost s = input.rest();
        let pt = read_parent_task_id(&mut input)?;
        proof {
            assert(input.rest() =~= s.skip(input.pos() - 0));
        }
        let cluster_manager_timeout = TimeValueWire::read(&mut input)?;
        proof {
            assert(input.rest() =~= s.skip(input.pos() - 0));
        }
        let local = lift(input.read_bool())?;
        proof {
            assert(input.rest() =~= s.skip(input.pos() - 0));
        }
        let repositories = lift(input.read_string_array())?;
        proof {
            assert(input.rest() =~= s.skip(input.pos() - 0));
        }
        let value = GetRepositoriesRequestWire { parent_task_node: pt.0, parent_task_id: pt.1, cluster_manager_timeout, local, repositories };
        require_no_trailing_bytes(&input)?;
        Ok(value)
    }
}

/// The fields of a get mappings request, as its bytes carry them.
pub struct OpenSearchGetMappingsRequestView {
    pub parent_task_node: Seq<char>,
    pub parent_task_id: Option<i64>,
    pub cluster_manager_timeout: TimeValueWire,
    pub local: bool,
    pub indices: Seq<Seq<char>>,
    pub indices_options: OpenSearchIndicesOptionsWire,
}

impl View for OpenSearchGetMappingsRequestWire {
    type V = OpenSearchGetMappingsRequestView;

    open spec fn view(&self) -> OpenSearchGetMappingsRequestView {
        OpenSearchGetMappingsRequestView {
            parent_task_node: self.parent_task_node@,
            parent_task_id: self.parent_task_id,
            cluster_manager_timeout: self.cluster_manager_timeout,
            local: self.local,
            indices: strings_view(self.indices@),
            indices_options: self.indices_options,
        }
    }
}

/// The bytes of a get mappings request.
pub open spec fn enc_opensearch_get_mappings_request(v: OpenSearchGetMappingsRequestView) -> Seq<u8> {
    enc_parent_task_id(v.parent_task_node, v.parent_task_id)
        + enc_time_value(v.cluster_manager_timeout)
        + enc_bool(v.local)
        + enc_string_array(v.indices)
        + enc_indices_options(v.indices_options)
}

/// What a reader makes of the bytes of a get mappings request.
pub open spec fn parse_opensearch_get_mappings_request(s: Seq<u8>) -> WireRead<OpenSearchGetMappingsRequestView> {
    match parse_parent_task_id(s) {
        Some((pt, k0)) => {
            match parse_time_value(s.skip(k0)) {
                Some((cluster_manager_timeout, k1)) => {
                    match parse_bool(s.skip(k0 + k1)) {
                        Some((local, k2)) => {
                            match parse_string_array(s.skip(k0 + k1 + k2)) {
                                Some((indices, k3)) => {
                                    match parse_indices_options(s.skip(k0 + k1 + k2 + k3)) {
                                        Some((indices_options, k4)) => {
                                            WireRead::Decoded(OpenSearchGetMappingsRequestView { parent_task_node: pt.0, parent_task_id: pt.1, cluster_manager_timeout: cluster_manager_timeout, local: local, indices: indices, indices_options: indices_options }, k0 + k1 + k2 + k3 + k4)
                                        },
                                        None => WireRead::Malformed,
                                    }
                                },
                                None => WireRead::Malformed,
                            }
                        },
                        None => WireRead::Malformed,
                    }
                },
                None => WireRead::Malformed,
            }
        },
        None => WireRead::Malformed,
    }
}

/// True when a get mappings request reads back as written.
pub open spec fn opensearch_get_mappings_request_fits(v: OpenSearchGetMappingsRequestView) -> bool {
    &&& parent_task_id_canonical(v.parent_task_node, v.parent_task_id)
    &&& strings_fit(v.indices)
    &&& v.indices.len() < 0x8000_0000
}

/// Reading a get mappings request back gives the fields written.
#[verifier::spinoff_prover]
#[verifier::rlimit(100)]
pub proof fn lemma_opensearch_get_mappings_request_roundtrip(v: OpenSearchGetMappingsRequestView, rest: Seq<u8>)
    requires
        opensearch_get_mappings_request_fits(v),
    ensures
        parse_opensearch_get_mappings_request(enc_opensearch_get_mappings_request(v) + rest) == WireRead::Decoded(v, enc_opensearch_get_mappings_request(v).len() as int),
{
    let s = enc_opensearch_get_mappings_request(v) + rest;
    let t4 = enc_indices_options(v.indices_options) + rest;
    let t3 = enc_string_array(v.indices) + t4;
    let t2 = enc_bool(v.local) + t3;
    let t1 = enc_time_value(v.cluster_manager_timeout) + t2;
    let t0 = enc_parent_task_id(v.parent_task_node, v.parent_task_id) + t1;
    let u0 = enc_parent_task_id(v.parent_task_node, v.parent_task_id);
    let u1 = u0 + enc_time_value(v.cluster_manager_timeout);
    let u2 = u1 + enc_bool(v.local);
    let u3 = u2 + enc_string_array(v.indices);
    let u4 = u3 + enc_indices_options(v.indices_options);
    assert(s == u4 + rest);
    lemma_append_assoc(u3, enc_indices_options(v.indices_options), rest);
    lemma_append_assoc(u2, enc_string_array(v.indices), t4);
    lemma_append_assoc(u1, enc_bool(v.local), t3);
    lemma_append_assoc(u0, enc_time_value(v.cluster_manager_timeout), t2);
    assert(s == t0);
    lemma_parent_task_id_roundtrip(v.parent_task_node, v.parent_task_id, t1);
    lemma_skip_append(u0, t1);
    lemma_time_value_roundtrip(v.cluster_manager_timeout, t2);
    lemma_skip_append(u1, t2);
    lemma_bool_roundtrip(v.local, t3);
    lemma_skip_append(u2, t3);
    lemma_string_array_roundtrip(v.indices, t4);
    lemma_skip_append(u3, t4);
    lemma_indices_options_roundtrip(v.indices_options, rest);
}

/// What reading a get mappings request from the whole of `bytes` gives: the fields read, a
/// refused shape, or an error.
pub open spec fn opensearch_get_mappings_request_read_result(bytes: Seq<u8>, r: Result<OpenSearchGetMappingsRequestWire, TransportActionWireError>) -> bool {
    match parse_opensearch_get_mappings_request(bytes) {
        WireRead::Decoded(v, n) => if n < bytes.len() {
            r == Err::<OpenSearchGetMappingsRequestWire, TransportActionWireError>(TransportActionWireError::TrailingBytes((bytes.len() - n) as usize))
        } else {
            r matches Ok(x) && x@ == v
        },
        WireRead::Unsupported(shape, reason) => is_unsupported(r, shape, reason),
        WireRead::Malformed => r is Err,
    }
}

/// Reading the whole of a written a get mappings request gives back the fields written.
pub proof fn lemma_opensearch_get_mappings_request_read_back(v: OpenSearchGetMappingsRequestView, r: Result<OpenSearchGetMappingsRequestWire, TransportActionWireError>)
    requires
        opensearch_get_mappings_request_fits(v),
        opensearch_get_mappings_request_read_result(enc_opensearch_get_mappings_request(v), r),
    ensures
        r matches Ok(x) && x@ == v,
{
    lemma_opensearch_get_mappings_request_roundtrip(v, Seq::empty());
    assert(enc_opensearch_get_mappings_request(v) + Seq::<u8>::empty() =~= enc_opensearch_get_mappings_request(v));
}

impl OpenSearchGetMappingsRequestWire {
    /// Writes a get mappings request.
    pub fn write(&self, output: &mut StreamOutput)
        ensures
            final(output)@ == old(output)@ + enc_opensearch_get_mappings_request(self@),
    {
        write_parent_task_id(output, self.parent_task_node.as_str(), self.parent_task_id);
        assert(output@ == old(output)@ + enc_parent_task_id(self@.parent_task_node, self@.parent_task_id));
        self.cluster_manager_timeout.write(output);
        output.write_bool(self.local);
        output.write_string_array(self.indices.as_slice());
        self.indices_options.write(output);
        assert(output@ == old(output)@ + enc_opensearch_get_mappings_request(self@));
    }

    /// Reads a get mappings request from the whole of `bytes`.
    pub fn read(bytes: Vec<u8>) -> (r: Result<Self, TransportActionWireError>)
        ensures
            opensearch_get_mappings_request_read_result(bytes@, r),
    {
        let mut input = StreamInput::new(bytes);
        let ghost s = input.rest();
        let pt = read_parent_task_id(&mut input)?;
        proof {
            assert(input.rest() =~= s.skip(input.pos() - 0));
        }
        let cluster_manager_timeout = TimeValueWire::read(&mut input)?;
        proof {
            assert(input.rest() =~= s.skip(input.pos() - 0));
        }
        let local = lift(input.read_bool())?;
        proof {
            assert(input.rest() =~= s.skip(input.pos() - 0));
        }
        let indices = lift(input.read_string_array())?;
        proof {
            assert(input.rest() =~= s.skip(input.pos() - 0));
        }
        let indices_options = OpenSearchIndicesOptionsWire::read(&mut input)?;
        proof {
            assert(input.rest() =~= s.skip(input.pos() - 0));
        }
        let value = OpenSearchGetMappingsRequestWire { parent_task_node: pt.0, parent_task_id: pt.1, cluster_manager_timeout, local, indices, indices_options };
        require_no_trailing_bytes(&input)?;
        Ok(value)
    }
}

/// The fields of a get field mappings request, as its bytes carry them.
pub struct OpenSearchGetFieldMappingsRequestView {
    pub parent_task_node: Seq<char>,
    pub parent_task_id: Option<i64>,
    pub indices: Seq<Seq<char>>,
    pub indices_options: OpenSearchIndicesOptionsWire,
    pub local: bool,
    pub fields: Seq<Seq<char>>,
    pub include_defaults: bool,
}

impl View for OpenSearchGetFieldMappingsRequestWire {
    type V = OpenSearchGetFieldMappingsRequestView;

    open spec fn view(&self) -> OpenSearchGetFieldMappingsRequestView {
        OpenSearchGetFieldMappingsRequestView {
            parent_task_node: self.parent_task_node@,
            parent_task_id: self.parent_task_id,
            indices: strings_view(self.indices@),
            indices_options: self.indices_options,
            local: self.local,
            fields: strings_view(self.fields@),
            include_defaults: self.include_defaults,
        }
    }
}

/// The bytes of a get field mappings request.
pub open spec fn enc_opensearch_get_field_mappings_request(v: OpenSearchGetFieldMappingsRequestView) -> Seq<u8> {
    enc_parent_task_id(v.parent_task_node, v.parent_task_id)
        + enc_string_array(v.indices)
        + enc_indices_options(v.indices_options)
        + enc_bool(v.local)
        + enc_string_array(v.fields)
        + enc_bool(v.include_defaults)
}

/// What a reader makes of the bytes of a get field mappings request.
pub open spec fn parse_opensearch_get_field_mappings_request(s: Seq<u8>) -> WireRead<OpenSearchGetFieldMappingsRequestView> {
    match parse_parent_task_id(s) {
        Some((pt, k0)) => {
            match parse_string_array(s.skip(k0)) {
                Some((indices, k1)) => {
                    match parse_indices_options(s.skip(k0 + k1)) {
                        Some((indices_options, k2)) => {
                            match parse_bool(s.skip(k0 + k1 + k2)) {
                                Some((local, k3)) => {
                                    match parse_string_array(s.skip(k0 + k1 + k2 + k3)) {
                                        Some((fields, k4)) => {
                                            match parse_bool(s.skip(k0 + k1 + k2 + k3 + k4)) {
                                                Some((include_defaults, k5)) => {
                                                    WireRead::Decoded(OpenSearchGetFieldMappingsRequestView { parent_task_node: pt.0, parent_task_id: pt.1, indices: indices, indices_options: indices_options, local: local, fields: fields, include_defaults: include_defaults }, k0 + k1 + k2 + k3 + k4 + k5)
                                                },
                                                None => WireRead::Malformed,
                                            }
                                        },
                                        None => WireRead::Malformed,
                                    }
                                },
                                None => WireRead::Malformed,
                            }
                        },
                        None => WireRead::Malformed,
                    }
                },
                None => WireRead::Malformed,
            }
        },
        None => WireRead::Malformed,
    }
}

/// True when a get field mappings request reads back as written.
pub open spec fn opensearch_get_field_mappings_request_fits(v: OpenSearchGetFieldMappingsRequestView) -> bool {
    &&& parent_task_id_canonical(v.parent_task_node, v.parent_task_id)
    &&& strings_fit(v.indices)
    &&& v.indices.len() < 0x8000_0000
    &&& strings_fit(v.fields)
    &&& v.fields.len() < 0x8000_0000
}

/// Reading a get field mappings request back gives the fields written.
#[verifier::spinoff_prover]
#[verifier::rlimit(100)]
pub proof fn lemma_opensearch_get_field_mappings_request_roundtrip(v: OpenSearchGetFieldMappingsRequestView, rest: Seq<u8>)
    requires
        opensearch_get_field_mappings_request_fits(v),
    ensures
        parse_opensearch_get_field_mappings_request(enc_opensearch_get_field_mappings_request(v) + rest) == WireRead::Decoded(v, enc_opensearch_get_field_mappings_request(v).len() as int),
{
    let s = enc_opensearch_get_field_mappings_request(v) + rest;
    let t5 = enc_bool(v.include_defaults) + rest;
    let t4 = enc_string_array(v.fields) + t5;
    let t3 = enc_bool(v.local) + t4;
    let t2 = enc_indices_options(v.indices_options) + t3;
    let t1 = enc_string_array(v.indices) + t2;
    let t0 = enc_parent_task_id(v.parent_task_node, v.parent_task_id) + t1;
    let u0 = enc_parent_task_id(v.parent_task_node, v.parent_task_id);
    let u1 = u0 + enc_string_array(v.indices);
    let u2 = u1 + enc_indices_options(v.indices_options);
    let u3 = u2 + enc_bool(v.local);
    let u4 = u3 + enc_string_array(v.fields);
    let u5 = u4 + enc_bool(v.include_defaults);
    assert(s == u5 + rest);
    lemma_append_assoc(u4, enc_bool(v.include_defaults), rest);
    lemma_append_assoc(u3, enc_string_array(v.fields), t5);
    lemma_append_assoc(u2, enc_bool(v.local), t4);
    lemma_append_assoc(u1, enc_indices_options(v.indices_options), t3);
    lemma_append_assoc(u0, enc_string_array(v.indices), t2);
    assert(s == t0);
    lemma_parent_task_id_roundtrip(v.parent_task_node, v.parent_task_id, t1);
    lemma_skip_append(u0, t1);
    lemma_string_array_roundtrip(v.indices, t2);
    lemma_skip_append(u1, t2);
    lemma_indices_options_roundtrip(v.indices_options, t3);
    lemma_skip_append(u2, t3);
    lemma_bool_roundtrip(v.local, t4);
    lemma_skip_append(u3, t4);
    lemma_string_array_roundtrip(v.fields, t5);
    lemma_skip_append(u4, t5);
    lemma_bool_roundtrip(v.include_defaults, rest);
}

/// What reading a get field mappings request from the whole of `bytes` gives: the fields read, a
/// refused shape, or an error.
pub open spec fn opensearch_get_field_mappings_request_read_result(bytes: Seq<u8>, r: Result<OpenSearchGetFieldMappingsRequestWire, TransportActionWireError>) -> bool {
    match parse_opensearch_get_field_mappings_request(bytes) {
        WireRead::Decoded(v, n) => if n < bytes.len() {
            r == Err::<OpenSearchGetFieldMappingsRequestWire, TransportActionWireError>(TransportActionWireError::TrailingBytes((bytes.len() - n) as usize))
        } else {
            r matches Ok(x) && x@ == v
        },
        WireRead::Unsupported(shape, reason) => is_unsupported(r, shape, reason),
        WireRead::Malformed => r is Err,
    }
}

/// Reading the whole of a written a get field mappings request gives back the fields written.
pub proof fn lemma_opensearch_get_field_mappings_request_read_back(v: OpenSearchGetFieldMappingsRequestView, r: Result<OpenSearchGetFieldMappingsRequestWire, TransportActionWireError>)
    requires
        opensearch_get_field_mappings_request_fits(v),
        opensearch_get_field_mappings_request_read_result(enc_opensearch_get_field_mappings_request(v), r),
    ensures
        r matches Ok(x) && x@ == v,
{
    lemma_opensearch_get_field_mappings_request_roundtrip(v, Seq::empty());
    assert(enc_opensearch_get_field_mappings_request(v) + Seq::<u8>::empty() =~= enc_opensearch_get_field_mappings_request(v));
}

impl OpenSearchGetFieldMappingsRequestWire {
    /// Writes a get field mappings request.
    pub fn write(&self, output: &mut StreamOutput)
        ensures
            final(output)@ == old(output)@ + enc_opensearch_get_field_mappings_request(self@),
    {
        write_parent_task_id(output, self.parent_task_node.as_str(), self.parent_task_id);
        assert(output@ == old(output)@ + enc_parent_task_id(self@.parent_task_node, self@.parent_task_id));
        output.write_string_array(self.indices.as_slice());
        self.indices_options.write(output);
        output.write_bool(self.local);
        output.write_string_array(self.fields.as_slice());
        output.write_bool(self.include_defaults);
        assert(output@ == old(output)@ + enc_opensearch_get_field_mappings_request(self@));
    }

    /// Reads a get field mappings request from the whole of `bytes`.
    pub fn read(bytes: Vec<u8>) -> (r: Result<Self, TransportActionWireError>)
        ensures
            opensearch_get_field_mappings_request_read_result(bytes@, r),
    {
        let mut input = StreamInput::new(bytes);
        let ghost s = input.rest();
        let pt = read_parent_task_id(&mut input)?;
        proof {
            assert(input.rest() =~= s.skip(input.pos() - 0));
        }
        let indices = lift(input.read_string_array())?;
        proof {
            assert(input.rest() =~= s.skip(input.pos() - 0));
        }
        let indices_options = OpenSearchIndicesOptionsWire::read(&mut input)?;
        proof {
            assert(input.rest() =~= s.skip(input.pos() - 0));
        }
        let local = lift(input.read_bool())?;
        proof {
            assert(input.rest() =~= s.skip(input.pos() - 0));
        }
        let fields = lift(input.read_string_array())?;
        proof {
            assert(input.rest() =~= s.skip(input.pos() - 0));
        }
        let include_defaults = lift(input.read_bool())?;
        proof {
            assert(input.rest() =~= s.skip(input.pos() - 0));
        }
        let value = OpenSearchGetFieldMappingsRequestWire { parent_task_node: pt.0, parent_task_id: pt.1, indices, indices_options, local, fields, include_defaults };
        require_no_trailing_bytes(&input)?;
        Ok(value)
    }
}

/// The fields of a get aliases request, as its bytes carry them.
pub struct OpenSearchGetAliasesRequestView {
    pub parent_task_node: Seq<char>,
    pub parent_task_id: Option<i64>,
    pub cluster_manager_timeout: TimeValueWire,
    pub local: bool,
    pub indices: Seq<Seq<char>>,
    pub aliases: Seq<Seq<char>>,
    pub indices_options: OpenSearchIndicesOptionsWire,
    pub original_aliases: Seq<Seq<char>>,
}

impl View for OpenSearchGetAliasesRequestWire {
    type V = OpenSearchGetAliasesRequestView;

    open spec fn view(&self) -> OpenSearchGetAliasesRequestView {
        OpenSearchGetAliasesRequestView {
            parent_task_node: self.parent_task_node@,
            parent_task_id: self.parent_task_id,
            cluster_manager_timeout: self.cluster_manager_timeout,
            local: self.local,
            indices: strings_view(self.indices@),
            aliases: strings_view(self.aliases@),
            indices_options: self.indices_options,
            original_aliases: strings_view(self.original_aliases@),
        }
    }
}

/// The bytes of a get aliases request.
pub open spec fn enc_opensearch_get_aliases_request(v: OpenSearchGetAliasesRequestView) -> Seq<u8> {
    enc_parent_task_id(v.parent_task_node, v.parent_task_id)
        + enc_time_value(v.cluster_manager_timeout)
        + enc_bool(v.local)
        + enc_string_array(v.indices)
        + enc_string_array(v.aliases)
        + enc_indices_options(v.indices_options)
        + enc_string_array(v.original_aliases)
}

/// What a reader makes of the bytes of a get aliases request.
pub open spec fn parse_opensearch_get_aliases_request(s: Seq<u8>) -> WireRead<OpenSearchGetAliasesRequestView> {
    match parse_parent_task_id(s) {
        Some((pt, k0)) => {
            match parse_time_value(s.skip(k0)) {
                Some((cluster_manager_timeout, k1)) => {
                    match parse_bool(s.skip(k0 + k1)) {
                        Some((local, k2)) => {
                            match parse_string_array(s.skip(k0 + k1 + k2)) {
                                Some((indices, k3)) => {
                                    match parse_string_array(s.skip(k0 + k1 + k2 + k3)) {
                                        Some((aliases, k4)) => {
                                            match parse_indices_options(s.skip(k0 + k1 + k2 + k3 + k4)) {
                                                Some((indices_options, k5)) => {
                                                    match parse_string_array(s.skip(k0 + k1 + k2 + k3 + k4 + k5)) {
                                                        Some((original_aliases, k6)) => {
                                                            WireRead::Decoded(OpenSearchGetAliasesRequestView { parent_task_node: pt.0, parent_task_id: pt.1, cluster_manager_timeout: cluster_manager_timeout, local: local, indices: indices, aliases: aliases, indices_options: indices_options, original_aliases: original_aliases }, k0 + k1 + k2 + k3 + k4 + k5 + k6)
                                                        },
                                                        None => WireRead::Malformed,
                                                    }
                                                },
                                                None => WireRead::Malformed,
                                            }
                                        },
                                        None => WireRead::Malformed,
                                    }
                                },
                                None => WireRead::Malformed,
                            }
                        },
                        None => WireRead::Malformed,
                    }
                },
                None => WireRead::Malformed,
            }
        },
        None => WireRead::Malformed,
    }
}

/// True when a get aliases request reads back as written.
pub open spec fn opensearch_get_aliases_request_fits(v: OpenSearchGetAliasesRequestView) -> bool {
    &&& parent_task_id_canonical(v.parent_task_node, v.parent_task_id)
    &&& strings_fit(v.indices)
    &&& v.indices.len() < 0x8000_0000
    &&& strings_fit(v.aliases)
    &&& v.aliases.len() < 0x8000_0000
    &&& strings_fit(v.original_aliases)
    &&& v.original_aliases.len() < 0x8000_0000
}

/// Reading a get aliases request back gives the fields written.
#[verifier::spinoff_prover]
#[verifier::rlimit(100)]
pub proof fn lemma_opensearch_get_aliases_request_roundtrip(v: OpenSearchGetAliasesRequestView, rest: Seq<u8>)
    requires
        opensearch_get_aliases_request_fits(v),
    ensures
        parse_opensearch_get_aliases_request(enc_opensearch_get_aliases_request(v) + rest) == WireRead::Decoded(v, enc_opensearch_get_aliases_request(v).len() as int),
{
    let s = enc_opensearch_get_aliases_request(v) + rest;
    let t6 = enc_string_array(v.original_aliases) + rest;
    let t5 = enc_indices_options(v.indices_options) + t6;
    let t4 = enc_string_array(v.aliases) + t5;
    let t3 = enc_string_array(v.indices) + t4;
    let t2 = enc_bool(v.local) + t3;
    let t1 = enc_time_value(v.cluster_manager_timeout) + t2;
    let t0 = enc_parent_task_id(v.parent_task_node, v.parent_task_id) + t1;
    let u0 = enc_parent_task_id(v.parent_task_node, v.parent_task_id);
    let u1 = u0 + enc_time_value(v.cluster_manager_timeout);
    let u2 = u1 + enc_bool(v.local);
    let u3 = u2 + enc_string_array(v.indices);
    let u4 = u3 + enc_string_array(v.aliases);
    let u5 = u4 + enc_indices_options(v.indices_options);
    let u6 = u5 + enc_string_array(v.original_aliases);
    assert(s == u6 + rest);
    lemma_append_assoc(u5, enc_string_array(v.original_aliases), rest);
    lemma_append_assoc(u4, enc_indices_options(v.indices_options), t6);
    lemma_append_assoc(u3, enc_string_array(v.aliases), t5);
    lemma_append_assoc(u2, enc_string_array(v.indices), t4);
    lemma_append_assoc(u1, enc_bool(v.local), t3);
    lemma_append_assoc(u0, enc_time_value(v.cluster_manager_timeout), t2);
    assert(s == t0);
    lemma_parent_task_id_roundtrip(v.parent_task_node, v.parent_task_id, t1);
    lemma_skip_append(u0, t1);
    lemma_time_value_roundtrip(v.cluster_manager_timeout, t2);
    lemma_skip_append(u1, t2);
    lemma_bool_roundtrip(v.local, t3);
    lemma_skip_append(u2, t3);
    lemma_string_array_roundtrip(v.indices, t4);
    lemma_skip_append(u3, t4);
    lemma_string_array_roundtrip(v.aliases, t5);
    lemma_skip_append(u4, t5);
    lemma_indices_options_roundtrip(v.indices_options, t6);
    lemma_skip_append(u5, t6);
    lemma_string_array_roundtrip(v.original_aliases, rest);
}

/// What reading a get aliases request from the whole of `bytes` gives: the fields read, a
/// refused shape, or an error.
pub open spec fn opensearch_get_aliases_request_read_result(bytes: Seq<u8>, r: Result<OpenSearchGetAliasesRequestWire, TransportActionWireError>) -> bool {
    match parse_opensearch_get_aliases_request(bytes) {
        WireRead::Decoded(v, n) => if n < bytes.len() {
            r == Err::<OpenSearchGetAliasesRequestWire, TransportActionWireError>(TransportActionWireError::TrailingBytes((bytes.len() - n) as usize))
        } else {
            r matches Ok(x) && x@ == v
        },
        WireRead::Unsupported(shape, reason) => is_unsupported(r, shape, reason),
        WireRead::Malformed => r is Err,
    }
}

/// Reading the whole of a written a get aliases request gives back the fields written.
pub proof fn lemma_opensearch_get_aliases_request_read_back(v: OpenSearchGetAliasesRequestView, r: Result<OpenSearchGetAliasesRequestWire, TransportActionWireError>)
    requires
        opensearch_get_aliases_request_fits(v),
        opensearch_get_aliases_request_read_result(enc_opensearch_get_aliases_request(v), r),
    ensures
        r matches Ok(x) && x@ == v,
{
    lemma_opensearch_get_aliases_request_roundtrip(v, Seq::empty());
    assert(enc_opensearch_get_aliases_request(v) + Seq::<u8>::empty() =~= enc_opensearch_get_aliases_request(v));
}

impl OpenSearchGetAliasesRequestWire {
    /// Writes a get aliases request.
    pub fn write(&self, output: &mut StreamOutput)
        ensures
            final(output)@ == old(output)@ + enc_opensearch_get_aliases_request(self@),
    {
        write_parent_task_id(output, self.parent_task_node.as_str(), self.parent_task_id);
        assert(output@ == old(output)@ + enc_parent_task_id(self@.parent_task_node, self@.parent_task_id));
        self.cluster_manager_timeout.write(output);
        output.write_bool(self.local);
        output.write_string_array(self.indices.as_slice());
        output.write_string_array(self.aliases.as_slice());
        self.indices_options.write(output);
        output.write_string_array(self.original_aliases.as_slice());
        assert(output@ == old(output)@ + enc_opensearch_get_aliases_request(self@));
    }

    /// Reads a get aliases request from the whole of `bytes`.
    pub fn read(bytes: Vec<u8>) -> (r: Result<Self, TransportActionWireError>)
        ensures
            opensearch_get_aliases_request_read_result(bytes@, r),
    {
        let mut input = StreamInput::new(bytes);
        let ghost s = input.rest();
        let pt = read_parent_task_id(&mut input)?;
        proof {
            assert(input.rest() =~= s.skip(input.pos() - 0));
        }
        let cluster_manager_timeout = TimeValueWire::read(&mut input)?;
        proof {
            assert(input.rest() =~= s.skip(input.pos() - 0));
        }
        let local = lift(input.read_bool())?;
        proof {
            assert(input.rest() =~= s.skip(input.pos() - 0));
        }
        let indices = lift(input.read_string_array())?;
        proof {
            assert(input.rest() =~= s.skip(input.pos() - 0));
        }
        let aliases = lift(input.read_string_array())?;
        proof {
            assert(input.rest() =~= s.skip(input.pos() - 0));
        }
        let indices_options = OpenSearchIndicesOptionsWire::read(&mut input)?;
        proof {
            assert(input.rest() =~= s.skip(input.pos() - 0));
        }
        let original_aliases = lift(input.read_string_array())?;
        proof {
            assert(input.rest() =~= s.skip(input.pos() - 0));
        }
        let value = OpenSearchGetAliasesRequestWire { parent_task_node: pt.0, parent_task_id: pt.1, cluster_manager_timeout, local, indices, aliases, indices_options, original_aliases };
        require_no_trailing_bytes(&input)?;
        Ok(value)
    }
}

/// The fields of a get settings request, as its bytes carry them.
pub struct OpenSearchGetSettingsRequestView {
    pub parent_task_node: Seq<char>,
    pub parent_task_id: Option<i64>,
    pub cluster_manager_timeout: TimeValueWire,
    pub local: bool,
    pub indices: Seq<Seq<char>>,
    pub indices_options: OpenSearchIndicesOptionsWire,
    pub names: Seq<Seq<char>>,
    pub human_readable: bool,
    pub include_defaults: bool,
}

impl View for OpenSearchGetSettingsRequestWire {
    type V = OpenSearchGetSettingsRequestView;

    open spec fn view(&self) -> OpenSearchGetSettingsRequestView {
        OpenSearchGetSettingsRequestView {
            parent_task_node: self.parent_task_node@,
            parent_task_id: self.parent_task_id,
            cluster_manager_timeout: self.cluster_manager_timeout,
            local: self.local,
            indices: strings_view(self.indices@),
            indices_options: self.indices_options,
            names: strings_view(self.names@),
            human_readable: self.human_readable,
            include_defaults: self.include_defaults,
        }
    }
}

/// The bytes of a get settings request.
pub open spec fn enc_opensearch_get_settings_request(v: OpenSearchGetSettingsRequestView) -> Seq<u8> {
    enc_parent_task_id(v.parent_task_node, v.parent_task_id)
        + enc_time_value(v.cluster_manager_timeout)
        + enc_bool(v.local)
        + enc_string_array(v.indices)
        + enc_indices_options(v.indices_options)
        + enc_string_array(v.names)
        + enc_bool(v.human_readable)
        + enc_bool(v.include_defaults)
}

/// What a reader makes of the bytes of a get settings request.
pub open spec fn parse_opensearch_get_settings_request(s: Seq<u8>) -> WireRead<OpenSearchGetSettingsRequestView> {
    match parse_parent_task_id(s) {
        Some((pt, k0)) => {
            match parse_time_value(s.skip(k0)) {
                Some((cluster_manager_timeout, k1)) => {
                    match parse_bool(s.skip(k0 + k1)) {
                        Some((local, k2)) => {
                            match parse_string_array(s.skip(k0 + k1 + k2)) {
                                Some((indices, k3)) => {
                                    match parse_indices_options(s.skip(k0 + k1 + k2 + k3)) {
                                        Some((indices_options, k4)) => {
                                            match parse_string_array(s.skip(k0 + k1 + k2 + k3 + k4)) {
                                                Some((names, k5)) => {
                                                    match parse_bool(s.skip(k0 + k1 + k2 + k3 + k4 + k5)) {
                                                        Some((human_readable, k6)) => {
                                                            match parse_bool(s.skip(k0 + k1 + k2 + k3 + k4 + k5 + k6)) {
                                                                Some((include_defaults, k7)) => {
                                                                    WireRead::Decoded(OpenSearchGetSettingsRequestView { parent_task_node: pt.0, parent_task_id: pt.1, cluster_manager_timeout: cluster_manager_timeout, local: local, indices: indices, indices_options: indices_options, names: names, human_readable: human_readable, include_defaults: include_defaults }, k0 + k1 + k2 + k3 + k4 + k5 + k6 + k7)
                                                                },
                                                                None => WireRead::Malformed,
                                                            }
                                                        },
                                                        None => WireRead::Malformed,
                                                    }
                                                },
                                                None => WireRead::Malformed,
                                            }
                                        },
                                        None => WireRead::Malformed,
                                    }
                                },
                                None => WireRead::Malformed,
                            }
                        },
                        None => WireRead::Malformed,
                    }
                },
                None => WireRead::Malformed,
            }
        },
        None => WireRead::Malformed,
    }
}

/// True when a get settings request reads back as written.
pub open spec fn opensearch_get_settings_request_fits(v: OpenSearchGetSettingsRequestView) -> bool {
    &&& parent_task_id_canonical(v.parent_task_node, v.parent_task_id)
    &&& strings_fit(v.indices)
    &&& v.indices.len() < 0x8000_0000
    &&& strings_fit(v.names)
    &&& v.names.len() < 0x8000_0000
}

/// Reading a get settings request back gives the fields written.
#[verifier::spinoff_prover]
#[verifier::rlimit(100)]
pub proof fn lemma_opensearch_get_settings_request_roundtrip(v: OpenSearchGetSettingsRequestView, rest: Seq<u8>)
    requires
        opensearch_get_settings_request_fits(v),
    ensures
        parse_opensearch_get_settings_request(enc_opensearch_get_settings_request(v) + rest) == WireRead::Decoded(v, enc_opensearch_get_settings_request(v).len() as int),
{
    let s = enc_opensearch_get_settings_request(v) + rest;
    let t7 = enc_bool(v.include_defaults) + rest;
    let t6 = enc_bool(v.human_readable) + t7;
    let t5 = enc_string_array(v.names) + t6;
    let t4 = enc_indices_options(v.indices_options) + t5;
    let t3 = enc_string_array(v.indices) + t4;
    let t2 = enc_bool(v.local) + t3;
    let t1 = enc_time_value(v.cluster_manager_timeout) + t2;
    let t0 = enc_parent_task_id(v.parent_task_node, v.parent_task_id) + t1;
    let u0 = enc_parent_task_id(v.parent_task_node, v.parent_task_id);
    let u1 = u0 + enc_time_value(v.cluster_manager_timeout);
    let u2 = u1 + enc_bool(v.local);
    let u3 = u2 + enc_string_array(v.indices);
    let u4 = u3 + enc_indices_options(v.indices_options);
    let u5 = u4 + enc_string_array(v.names);
    let u6 = u5 + enc_bool(v.human_readable);
    let u7 = u6 + enc_bool(v.include_defaults);
    assert(s == u7 + rest);
    lemma_append_assoc(u6, enc_bool(v.include_defaults), rest);
    lemma_append_assoc(u5, enc_bool(v.human_readable), t7);
    lemma_append_assoc(u4, enc_string_array(v.names), t6);
    lemma_append_assoc(u3, enc_indices_options(v.indices_options), t5);
    lemma_append_assoc(u2, enc_string_array(v.indices), t4);
    lemma_append_assoc(u1, enc_bool(v.local), t3);
    lemma_append_assoc(u0, enc_time_value(v.cluster_manager_timeout), t2);
    assert(s == t0);
    lemma_parent_task_id_roundtrip(v.parent_task_node, v.parent_task_id, t1);
    lemma_skip_append(u0, t1);
    lemma_time_value_roundtrip(v.cluster_manager_timeout, t2);
    lemma_skip_append(u1, t2);
    lemma_bool_roundtrip(v.local, t3);
    lemma_skip_append(u2, t3);
    lemma_string_array_roundtrip(v.indices, t4);
    lemma_skip_append(u3, t4);
    lemma_indices_options_roundtrip(v.indices_options, t5);
    lemma_skip_append(u4, t5);
    lemma_string_array_roundtrip(v.names, t6);
    lemma_skip_append(u5, t6);
    lemma_bool_roundtrip(v.human_readable, t7);
    lemma_skip_append(u6, t7);
    lemma_bool_roundtrip(v.include_defaults, rest);
}

/// What reading a get settings request from the whole of `bytes` gives: the fields read, a
/// refused shape, or an error.
pub open spec fn opensearch_get_settings_request_read_result(bytes: Seq<u8>, r: Result<OpenSearchGetSettingsRequestWire, TransportActionWireError>) -> bool {
    match parse_opensearch_get_settings_request(bytes) {
        WireRead::Decoded(v, n) => if n < bytes.len() {
            r == Err::<OpenSearchGetSettingsRequestWire, TransportActionWireError>(TransportActionWireError::TrailingBytes((bytes.len() - n) as usize))
        } else {
            r matches Ok(x) && x@ == v
        },
        WireRead::Unsupported(shape, reason) => is_unsupported(r, shape, reason),
        WireRead::Malformed => r is Err,
    }
}

/// Reading the whole of a written a get settings request gives back the fields written.
pub proof fn lemma_opensearch_get_settings_request_read_back(v: OpenSearchGetSettingsRequestView, r: Result<OpenSearchGetSettingsRequestWire, TransportActionWireError>)
    requires
        opensearch_get_settings_request_fits(v),
        opensearch_get_settings_request_read_result(enc_opensearch_get_settings_request(v), r),
    ensures
        r matches Ok(x) && x@ == v,
{
    lemma_opensearch_get_settings_request_roundtrip(v, Seq::empty());
    assert(enc_opensearch_get_settings_request(v) + Seq::<u8>::empty() =~= enc_opensearch_get_settings_request(v));
}

impl OpenSearchGetSettingsRequestWire {
    /// Writes a get settings request.
    pub fn write(&self, output: &mut StreamOutput)
        ensures
            final(output)@ == old(output)@ + enc_opensearch_get_settings_request(self@),
    {
        write_parent_task_id(output, self.parent_task_node.as_str(), self.parent_task_id);
        assert(output@ == old(output)@ + enc_parent_task_id(self@.parent_task_node, self@.parent_task_id));
        self.cluster_manager_timeout.write(output);
        output.write_bool(self.local);
        output.write_string_array(self.indices.as_slice());
        self.indices_options.write(output);
        output.write_string_array(self.names.as_slice());
        output.write_bool(self.human_readable);
        output.write_bool(self.include_defaults);
        assert(output@ == old(output)@ + enc_opensearch_get_settings_request(self@));
    }

    /// Reads a get settings request from the whole of `bytes`.
    pub fn read(bytes: Vec<u8>) -> (r: Result<Self, TransportActionWireError>)
        ensures
            opensearch_get_settings_request_read_result(bytes@, r),
    {
        let mut input = StreamInput::new(bytes);
        let ghost s = input.rest();
        let pt = read_parent_task_id(&mut input)?;
        proof {
            assert(input.rest() =~= s.skip(input.pos() - 0));
        }
        let cluster_manager_timeout = TimeValueWire::read(&mut input)?;
        proof {
            assert(input.rest() =~= s.skip(input.pos() - 0));
        }
        let local = lift(input.read_bool())?;
        proof {
            assert(input.rest() =~= s.skip(input.pos() - 0));
        }
        let indices = lift(input.read_string_array())?;
        proof {
            assert(input.rest() =~= s.skip(input.pos() - 0));
        }
        let indices_options = OpenSearchIndicesOptionsWire::read(&mut input)?;
        proof {
            assert(input.rest() =~= s.skip(input.pos() - 0));
        }
        let names = lift(input.read_string_array())?;
        proof {
            assert(input.rest() =~= s.skip(input.pos() - 0));
        }
        let human_readable = lift(input.read_bool())?;
        proof {
            assert(input.rest() =~= s.skip(input.pos() - 0));
        }
        let include_defaults = lift(input.read_bool())?;
        proof {
            assert(input.rest() =~= s.skip(input.pos() - 0));
        }
        let value = OpenSearchGetSettingsRequestWire { parent_task_node: pt.0, parent_task_id: pt.1, cluster_manager_timeout, local, indices, indices_options, names, human_readable, include_defaults };
        require_no_trailing_bytes(&input)?;
        Ok(value)
    }
}

/// The fields of a cluster search shards request, as its bytes carry them.
pub struct OpenSearchClusterSearchShardsRequestView {
    pub parent_task_node: Seq<char>,
    pub parent_task_id: Option<i64>,
    pub cluster_manager_timeout: TimeValueWire,
    pub local: bool,
    pub indices: Seq<Seq<char>>,
    pub routing: Option<Seq<char>>,
    pub preference: Option<Seq<char>>,
    pub indices_options: OpenSearchIndicesOptionsWire,
    pub has_slice: bool,
}

impl View for OpenSearchClusterSearchShardsRequestWire {
    type V = OpenSearchClusterSearchShardsRequestView;

    open spec fn view(&self) -> OpenSearchClusterSearchShardsRequestView {
        OpenSearchClusterSearchShardsRequestView {
            parent_task_node: self.parent_task_node@,
            parent_task_id: self.parent_task_id,
            cluster_manager_timeout: self.cluster_manager_timeout,
            local: self.local,
            indices: strings_view(self.indices@),
            routing: opt_string_view(self.routing),
            preference: opt_string_view(self.preference),
            indices_options: self.indices_options,
            has_slice: self.has_slice,
        }
    }
}

/// The bytes of a cluster search shards request.
pub open spec fn enc_opensearch_cluster_search_shards_request(v: OpenSearchClusterSearchShardsRequestView) -> Seq<u8> {
    enc_parent_task_id(v.parent_task_node, v.parent_task_id)
        + enc_time_value(v.cluster_manager_timeout)
        + enc_bool(v.local)
        + enc_string_array(v.indices)
        + enc_optional_string(v.routing)
        + enc_optional_string(v.preference)
        + enc_indices_options(v.indices_options)
        + enc_bool(v.has_slice)
}

/// What a reader makes of the bytes of a cluster search shards request.
pub open spec fn parse_opensearch_cluster_search_shards_request(s: Seq<u8>) -> WireRead<OpenSearchClusterSearchShardsRequestView> {
    match parse_parent_task_id(s) {
        Some((pt, k0)) => {
            match parse_time_value(s.skip(k0)) {
                Some((cluster_manager_timeout, k1)) => {
                    match parse_bool(s.skip(k0 + k1)) {
                        Some((local, k2)) => {
                            match parse_string_array(s.skip(k0 + k1 + k2)) {
                                Some((indices, k3)) => {
                                    match parse_optional_string(s.skip(k0 + k1 + k2 + k3)) {
                                        Some((routing, k4)) => {
                                            match parse_optional_string(s.skip(k0 + k1 + k2 + k3 + k4)) {
                                                Some((preference, k5)) => {
                                                    match parse_indices_options(s.skip(k0 + k1 + k2 + k3 + k4 + k5)) {
                                                        Some((indices_options, k6)) => {
                                                            match parse_bool(s.skip(k0 + k1 + k2 + k3 + k4 + k5 + k6)) {
                                                                Some((has_slice, k7)) => {
                                                                    if has_slice {
                                                                        WireRead::Unsupported("cluster search shards slice payload"@, "cluster-search-shards slice builders are not decoded by this adapter yet"@)
                                                                    } else {
                                                                        WireRead::Decoded(OpenSearchClusterSearchShardsRequestView { parent_task_node: pt.0, parent_task_id: pt.1, cluster_manager_timeout: cluster_manager_timeout, local: local, indices: indices, routing: routing, preference: preference, indices_options: indices_options, has_slice: has_slice }, k0 + k1 + k2 + k3 + k4 + k5 + k6 + k7)
                                                                    }
                                                                },
                                                                None => WireRead::Malformed,
                                                            }
                                                        },
                                                        None => WireRead::Malformed,
                                                    }
                                                },
                                                None => WireRead::Malformed,
                                            }
                                        },
                                        None => WireRead::Malformed,
                                    }
                                },
                                None => WireRead::Malformed,
                            }
                        },
                        None => WireRead::Malformed,
                    }
                },
                None => WireRead::Malformed,
            }
        },
        None => WireRead::Malformed,
    }
}

/// True when a cluster search shards request reads back as written.
pub open spec fn opensearch_cluster_search_shards_request_fits(v: OpenSearchClusterSearchShardsRequestView) -> bool {
    &&& parent_task_id_canonical(v.parent_task_node, v.parent_task_id)
    &&& strings_fit(v.indices)
    &&& v.indices.len() < 0x8000_0000
    &&& v.routing matches Some(c) ==> string_fits(c)
    &&& v.preference matches Some(c) ==> string_fits(c)
    &&& !v.has_slice
}

/// Reading a cluster search shards request back gives the fields written.
#[verifier::spinoff_prover]
#[verifier::rlimit(100)]
pub proof fn lemma_opensearch_cluster_search_shards_request_roundtrip(v: OpenSearchClusterSearchShardsRequestView, rest: Seq<u8>)
    requires
        opensearch_cluster_search_shards_request_fits(v),
    ensures
        parse_opensearch_cluster_search_shards_request(enc_opensearch_cluster_search_shards_request(v) + rest) == WireRead::Decoded(v, enc_opensearch_cluster_search_shards_request(v).len() as int),
{
    let s = enc_opensearch_cluster_search_shards_request(v) + rest;
    let t7 = enc_bool(v.has_slice) + rest;
    let t6 = enc_indices_options(v.indices_options) + t7;
    let t5 = enc_optional_string(v.preference) + t6;
    let t4 = enc_optional_string(v.routing) + t5;
    let t3 = enc_string_array(v.indices) + t4;
    let t2 = enc_bool(v.local) + t3;
    let t1 = enc_time_value(v.cluster_manager_timeout) + t2;
    let t0 = enc_parent_task_id(v.parent_task_node, v.parent_task_id) + t1;
    let u0 = enc_parent_task_id(v.parent_task_node, v.parent_task_id);
    let u1 = u0 + enc_time_value(v.cluster_manager_timeout);
    let u2 = u1 + enc_bool(v.local);
    let u3 = u2 + enc_string_array(v.indices);
    let u4 = u3 + enc_optional_string(v.routing);
    let u5 = u4 + enc_optional_string(v.preference);
    let u6 = u5 + enc_indices_options(v.indices_options);
    let u7 = u6 + enc_bool(v.has_slice);
    assert(s == u7 + rest);
    lemma_append_assoc(u6, enc_bool(v.has_slice), rest);
    lemma_append_assoc(u5, enc_indices_options(v.indices_options), t7);
    lemma_append_assoc(u4, enc_optional_string(v.preference), t6);
    lemma_append_assoc(u3, enc_optional_string(v.routing), t5);
    lemma_append_assoc(u2, enc_string_array(v.indices), t4);
    lemma_append_assoc(u1, enc_bool(v.local), t3);
    lemma_append_assoc(u0, enc_time_value(v.cluster_manager_timeout), t2);
    assert(s == t0);
    lemma_parent_task_id_roundtrip(v.parent_task_node, v.parent_task_id, t1);
    lemma_skip_append(u0, t1);
    lemma_time_value_roundtrip(v.cluster_manager_timeout, t2);
    lemma_skip_append(u1, t2);
    lemma_bool_roundtrip(v.local, t3);
    lemma_skip_append(u2, t3);
    lemma_string_array_roundtrip(v.indices, t4);
    lemma_skip_append(u3, t4);
    lemma_optional_string_roundtrip(v.routing, t5);
    lemma_skip_append(u4, t5);
    lemma_optional_string_roundtrip(v.preference, t6);
    lemma_skip_append(u5, t6);
    lemma_indices_options_roundtrip(v.indices_options, t7);
    lemma_skip_append(u6, t7);
    lemma_bool_roundtrip(v.has_slice, rest);
}

/// What reading a cluster search shards request from the whole of `bytes` gives: the fields read, a
/// refused shape, or an error.
pub open spec fn opensearch_cluster_search_shards_request_read_result(bytes: Seq<u8>, r: Result<OpenSearchClusterSearchShardsRequestWire, TransportActionWireError>) -> bool {
    match parse_opensearch_cluster_search_shards_request(bytes) {
        WireRead::Decoded(v, n) => if n < bytes.len() {
            r == Err::<OpenSearchClusterSearchShardsRequestWire, TransportActionWireError>(TransportActionWireError::TrailingBytes((bytes.len() - n) as usize))
        } else {
            r matches Ok(x) && x@ == v
        },
        WireRead::Unsupported(shape, reason) => is_unsupported(r, shape, reason),
        WireRead::Malformed => r is Err,
    }
}

/// Reading the whole of a written a cluster search shards request gives back the fields written.
pub proof fn lemma_opensearch_cluster_search_shards_request_read_back(v: OpenSearchClusterSearchShardsRequestView, r: Result<OpenSearchClusterSearchShardsRequestWire, TransportActionWireError>)
    requires
        opensearch_cluster_search_shards_request_fits(v),
        opensearch_cluster_search_shards_request_read_result(enc_opensearch_cluster_search_shards_request(v), r),
    ensures
        r matches Ok(x) && x@ == v,
{
    lemma_opensearch_cluster_search_shards_request_roundtrip(v, Seq::empty());
    assert(enc_opensearch_cluster_search_shards_request(v) + Seq::<u8>::empty() =~= enc_opensearch_cluster_search_shards_request(v));
}

impl OpenSearchClusterSearchShardsRequestWire {
    /// Writes a cluster search shards request.
    pub fn write(&self, output: &mut StreamOutput)
        ensures
            final(output)@ == old(output)@ + enc_opensearch_cluster_search_shards_request(self@),
    {
        write_parent_task_id(output, self.parent_task_node.as_str(), self.parent_task_id);
        assert(output@ == old(output)@ + enc_parent_task_id(self@.parent_task_node, self@.parent_task_id));
        self.cluster_manager_timeout.write(output);
        output.write_bool(self.local);
        output.write_string_array(self.indices.as_slice());
        match &self.routing {
            Some(x) => output.write_optional_string(Some(x.as_str())),
            None => output.write_optional_string(None),
        }
        match &self.preference {
            Some(x) => output.write_optional_string(Some(x.as_str())),
            None => output.write_optional_string(None),
        }
        self.indices_options.write(output);
        output.write_bool(self.has_slice);
        assert(output@ == old(output)@ + enc_opensearch_cluster_search_shards_request(self@));
    }

    /// Reads a cluster search shards request from the whole of `bytes`.
    pub fn read(bytes: Vec<u8>) -> (r: Result<Self, TransportActionWireError>)
        ensures
            opensearch_cluster_search_shards_request_read_result(bytes@, r),
    {
        let mut input = StreamInput::new(bytes);
        let ghost s = input.rest();
        let pt = read_parent_task_id(&mut input)?;
        proof {
            assert(input.rest() =~= s.skip(input.pos() - 0));
        }
        let cluster_manager_timeout = TimeValueWire::read(&mut input)?;
        proof {
            assert(input.rest() =~= s.skip(input.pos() - 0));
        }
        let local = lift(input.read_bool())?;
        proof {
            assert(input.rest() =~= s.skip(input.pos() - 0));
        }
        let indices = lift(input.read_string_array())?;
        proof {
            assert(input.rest() =~= s.skip(input.pos() - 0));
        }
        let routing = lift(input.read_optional_string())?;
        proof {
            assert(input.rest() =~= s.skip(input.pos() - 0));
        }
        let preference = lift(input.read_optional_string())?;
        proof {
            assert(input.rest() =~= s.skip(input.pos() - 0));
        }
        let indices_options = OpenSearchIndicesOptionsWire::read(&mut input)?;
        proof {
            assert(input.rest() =~= s.skip(input.pos() - 0));
        }
        let has_slice = lift(input.read_bool())?;
        if has_slice {
            return Err(TransportActionWireError::UnsupportedWireShape { shape: "cluster search shards slice payload", reason: "cluster-search-shards slice builders are not decoded by this adapter yet" });
        }
        proof {
            assert(input.rest() =~= s.skip(input.pos() - 0));
        }
        let value = OpenSearchClusterSearchShardsRequestWire { parent_task_node: pt.0, parent_task_id: pt.1, cluster_manager_timeout, local, indices, routing, preference, indices_options, has_slice };
        require_no_trailing_bytes(&input)?;
        Ok(value)
    }
}

/// The fields of a recovery request, as its bytes carry them.
pub struct OpenSearchRecoveryRequestView {
    pub parent_task_node: Seq<char>,
    pub parent_task_id: Option<i64>,
    pub indices: Seq<Seq<char>>,
    pub indices_options: OpenSearchIndicesOptionsWire,
    pub detailed: bool,
    pub active_only: bool,
}

impl View for OpenSearchRecoveryRequestWire {
    type V = OpenSearchRecoveryRequestView;

    open spec fn view(&self) -> OpenSearchRecoveryRequestView {
        OpenSearchRecoveryRequestView {
            parent_task_node: self.parent_task_node@,
            parent_task_id: self.parent_task_id,
            indices: strings_view(self.indices@),
            indices_options: self.indices_options,
            detailed: self.detailed,
            active_only: self.active_only,
        }
    }
}

/// The bytes of a recovery request.
pub open spec fn enc_opensearch_recovery_request(v: OpenSearchRecoveryRequestView) -> Seq<u8> {
    enc_parent_task_id(v.parent_task_node, v.parent_task_id)
        + enc_string_array(v.indices)
        + enc_indices_options(v.indices_options)
        + enc_bool(v.detailed)
        + enc_bool(v.active_only)
}

/// What a reader makes of the bytes of a recovery request.
pub open spec fn parse_opensearch_recovery_request(s: Seq<u8>) -> WireRead<OpenSearchRecoveryRequestView> {
    match parse_parent_task_id(s) {
        Some((pt, k0)) => {
            match parse_string_array(s.skip(k0)) {
                Some((indices, k1)) => {
                    match parse_indices_options(s.skip(k0 + k1)) {
                        Some((indices_options, k2)) => {
                            match parse_bool(s.skip(k0 + k1 + k2)) {
                                Some((detailed, k3)) => {
                                    match parse_bool(s.skip(k0 + k1 + k2 + k3)) {
                                        Some((active_only, k4)) => {
                                            WireRead::Decoded(OpenSearchRecoveryRequestView { parent_task_node: pt.0, parent_task_id: pt.1, indices: indices, indices_options: indices_options, detailed: detailed, active_only: active_only }, k0 + k1 + k2 + k3 + k4)
                                        },
                                        None => WireRead::Malformed,
                                    }
                                },
                                None => WireRead::Malformed,
                            }
                        },
                        None => WireRead::Malformed,
                    }
                },
                None => WireRead::Malformed,
            }
        },
        None => WireRead::Malformed,
    }
}

/// True when a recovery request reads back as written.
pub open spec fn opensearch_recovery_request_fits(v: OpenSearchRecoveryRequestView) -> bool {
    &&& parent_task_id_canonical(v.parent_task_node, v.parent_task_id)
    &&& strings_fit(v.indices)
    &&& v.indices.len() < 0x8000_0000
}

/// Reading a recovery request back gives the fields written.
#[verifier::spinoff_prover]
#[verifier::rlimit(100)]
pub proof fn lemma_opensearch_recovery_request_roundtrip(v: OpenSearchRecoveryRequestView, rest: Seq<u8>)
    requires
        opensearch_recovery_request_fits(v),
    ensures
        parse_opensearch_recovery_request(enc_opensearch_recovery_request(v) + rest) == WireRead::Decoded(v, enc_opensearch_recovery_request(v).len() as int),
{
    let s = enc_opensearch_recovery_request(v) + rest;
    let t4 = enc_bool(v.active_only) + rest;
    let t3 = enc_bool(v.detailed) + t4;
    let t2 = enc_indices_options(v.indices_options) + t3;
    let t1 = enc_string_array(v.indices) + t2;
    let t0 = enc_parent_task_id(v.parent_task_node, v.parent_task_id) + t1;
    let u0 = enc_parent_task_id(v.parent_task_node, v.parent_task_id);
    let u1 = u0 + enc_string_array(v.indices);
    let u2 = u1 + enc_indices_options(v.indices_options);
    let u3 = u2 + enc_bool(v.detailed);
    let u4 = u3 + enc_bool(v.active_only);
    assert(s == u4 + rest);
    lemma_append_assoc(u3, enc_bool(v.active_only), rest);
    lemma_append_assoc(u2, enc_bool(v.detailed), t4);
    lemma_append_assoc(u1, enc_indices_options(v.indices_options), t3);
    lemma_append_assoc(u0, enc_string_array(v.indices), t2);
    assert(s == t0);
    lemma_parent_task_id_roundtrip(v.parent_task_node, v.parent_task_id, t1);
    lemma_skip_append(u0, t1);
    lemma_string_array_roundtrip(v.indices, t2);
    lemma_skip_append(u1, t2);
    lemma_indices_options_roundtrip(v.indices_options, t3);
    lemma_skip_append(u2, t3);
    lemma_bool_roundtrip(v.detailed, t4);
    lemma_skip_append(u3, t4);
    lemma_bool_roundtrip(v.active_only, rest);
}

/// What reading a recovery request from the whole of `bytes` gives: the fields read, a
/// refused shape, or an error.
pub open spec fn opensearch_recovery_request_read_result(bytes: Seq<u8>, r: Result<OpenSearchRecoveryRequestWire, TransportActionWireError>) -> bool {
    match parse_opensearch_recovery_request(bytes) {
        WireRead::Decoded(v, n) => if n < bytes.len() {
            r == Err::<OpenSearchRecoveryRequestWire, TransportActionWireError>(TransportActionWireError::TrailingBytes((bytes.len() - n) as usize))
        } else {
            r matches Ok(x) && x@ == v
        },
        WireRead::Unsupported(shape, reason) => is_unsupported(r, shape, reason),
        WireRead::Malformed => r is Err,
    }
}

/// Reading the whole of a written a recovery request gives back the fields written.
pub proof fn lemma_opensearch_recovery_request_read_back(v: OpenSearchRecoveryRequestView, r: Result<OpenSearchRecoveryRequestWire, TransportActionWireError>)
    requires
        opensearch_recovery_request_fits(v),
        opensearch_recovery_request_read_result(enc_opensearch_recovery_request(v), r),
    ensures
        r matches Ok(x) && x@ == v,
{
    lemma_opensearch_recovery_request_roundtrip(v, Seq::empty());
    assert(enc_opensearch_recovery_request(v) + Seq::<u8>::empty() =~= enc_opensearch_recovery_request(v));
}

impl OpenSearchRecoveryRequestWire {
    /// Writes a recovery request.
    pub fn write(&self, output: &mut StreamOutput)
        ensures
            final(output)@ == old(output)@ + enc_opensearch_recovery_request(self@),
    {
        write_parent_task_id(output, self.parent_task_node.as_str(), self.parent_task_id);
        assert(output@ == old(output)@ + enc_parent_task_id(self@.parent_task_node, self@.parent_task_id));
        output.write_string_array(self.indices.as_slice());
        self.indices_options.write(output);
        output.write_bool(self.detailed);
        output.write_bool(self.active_only);
        assert(output@ == old(output)@ + enc_opensearch_recovery_request(self@));
    }

    /// Reads a recovery request from the whole of `bytes`.
    pub fn read(bytes: Vec<u8>) -> (r: Result<Self, TransportActionWireError>)
        ensures
            opensearch_recovery_request_read_result(bytes@, r),
    {
        let mut input = StreamInput::new(bytes);
        let ghost s = input.rest();
        let pt = read_parent_task_id(&mut input)?;
        proof {
            assert(input.rest() =~= s.skip(input.pos() - 0));
        }
        let indices = lift(input.read_string_array())?;
        proof {
            assert(input.rest() =~= s.skip(input.pos() - 0));
        }
        let indices_options = OpenSearchIndicesOptionsWire::read(&mut input)?;
        proof {
            assert(input.rest() =~= s.skip(input.pos() - 0));
        }
        let detailed = lift(input.read_bool())?;
        proof {
            assert(input.rest() =~= s.skip(input.pos() - 0));
        }
        let active_only = lift(input.read_bool())?;
        proof {
            assert(input.rest() =~= s.skip(input.pos() - 0));
        }
        let value = OpenSearchRecoveryRequestWire { parent_task_node: pt.0, parent_task_id: pt.1, indices, indices_options, detailed, active_only };
        require_no_trailing_bytes(&input)?;
        Ok(value)
    }
}

/// The fields of an indices segments request, as its bytes carry them.
pub struct OpenSearchIndicesSegmentsRequestView {
    pub parent_task_node: Seq<char>,
    pub parent_task_id: Option<i64>,
    pub indices: Seq<Seq<char>>,
    pub indices_options: OpenSearchIndicesOptionsWire,
    pub verbose: bool,
}

impl View for OpenSearchIndicesSegmentsRequestWire {
    type V = OpenSearchIndicesSegmentsRequestView;

    open spec fn view(&self) -> OpenSearchIndicesSegmentsRequestView {
        OpenSearchIndicesSegmentsRequestView {
            parent_task_node: self.parent_task_node@,
            parent_task_id: self.parent_task_id,
            indices: strings_view(self.indices@),
            indices_options: self.indices_options,
            verbose: self.verbose,
        }
    }
}

/// The bytes of an indices segments request.
pub open spec fn enc_opensearch_indices_segments_request(v: OpenSearchIndicesSegmentsRequestView) -> Seq<u8> {
    enc_parent_task_id(v.parent_task_node, v.parent_task_id)
        + enc_string_array(v.indices)
        + enc_indices_options(v.indices_options)
        + enc_bool(v.verbose)
}

/// What a reader makes of the bytes of an indices segments request.
pub open spec fn parse_opensearch_indices_segments_request(s: Seq<u8>) -> WireRead<OpenSearchIndicesSegmentsRequestView> {
    match parse_parent_task_id(s) {
        Some((pt, k0)) => {
            match parse_string_array(s.skip(k0)) {
                Some((indices, k1)) => {
                    match parse_indices_options(s.skip(k0 + k1)) {
                        Some((indices_options, k2)) => {
                            match parse_bool(s.skip(k0 + k1 + k2)) {
                                Some((verbose, k3)) => {
                                    WireRead::Decoded(OpenSearchIndicesSegmentsRequestView { parent_task_node: pt.0, parent_task_id: pt.1, indices: indices, indices_options: indices_options, verbose: verbose }, k0 + k1 + k2 + k3)
                                },
                                None => WireRead::Malformed,
                            }
                        },
                        None => WireRead::Malformed,
                    }
                },
                None => WireRead::Malformed,
            }
        },
        None => WireRead::Malformed,
    }
}

/// True when an indices segments request reads back as written.
pub open spec fn opensearch_indices_segments_request_fits(v: OpenSearchIndicesSegmentsRequestView) -> bool {
    &&& parent_task_id_canonical(v.parent_task_node, v.parent_task_id)
    &&& strings_fit(v.indices)
    &&& v.indices.len() < 0x8000_0000
}

/// Reading an indices segments request back gives the fields written.
#[verifier::spinoff_prover]
#[verifier::rlimit(100)]
pub proof fn lemma_opensearch_indices_segments_request_roundtrip(v: OpenSearchIndicesSegmentsRequestView, rest: Seq<u8>)
    requires
        opensearch_indices_segments_request_fits(v),
    ensures
        parse_opensearch_indices_segments_request(enc_opensearch_indices_segments_request(v) + rest) == WireRead::Decoded(v, enc_opensearch_indices_segments_request(v).len() as int),
{
    let s = enc_opensearch_indices_segments_request(v) + rest;
    let t3 = enc_bool(v.verbose) + rest;
    let t2 = enc_indices_options(v.indices_options) + t3;
    let t1 = enc_string_array(v.indices) + t2;
    let t0 = enc_parent_task_id(v.parent_task_node, v.parent_task_id) + t1;
    let u0 = enc_parent_task_id(v.parent_task_node, v.parent_task_id);
    let u1 = u0 + enc_string_array(v.indices);
    let u2 = u1 + enc_indices_options(v.indices_options);
    let u3 = u2 + enc_bool(v.verbose);
    assert(s == u3 + rest);
    lemma_append_assoc(u2, enc_bool(v.verbose), rest);
    lemma_append_assoc(u1, enc_indices_options(v.indices_options), t3);
    lemma_append_assoc(u0, enc_string_array(v.indices), t2);
    assert(s == t0);
    lemma_parent_task_id_roundtrip(v.parent_task_node, v.parent_task_id, t1);
    lemma_skip_append(u0, t1);
    lemma_string_array_roundtrip(v.indices, t2);
    lemma_skip_append(u1, t2);
    lemma_indices_options_roundtrip(v.indices_options, t3);
    lemma_skip_append(u2, t3);
    lemma_bool_roundtrip(v.verbose, rest);
}

/// What reading an indices segments request from the whole of `bytes` gives: the fields read, a
/// refused shape, or an error.
pub open spec fn opensearch_indices_segments_request_read_result(bytes: Seq<u8>, r: Result<OpenSearchIndicesSegmentsRequestWire, TransportActionWireError>) -> bool {
    match parse_opensearch_indices_segments_request(bytes) {
        WireRead::Decoded(v, n) => if n < bytes.len() {
            r == Err::<OpenSearchIndicesSegmentsRequestWire, TransportActionWireError>(TransportActionWireError::TrailingBytes((bytes.len() - n) as usize))
        } else {
            r matches Ok(x) && x@ == v
        },
        WireRead::Unsupported(shape, reason) => is_unsupported(r, shape, reason),
        WireRead::Malformed => r is Err,
    }
}

/// Reading the whole of a written an indices segments request gives back the fields written.
pub proof fn lemma_opensearch_indices_segments_request_read_back(v: OpenSearchIndicesSegmentsRequestView, r: Result<OpenSearchIndicesSegmentsRequestWire, TransportActionWireError>)
    requires
        opensearch_indices_segments_request_fits(v),
        opensearch_indices_segments_request_read_result(enc_opensearch_indices_segments_request(v), r),
    ensures
        r matches Ok(x) && x@ == v,
{
    lemma_opensearch_indices_segments_request_roundtrip(v, Seq::empty());
    assert(enc_opensearch_indices_segments_request(v) + Seq::<u8>::empty() =~= enc_opensearch_indices_segments_request(v));
}

impl OpenSearchIndicesSegmentsRequestWire {
    /// Writes an indices segments request.
    pub fn write(&self, output: &mut StreamOutput)
        ensures
            final(output)@ == old(output)@ + enc_opensearch_indices_segments_request(self@),
    {
        write_parent_task_id(output, self.parent_task_node.as_str(), self.parent_task_id);
        assert(output@ == old(output)@ + enc_parent_task_id(self@.parent_task_node, self@.parent_task_id));
        output.write_string_array(self.indices.as_slice());
        self.indices_options.write(output);
        output.write_bool(self.verbose);
        assert(output@ == old(output)@ + enc_opensearch_indices_segments_request(self@));
    }

    /// Reads an indices segments request from the whole of `bytes`.
    pub fn read(bytes: Vec<u8>) -> (r: Result<Self, TransportActionWireError>)
        ensures
            opensearch_indices_segments_request_read_result(bytes@, r),
    {
        let mut input = StreamInput::new(bytes);
        let ghost s = input.rest();
        let pt = read_parent_task_id(&mut input)?;
        proof {
            assert(input.rest() =~= s.skip(input.pos() - 0));
        }
        let indices = lift(input.read_string_array())?;
        proof {
            assert(input.rest() =~= s.skip(input.pos() - 0));
        }
        let indices_options = OpenSearchIndicesOptionsWire::read(&mut input)?;
        proof {
            assert(input.rest() =~= s.skip(input.pos() - 0));
        }
        let verbose = lift(input.read_bool())?;
        proof {
            assert(input.rest() =~= s.skip(input.pos() - 0));
        }
        let value = OpenSearchIndicesSegmentsRequestWire { parent_task_node: pt.0, parent_task_id: pt.1, indices, indices_options, verbose };
        require_no_trailing_bytes(&input)?;
        Ok(value)
    }
}

/// The fields of an indices shard stores request, as its bytes carry them.
pub struct OpenSearchIndicesShardStoresRequestView {
    pub parent_task_node: Seq<char>,
    pub parent_task_id: Option<i64>,
    pub cluster_manager_timeout: TimeValueWire,
    pub local: bool,
    pub indices: Seq<Seq<char>>,
    pub statuses: Seq<u8>,
    pub indices_options: OpenSearchIndicesOptionsWire,
}

impl View for OpenSearchIndicesShardStoresRequestWire {
    type V = OpenSearchIndicesShardStoresRequestView;

    open spec fn view(&self) -> OpenSearchIndicesShardStoresRequestView {
        OpenSearchIndicesShardStoresRequestView {
            parent_task_node: self.parent_task_node@,
            parent_task_id: self.parent_task_id,
            cluster_manager_timeout: self.cluster_manager_timeout,
            local: self.local,
            indices: strings_view(self.indices@),
            statuses: self.statuses@,
            indices_options: self.indices_options,
        }
    }
}

/// The bytes of an indices shard stores request.
pub open spec fn enc_opensearch_indices_shard_stores_request(v: OpenSearchIndicesShardStoresRequestView) -> Seq<u8> {
    enc_parent_task_id(v.parent_task_node, v.parent_task_id)
        + enc_time_value(v.cluster_manager_timeout)
        + enc_bool(v.local)
        + enc_string_array(v.indices)
        + enc_status_bytes(v.statuses)
        + enc_indices_options(v.indices_options)
}

/// What a reader makes of the bytes of an indices shard stores request.
pub open spec fn parse_opensearch_indices_shard_stores_request(s: Seq<u8>) -> WireRead<OpenSearchIndicesShardStoresRequestView> {
    match parse_parent_task_id(s) {
        Some((pt, k0)) => {
            match parse_time_value(s.skip(k0)) {
                Some((cluster_manager_timeout, k1)) => {
                    match parse_bool(s.skip(k0 + k1)) {
                        Some((local, k2)) => {
                            match parse_string_array(s.skip(k0 + k1 + k2)) {
                                Some((indices, k3)) => {
                                    match parse_status_bytes(s.skip(k0 + k1 + k2 + k3)) {
                                        WireRead::Decoded(statuses, k4) => {
                                            match parse_indices_options(s.skip(k0 + k1 + k2 + k3 + k4)) {
                                                Some((indices_options, k5)) => {
                                                    WireRead::Decoded(OpenSearchIndicesShardStoresRequestView { parent_task_node: pt.0, parent_task_id: pt.1, cluster_manager_timeout: cluster_manager_timeout, local: local, indices: indices, statuses: statuses, indices_options: indices_options }, k0 + k1 + k2 + k3 + k4 + k5)
                                                },
                                                None => WireRead::Malformed,
                                            }
                                        },
                                        WireRead::Unsupported(shape, reason) => WireRead::Unsupported(shape, reason),
                                        WireRead::Malformed => WireRead::Malformed,
                                    }
                                },
                                None => WireRead::Malformed,
                            }
                        },
                        None => WireRead::Malformed,
                    }
                },
                None => WireRead::Malformed,
            }
        },
        None => WireRead::Malformed,
    }
}

/// True when an indices shard stores request reads back as written.
pub open spec fn opensearch_indices_shard_stores_request_fits(v: OpenSearchIndicesShardStoresRequestView) -> bool {
    &&& parent_task_id_canonical(v.parent_task_node, v.parent_task_id)
    &&& strings_fit(v.indices)
    &&& v.indices.len() < 0x8000_0000
    &&& forall|i: int| 0 <= i < v.statuses.len() ==> #[trigger] v.statuses[i] <= 2
    &&& v.statuses.len() < 0x8000_0000
}

/// Reading an indices shard stores request back gives the fields written.
#[verifier::spinoff_prover]
#[verifier::rlimit(100)]
pub proof fn lemma_opensearch_indices_shard_stores_request_roundtrip(v: OpenSearchIndicesShardStoresRequestView, rest: Seq<u8>)
    requires
        opensearch_indices_shard_stores_request_fits(v),
    ensures
        parse_opensearch_indices_shard_stores_request(enc_opensearch_indices_shard_stores_request(v) + rest) == WireRead::Decoded(v, enc_opensearch_indices_shard_stores_request(v).len() as int),
{
    let s = enc_opensearch_indices_shard_stores_request(v) + rest;
    let t5 = enc_indices_options(v.indices_options) + rest;
    let t4 = enc_status_bytes(v.statuses) + t5;
    let t3 = enc_string_array(v.indices) + t4;
    let t2 = enc_bool(v.local) + t3;
    let t1 = enc_time_value(v.cluster_manager_timeout) + t2;
    let t0 = enc_parent_task_id(v.parent_task_node, v.parent_task_id) + t1;
    let u0 = enc_parent_task_id(v.parent_task_node, v.parent_task_id);
    let u1 = u0 + enc_time_value(v.cluster_manager_timeout);
    let u2 = u1 + enc_bool(v.local);
    let u3 = u2 + enc_string_array(v.indices);
    let u4 = u3 + enc_status_bytes(v.statuses);
    let u5 = u4 + enc_indices_options(v.indices_options);
    assert(s == u5 + rest);
    lemma_append_assoc(u4, enc_indices_options(v.indices_options), rest);
    lemma_append_assoc(u3, enc_status_bytes(v.statuses), t5);
    lemma_append_assoc(u2, enc_string_array(v.indices), t4);
    lemma_append_assoc(u1, enc_bool(v.local), t3);
    lemma_append_assoc(u0, enc_time_value(v.cluster_manager_timeout), t2);
    assert(s == t0);
    lemma_parent_task_id_roundtrip(v.parent_task_node, v.parent_task_id, t1);
    lemma_skip_append(u0, t1);
    lemma_time_value_roundtrip(v.cluster_manager_timeout, t2);
    lemma_skip_append(u1, t2);
    lemma_bool_roundtrip(v.local, t3);
    lemma_skip_append(u2, t3);
    lemma_string_array_roundtrip(v.indices, t4);
    lemma_skip_append(u3, t4);
    lemma_status_bytes_roundtrip(v.statuses, t5);
    lemma_skip_append(u4, t5);
    lemma_indices_options_roundtrip(v.indices_options, rest);
}

/// What reading an indices shard stores request from the whole of `bytes` gives: the fields read, a
/// refused shape, or an error.
pub open spec fn opensearch_indices_shard_stores_request_read_result(bytes: Seq<u8>, r: Result<OpenSearchIndicesShardStoresRequestWire, TransportActionWireError>) -> bool {
    match parse_opensearch_indices_shard_stores_request(bytes) {
        WireRead::Decoded(v, n) => if n < bytes.len() {
            r == Err::<OpenSearchIndicesShardStoresRequestWire, TransportActionWireError>(TransportActionWireError::TrailingBytes((bytes.len() - n) as usize))
        } else {
            r matches Ok(x) && x@ == v
        },
        WireRead::Unsupported(shape, reason) => is_unsupported(r, shape, reason),
        WireRead::Malformed => r is Err,
    }
}

/// Reading the whole of a written an indices shard stores request gives back the fields written.
pub proof fn lemma_opensearch_indices_shard_stores_request_read_back(v: OpenSearchIndicesShardStoresRequestView, r: Result<OpenSearchIndicesShardStoresRequestWire, TransportActionWireError>)
    requires
        opensearch_indices_shard_stores_request_fits(v),
        opensearch_indices_shard_stores_request_read_result(enc_opensearch_indices_shard_stores_request(v), r),
    ensures
        r matches Ok(x) && x@ == v,
{
    lemma_opensearch_indices_shard_stores_request_roundtrip(v, Seq::empty());
    assert(enc_opensearch_indices_shard_stores_request(v) + Seq::<u8>::empty() =~= enc_opensearch_indices_shard_stores_request(v));
}

impl OpenSearchIndicesShardStoresRequestWire {
    /// Writes an indices shard stores request.
    pub fn write(&self, output: &mut StreamOutput)
        ensures
            final(output)@ == old(output)@ + enc_opensearch_indices_shard_stores_request(self@),
    {
        write_parent_task_id(output, self.parent_task_node.as_str(), self.parent_task_id);
        assert(output@ == old(output)@ + enc_parent_task_id(self@.parent_task_node, self@.parent_task_id));
        self.cluster_manager_timeout.write(output);
        output.write_bool(self.local);
        output.write_string_array(self.indices.as_slice());
        write_status_bytes(output, self.statuses.as_slice());
        self.indices_options.write(output);
        assert(output@ == old(output)@ + enc_opensearch_indices_shard_stores_request(self@));
    }

    /// Reads an indices shard stores request from the whole of `bytes`.
    pub fn read(bytes: Vec<u8>) -> (r: Result<Self, TransportActionWireError>)
        ensures
            opensearch_indices_shard_stores_request_read_result(bytes@, r),
    {
        let mut input = StreamInput::new(bytes);
        let ghost s = input.rest();
        let pt = read_parent_task_id(&mut input)?;
        proof {
            assert(input.rest() =~= s.skip(input.pos() - 0));
        }
        let cluster_manager_timeout = TimeValueWire::read(&mut input)?;
        proof {
            assert(input.rest() =~= s.skip(input.pos() - 0));
        }
        let local = lift(input.read_bool())?;
        proof {
            assert(input.rest() =~= s.skip(input.pos() - 0));
        }
        let indices = lift(input.read_string_array())?;
        proof {
            assert(input.rest() =~= s.skip(input.pos() - 0));
        }
        let statuses = read_status_bytes(&mut input)?;
        proof {
            assert(input.rest() =~= s.skip(input.pos() - 0));
        }
        let indices_options = OpenSearchIndicesOptionsWire::read(&mut input)?;
        proof {
            assert(input.rest() =~= s.skip(input.pos() - 0));
        }
        let value = OpenSearchIndicesShardStoresRequestWire { parent_task_node: pt.0, parent_task_id: pt.1, cluster_manager_timeout, local, indices, statuses, indices_options };
        require_no_trailing_bytes(&input)?;
        Ok(value)
    }
}

/// The fields of a get data stream request, as its bytes carry them.
pub struct OpenSearchGetDataStreamRequestView {
    pub parent_task_node: Seq<char>,
    pub parent_task_id: Option<i64>,
    pub cluster_manager_timeout: TimeValueWire,
    pub local: bool,
    pub names: Option<Seq<Seq<char>>>,
}

impl View for OpenSearchGetDataStreamRequestWire {
    type V = OpenSearchGetDataStreamRequestView;

    open spec fn view(&self) -> OpenSearchGetDataStreamRequestView {
        OpenSearchGetDataStreamRequestView {
            parent_task_node: self.parent_task_node@,
            parent_task_id: self.parent_task_id,
            cluster_manager_timeout: self.cluster_manager_timeout,
            local: self.local,
            names: opt_strings_view(self.names),
        }
    }
}

/// The bytes of a get data stream request.
pub open spec fn enc_opensearch_get_data_stream_request(v: OpenSearchGetDataStreamRequestView) -> Seq<u8> {
    enc_parent_task_id(v.parent_task_node, v.parent_task_id)
        + enc_time_value(v.cluster_manager_timeout)
        + enc_bool(v.local)
        + enc_optional_string_array(v.names)
}

/// What a reader makes of the bytes of a get data stream request.
pub open spec fn parse_opensearch_get_data_stream_request(s: Seq<u8>) -> WireRead<OpenSearchGetDataStreamRequestView> {
    match parse_parent_task_id(s) {
        Some((pt, k0)) => {
            match parse_time_value(s.skip(k0)) {
                Some((cluster_manager_timeout, k1)) => {
                    match parse_bool(s.skip(k0 + k1)) {
                        Some((local, k2)) => {
                            match parse_optional_string_array(s.skip(k0 + k1 + k2)) {
                                Some((names, k3)) => {
                                    WireRead::Decoded(OpenSearchGetDataStreamRequestView { parent_task_node: pt.0, parent_task_id: pt.1, cluster_manager_timeout: cluster_manager_timeout, local: local, names: names }, k0 + k1 + k2 + k3)
                                },
                                None => WireRead::Malformed,
                            }
                        },
                        None => WireRead::Malformed,
                    }
                },
                None => WireRead::Malformed,
            }
        },
        None => WireRead::Malformed,
    }
}

/// True when a get data stream request reads back as written.
pub open spec fn opensearch_get_data_stream_request_fits(v: OpenSearchGetDataStreamRequestView) -> bool {
    &&& parent_task_id_canonical(v.parent_task_node, v.parent_task_id)
    &&& v.names matches Some(a) ==> strings_fit(a) && a.len() < 0x8000_0000
}

/// Reading a get data stream request back gives the fields written.
#[verifier::spinoff_prover]
#[verifier::rlimit(100)]
pub proof fn lemma_opensearch_get_data_stream_request_roundtrip(v: OpenSearchGetDataStreamRequestView, rest: Seq<u8>)
    requires
        opensearch_get_data_stream_request_fits(v),
    ensures
        parse_opensearch_get_data_stream_request(enc_opensearch_get_data_stream_request(v) + rest) == WireRead::Decoded(v, enc_opensearch_get_data_stream_request(v).len() as int),
{
    let s = enc_opensearch_get_data_stream_request(v) + rest;
    let t3 = enc_optional_string_array(v.names) + rest;
    let t2 = enc_bool(v.local) + t3;
    let t1 = enc_time_value(v.cluster_manager_timeout) + t2;
    let t0 = enc_parent_task_id(v.parent_task_node, v.parent_task_id) + t1;
    let u0 = enc_parent_task_id(v.parent_task_node, v.parent_task_id);
    let u1 = u0 + enc_time_value(v.cluster_manager_timeout);
    let u2 = u1 + enc_bool(v.local);
    let u3 = u2 + enc_optional_string_array(v.names);
    assert(s == u3 + rest);
    lemma_append_assoc(u2, enc_optional_string_array(v.names), rest);
    lemma_append_assoc(u1, enc_bool(v.local), t3);
    lemma_append_assoc(u0, enc_time_value(v.cluster_manager_timeout), t2);
    assert(s == t0);
    lemma_parent_task_id_roundtrip(v.parent_task_node, v.parent_task_id, t1);
    lemma_skip_append(u0, t1);
    lemma_time_value_roundtrip(v.cluster_manager_timeout, t2);
    lemma_skip_append(u1, t2);
    lemma_bool_roundtrip(v.local, t3);
    lemma_skip_append(u2, t3);
    lemma_optional_string_array_roundtrip(v.names, rest);
}

/// What reading a get data stream request from the whole of `bytes` gives: the fields read, a
/// refused shape, or an error.
pub open spec fn opensearch_get_data_stream_request_read_result(bytes: Seq<u8>, r: Result<OpenSearchGetDataStreamRequestWire, TransportActionWireError>) -> bool {
    match parse_opensearch_get_data_stream_request(bytes) {
        WireRead::Decoded(v, n) => if n < bytes.len() {
            r == Err::<OpenSearchGetDataStreamRequestWire, TransportActionWireError>(TransportActionWireError::TrailingBytes((bytes.len() - n) as usize))
        } else {
            r matches Ok(x) && x@ == v
        },
        WireRead::Unsupported(shape, reason) => is_unsupported(r, shape, reason),
        WireRead::Malformed => r is Err,
    }
}

/// Reading the whole of a written a get data stream request gives back the fields written.
pub proof fn lemma_opensearch_get_data_stream_request_read_back(v: OpenSearchGetDataStreamRequestView, r: Result<OpenSearchGetDataStreamRequestWire, TransportActionWireError>)
    requires
        opensearch_get_data_stream_request_fits(v),
        opensearch_get_data_stream_request_read_result(enc_opensearch_get_data_stream_request(v), r),
    ensures
        r matches Ok(x) && x@ == v,
{
    lemma_opensearch_get_data_stream_request_roundtrip(v, Seq::empty());
    assert(enc_opensearch_get_data_stream_request(v) + Seq::<u8>::empty() =~= enc_opensearch_get_data_stream_request(v));
}

impl OpenSearchGetDataStreamRequestWire {
    /// Writes a get data stream request.
    pub fn write(&self, output: &mut StreamOutput)
        ensures
            final(output)@ == old(output)@ + enc_opensearch_get_data_stream_request(self@),
    {
        write_parent_task_id(output, self.parent_task_node.as_str(), self.parent_task_id);
        assert(output@ == old(output)@ + enc_parent_task_id(self@.parent_task_node, self@.parent_task_id));
        self.cluster_manager_timeout.write(output);
        output.write_bool(self.local);
        match &self.names {
            Some(v) => write_optional_string_array(output, Some(v.as_slice())),
            None => write_optional_string_array(output, None),
        }
        assert(output@ == old(output)@ + enc_opensearch_get_data_stream_request(self@));
    }

    /// Reads a get data stream request from the whole of `bytes`.
    pub fn read(bytes: Vec<u8>) -> (r: Result<Self, TransportActionWireError>)
        ensures
            opensearch_get_data_stream_request_read_result(bytes@, r),
    {
        let mut input = StreamInput::new(bytes);
        let ghost s = input.rest();
        let pt = read_parent_task_id(&mut input)?;
        proof {
            assert(input.rest() =~= s.skip(input.pos() - 0));
        }
        let cluster_manager_timeout = TimeValueWire::read(&mut input)?;
        proof {
            assert(input.rest() =~= s.skip(input.pos() - 0));
        }
        let local = lift(input.read_bool())?;
        proof {
            assert(input.rest() =~= s.skip(input.pos() - 0));
        }
        let names = read_optional_string_array(&mut input)?;
        proof {
            assert(input.rest() =~= s.skip(input.pos() - 0));
        }
        let value = OpenSearchGetDataStreamRequestWire { parent_task_node: pt.0, parent_task_id: pt.1, cluster_manager_timeout, local, names };
        require_no_trailing_bytes(&input)?;
        Ok(value)
    }
}

/// The fields of an acknowledged response, as its bytes carry them.
pub struct AcknowledgedResponseView {
    pub acknowledged: bool,
}

impl View for AcknowledgedResponseWire {
    type V = AcknowledgedResponseView;

    open spec fn view(&self) -> AcknowledgedResponseView {
        AcknowledgedResponseView {
            acknowledged: self.acknowledged,
        }
    }
}

/// The bytes of an acknowledged response.
pub open spec fn enc_acknowledged_response(v: AcknowledgedResponseView) -> Seq<u8> {
    enc_bool(v.acknowledged)
}

/// What a reader makes of the bytes of an acknowledged response.
pub open spec fn parse_acknowledged_response(s: Seq<u8>) -> WireRead<AcknowledgedResponseView> {
    match parse_bool(s) {
        Some((acknowledged, k0)) => {
            WireRead::Decoded(AcknowledgedResponseView { acknowledged: acknowledged }, k0)
        },
        None => WireRead::Malformed,
    }
}

/// True when an acknowledged response reads back as written.
pub open spec fn acknowledged_response_fits(v: AcknowledgedResponseView) -> bool {
    true
}

/// Reading an acknowledged response back gives the fields written.
#[verifier::spinoff_prover]
#[verifier::rlimit(100)]
pub proof fn lemma_acknowledged_response_roundtrip(v: AcknowledgedResponseView, rest: Seq<u8>)
    requires
        acknowledged_response_fits(v),
    ensures
        parse_acknowledged_response(enc_acknowledged_response(v) + rest) == WireRead::Decoded(v, enc_acknowledged_response(v).len() as int),
{
    let s = enc_acknowledged_response(v) + rest;
    let t0 = enc_bool(v.acknowledged) + rest;
    let u0 = enc_bool(v.acknowledged);
    assert(s == u0 + rest);
    assert(s == t0);
    lemma_bool_roundtrip(v.acknowledged, rest);
}

/// What reading an acknowledged response from the whole of `bytes` gives: the fields read, a
/// refused shape, or an error.
pub open spec fn acknowledged_response_read_result(bytes: Seq<u8>, r: Result<AcknowledgedResponseWire, TransportActionWireError>) -> bool {
    match parse_acknowledged_response(bytes) {
        WireRead::Decoded(v, n) => if n < bytes.len() {
            r == Err::<AcknowledgedResponseWire, TransportActionWireError>(TransportActionWireError::TrailingBytes((bytes.len() - n) as usize))
        } else {
            r matches Ok(x) && x@ == v
        },
        WireRead::Unsupported(shape, reason) => is_unsupported(r, shape, reason),
        WireRead::Malformed => r is Err,
    }
}

/// Reading the whole of a written an acknowledged response gives back the fields written.
pub proof fn lemma_acknowledged_response_read_back(v: AcknowledgedResponseView, r: Result<AcknowledgedResponseWire, TransportActionWireError>)
    requires
        acknowledged_response_fits(v),
        acknowledged_response_read_result(enc_acknowledged_response(v), r),
    ensures
        r matches Ok(x) && x@ == v,
{
    lemma_acknowledged_response_roundtrip(v, Seq::empty());
    assert(enc_acknowledged_response(v) + Seq::<u8>::empty() =~= enc_acknowledged_response(v));
}

impl AcknowledgedResponseWire {
    /// Writes an acknowledged response.
    pub fn write(&self, output: &mut StreamOutput)
        ensures
            final(output)@ == old(output)@ + enc_acknowledged_response(self@),
    {
        output.write_bool(self.acknowledged);
        assert(output@ == old(output)@ + enc_bool(self@.acknowledged));
        assert(output@ == old(output)@ + enc_acknowledged_response(self@));
    }

    /// Reads an acknowledged response from the whole of `bytes`.
    pub fn read(bytes: Vec<u8>) -> (r: Result<Self, TransportActionWireError>)
        ensures
            acknowledged_response_read_result(bytes@, r),
    {
        let mut input = StreamInput::new(bytes);
        let ghost s = input.rest();
        let acknowledged = lift(input.read_bool())?;
        proof {
            assert(input.rest() =~= s.skip(input.pos() - 0));
        }
        let value = AcknowledgedResponseWire { acknowledged };
        require_no_trailing_bytes(&input)?;
        Ok(value)
    }
}

/// The fields of a pending cluster tasks request, as its bytes carry them.
pub struct PendingClusterTasksRequestView {
    pub parent_task_node: Seq<char>,
    pub parent_task_id: Option<i64>,
    pub cluster_manager_timeout: TimeValueWire,
    pub local: bool,
}

impl View for PendingClusterTasksRequestWire {
    type V = PendingClusterTasksRequestView;

    open spec fn view(&self) -> PendingClusterTasksRequestView {
        PendingClusterTasksRequestView {
            parent_task_node: self.parent_task_node@,
            parent_task_id: self.parent_task_id,
            cluster_manager_timeout: self.cluster_manager_timeout,
            local: self.local,
        }
    }
}

/// The bytes of a pending cluster tasks request.
pub open spec fn enc_pending_cluster_tasks_request(v: PendingClusterTasksRequestView) -> Seq<u8> {
    enc_parent_task_id(v.parent_task_node, v.parent_task_id)
        + enc_time_value(v.cluster_manager_timeout)
        + enc_bool(v.local)
}

/// What a reader makes of the bytes of a pending cluster tasks request.
pub open spec fn parse_pending_cluster_tasks_request(s: Seq<u8>) -> WireRead<PendingClusterTasksRequestView> {
    match parse_parent_task_id(s) {
        Some((pt, k0)) => {
            match parse_time_value(s.skip(k0)) {
                Some((cluster_manager_timeout, k1)) => {
                    match parse_bool(s.skip(k0 + k1)) {
                        Some((local, k2)) => {
                            WireRead::Decoded(PendingClusterTasksRequestView { parent_task_node: pt.0, parent_task_id: pt.1, cluster_manager_timeout: cluster_manager_timeout, local: local }, k0 + k1 + k2)
                        },
                        None => WireRead::Malformed,
                    }
                },
                None => WireRead::Malformed,
            }
        },
        None => WireRead::Malformed,
    }
}

/// True when a pending cluster tasks request reads back as written.
pub open spec fn pending_cluster_tasks_request_fits(v: PendingClusterTasksRequestView) -> bool {
    &&& parent_task_id_canonical(v.parent_task_node, v.parent_task_id)
}

/// Reading a pending cluster tasks request back gives the fields written.
#[verifier::spinoff_prover]
#[verifier::rlimit(100)]
pub proof fn lemma_pending_cluster_tasks_request_roundtrip(v: PendingClusterTasksRequestView, rest: Seq<u8>)
    requires
        pending_cluster_tasks_request_fits(v),
    ensures
        parse_pending_cluster_tasks_request(enc_pending_cluster_tasks_request(v) + rest) == WireRead::Decoded(v, enc_pending_cluster_tasks_request(v).len() as int),
{
    let s = enc_pending_cluster_tasks_request(v) + rest;
    let t2 = enc_bool(v.local) + rest;
    let t1 = enc_time_value(v.cluster_manager_timeout) + t2;
    let t0 = enc_parent_task_id(v.parent_task_node, v.parent_task_id) + t1;
    let u0 = enc_parent_task_id(v.parent_task_node, v.parent_task_id);
    let u1 = u0 + enc_time_value(v.cluster_manager_timeout);
    let u2 = u1 + enc_bool(v.local);
    assert(s == u2 + rest);
    lemma_append_assoc(u1, enc_bool(v.local), rest);
    lemma_append_assoc(u0, enc_time_value(v.cluster_manager_timeout), t2);
    assert(s == t0);
    lemma_parent_task_id_roundtrip(v.parent_task_node, v.parent_task_id, t1);
    lemma_skip_append(u0, t1);
    lemma_time_value_roundtrip(v.cluster_manager_timeout, t2);
    lemma_skip_append(u1, t2);
    lemma_bool_roundtrip(v.local, rest);
}

/// What reading a pending cluster tasks request from the whole of `bytes` gives: the fields read, a
/// refused shape, or an error.
pub open spec fn pending_cluster_tasks_request_read_result(bytes: Seq<u8>, r: Result<PendingClusterTasksRequestWire, TransportActionWireError>) -> bool {
    match parse_pending_cluster_tasks_request(bytes) {
        WireRead::Decoded(v, n) => if n < bytes.len() {
            r == Err::<PendingClusterTasksRequestWire, TransportActionWireError>(TransportActionWireError::TrailingBytes((bytes.len() - n) as usize))
        } else {
            r matches Ok(x) && x@ == v
        },
        WireRead::Unsupported(shape, reason) => is_unsupported(r, shape, reason),
        WireRead::Malformed => r is Err,
    }
}

/// Reading the whole of a written a pending cluster tasks request gives back the fields written.
pub proof fn lemma_pending_cluster_tasks_request_read_back(v: PendingClusterTasksRequestView, r: Result<PendingClusterTasksRequestWire, TransportActionWireError>)
    requires
        pending_cluster_tasks_request_fits(v),
        pending_cluster_tasks_request_read_result(enc_pending_cluster_tasks_request(v), r),
    ensures
        r matches Ok(x) && x@ == v,
{
    lemma_pending_cluster_tasks_request_roundtrip(v, Seq::empty());
    assert(enc_pending_cluster_tasks_request(v) + Seq::<u8>::empty() =~= enc_pending_cluster_tasks_request(v));
}

impl PendingClusterTasksRequestWire {
    /// Writes a pending cluster tasks request.
    pub fn write(&self, output: &mut StreamOutput)
        ensures
            final(output)@ == old(output)@ + enc_pending_cluster_tasks_request(self@),
    {
        write_parent_task_id(output, self.parent_task_node.as_str(), self.parent_task_id);
        assert(output@ == old(output)@ + enc_parent_task_id(self@.parent_task_node, self@.parent_task_id));
        self.cluster_manager_timeout.write(output);
        output.write_bool(self.local);
        assert(output@ == old(output)@ + enc_pending_cluster_tasks_request(self@));
    }

    /// Reads a pending cluster tasks request from the whole of `bytes`.
    pub fn read(bytes: Vec<u8>) -> (r: Result<Self, TransportActionWireError>)
        ensures
            pending_cluster_tasks_request_read_result(bytes@, r),
    {
        let mut input = StreamInput::new(bytes);
        let ghost s = input.rest();
        let pt = read_parent_task_id(&mut input)?;
        proof {
            assert(input.rest() =~= s.skip(input.pos() - 0));
        }
        let cluster_manager_timeout = TimeValueWire::read(&mut input)?;
        proof {
            assert(input.rest() =~= s.skip(input.pos() - 0));
        }
        let local = lift(input.read_bool())?;
        proof {
            assert(input.rest() =~= s.skip(input.pos() - 0));
        }
        let value = PendingClusterTasksRequestWire { parent_task_node: pt.0, parent_task_id: pt.1, cluster_manager_timeout, local };
        require_no_trailing_bytes(&input)?;
        Ok(value)
    }
}

/// The fields of a list tasks request, as its bytes carry them.
pub struct ListTasksRequestView {
    pub parent_task_node: Seq<char>,
    pub parent_task_id: Option<i64>,
    pub task_id: (Seq<char>, Option<i64>),
    pub parent_task_filter: (Seq<char>, Option<i64>),
    pub nodes: Seq<Seq<char>>,
    pub actions: Seq<Seq<char>>,
    pub timeout: Option<TimeValueWire>,
    pub detailed: bool,
    pub wait_for_completion: bool,
}

impl View for ListTasksRequestWire {
    type V = ListTasksRequestView;

    open spec fn view(&self) -> ListTasksRequestView {
        ListTasksRequestView {
            parent_task_node: self.parent_task_node@,
            parent_task_id: self.parent_task_id,
            task_id: (self.task_id.node_id@, self.task_id.id),
            parent_task_filter: (self.parent_task_filter.node_id@, self.parent_task_filter.id),
            nodes: strings_view(self.nodes@),
            actions: strings_view(self.actions@),
            timeout: self.timeout,
            detailed: self.detailed,
            wait_for_completion: self.wait_for_completion,
        }
    }
}

impl ListTasksRequestView {
    /// The first shape of these fields that is not served, with the reason,
    /// or `None` when every shape checked is served.
    pub open spec fn unserved_shape(self) -> Option<(Seq<char>, Seq<char>)> {
        if self.task_id.0.len() != 0 {
            Some(("list tasks task id filter"@, "point task lookup belongs to the get-task adapter and is not mapped here"@))
        } else if self.parent_task_filter.0.len() != 0 {
            Some(("list tasks parent task filter"@, "parent task filtering is not mapped by the empty list-tasks adapter yet"@))
        } else if self.nodes.len() != 0 {
            Some(("list tasks node filter"@, "node-scoped task listing is not mapped by the empty list-tasks adapter yet"@))
        } else if self.actions.len() != 0 {
            Some(("list tasks action filter"@, "action-scoped task listing is not mapped by the empty list-tasks adapter yet"@))
        } else if self.timeout is Some {
            Some(("list tasks timeout"@, "list-tasks timeout is not mapped by the empty list-tasks adapter yet"@))
        } else if self.detailed {
            Some(("list tasks detail flag"@, "detailed task info is not encoded by the empty list-tasks adapter yet"@))
        } else if self.wait_for_completion {
            Some(("list tasks wait for completion"@, "wait-for-completion semantics require tracked runtime task lifecycle"@))
        } else {
            None
        }
    }
}

/// The bytes of a list tasks request.
pub open spec fn enc_list_tasks_request(v: ListTasksRequestView) -> Seq<u8> {
    enc_parent_task_id(v.parent_task_node, v.parent_task_id)
        + enc_parent_task_id(v.task_id.0, v.task_id.1)
        + enc_parent_task_id(v.parent_task_filter.0, v.parent_task_filter.1)
        + enc_string_array(v.nodes)
        + enc_string_array(v.actions)
        + enc_optional_time_value(v.timeout)
        + enc_bool(v.detailed)
        + enc_bool(v.wait_for_completion)
}

/// What a reader makes of the bytes of a list tasks request.
pub open spec fn parse_list_tasks_request(s: Seq<u8>) -> WireRead<ListTasksRequestView> {
    match parse_parent_task_id(s) {
        Some((pt, k0)) => {
            match parse_parent_task_id(s.skip(k0)) {
                Some((task_id, k1)) => {
                    match parse_parent_task_id(s.skip(k0 + k1)) {
                        Some((parent_task_filter, k2)) => {
                            match parse_string_array(s.skip(k0 + k1 + k2)) {
                                Some((nodes, k3)) => {
                                    match parse_string_array(s.skip(k0 + k1 + k2 + k3)) {
                                        Some((actions, k4)) => {
                                            match parse_optional_time_value(s.skip(k0 + k1 + k2 + k3 + k4)) {
                                                Some((timeout, k5)) => {
                                                    match parse_bool(s.skip(k0 + k1 + k2 + k3 + k4 + k5)) {
                                                        Some((detailed, k6)) => {
                                                            match parse_bool(s.skip(k0 + k1 + k2 + k3 + k4 + k5 + k6)) {
                                                                Some((wait_for_completion, k7)) => {
                                                                    WireRead::Decoded(ListTasksRequestView { parent_task_node: pt.0, parent_task_id: pt.1, task_id: task_id, parent_task_filter: parent_task_filter, nodes: nodes, actions: actions, timeout: timeout, detailed: detailed, wait_for_completion: wait_for_completion }, k0 + k1 + k2 + k3 + k4 + k5 + k6 + k7)
                                                                },
                                                                None => WireRead::Malformed,
                                                            }
                                                        },
                                                        None => WireRead::Malformed,
                                                    }
                                                },
                                                None => WireRead::Malformed,
                                            }
                                        },
                                        None => WireRead::Malformed,
                                    }
                                },
                                None => WireRead::Malformed,
                            }
                        },
                        None => WireRead::Malformed,
                    }
                },
                None => WireRead::Malformed,
            }
        },
        None => WireRead::Malformed,
    }
}

/// True when a list tasks request reads back as written.
pub open spec fn list_tasks_request_fits(v: ListTasksRequestView) -> bool {
    &&& parent_task_id_canonical(v.parent_task_node, v.parent_task_id)
    &&& parent_task_id_canonical(v.task_id.0, v.task_id.1)
    &&& parent_task_id_canonical(v.parent_task_filter.0, v.parent_task_filter.1)
    &&& strings_fit(v.nodes)
    &&& v.nodes.len() < 0x8000_0000
    &&& strings_fit(v.actions)
    &&& v.actions.len() < 0x8000_0000
}

/// Reading a list tasks request back gives the fields written.
#[verifier::spinoff_prover]
#[verifier::rlimit(100)]
pub proof fn lemma_list_tasks_request_roundtrip(v: ListTasksRequestView, rest: Seq<u8>)
    requires
        list_tasks_request_fits(v),
    ensures
        parse_list_tasks_request(enc_list_tasks_request(v) + rest) == WireRead::Decoded(v, enc_list_tasks_request(v).len() as int),
{
    let s = enc_list_tasks_request(v) + rest;
    let t7 = enc_bool(v.wait_for_completion) + rest;
    let t6 = enc_bool(v.detailed) + t7;
    let t5 = enc_optional_time_value(v.timeout) + t6;
    let t4 = enc_string_array(v.actions) + t5;
    let t3 = enc_string_array(v.nodes) + t4;
    let t2 = enc_parent_task_id(v.parent_task_filter.0, v.parent_task_filter.1) + t3;
    let t1 = enc_parent_task_id(v.task_id.0, v.task_id.1) + t2;
    let t0 = enc_parent_task_id(v.parent_task_node, v.parent_task_id) + t1;
    let u0 = enc_parent_task_id(v.parent_task_node, v.parent_task_id);
    let u1 = u0 + enc_parent_task_id(v.task_id.0, v.task_id.1);
    let u2 = u1 + enc_parent_task_id(v.parent_task_filter.0, v.parent_task_filter.1);
    let u3 = u2 + enc_string_array(v.nodes);
    let u4 = u3 + enc_string_array(v.actions);
    let u5 = u4 + enc_optional_time_value(v.timeout);
    let u6 = u5 + enc_bool(v.detailed);
    let u7 = u6 + enc_bool(v.wait_for_completion);
    assert(s == u7 + rest);
    lemma_append_assoc(u6, enc_bool(v.wait_for_completion), rest);
    lemma_append_assoc(u5, enc_bool(v.detailed), t7);
    lemma_append_assoc(u4, enc_optional_time_value(v.timeout), t6);
    lemma_append_assoc(u3, enc_string_array(v.actions), t5);
    lemma_append_assoc(u2, enc_string_array(v.nodes), t4);
    lemma_append_assoc(u1, enc_parent_task_id(v.parent_task_filter.0, v.parent_task_filter.1), t3);
    lemma_append_assoc(u0, enc_parent_task_id(v.task_id.0, v.task_id.1), t2);
    assert(s == t0);
    lemma_parent_task_id_roundtrip(v.parent_task_node, v.parent_task_id, t1);
    lemma_skip_append(u0, t1);
    lemma_parent_task_id_roundtrip(v.task_id.0, v.task_id.1, t2);
    lemma_skip_append(u1, t2);
    lemma_parent_task_id_roundtrip(v.parent_task_filter.0, v.parent_task_filter.1, t3);
    lemma_skip_append(u2, t3);
    lemma_string_array_roundtrip(v.nodes, t4);
    lemma_skip_append(u3, t4);
    lemma_string_array_roundtrip(v.actions, t5);
    lemma_skip_append(u4, t5);
    lemma_optional_time_value_roundtrip(v.timeout, t6);
    lemma_skip_append(u5, t6);
    lemma_bool_roundtrip(v.detailed, t7);
    lemma_skip_append(u6, t7);
    lemma_bool_roundtrip(v.wait_for_completion, rest);
}

/// What reading a list tasks request from the whole of `bytes` gives: the fields read, a
/// refused shape, or an error.
pub open spec fn list_tasks_request_read_result(bytes: Seq<u8>, r: Result<ListTasksRequestWire, TransportActionWireError>) -> bool {
    match parse_list_tasks_request(bytes) {
        WireRead::Decoded(v, n) => if n < bytes.len() {
            r == Err::<ListTasksRequestWire, TransportActionWireError>(TransportActionWireError::TrailingBytes((bytes.len() - n) as usize))
        } else {
            match v.unserved_shape() {
                Some((shape, reason)) => is_unsupported(r, shape, reason),
                None => r matches Ok(x) && x@ == v,
            }
        },
        WireRead::Unsupported(shape, reason) => is_unsupported(r, shape, reason),
        WireRead::Malformed => r is Err,
    }
}

/// Reading the whole of a written a list tasks request gives back the fields written.
pub proof fn lemma_list_tasks_request_read_back(v: ListTasksRequestView, r: Result<ListTasksRequestWire, TransportActionWireError>)
    requires
        list_tasks_request_fits(v),
        v.unserved_shape() is None,
        list_tasks_request_read_result(enc_list_tasks_request(v), r),
    ensures
        r matches Ok(x) && x@ == v,
{
    lemma_list_tasks_request_roundtrip(v, Seq::empty());
    assert(enc_list_tasks_request(v) + Seq::<u8>::empty() =~= enc_list_tasks_request(v));
}

impl ListTasksRequestWire {
    /// Writes a list tasks request, once every shape it uses is served.
    pub fn write(&self, output: &mut StreamOutput) -> (r: Result<(), TransportActionWireError>)
        ensures
            match self@.unserved_shape() {
                Some((shape, reason)) => is_unsupported(r, shape, reason) && final(output)@ == old(output)@,
                None => r is Ok && final(output)@ == old(output)@ + enc_list_tasks_request(self@),
            },
    {
        self.validate_supported_subset()?;
        write_parent_task_id(output, self.parent_task_node.as_str(), self.parent_task_id);
        assert(output@ == old(output)@ + enc_parent_task_id(self@.parent_task_node, self@.parent_task_id));
        write_parent_task_id(output, self.task_id.node_id.as_str(), self.task_id.id);
        write_parent_task_id(output, self.parent_task_filter.node_id.as_str(), self.parent_task_filter.id);
        output.write_string_array(self.nodes.as_slice());
        output.write_string_array(self.actions.as_slice());
        match &self.timeout {
            Some(t) => write_optional_time_value(output, Some(t)),
            None => write_optional_time_value(output, None),
        }
        output.write_bool(self.detailed);
        output.write_bool(self.wait_for_completion);
        assert(output@ == old(output)@ + enc_list_tasks_request(self@));
        Ok(())
    }

    /// Reads a list tasks request from the whole of `bytes`.
    pub fn read(bytes: Vec<u8>) -> (r: Result<Self, TransportActionWireError>)
        ensures
            list_tasks_request_read_result(bytes@, r),
    {
        let mut input = StreamInput::new(bytes);
        let ghost s = input.rest();
        let pt = read_parent_task_id(&mut input)?;
        proof {
            assert(input.rest() =~= s.skip(input.pos() - 0));
        }
        let task_id_pair = read_parent_task_id(&mut input)?;
        proof {
            assert(input.rest() =~= s.skip(input.pos() - 0));
        }
        let parent_task_filter_pair = read_parent_task_id(&mut input)?;
        proof {
            assert(input.rest() =~= s.skip(input.pos() - 0));
        }
        let nodes = lift(input.read_string_array())?;
        proof {
            assert(input.rest() =~= s.skip(input.pos() - 0));
        }
        let actions = lift(input.read_string_array())?;
        proof {
            assert(input.rest() =~= s.skip(input.pos() - 0));
        }
        let timeout = read_optional_time_value(&mut input)?;
        proof {
            assert(input.rest() =~= s.skip(input.pos() - 0));
        }
        let detailed = lift(input.read_bool())?;
        proof {
            assert(input.rest() =~= s.skip(input.pos() - 0));
        }
        let wait_for_completion = lift(input.read_bool())?;
        proof {
            assert(input.rest() =~= s.skip(input.pos() - 0));
        }
        let value = ListTasksRequestWire { parent_task_node: pt.0, parent_task_id: pt.1, task_id: TaskIdWire { node_id: task_id_pair.0, id: task_id_pair.1 }, parent_task_filter: TaskIdWire { node_id: parent_task_filter_pair.0, id: parent_task_filter_pair.1 }, nodes, actions, timeout, detailed, wait_for_completion };
        require_no_trailing_bytes(&input)?;
        value.validate_supported_subset()?;
        Ok(value)
    }
}

/// The fields of a get task request, as its bytes carry them.
pub struct GetTaskRequestView {
    pub parent_task_node: Seq<char>,
    pub parent_task_id: Option<i64>,
    pub task_id: (Seq<char>, Option<i64>),
    pub timeout: Option<TimeValueWire>,
    pub wait_for_completion: bool,
}

impl View for GetTaskRequestWire {
    type V = GetTaskRequestView;

    open spec fn view(&self) -> GetTaskRequestView {
        GetTaskRequestView {
            parent_task_node: self.parent_task_node@,
            parent_task_id: self.parent_task_id,
            task_id: (self.task_id.node_id@, self.task_id.id),
            timeout: self.timeout,
            wait_for_completion: self.wait_for_completion,
        }
    }
}

/// The bytes of a get task request.
pub open spec fn enc_get_task_request(v: GetTaskRequestView) -> Seq<u8> {
    enc_parent_task_id(v.parent_task_node, v.parent_task_id)
        + enc_parent_task_id(v.task_id.0, v.task_id.1)
        + enc_optional_time_value(v.timeout)
        + enc_bool(v.wait_for_completion)
}

/// What a reader makes of the bytes of a get task request.
pub open spec fn parse_get_task_request(s: Seq<u8>) -> WireRead<GetTaskRequestView> {
    match parse_parent_task_id(s) {
        Some((pt, k0)) => {
            match parse_parent_task_id(s.skip(k0)) {
                Some((task_id, k1)) => {
                    match parse_optional_time_value(s.skip(k0 + k1)) {
                        Some((timeout, k2)) => {
                            match parse_bool(s.skip(k0 + k1 + k2)) {
                                Some((wait_for_completion, k3)) => {
                                    WireRead::Decoded(GetTaskRequestView { parent_task_node: pt.0, parent_task_id: pt.1, task_id: task_id, timeout: timeout, wait_for_completion: wait_for_completion }, k0 + k1 + k2 + k3)
                                },
                                None => WireRead::Malformed,
                            }
                        },
                        None => WireRead::Malformed,
                    }
                },
                None => WireRead::Malformed,
            }
        },
        None => WireRead::Malformed,
    }
}

/// True when a get task request reads back as written.
pub open spec fn get_task_request_fits(v: GetTaskRequestView) -> bool {
    &&& parent_task_id_canonical(v.parent_task_node, v.parent_task_id)
    &&& parent_task_id_canonical(v.task_id.0, v.task_id.1)
}

/// Reading a get task request back gives the fields written.
#[verifier::spinoff_prover]
#[verifier::rlimit(100)]
pub proof fn lemma_get_task_request_roundtrip(v: GetTaskRequestView, rest: Seq<u8>)
    requires
        get_task_request_fits(v),
    ensures
        parse_get_task_request(enc_get_task_request(v) + rest) == WireRead::Decoded(v, enc_get_task_request(v).len() as int),
{
    let s = enc_get_task_request(v) + rest;
    let t3 = enc_bool(v.wait_for_completion) + rest;
    let t2 = enc_optional_time_value(v.timeout) + t3;
    let t1 = enc_parent_task_id(v.task_id.0, v.task_id.1) + t2;
    let t0 = enc_parent_task_id(v.parent_task_node, v.parent_task_id) + t1;
    let u0 = enc_parent_task_id(v.parent_task_node, v.parent_task_id);
    let u1 = u0 + enc_parent_task_id(v.task_id.0, v.task_id.1);
    let u2 = u1 + enc_optional_time_value(v.timeout);
    let u3 = u2 + enc_bool(v.wait_for_completion);
    assert(s == u3 + rest);
    lemma_append_assoc(u2, enc_bool(v.wait_for_completion), rest);
    lemma_append_assoc(u1, enc_optional_time_value(v.timeout), t3);
    lemma_append_assoc(u0, enc_parent_task_id(v.task_id.0, v.task_id.1), t2);
    assert(s == t0);
    lemma_parent_task_id_roundtrip(v.parent_task_node, v.parent_task_id, t1);
    lemma_skip_append(u0, t1);
    lemma_parent_task_id_roundtrip(v.task_id.0, v.task_id.1, t2);
    lemma_skip_append(u1, t2);
    lemma_optional_time_value_roundtrip(v.timeout, t3);
    lemma_skip_append(u2, t3);
    lemma_bool_roundtrip(v.wait_for_completion, rest);
}

/// What reading a get task request from the whole of `bytes` gives: the fields read, a
/// refused shape, or an error.
pub open spec fn get_task_request_read_result(bytes: Seq<u8>, r: Result<GetTaskRequestWire, TransportActionWireError>) -> bool {
    match parse_get_task_request(bytes) {
        WireRead::Decoded(v, n) => if n < bytes.len() {
            r == Err::<GetTaskRequestWire, TransportActionWireError>(TransportActionWireError::TrailingBytes((bytes.len() - n) as usize))
        } else {
            r matches Ok(x) && x@ == v
        },
        WireRead::Unsupported(shape, reason) => is_unsupported(r, shape, reason),
        WireRead::Malformed => r is Err,
    }
}

/// Reading the whole of a written a get task request gives back the fields written.
pub proof fn lemma_get_task_request_read_back(v: GetTaskRequestView, r: Result<GetTaskRequestWire, TransportActionWireError>)
    requires
        get_task_request_fits(v),
        get_task_request_read_result(enc_get_task_request(v), r),
    ensures
        r matches Ok(x) && x@ == v,
{
    lemma_get_task_request_roundtrip(v, Seq::empty());
    assert(enc_get_task_request(v) + Seq::<u8>::empty() =~= enc_get_task_request(v));
}

impl GetTaskRequestWire {
    /// Writes a get task request.
    pub fn write(&self, output: &mut StreamOutput)
        ensures
            final(output)@ == old(output)@ + enc_get_task_request(self@),
    {
        write_parent_task_id(output, self.parent_task_node.as_str(), self.parent_task_id);
        assert(output@ == old(output)@ + enc_parent_task_id(self@.parent_task_node, self@.parent_task_id));
        write_parent_task_id(output, self.task_id.node_id.as_str(), self.task_id.id);
        match &self.timeout {
            Some(t) => write_optional_time_value(output, Some(t)),
            None => write_optional_time_value(output, None),
        }
        output.write_bool(self.wait_for_completion);
        assert(output@ == old(output)@ + enc_get_task_request(self@));
    }

    /// Reads a get task request from the whole of `bytes`.
    pub fn read(bytes: Vec<u8>) -> (r: Result<Self, TransportActionWireError>)
        ensures
            get_task_request_read_result(bytes@, r),
    {
        let mut input = StreamInput::new(bytes);
        let ghost s = input.rest();
        let pt = read_parent_task_id(&mut input)?;
        proof {
            assert(input.rest() =~= s.skip(input.pos() - 0));
        }
        let task_id_pair = read_parent_task_id(&mut input)?;
        proof {
            assert(input.rest() =~= s.skip(input.pos() - 0));
        }
        let timeout = read_optional_time_value(&mut input)?;
        proof {
            assert(input.rest() =~= s.skip(input.pos() - 0));
        }
        let wait_for_completion = lift(input.read_bool())?;
        proof {
            assert(input.rest() =~= s.skip(input.pos() - 0));
        }
        let value = GetTaskRequestWire { parent_task_node: pt.0, parent_task_id: pt.1, task_id: TaskIdWire { node_id: task_id_pair.0, id: task_id_pair.1 }, timeout, wait_for_completion };
        require_no_trailing_bytes(&input)?;
        Ok(value)
    }
}

/// The fields of a cancel tasks request, as its bytes carry them.
pub struct CancelTasksRequestView {
    pub parent_task_node: Seq<char>,
    pub parent_task_id: Option<i64>,
    pub task_id: (Seq<char>, Option<i64>),
    pub parent_task_filter: (Seq<char>, Option<i64>),
    pub nodes: Seq<Seq<char>>,
    pub actions: Seq<Seq<char>>,
    pub timeout: Option<TimeValueWire>,
    pub reason: Seq<char>,
    pub wait_for_completion: bool,
}

impl View for CancelTasksRequestWire {
    type V = CancelTasksRequestView;

    open spec fn view(&self) -> CancelTasksRequestView {
        CancelTasksRequestView {
            parent_task_node: self.parent_task_node@,
            parent_task_id: self.parent_task_id,
            task_id: (self.task_id.node_id@, self.task_id.id),
            parent_task_filter: (self.parent_task_filter.node_id@, self.parent_task_filter.id),
            nodes: strings_view(self.nodes@),
            actions: strings_view(self.actions@),
            timeout: self.timeout,
            reason: self.reason@,
            wait_for_completion: self.wait_for_completion,
        }
    }
}

impl CancelTasksRequestView {
    /// The first shape of these fields that is not served, with the reason,
    /// or `None` when every shape checked is served.
    pub open spec fn unserved_shape(self) -> Option<(Seq<char>, Seq<char>)> {
        if self.task_id.0.len() != 0 {
            Some(("cancel tasks task id filter"@, "point task cancellation requires runtime task lifecycle mapping"@))
        } else if self.parent_task_filter.0.len() != 0 {
            Some(("cancel tasks parent task filter"@, "parent task cancellation requires runtime task lifecycle mapping"@))
        } else if self.nodes.len() != 0 {
            Some(("cancel tasks node filter"@, "node-scoped task cancellation is not mapped by this adapter yet"@))
        } else if self.actions.len() != 0 {
            Some(("cancel tasks action filter"@, "action-scoped task cancellation is not mapped by this adapter yet"@))
        } else if self.timeout is Some {
            Some(("cancel tasks timeout"@, "cancel-tasks timeout is not mapped by this adapter yet"@))
        } else if self.reason != "by user request"@ {
            Some(("cancel tasks reason"@, "custom cancellation reason is not mapped by this adapter yet"@))
        } else if self.wait_for_completion {
            Some(("cancel tasks wait for completion"@, "wait-for-completion semantics require tracked runtime task lifecycle"@))
        } else {
            None
        }
    }
}

/// The bytes of a cancel tasks request.
pub open spec fn enc_cancel_tasks_request(v: CancelTasksRequestView) -> Seq<u8> {
    enc_parent_task_id(v.parent_task_node, v.parent_task_id)
        + enc_parent_task_id(v.task_id.0, v.task_id.1)
        + enc_parent_task_id(v.parent_task_filter.0, v.parent_task_filter.1)
        + enc_string_array(v.nodes)
        + enc_string_array(v.actions)
        + enc_optional_time_value(v.timeout)
        + enc_string(v.reason)
        + enc_bool(v.wait_for_completion)
}

/// What a reader makes of the bytes of a cancel tasks request.
pub open spec fn parse_cancel_tasks_request(s: Seq<u8>) -> WireRead<CancelTasksRequestView> {
    match parse_parent_task_id(s) {
        Some((pt, k0)) => {
            match parse_parent_task_id(s.skip(k0)) {
                Some((task_id, k1)) => {
                    match parse_parent_task_id(s.skip(k0 + k1)) {
                        Some((parent_task_filter, k2)) => {
                            match parse_string_array(s.skip(k0 + k1 + k2)) {
                                Some((nodes, k3)) => {
                                    match parse_string_array(s.skip(k0 + k1 + k2 + k3)) {
                                        Some((actions, k4)) => {
                                            match parse_optional_time_value(s.skip(k0 + k1 + k2 + k3 + k4)) {
                                                Some((timeout, k5)) => {
                                                    match parse_string(s.skip(k0 + k1 + k2 + k3 + k4 + k5)) {
                                                        Some((reason, k6)) => {
                                                            match parse_bool(s.skip(k0 + k1 + k2 + k3 + k4 + k5 + k6)) {
                                                                Some((wait_for_completion, k7)) => {
                                                                    WireRead::Decoded(CancelTasksRequestView { parent_task_node: pt.0, parent_task_id: pt.1, task_id: task_id, parent_task_filter: parent_task_filter, nodes: nodes, actions: actions, timeout: timeout, reason: reason, wait_for_completion: wait_for_completion }, k0 + k1 + k2 + k3 + k4 + k5 + k6 + k7)
                                                                },
                                                                None => WireRead::Malformed,
                                                            }
                                                        },
                                                        None => WireRead::Malformed,
                                                    }
                                                },
                                                None => WireRead::Malformed,
                                            }
                                        },
                                        None => WireRead::Malformed,
                                    }
                                },
                                None => WireRead::Malformed,
                            }
                        },
                        None => WireRead::Malformed,
                    }
                },
                None => WireRead::Malformed,
            }
        },
        None => WireRead::Malformed,
    }
}

/// True when a cancel tasks request reads back as written.
pub open spec fn cancel_tasks_request_fits(v: CancelTasksRequestView) -> bool {
    &&& parent_task_id_canonical(v.parent_task_node, v.parent_task_id)
    &&& parent_task_id_canonical(v.task_id.0, v.task_id.1)
    &&& parent_task_id_canonical(v.parent_task_filter.0, v.parent_task_filter.1)
    &&& strings_fit(v.nodes)
    &&& v.nodes.len() < 0x8000_0000
    &&& strings_fit(v.actions)
    &&& v.actions.len() < 0x8000_0000
    &&& string_fits(v.reason)
}

/// Reading a cancel tasks request back gives the fields written.
#[verifier::spinoff_prover]
#[verifier::rlimit(100)]
pub proof fn lemma_cancel_tasks_request_roundtrip(v: CancelTasksRequestView, rest: Seq<u8>)
    requires
        cancel_tasks_request_fits(v),
    ensures
        parse_cancel_tasks_request(enc_cancel_tasks_request(v) + rest) == WireRead::Decoded(v, enc_cancel_tasks_request(v).len() as int),
{
    let s = enc_cancel_tasks_request(v) + rest;
    let t7 = enc_bool(v.wait_for_completion) + rest;
    let t6 = enc_string(v.reason) + t7;
    let t5 = enc_optional_time_value(v.timeout) + t6;
    let t4 = enc_string_array(v.actions) + t5;
    let t3 = enc_string_array(v.nodes) + t4;
    let t2 = enc_parent_task_id(v.parent_task_filter.0, v.parent_task_filter.1) + t3;
    let t1 = enc_parent_task_id(v.task_id.0, v.task_id.1) + t2;
    let t0 = enc_parent_task_id(v.parent_task_node, v.parent_task_id) + t1;
    let u0 = enc_parent_task_id(v.parent_task_node, v.parent_task_id);
    let u1 = u0 + enc_parent_task_id(v.task_id.0, v.task_id.1);
    let u2 = u1 + enc_parent_task_id(v.parent_task_filter.0, v.parent_task_filter.1);
    let u3 = u2 + enc_string_array(v.nodes);
    let u4 = u3 + enc_string_array(v.actions);
    let u5 = u4 + enc_optional_time_value(v.timeout);
    let u6 = u5 + enc_string(v.reason);
    let u7 = u6 + enc_bool(v.wait_for_completion);
    assert(s == u7 + rest);
    lemma_append_assoc(u6, enc_bool(v.wait_for_completion), rest);
    lemma_append_assoc(u5, enc_string(v.reason), t7);
    lemma_append_assoc(u4, enc_optional_time_value(v.timeout), t6);
    lemma_append_assoc(u3, enc_string_array(v.actions), t5);
    lemma_append_assoc(u2, enc_string_array(v.nodes), t4);
    lemma_append_assoc(u1, enc_parent_task_id(v.parent_task_filter.0, v.parent_task_filter.1), t3);
    lemma_append_assoc(u0, enc_parent_task_id(v.task_id.0, v.task_id.1), t2);
    assert(s == t0);
    lemma_parent_task_id_roundtrip(v.parent_task_node, v.parent_task_id, t1);
    lemma_skip_append(u0, t1);
    lemma_parent_task_id_roundtrip(v.task_id.0, v.task_id.1, t2);
    lemma_skip_append(u1, t2);
    lemma_parent_task_id_roundtrip(v.parent_task_filter.0, v.parent_task_filter.1, t3);
    lemma_skip_append(u2, t3);
    lemma_string_array_roundtrip(v.nodes, t4);
    lemma_skip_append(u3, t4);
    lemma_string_array_roundtrip(v.actions, t5);
    lemma_skip_append(u4, t5);
    lemma_optional_time_value_roundtrip(v.timeout, t6);
    lemma_skip_append(u5, t6);
    lemma_string_roundtrip(v.reason, t7);
    lemma_skip_append(u6, t7);
    lemma_bool_roundtrip(v.wait_for_completion, rest);
}

/// What reading a cancel tasks request from the whole of `bytes` gives: the fields read, a
/// refused shape, or an error.
pub open spec fn cancel_tasks_request_read_result(bytes: Seq<u8>, r: Result<CancelTasksRequestWire, TransportActionWireError>) -> bool {
    match parse_cancel_tasks_request(bytes) {
        WireRead::Decoded(v, n) => if n < bytes.len() {
            r == Err::<CancelTasksRequestWire, TransportActionWireError>(TransportActionWireError::TrailingBytes((bytes.len() - n) as usize))
        } else {
            match v.unserved_shape() {
                Some((shape, reason)) => is_unsupported(r, shape, reason),
                None => r matches Ok(x) && x@ == v,
            }
        },
        WireRead::Unsupported(shape, reason) => is_unsupported(r, shape, reason),
        WireRead::Malformed => r is Err,
    }
}

/// Reading the whole of a written a cancel tasks request gives back the fields written.
pub proof fn lemma_cancel_tasks_request_read_back(v: CancelTasksRequestView, r: Result<CancelTasksRequestWire, TransportActionWireError>)
    requires
        cancel_tasks_request_fits(v),
        v.unserved_shape() is None,
        cancel_tasks_request_read_result(enc_cancel_tasks_request(v), r),
    ensures
        r matches Ok(x) && x@ == v,
{
    lemma_cancel_tasks_request_roundtrip(v, Seq::empty());
    assert(enc_cancel_tasks_request(v) + Seq::<u8>::empty() =~= enc_cancel_tasks_request(v));
}

impl CancelTasksRequestWire {
    /// Writes a cancel tasks request, once every shape it uses is served.
    pub fn write(&self, output: &mut StreamOutput) -> (r: Result<(), TransportActionWireError>)
        ensures
            match self@.unserved_shape() {
                Some((shape, reason)) => is_unsupported(r, shape, reason) && final(output)@ == old(output)@,
                None => r is Ok && final(output)@ == old(output)@ + enc_cancel_tasks_request(self@),
            },
    {
        self.validate_supported_subset()?;
        write_parent_task_id(output, self.parent_task_node.as_str(), self.parent_task_id);
        assert(output@ == old(output)@ + enc_parent_task_id(self@.parent_task_node, self@.parent_task_id));
        write_parent_task_id(output, self.task_id.node_id.as_str(), self.task_id.id);
        write_parent_task_id(output, self.parent_task_filter.node_id.as_str(), self.parent_task_filter.id);
        output.write_string_array(self.nodes.as_slice());
        output.write_string_array(self.actions.as_slice());
        match &self.timeout {
            Some(t) => write_optional_time_value(output, Some(t)),
            None => write_optional_time_value(output, None),
        }
        output.write_string(self.reason.as_str());
        output.write_bool(self.wait_for_completion);
        assert(output@ == old(output)@ + enc_cancel_tasks_request(self@));
        Ok(())
    }

    /// Reads a cancel tasks request from the whole of `bytes`.
    pub fn read(bytes: Vec<u8>) -> (r: Result<Self, TransportActionWireError>)
        ensures
            cancel_tasks_request_read_result(bytes@, r),
    {
        let mut input = StreamInput::new(bytes);
        let ghost s = input.rest();
        let pt = read_parent_task_id(&mut input)?;
        proof {
            assert(input.rest() =~= s.skip(input.pos() - 0));
        }
        let task_id_pair = read_parent_task_id(&mut input)?;
        proof {
            assert(input.rest() =~= s.skip(input.pos() - 0));
        }
        let parent_task_filter_pair = read_parent_task_id(&mut input)?;
        proof {
            assert(input.rest() =~= s.skip(input.pos() - 0));
        }
        let nodes = lift(input.read_string_array())?;
        proof {
            assert(input.rest() =~= s.skip(input.pos() - 0));
        }
        let actions = lift(input.read_string_array())?;
        proof {
            assert(input.rest() =~= s.skip(input.pos() - 0));
        }
        let timeout = read_optional_time_value(&mut input)?;
        proof {
            assert(input.rest() =~= s.skip(input.pos() - 0));
        }
        let reason = lift(input.read_string())?;
        proof {
            assert(input.rest() =~= s.skip(input.pos() - 0));
        }
        let wait_for_completion = lift(input.read_bool())?;
        proof {
            assert(input.rest() =~= s.skip(input.pos() - 0));
        }
        let value = CancelTasksRequestWire { parent_task_node: pt.0, parent_task_id: pt.1, task_id: TaskIdWire { node_id: task_id_pair.0, id: task_id_pair.1 }, parent_task_filter: TaskIdWire { node_id: parent_task_filter_pair.0, id: parent_task_filter_pair.1 }, nodes, actions, timeout, reason, wait_for_completion };
        require_no_trailing_bytes(&input)?;
        value.validate_supported_subset()?;
        Ok(value)
    }
}

/// The fields of a list tasks response, as its bytes carry them.
pub struct ListTasksResponseView {
    pub task_failure_count: i32,
    pub node_failure_count: i32,
    pub task_count: i32,
}

impl View for ListTasksResponseWire {
    type V = ListTasksResponseView;

    open spec fn view(&self) -> ListTasksResponseView {
        ListTasksResponseView {
            task_failure_count: self.task_failure_count,
            node_failure_count: self.node_failure_count,
            task_count: self.task_count,
        }
    }
}

/// The bytes of a list tasks response.
pub open spec fn enc_list_tasks_response(v: ListTasksResponseView) -> Seq<u8> {
    enc_vint(v.task_failure_count)
        + enc_vint(v.node_failure_count)
        + enc_vint(v.task_count)
}

/// What a reader makes of the bytes of a list tasks response.
pub open spec fn parse_list_tasks_response(s: Seq<u8>) -> WireRead<ListTasksResponseView> {
    match parse_vint(s) {
        Some((task_failure_count, k0)) => {
            match parse_vint(s.skip(k0)) {
                Some((node_failure_count, k1)) => {
                    match parse_vint(s.skip(k0 + k1)) {
                        Some((task_count, k2)) => {
                            if task_failure_count != 0 {
                                WireRead::Unsupported("list tasks task failures"@, "task failure exception payloads are not decoded by this adapter yet"@)
                            } else if node_failure_count != 0 {
                                WireRead::Unsupported("list tasks node failures"@, "node failure exception payloads are not decoded by this adapter yet"@)
                            } else if task_count != 0 {
                                WireRead::Unsupported("list tasks task info"@, "task info payloads are not decoded by this adapter yet"@)
                            } else {
                                WireRead::Decoded(ListTasksResponseView { task_failure_count: task_failure_count, node_failure_count: node_failure_count, task_count: task_count }, k0 + k1 + k2)
                            }
                        },
                        None => WireRead::Malformed,
                    }
                },
                None => WireRead::Malformed,
            }
        },
        None => WireRead::Malformed,
    }
}

/// True when a list tasks response reads back as written.
pub open spec fn list_tasks_response_fits(v: ListTasksResponseView) -> bool {
    &&& !(v.task_failure_count != 0)
    &&& !(v.node_failure_count != 0)
    &&& !(v.task_count != 0)
}

/// Reading a list tasks response back gives the fields written.
#[verifier::spinoff_prover]
#[verifier::rlimit(100)]
pub proof fn lemma_list_tasks_response_roundtrip(v: ListTasksResponseView, rest: Seq<u8>)
    requires
        list_tasks_response_fits(v),
    ensures
        parse_list_tasks_response(enc_list_tasks_response(v) + rest) == WireRead::Decoded(v, enc_list_tasks_response(v).len() as int),
{
    let s = enc_list_tasks_response(v) + rest;
    let t2 = enc_vint(v.task_count) + rest;
    let t1 = enc_vint(v.node_failure_count) + t2;
    let t0 = enc_vint(v.task_failure_count) + t1;
    let u0 = enc_vint(v.task_failure_count);
    let u1 = u0 + enc_vint(v.node_failure_count);
    let u2 = u1 + enc_vint(v.task_count);
    assert(s == u2 + rest);
    lemma_append_assoc(u1, enc_vint(v.task_count), rest);
    lemma_append_assoc(u0, enc_vint(v.node_failure_count), t2);
    assert(s == t0);
    lemma_vint_roundtrip(v.task_failure_count, t1);
    lemma_skip_append(u0, t1);
    lemma_vint_roundtrip(v.node_failure_count, t2);
    lemma_skip_append(u1, t2);
    lemma_vint_roundtrip(v.task_count, rest);
}

/// What reading a list tasks response from the whole of `bytes` gives: the fields read, a
/// refused shape, or an error.
pub open spec fn list_tasks_response_read_result(bytes: Seq<u8>, r: Result<ListTasksResponseWire, TransportActionWireError>) -> bool {
    match parse_list_tasks_response(bytes) {
        WireRead::Decoded(v, n) => if n < bytes.len() {
            r == Err::<ListTasksResponseWire, TransportActionWireError>(TransportActionWireError::TrailingBytes((bytes.len() - n) as usize))
        } else {
            r matches Ok(x) && x@ == v
        },
        WireRead::Unsupported(shape, reason) => is_unsupported(r, shape, reason),
        WireRead::Malformed => r is Err,
    }
}

/// Reading the whole of a written a list tasks response gives back the fields written.
pub proof fn lemma_list_tasks_response_read_back(v: ListTasksResponseView, r: Result<ListTasksResponseWire, TransportActionWireError>)
    requires
        list_tasks_response_fits(v),
        list_tasks_response_read_result(enc_list_tasks_response(v), r),
    ensures
        r matches Ok(x) && x@ == v,
{
    lemma_list_tasks_response_roundtrip(v, Seq::empty());
    assert(enc_list_tasks_response(v) + Seq::<u8>::empty() =~= enc_list_tasks_response(v));
}

/// The first shape of a list tasks response that a writer refuses, with the reason.
pub open spec fn list_tasks_response_write_refusal(v: ListTasksResponseView) -> Option<(Seq<char>, Seq<char>)> {
    if (v.task_failure_count != 0) {
        Some(("list tasks task failures"@, "task failure exception payloads are not encoded by this adapter yet"@))
    } else if (v.node_failure_count != 0) {
        Some(("list tasks node failures"@, "node failure exception payloads are not encoded by this adapter yet"@))
    } else if (v.task_count != 0) {
        Some(("list tasks task info"@, "task info payloads require runtime task lifecycle mapping"@))
    } else {
        None
    }
}

impl ListTasksResponseWire {
    /// Writes a list tasks response; refuses the shapes a writer does not encode.
    pub fn write(&self, output: &mut StreamOutput) -> (r: Result<(), TransportActionWireError>)
        ensures
            match list_tasks_response_write_refusal(self@) {
                Some((shape, reason)) => is_unsupported(r, shape, reason),
                None => r is Ok && final(output)@ == old(output)@ + enc_list_tasks_response(self@),
            },
    {
        if self.task_failure_count != 0 {
            return Err(TransportActionWireError::UnsupportedWireShape { shape: "list tasks task failures", reason: "task failure exception payloads are not encoded by this adapter yet" });
        }
        if self.node_failure_count != 0 {
            return Err(TransportActionWireError::UnsupportedWireShape { shape: "list tasks node failures", reason: "node failure exception payloads are not encoded by this adapter yet" });
        }
        if self.task_count != 0 {
            return Err(TransportActionWireError::UnsupportedWireShape { shape: "list tasks task info", reason: "task info payloads require runtime task lifecycle mapping" });
        }
        output.write_vint(self.task_failure_count);
        assert(output@ == old(output)@ + enc_vint(self@.task_failure_count));
        output.write_vint(self.node_failure_count);
        output.write_vint(self.task_count);
        assert(output@ == old(output)@ + enc_list_tasks_response(self@));
        Ok(())
    }

    /// Reads a list tasks response from the whole of `bytes`.
    pub fn read(bytes: Vec<u8>) -> (r: Result<Self, TransportActionWireError>)
        ensures
            list_tasks_response_read_result(bytes@, r),
    {
        let mut input = StreamInput::new(bytes);
        let ghost s = input.rest();
        let task_failure_count = lift(input.read_vint())?;
        proof {
            assert(input.rest() =~= s.skip(input.pos() - 0));
        }
        let node_failure_count = lift(input.read_vint())?;
        proof {
            assert(input.rest() =~= s.skip(input.pos() - 0));
        }
        let task_count = lift(input.read_vint())?;
        proof {
            assert(input.rest() =~= s.skip(input.pos() - 0));
        }
        let value = ListTasksResponseWire { task_failure_count, node_failure_count, task_count };
        if value.task_failure_count != 0 {
            return Err(TransportActionWireError::UnsupportedWireShape { shape: "list tasks task failures", reason: "task failure exception payloads are not decoded by this adapter yet" });
        }
        if value.node_failure_count != 0 {
            return Err(TransportActionWireError::UnsupportedWireShape { shape: "list tasks node failures", reason: "node failure exception payloads are not decoded by this adapter yet" });
        }
        if value.task_count != 0 {
            return Err(TransportActionWireError::UnsupportedWireShape { shape: "list tasks task info", reason: "task info payloads are not decoded by this adapter yet" });
        }
        require_no_trailing_bytes(&input)?;
        Ok(value)
    }
}

/// The fields of a get task response, as its bytes carry them.
pub struct GetTaskResponseView {
    pub task_result_present: bool,
}

impl View for GetTaskResponseWire {
    type V = GetTaskResponseView;

    open spec fn view(&self) -> GetTaskResponseView {
        GetTaskResponseView {
            task_result_present: self.task_result_present,
        }
    }
}

/// The bytes of a get task response.
pub open spec fn enc_get_task_response(v: GetTaskResponseView) -> Seq<u8> {
    enc_bool(v.task_result_present)
}

/// What a reader makes of the bytes of a get task response.
pub open spec fn parse_get_task_response(s: Seq<u8>) -> WireRead<GetTaskResponseView> {
    match parse_bool(s) {
        Some((task_result_present, k0)) => {
            if task_result_present {
                WireRead::Unsupported("get task result"@, "task result payloads are not decoded by this adapter yet"@)
            } else {
                WireRead::Decoded(GetTaskResponseView { task_result_present: task_result_present }, k0)
            }
        },
        None => WireRead::Malformed,
    }
}

/// True when a get task response reads back as written.
pub open spec fn get_task_response_fits(v: GetTaskResponseView) -> bool {
    &&& !v.task_result_present
}

/// Reading a get task response back gives the fields written.
#[verifier::spinoff_prover]
#[verifier::rlimit(100)]
pub proof fn lemma_get_task_response_roundtrip(v: GetTaskResponseView, rest: Seq<u8>)
    requires
        get_task_response_fits(v),
    ensures
        parse_get_task_response(enc_get_task_response(v) + rest) == WireRead::Decoded(v, enc_get_task_response(v).len() as int),
{
    let s = enc_get_task_response(v) + rest;
    let t0 = enc_bool(v.task_result_present) + rest;
    let u0 = enc_bool(v.task_result_present);
    assert(s == u0 + rest);
    assert(s == t0);
    lemma_bool_roundtrip(v.task_result_present, rest);
}

/// What reading a get task response from the whole of `bytes` gives: the fields read, a
/// refused shape, or an error.
pub open spec fn get_task_response_read_result(bytes: Seq<u8>, r: Result<GetTaskResponseWire, TransportActionWireError>) -> bool {
    match parse_get_task_response(bytes) {
        WireRead::Decoded(v, n) => if n < bytes.len() {
            r == Err::<GetTaskResponseWire, TransportActionWireError>(TransportActionWireError::TrailingBytes((bytes.len() - n) as usize))
        } else {
            r matches Ok(x) && x@ == v
        },
        WireRead::Unsupported(shape, reason) => is_unsupported(r, shape, reason),
        WireRead::Malformed => r is Err,
    }
}

/// Reading the whole of a written a get task response gives back the fields written.
pub proof fn lemma_get_task_response_read_back(v: GetTaskResponseView, r: Result<GetTaskResponseWire, TransportActionWireError>)
    requires
        get_task_response_fits(v),
        get_task_response_read_result(enc_get_task_response(v), r),
    ensures
        r matches Ok(x) && x@ == v,
{
    lemma_get_task_response_roundtrip(v, Seq::empty());
    assert(enc_get_task_response(v) + Seq::<u8>::empty() =~= enc_get_task_response(v));
}

impl GetTaskResponseWire {
    /// Writes a get task response.
    pub fn write(&self, output: &mut StreamOutput)
        ensures
            final(output)@ == old(output)@ + enc_get_task_response(self@),
    {
        output.write_bool(self.task_result_present);
        assert(output@ == old(output)@ + enc_bool(self@.task_result_present));
        assert(output@ == old(output)@ + enc_get_task_response(self@));
    }

    /// Reads a get task response from the whole of `bytes`.
    pub fn read(bytes: Vec<u8>) -> (r: Result<Self, TransportActionWireError>)
        ensures
            get_task_response_read_result(bytes@, r),
    {
        let mut input = StreamInput::new(bytes);
        let ghost s = input.rest();
        let task_result_present = lift(input.read_bool())?;
        if task_result_present {
            return Err(TransportActionWireError::UnsupportedWireShape { shape: "get task result", reason: "task result payloads are not decoded by this adapter yet" });
        }
        proof {
            assert(input.rest() =~= s.skip(input.pos() - 0));
        }
        let value = GetTaskResponseWire { task_result_present };
        require_no_trailing_bytes(&input)?;
        Ok(value)
    }
}

/// The wire order of a cluster state request: its fields go on the wire one after the
/// other in the order listed here, and a reader given them in that order
/// reads each back into its own field, whatever follows them.
pub proof fn lemma_cluster_state_request_wire_order(v: ClusterStateRequestView, rest: Seq<u8>)
    requires
        cluster_state_request_fits(v),
    ensures
        enc_cluster_state_request(v) == (enc_parent_task_id(v.parent_task_node, v.parent_task_id) + enc_time_value(v.cluster_manager_timeout) + enc_bool(v.local) + enc_bool(v.routing_table) + enc_bool(v.nodes) + enc_bool(v.metadata) + enc_bool(v.blocks) + enc_bool(v.customs) + enc_string_array(v.indices) + enc_string(v.indices_options) + enc_time_value(v.wait_for_timeout) + enc_optional_i64(v.wait_for_metadata_version)),
        parse_cluster_state_request((enc_parent_task_id(v.parent_task_node, v.parent_task_id) + enc_time_value(v.cluster_manager_timeout) + enc_bool(v.local) + enc_bool(v.routing_table) + enc_bool(v.nodes) + enc_bool(v.metadata) + enc_bool(v.blocks) + enc_bool(v.customs) + enc_string_array(v.indices) + enc_string(v.indices_options) + enc_time_value(v.wait_for_timeout) + enc_optional_i64(v.wait_for_metadata_version)) + rest) == WireRead::Decoded(v, (enc_parent_task_id(v.parent_task_node, v.parent_task_id) + enc_time_value(v.cluster_manager_timeout) + enc_bool(v.local) + enc_bool(v.routing_table) + enc_bool(v.nodes) + enc_bool(v.metadata) + enc_bool(v.blocks) + enc_bool(v.customs) + enc_string_array(v.indices) + enc_string(v.indices_options) + enc_time_value(v.wait_for_timeout) + enc_optional_i64(v.wait_for_metadata_version)).len() as int),
{
    assert(enc_cluster_state_request(v) =~= (enc_parent_task_id(v.parent_task_node, v.parent_task_id) + enc_time_value(v.cluster_manager_timeout) + enc_bool(v.local) + enc_bool(v.routing_table) + enc_bool(v.nodes) + enc_bool(v.metadata) + enc_bool(v.blocks) + enc_bool(v.customs) + enc_string_array(v.indices) + enc_string(v.indices_options) + enc_time_value(v.wait_for_timeout) + enc_optional_i64(v.wait_for_metadata_version)));
    lemma_cluster_state_request_roundtrip(v, rest);
}

/// The wire order of a cluster health request: its fields go on the wire one after the
/// other in the order listed here, and a reader given them in that order
/// reads each back into its own field, whatever follows them.
pub proof fn lemma_cluster_health_request_wire_order(v: ClusterHealthRequestView, rest: Seq<u8>)
    requires
        cluster_health_request_fits(v),
    ensures
        enc_cluster_health_request(v) == (enc_parent_task_id(v.parent_task_node, v.parent_task_id) + enc_time_value(v.cluster_manager_timeout) + enc_bool(v.local) + enc_string_array(v.indices) + enc_time_value(v.timeout) + enc_optional_byte(v.wait_for_status) + enc_bool(v.wait_for_no_relocating_shards) + enc_i32(v.wait_for_active_shards) + enc_string(v.wait_for_nodes) + enc_optional_byte(v.wait_for_events) + enc_bool(v.wait_for_no_initializing_shards) + enc_enum_set(v.indices_options) + enc_enum_set(v.expand_wildcards) + enc_optional_string(v.awareness_attribute) + enc_vint(v.level as i32) + enc_bool(v.ensure_node_weighed_in) + enc_bool(v.apply_level_at_transport_layer)),
        parse_cluster_health_request((enc_parent_task_id(v.parent_task_node, v.parent_task_id) + enc_time_value(v.cluster_manager_timeout) + enc_bool(v.local) + enc_string_array(v.indices) + enc_time_value(v.timeout) + enc_optional_byte(v.wait_for_status) + enc_bool(v.wait_for_no_relocating_shards) + enc_i32(v.wait_for_active_shards) + enc_string(v.wait_for_nodes) + enc_optional_byte(v.wait_for_events) + enc_bool(v.wait_for_no_initializing_shards) + enc_enum_set(v.indices_options) + enc_enum_set(v.expand_wildcards) + enc_optional_string(v.awareness_attribute) + enc_vint(v.level as i32) + enc_bool(v.ensure_node_weighed_in) + enc_bool(v.apply_level_at_transport_layer)) + rest) == WireRead::Decoded(v, (enc_parent_task_id(v.parent_task_node, v.parent_task_id) + enc_time_value(v.cluster_manager_timeout) + enc_bool(v.local) + enc_string_array(v.indices) + enc_time_value(v.timeout) + enc_optional_byte(v.wait_for_status) + enc_bool(v.wait_for_no_relocating_shards) + enc_i32(v.wait_for_active_shards) + enc_string(v.wait_for_nodes) + enc_optional_byte(v.wait_for_events) + enc_bool(v.wait_for_no_initializing_shards) + enc_enum_set(v.indices_options) + enc_enum_set(v.expand_wildcards) + enc_optional_string(v.awareness_attribute) + enc_vint(v.level as i32) + enc_bool(v.ensure_node_weighed_in) + enc_bool(v.apply_level_at_transport_layer)).len() as int),
{
    assert(enc_cluster_health_request(v) =~= (enc_parent_task_id(v.parent_task_node, v.parent_task_id) + enc_time_value(v.cluster_manager_timeout) + enc_bool(v.local) + enc_string_array(v.indices) + enc_time_value(v.timeout) + enc_optional_byte(v.wait_for_status) + enc_bool(v.wait_for_no_relocating_shards) + enc_i32(v.wait_for_active_shards) + enc_string(v.wait_for_nodes) + enc_optional_byte(v.wait_for_events) + enc_bool(v.wait_for_no_initializing_shards) + enc_enum_set(v.indices_options) + enc_enum_set(v.expand_wildcards) + enc_optional_string(v.awareness_attribute) + enc_vint(v.level as i32) + enc_bool(v.ensure_node_weighed_in) + enc_bool(v.apply_level_at_transport_layer)));
    lemma_cluster_health_request_roundtrip(v, rest);
}

/// The wire order of a cluster stats request: its fields go on the wire one after the
/// other in the order listed here, and a reader given them in that order
/// reads each back into its own field, whatever follows them.
pub proof fn lemma_cluster_stats_request_wire_order(v: ClusterStatsRequestView, rest: Seq<u8>)
    requires
        cluster_stats_request_fits(v),
    ensures
        enc_cluster_stats_request(v) == (enc_parent_task_id(v.parent_task_node, v.parent_task_id) + enc_string_array(v.node_ids) + enc_bool(false) + enc_optional_time_value(v.timeout) + enc_optional_bool(v.use_aggregated_node_level_responses) + enc_optional_bool(v.compute_all_metrics) + enc_i64(v.metric_flags) + enc_i64(v.index_metric_flags)),
        parse_cluster_stats_request((enc_parent_task_id(v.parent_task_node, v.parent_task_id) + enc_string_array(v.node_ids) + enc_bool(false) + enc_optional_time_value(v.timeout) + enc_optional_bool(v.use_aggregated_node_level_responses) + enc_optional_bool(v.compute_all_metrics) + enc_i64(v.metric_flags) + enc_i64(v.index_metric_flags)) + rest) == WireRead::Decoded(v, (enc_parent_task_id(v.parent_task_node, v.parent_task_id) + enc_string_array(v.node_ids) + enc_bool(false) + enc_optional_time_value(v.timeout) + enc_optional_bool(v.use_aggregated_node_level_responses) + enc_optional_bool(v.compute_all_metrics) + enc_i64(v.metric_flags) + enc_i64(v.index_metric_flags)).len() as int),
{
    assert(enc_cluster_stats_request(v) =~= (enc_parent_task_id(v.parent_task_node, v.parent_task_id) + enc_string_array(v.node_ids) + enc_bool(false) + enc_optional_time_value(v.timeout) + enc_optional_bool(v.use_aggregated_node_level_responses) + enc_optional_bool(v.compute_all_metrics) + enc_i64(v.metric_flags) + enc_i64(v.index_metric_flags)));
    lemma_cluster_stats_request_roundtrip(v, rest);
}

/// The wire order of a common stats flags: its fields go on the wire one after the
/// other in the order listed here, and a reader given them in that order
/// reads each back into its own field, whatever follows them.
pub proof fn lemma_common_stats_flags_wire_order(v: CommonStatsFlagsView, rest: Seq<u8>)
    requires
        common_stats_flags_fits(v),
    ensures
        enc_common_stats_flags(v) == (enc_i64(v.flags) + enc_string_array(v.groups) + enc_string_array(v.field_data_fields) + enc_string_array(v.completion_data_fields) + enc_bool(v.include_segment_file_sizes) + enc_bool(v.include_unloaded_segments) + enc_bool(v.include_all_shard_indexing_pressure_trackers) + enc_bool(v.include_only_top_indexing_pressure_metrics) + enc_enum_set(v.include_caches) + enc_string_array(v.levels) + enc_bool(v.include_indices_stats_by_level)),
        parse_common_stats_flags((enc_i64(v.flags) + enc_string_array(v.groups) + enc_string_array(v.field_data_fields) + enc_string_array(v.completion_data_fields) + enc_bool(v.include_segment_file_sizes) + enc_bool(v.include_unloaded_segments) + enc_bool(v.include_all_shard_indexing_pressure_trackers) + enc_bool(v.include_only_top_indexing_pressure_metrics) + enc_enum_set(v.include_caches) + enc_string_array(v.levels) + enc_bool(v.include_indices_stats_by_level)) + rest) == WireRead::Decoded(v, (enc_i64(v.flags) + enc_string_array(v.groups) + enc_string_array(v.field_data_fields) + enc_string_array(v.completion_data_fields) + enc_bool(v.include_segment_file_sizes) + enc_bool(v.include_unloaded_segments) + enc_bool(v.include_all_shard_indexing_pressure_trackers) + enc_bool(v.include_only_top_indexing_pressure_metrics) + enc_enum_set(v.include_caches) + enc_string_array(v.levels) + enc_bool(v.include_indices_stats_by_level)).len() as int),
{
    assert(enc_common_stats_flags(v) =~= (enc_i64(v.flags) + enc_string_array(v.groups) + enc_string_array(v.field_data_fields) + enc_string_array(v.completion_data_fields) + enc_bool(v.include_segment_file_sizes) + enc_bool(v.include_unloaded_segments) + enc_bool(v.include_all_shard_indexing_pressure_trackers) + enc_bool(v.include_only_top_indexing_pressure_metrics) + enc_enum_set(v.include_caches) + enc_string_array(v.levels) + enc_bool(v.include_indices_stats_by_level)));
    lemma_common_stats_flags_roundtrip(v, rest);
}

/// The wire order of a nodes info request: its fields go on the wire one after the
/// other in the order listed here, and a reader given them in that order
/// reads each back into its own field, whatever follows them.
pub proof fn lemma_nodes_info_request_wire_order(v: NodesInfoRequestView, rest: Seq<u8>)
    requires
        nodes_info_request_fits(v),
    ensures
        enc_nodes_info_request(v) == (enc_parent_task_id(v.parent_task_node, v.parent_task_id) + enc_string_array(v.node_ids) + enc_bool(false) + enc_optional_time_value(v.timeout) + enc_string_array(v.requested_metrics)),
        parse_nodes_info_request((enc_parent_task_id(v.parent_task_node, v.parent_task_id) + enc_string_array(v.node_ids) + enc_bool(false) + enc_optional_time_value(v.timeout) + enc_string_array(v.requested_metrics)) + rest) == WireRead::Decoded(v, (enc_parent_task_id(v.parent_task_node, v.parent_task_id) + enc_string_array(v.node_ids) + enc_bool(false) + enc_optional_time_value(v.timeout) + enc_string_array(v.requested_metrics)).len() as int),
{
    assert(enc_nodes_info_request(v) =~= (enc_parent_task_id(v.parent_task_node, v.parent_task_id) + enc_string_array(v.node_ids) + enc_bool(false) + enc_optional_time_value(v.timeout) + enc_string_array(v.requested_metrics)));
    lemma_nodes_info_request_roundtrip(v, rest);
}

/// The wire order of a nodes stats request: its fields go on the wire one after the
/// other in the order listed here, and a reader given them in that order
/// reads each back into its own field, whatever follows them.
pub proof fn lemma_nodes_stats_request_wire_order(v: NodesStatsRequestView, rest: Seq<u8>)
    requires
        nodes_stats_request_fits(v),
    ensures
        enc_nodes_stats_request(v) == (enc_parent_task_id(v.parent_task_node, v.parent_task_id) + enc_string_array(v.node_ids) + enc_bool(false) + enc_optional_time_value(v.timeout) + enc_common_stats_flags(v.indices) + enc_string_array(v.requested_metrics)),
        parse_nodes_stats_request((enc_parent_task_id(v.parent_task_node, v.parent_task_id) + enc_string_array(v.node_ids) + enc_bool(false) + enc_optional_time_value(v.timeout) + enc_common_stats_flags(v.indices) + enc_string_array(v.requested_metrics)) + rest) == WireRead::Decoded(v, (enc_parent_task_id(v.parent_task_node, v.parent_task_id) + enc_string_array(v.node_ids) + enc_bool(false) + enc_optional_time_value(v.timeout) + enc_common_stats_flags(v.indices) + enc_string_array(v.requested_metrics)).len() as int),
{
    assert(enc_nodes_stats_request(v) =~= (enc_parent_task_id(v.parent_task_node, v.parent_task_id) + enc_string_array(v.node_ids) + enc_bool(false) + enc_optional_time_value(v.timeout) + enc_common_stats_flags(v.indices) + enc_string_array(v.requested_metrics)));
    lemma_nodes_stats_request_roundtrip(v, rest);
}

/// The wire order of a nodes usage request: its fields go on the wire one after the
/// other in the order listed here, and a reader given them in that order
/// reads each back into its own field, whatever follows them.
pub proof fn lemma_nodes_usage_request_wire_order(v: NodesUsageRequestView, rest: Seq<u8>)
    requires
        nodes_usage_request_fits(v),
    ensures
        enc_nodes_usage_request(v) == (enc_parent_task_id(v.parent_task_node, v.parent_task_id) + enc_string_array(v.node_ids) + enc_bool(false) + enc_optional_time_value(v.timeout) + enc_bool(v.rest_actions) + enc_bool(v.aggregations)),
        parse_nodes_usage_request((enc_parent_task_id(v.parent_task_node, v.parent_task_id) + enc_string_array(v.node_ids) + enc_bool(false) + enc_optional_time_value(v.timeout) + enc_bool(v.rest_actions) + enc_bool(v.aggregations)) + rest) == WireRead::Decoded(v, (enc_parent_task_id(v.parent_task_node, v.parent_task_id) + enc_string_array(v.node_ids) + enc_bool(false) + enc_optional_time_value(v.timeout) + enc_bool(v.rest_actions) + enc_bool(v.aggregations)).len() as int),
{
    assert(enc_nodes_usage_request(v) =~= (enc_parent_task_id(v.parent_task_node, v.parent_task_id) + enc_string_array(v.node_ids) + enc_bool(false) + enc_optional_time_value(v.timeout) + enc_bool(v.rest_actions) + enc_bool(v.aggregations)));
    lemma_nodes_usage_request_roundtrip(v, rest);
}

/// The wire order of a nodes hot threads request: its fields go on the wire one after the
/// other in the order listed here, and a reader given them in that order
/// reads each back into its own field, whatever follows them.
pub proof fn lemma_nodes_hot_threads_request_wire_order(v: NodesHotThreadsRequestView, rest: Seq<u8>)
    requires
        nodes_hot_threads_request_fits(v),
    ensures
        enc_nodes_hot_threads_request(v) == (enc_parent_task_id(v.parent_task_node, v.parent_task_id) + enc_string_array(v.node_ids) + enc_bool(false) + enc_optional_time_value(v.timeout) + enc_i32(v.threads) + enc_bool(v.ignore_idle_threads) + enc_string(v.hot_threads_type) + enc_time_value(v.interval) + enc_i32(v.snapshots)),
        parse_nodes_hot_threads_request((enc_parent_task_id(v.parent_task_node, v.parent_task_id) + enc_string_array(v.node_ids) + enc_bool(false) + enc_optional_time_value(v.timeout) + enc_i32(v.threads) + enc_bool(v.ignore_idle_threads) + enc_string(v.hot_threads_type) + enc_time_value(v.interval) + enc_i32(v.snapshots)) + rest) == WireRead::Decoded(v, (enc_parent_task_id(v.parent_task_node, v.parent_task_id) + enc_string_array(v.node_ids) + enc_bool(false) + enc_optional_time_value(v.timeout) + enc_i32(v.threads) + enc_bool(v.ignore_idle_threads) + enc_string(v.hot_threads_type) + enc_time_value(v.interval) + enc_i32(v.snapshots)).len() as int),
{
    assert(enc_nodes_hot_threads_request(v) =~= (enc_parent_task_id(v.parent_task_node, v.parent_task_id) + enc_string_array(v.node_ids) + enc_bool(false) + enc_optional_time_value(v.timeout) + enc_i32(v.threads) + enc_bool(v.ignore_idle_threads) + enc_string(v.hot_threads_type) + enc_time_value(v.interval) + enc_i32(v.snapshots)));
    lemma_nodes_hot_threads_request_roundtrip(v, rest);
}

/// The wire order of a indices stats request: its fields go on the wire one after the
/// other in the order listed here, and a reader given them in that order
/// reads each back into its own field, whatever follows them.
pub proof fn lemma_opensearch_indices_stats_request_wire_order(v: OpenSearchIndicesStatsRequestView, rest: Seq<u8>)
    requires
        opensearch_indices_stats_request_fits(v),
    ensures
        enc_opensearch_indices_stats_request(v) == (enc_parent_task_id(v.parent_task_node, v.parent_task_id) + enc_string_array(v.indices) + enc_indices_options(v.indices_options) + enc_common_stats_flags(v.flags)),
        parse_opensearch_indices_stats_request((enc_parent_task_id(v.parent_task_node, v.parent_task_id) + enc_string_array(v.indices) + enc_indices_options(v.indices_options) + enc_common_stats_flags(v.flags)) + rest) == WireRead::Decoded(v, (enc_parent_task_id(v.parent_task_node, v.parent_task_id) + enc_string_array(v.indices) + enc_indices_options(v.indices_options) + enc_common_stats_flags(v.flags)).len() as int),
{
    assert(enc_opensearch_indices_stats_request(v) =~= (enc_parent_task_id(v.parent_task_node, v.parent_task_id) + enc_string_array(v.indices) + enc_indices_options(v.indices_options) + enc_common_stats_flags(v.flags)));
    lemma_opensearch_indices_stats_request_roundtrip(v, rest);
}

/// The wire order of a cluster update settings request: its fields go on the wire one after the
/// other in the order listed here, and a reader given them in that order
/// reads each back into its own field, whatever follows them.
pub proof fn lemma_cluster_update_settings_request_wire_order(v: ClusterUpdateSettingsRequestView, rest: Seq<u8>)
    requires
        cluster_update_settings_request_fits(v),
    ensures
        enc_cluster_update_settings_request(v) == (enc_parent_task_id(v.parent_task_node, v.parent_task_id) + enc_time_value(v.cluster_manager_timeout) + enc_time_value(v.ack_timeout) + enc_string_map(v.transient_settings) + enc_string_map(v.persistent_settings)),
        parse_cluster_update_settings_request((enc_parent_task_id(v.parent_task_node, v.parent_task_id) + enc_time_value(v.cluster_manager_timeout) + enc_time_value(v.ack_timeout) + enc_string_map(v.transient_settings) + enc_string_map(v.persistent_settings)) + rest) == WireRead::Decoded(v, (enc_parent_task_id(v.parent_task_node, v.parent_task_id) + enc_time_value(v.cluster_manager_timeout) + enc_time_value(v.ack_timeout) + enc_string_map(v.transient_settings) + enc_string_map(v.persistent_settings)).len() as int),
{
    assert(enc_cluster_update_settings_request(v) =~= (enc_parent_task_id(v.parent_task_node, v.parent_task_id) + enc_time_value(v.cluster_manager_timeout) + enc_time_value(v.ack_timeout) + enc_string_map(v.transient_settings) + enc_string_map(v.persistent_settings)));
    lemma_cluster_update_settings_request_roundtrip(v, rest);
}

/// The wire order of a get repositories request: its fields go on the wire one after the
/// other in the order listed here, and a reader given them in that order
/// reads each back into its own field, whatever follows them.
pub proof fn lemma_get_repositories_request_wire_order(v: GetRepositoriesRequestView, rest: Seq<u8>)
    requires
        get_repositories_request_fits(v),
    ensures
        enc_get_repositories_request(v) == (enc_parent_task_id(v.parent_task_node, v.parent_task_id) + enc_time_value(v.cluster_manager_timeout) + enc_bool(v.local) + enc_string_array(v.repositories)),
        parse_get_repositories_request((enc_parent_task_id(v.parent_task_node, v.parent_task_id) + enc_time_value(v.cluster_manager_timeout) + enc_bool(v.local) + enc_string_array(v.repositories)) + rest) == WireRead::Decoded(v, (enc_parent_task_id(v.parent_task_node, v.parent_task_id) + enc_time_value(v.cluster_manager_timeout) + enc_bool(v.local) + enc_string_array(v.repositories)).len() as int),
{
    assert(enc_get_repositories_request(v) =~= (enc_parent_task_id(v.parent_task_node, v.parent_task_id) + enc_time_value(v.cluster_manager_timeout) + enc_bool(v.local) + enc_string_array(v.repositories)));
    lemma_get_repositories_request_roundtrip(v, rest);
}

/// The wire order of a get mappings request: its fields go on the wire one after the
/// other in the order listed here, and a reader given them in that order
/// reads each back into its own field, whatever follows them.
pub proof fn lemma_opensearch_get_mappings_request_wire_order(v: OpenSearchGetMappingsRequestView, rest: Seq<u8>)
    requires
        opensearch_get_mappings_request_fits(v),
    ensures
        enc_opensearch_get_mappings_request(v) == (enc_parent_task_id(v.parent_task_node, v.parent_task_id) + enc_time_value(v.cluster_manager_timeout) + enc_bool(v.local) + enc_string_array(v.indices) + enc_indices_options(v.indices_options)),
        parse_opensearch_get_mappings_request((enc_parent_task_id(v.parent_task_node, v.parent_task_id) + enc_time_value(v.cluster_manager_timeout) + enc_bool(v.local) + enc_string_array(v.indices) + enc_indices_options(v.indices_options)) + rest) == WireRead::Decoded(v, (enc_parent_task_id(v.parent_task_node, v.parent_task_id) + enc_time_value(v.cluster_manager_timeout) + enc_bool(v.local) + enc_string_array(v.indices) + enc_indices_options(v.indices_options)).len() as int),
{
    assert(enc_opensearch_get_mappings_request(v) =~= (enc_parent_task_id(v.parent_task_node, v.parent_task_id) + enc_time_value(v.cluster_manager_timeout) + enc_bool(v.local) + enc_string_array(v.indices) + enc_indices_options(v.indices_options)));
    lemma_opensearch_get_mappings_request_roundtrip(v, rest);
}

/// The wire order of a get field mappings request: its fields go on the wire one after the
/// other in the order listed here, and a reader given them in that order
/// reads each back into its own field, whatever follows them.
pub proof fn lemma_opensearch_get_field_mappings_request_wire_order(v: OpenSearchGetFieldMappingsRequestView, rest: Seq<u8>)
    requires
        opensearch_get_field_mappings_request_fits(v),
    ensures
        enc_opensearch_get_field_mappings_request(v) == (enc_parent_task_id(v.parent_task_node, v.parent_task_id) + enc_string_array(v.indices) + enc_indices_options(v.indices_options) + enc_bool(v.local) + enc_string_array(v.fields) + enc_bool(v.include_defaults)),
        parse_opensearch_get_field_mappings_request((enc_parent_task_id(v.parent_task_node, v.parent_task_id) + enc_string_array(v.indices) + enc_indices_options(v.indices_options) + enc_bool(v.local) + enc_string_array(v.fields) + enc_bool(v.include_defaults)) + rest) == WireRead::Decoded(v, (enc_parent_task_id(v.parent_task_node, v.parent_task_id) + enc_string_array(v.indices) + enc_indices_options(v.indices_options) + enc_bool(v.local) + enc_string_array(v.fields) + enc_bool(v.include_defaults)).len() as int),
{
    assert(enc_opensearch_get_field_mappings_request(v) =~= (enc_parent_task_id(v.parent_task_node, v.parent_task_id) + enc_string_array(v.indices) + enc_indices_options(v.indices_options) + enc_bool(v.local) + enc_string_array(v.fields) + enc_bool(v.include_defaults)));
    lemma_opensearch_get_field_mappings_request_roundtrip(v, rest);
}

/// The wire order of a get aliases request: its fields go on the wire one after the
/// other in the order listed here, and a reader given them in that order
/// reads each back into its own field, whatever follows them.
pub proof fn lemma_opensearch_get_aliases_request_wire_order(v: OpenSearchGetAliasesRequestView, rest: Seq<u8>)
    requires
        opensearch_get_aliases_request_fits(v),
    ensures
        enc_opensearch_get_aliases_request(v) == (enc_parent_task_id(v.parent_task_node, v.parent_task_id) + enc_time_value(v.cluster_manager_timeout) + enc_bool(v.local) + enc_string_array(v.indices) + enc_string_array(v.aliases) + enc_indices_options(v.indices_options) + enc_string_array(v.original_aliases)),
        parse_opensearch_get_aliases_request((enc_parent_task_id(v.parent_task_node, v.parent_task_id) + enc_time_value(v.cluster_manager_timeout) + enc_bool(v.local) + enc_string_array(v.indices) + enc_string_array(v.aliases) + enc_indices_options(v.indices_options) + enc_string_array(v.original_aliases)) + rest) == WireRead::Decoded(v, (enc_parent_task_id(v.parent_task_node, v.parent_task_id) + enc_time_value(v.cluster_manager_timeout) + enc_bool(v.local) + enc_string_array(v.indices) + enc_string_array(v.aliases) + enc_indices_options(v.indices_options) + enc_string_array(v.original_aliases)).len() as int),
{
    assert(enc_opensearch_get_aliases_request(v) =~= (enc_parent_task_id(v.parent_task_node, v.parent_task_id) + enc_time_value(v.cluster_manager_timeout) + enc_bool(v.local) + enc_string_array(v.indices) + enc_string_array(v.aliases) + enc_indices_options(v.indices_options) + enc_string_array(v.original_aliases)));
    lemma_opensearch_get_aliases_request_roundtrip(v, rest);
}

/// The wire order of a get settings request: its fields go on the wire one after the
/// other in the order listed here, and a reader given them in that order
/// reads each back into its own field, whatever follows them.
pub proof fn lemma_opensearch_get_settings_request_wire_order(v: OpenSearchGetSettingsRequestView, rest: Seq<u8>)
    requires
        opensearch_get_settings_request_fits(v),
    ensures
        enc_opensearch_get_settings_request(v) == (enc_parent_task_id(v.parent_task_node, v.parent_task_id) + enc_time_value(v.cluster_manager_timeout) + enc_bool(v.local) + enc_string_array(v.indices) + enc_indices_options(v.indices_options) + enc_string_array(v.names) + enc_bool(v.human_readable) + enc_bool(v.include_defaults)),
        parse_opensearch_get_settings_request((enc_parent_task_id(v.parent_task_node, v.parent_task_id) + enc_time_value(v.cluster_manager_timeout) + enc_bool(v.local) + enc_string_array(v.indices) + enc_indices_options(v.indices_options) + enc_string_array(v.names) + enc_bool(v.human_readable) + enc_bool(v.include_defaults)) + rest) == WireRead::Decoded(v, (enc_parent_task_id(v.parent_task_node, v.parent_task_id) + enc_time_value(v.cluster_manager_timeout) + enc_bool(v.local) + enc_string_array(v.indices) + enc_indices_options(v.indices_options) + enc_string_array(v.names) + enc_bool(v.human_readable) + enc_bool(v.include_defaults)).len() as int),
{
    assert(enc_opensearch_get_settings_request(v) =~= (enc_parent_task_id(v.parent_task_node, v.parent_task_id) + enc_time_value(v.cluster_manager_timeout) + enc_bool(v.local) + enc_string_array(v.indices) + enc_indices_options(v.indices_options) + enc_string_array(v.names) + enc_bool(v.human_readable) + enc_bool(v.include_defaults)));
    lemma_opensearch_get_settings_request_roundtrip(v, rest);
}

/// The wire order of a cluster search shards request: its fields go on the wire one after the
/// other in the order listed here, and a reader given them in that order
/// reads each back into its own field, whatever follows them.
pub proof fn lemma_opensearch_cluster_search_shards_request_wire_order(v: OpenSearchClusterSearchShardsRequestView, rest: Seq<u8>)
    requires
        opensearch_cluster_search_shards_request_fits(v),
    ensures
        enc_opensearch_cluster_search_shards_request(v) == (enc_parent_task_id(v.parent_task_node, v.parent_task_id) + enc_time_value(v.cluster_manager_timeout) + enc_bool(v.local) + enc_string_array(v.indices) + enc_optional_string(v.routing) + enc_optional_string(v.preference) + enc_indices_options(v.indices_options) + enc_bool(v.has_slice)),
        parse_opensearch_cluster_search_shards_request((enc_parent_task_id(v.parent_task_node, v.parent_task_id) + enc_time_value(v.cluster_manager_timeout) + enc_bool(v.local) + enc_string_array(v.indices) + enc_optional_string(v.routing) + enc_optional_string(v.preference) + enc_indices_options(v.indices_options) + enc_bool(v.has_slice)) + rest) == WireRead::Decoded(v, (enc_parent_task_id(v.parent_task_node, v.parent_task_id) + enc_time_value(v.cluster_manager_timeout) + enc_bool(v.local) + enc_string_array(v.indices) + enc_optional_string(v.routing) + enc_optional_string(v.preference) + enc_indices_options(v.indices_options) + enc_bool(v.has_slice)).len() as int),
{
    assert(enc_opensearch_cluster_search_shards_request(v) =~= (enc_parent_task_id(v.parent_task_node, v.parent_task_id) + enc_time_value(v.cluster_manager_timeout) + enc_bool(v.local) + enc_string_array(v.indices) + enc_optional_string(v.routing) + enc_optional_string(v.preference) + enc_indices_options(v.indices_options) + enc_bool(v.has_slice)));
    lemma_opensearch_cluster_search_shards_request_roundtrip(v, rest);
}

/// The wire order of a recovery request: its fields go on the wire one after the
/// other in the order listed here, and a reader given them in that order
/// reads each back into its own field, whatever follows them.
pub proof fn lemma_opensearch_recovery_request_wire_order(v: OpenSearchRecoveryRequestView, rest: Seq<u8>)
    requires
        opensearch_recovery_request_fits(v),
    ensures
        enc_opensearch_recovery_request(v) == (enc_parent_task_id(v.parent_task_node, v.parent_task_id) + enc_string_array(v.indices) + enc_indices_options(v.indices_options) + enc_bool(v.detailed) + enc_bool(v.active_only)),
        parse_opensearch_recovery_request((enc_parent_task_id(v.parent_task_node, v.parent_task_id) + enc_string_array(v.indices) + enc_indices_options(v.indices_options) + enc_bool(v.detailed) + enc_bool(v.active_only)) + rest) == WireRead::Decoded(v, (enc_parent_task_id(v.parent_task_node, v.parent_task_id) + enc_string_array(v.indices) + enc_indices_options(v.indices_options) + enc_bool(v.detailed) + enc_bool(v.active_only)).len() as int),
{
    assert(enc_opensearch_recovery_request(v) =~= (enc_parent_task_id(v.parent_task_node, v.parent_task_id) + enc_string_array(v.indices) + enc_indices_options(v.indices_options) + enc_bool(v.detailed) + enc_bool(v.active_only)));
    lemma_opensearch_recovery_request_roundtrip(v, rest);
}

/// The wire order of a indices segments request: its fields go on the wire one after the
/// other in the order listed here, and a reader given them in that order
/// reads each back into its own field, whatever follows them.
pub proof fn lemma_opensearch_indices_segments_request_wire_order(v: OpenSearchIndicesSegmentsRequestView, rest: Seq<u8>)
    requires
        opensearch_indices_segments_request_fits(v),
    ensures
        enc_opensearch_indices_segments_request(v) == (enc_parent_task_id(v.parent_task_node, v.parent_task_id) + enc_string_array(v.indices) + enc_indices_options(v.indices_options) + enc_bool(v.verbose)),
        parse_opensearch_indices_segments_request((enc_parent_task_id(v.parent_task_node, v.parent_task_id) + enc_string_array(v.indices) + enc_indices_options(v.indices_options) + enc_bool(v.verbose)) + rest) == WireRead::Decoded(v, (enc_parent_task_id(v.parent_task_node, v.parent_task_id) + enc_string_array(v.indices) + enc_indices_options(v.indices_options) + enc_bool(v.verbose)).len() as int),
{
    assert(enc_opensearch_indices_segments_request(v) =~= (enc_parent_task_id(v.parent_task_node, v.parent_task_id) + enc_string_array(v.indices) + enc_indices_options(v.indices_options) + enc_bool(v.verbose)));
    lemma_opensearch_indices_segments_request_roundtrip(v, rest);
}

/// The wire order of a indices shard stores request: its fields go on the wire one after the
/// other in the order listed here, and a reader given them in that order
/// reads each back into its own field, whatever follows them.
pub proof fn lemma_opensearch_indices_shard_stores_request_wire_order(v: OpenSearchIndicesShardStoresRequestView, rest: Seq<u8>)
    requires
        opensearch_indices_shard_stores_request_fits(v),
    ensures
        enc_opensearch_indices_shard_stores_request(v) == (enc_parent_task_id(v.parent_task_node, v.parent_task_id) + enc_time_value(v.cluster_manager_timeout) + enc_bool(v.local) + enc_string_array(v.indices) + enc_status_bytes(v.statuses) + enc_indices_options(v.indices_options)),
        parse_opensearch_indices_shard_stores_request((enc_parent_task_id(v.parent_task_node, v.parent_task_id) + enc_time_value(v.cluster_manager_timeout) + enc_bool(v.local) + enc_string_array(v.indices) + enc_status_bytes(v.statuses) + enc_indices_options(v.indices_options)) + rest) == WireRead::Decoded(v, (enc_parent_task_id(v.parent_task_node, v.parent_task_id) + enc_time_value(v.cluster_manager_timeout) + enc_bool(v.local) + enc_string_array(v.indices) + enc_status_bytes(v.statuses) + enc_indices_options(v.indices_options)).len() as int),
{
    assert(enc_opensearch_indices_shard_stores_request(v) =~= (enc_parent_task_id(v.parent_task_node, v.parent_task_id) + enc_time_value(v.cluster_manager_timeout) + enc_bool(v.local) + enc_string_array(v.indices) + enc_status_bytes(v.statuses) + enc_indices_options(v.indices_options)));
    lemma_opensearch_indices_shard_stores_request_roundtrip(v, rest);
}

/// The wire order of a get data stream request: its fields go on the wire one after the
/// other in the order listed here, and a reader given them in that order
/// reads each back into its own field, whatever follows them.
pub proof fn lemma_opensearch_get_data_stream_request_wire_order(v: OpenSearchGetDataStreamRequestView, rest: Seq<u8>)
    requires
        opensearch_get_data_stream_request_fits(v),
    ensures
        enc_opensearch_get_data_stream_request(v) == (enc_parent_task_id(v.parent_task_node, v.parent_task_id) + enc_time_value(v.cluster_manager_timeout) + enc_bool(v.local) + enc_optional_string_array(v.names)),
        parse_opensearch_get_data_stream_request((enc_parent_task_id(v.parent_task_node, v.parent_task_id) + enc_time_value(v.cluster_manager_timeout) + enc_bool(v.local) + enc_optional_string_array(v.names)) + rest) == WireRead::Decoded(v, (enc_parent_task_id(v.parent_task_node, v.parent_task_id) + enc_time_value(v.cluster_manager_timeout) + enc_bool(v.local) + enc_optional_string_array(v.names)).len() as int),
{
    assert(enc_opensearch_get_data_stream_request(v) =~= (enc_parent_task_id(v.parent_task_node, v.parent_task_id) + enc_time_value(v.cluster_manager_timeout) + enc_bool(v.local) + enc_optional_string_array(v.names)));
    lemma_opensearch_get_data_stream_request_roundtrip(v, rest);
}

/// The wire order of a pending cluster tasks request: its fields go on the wire one after the
/// other in the order listed here, and a reader given them in that order
/// reads each back into its own field, whatever follows them.
pub proof fn lemma_pending_cluster_tasks_request_wire_order(v: PendingClusterTasksRequestView, rest: Seq<u8>)
    requires
        pending_cluster_tasks_request_fits(v),
    ensures
        enc_pending_cluster_tasks_request(v) == (enc_parent_task_id(v.parent_task_node, v.parent_task_id) + enc_time_value(v.cluster_manager_timeout) + enc_bool(v.local)),
        parse_pending_cluster_tasks_request((enc_parent_task_id(v.parent_task_node, v.parent_task_id) + enc_time_value(v.cluster_manager_timeout) + enc_bool(v.local)) + rest) == WireRead::Decoded(v, (enc_parent_task_id(v.parent_task_node, v.parent_task_id) + enc_time_value(v.cluster_manager_timeout) + enc_bool(v.local)).len() as int),
{
    assert(enc_pending_cluster_tasks_request(v) =~= (enc_parent_task_id(v.parent_task_node, v.parent_task_id) + enc_time_value(v.cluster_manager_timeout) + enc_bool(v.local)));
    lemma_pending_cluster_tasks_request_roundtrip(v, rest);
}

/// The wire order of a list tasks request: its fields go on the wire one after the
/// other in the order listed here, and a reader given them in that order
/// reads each back into its own field, whatever follows them.
pub proof fn lemma_list_tasks_request_wire_order(v: ListTasksRequestView, rest: Seq<u8>)
    requires
        list_tasks_request_fits(v),
    ensures
        enc_list_tasks_request(v) == (enc_parent_task_id(v.parent_task_node, v.parent_task_id) + enc_parent_task_id(v.task_id.0, v.task_id.1) + enc_parent_task_id(v.parent_task_filter.0, v.parent_task_filter.1) + enc_string_array(v.nodes) + enc_string_array(v.actions) + enc_optional_time_value(v.timeout) + enc_bool(v.detailed) + enc_bool(v.wait_for_completion)),
        parse_list_tasks_request((enc_parent_task_id(v.parent_task_node, v.parent_task_id) + enc_parent_task_id(v.task_id.0, v.task_id.1) + enc_parent_task_id(v.parent_task_filter.0, v.parent_task_filter.1) + enc_string_array(v.nodes) + enc_string_array(v.actions) + enc_optional_time_value(v.timeout) + enc_bool(v.detailed) + enc_bool(v.wait_for_completion)) + rest) == WireRead::Decoded(v, (enc_parent_task_id(v.parent_task_node, v.parent_task_id) + enc_parent_task_id(v.task_id.0, v.task_id.1) + enc_parent_task_id(v.parent_task_filter.0, v.parent_task_filter.1) + enc_string_array(v.nodes) + enc_string_array(v.actions) + enc_optional_time_value(v.timeout) + enc_bool(v.detailed) + enc_bool(v.wait_for_completion)).len() as int),
{
    assert(enc_list_tasks_request(v) =~= (enc_parent_task_id(v.parent_task_node, v.parent_task_id) + enc_parent_task_id(v.task_id.0, v.task_id.1) + enc_parent_task_id(v.parent_task_filter.0, v.parent_task_filter.1) + enc_string_array(v.nodes) + enc_string_array(v.actions) + enc_optional_time_value(v.timeout) + enc_bool(v.detailed) + enc_bool(v.wait_for_completion)));
    lemma_list_tasks_request_roundtrip(v, rest);
}

/// The wire order of a get task request: its fields go on the wire one after the
/// other in the order listed here, and a reader given them in that order
/// reads each back into its own field, whatever follows them.
pub proof fn lemma_get_task_request_wire_order(v: GetTaskRequestView, rest: Seq<u8>)
    requires
        get_task_request_fits(v),
    ensures
        enc_get_task_request(v) == (enc_parent_task_id(v.parent_task_node, v.parent_task_id) + enc_parent_task_id(v.task_id.0, v.task_id.1) + enc_optional_time_value(v.timeout) + enc_bool(v.wait_for_completion)),
        parse_get_task_request((enc_parent_task_id(v.parent_task_node, v.parent_task_id) + enc_parent_task_id(v.task_id.0, v.task_id.1) + enc_optional_time_value(v.timeout) + enc_bool(v.wait_for_completion)) + rest) == WireRead::Decoded(v, (enc_parent_task_id(v.parent_task_node, v.parent_task_id) + enc_parent_task_id(v.task_id.0, v.task_id.1) + enc_optional_time_value(v.timeout) + enc_bool(v.wait_for_completion)).len() as int),
{
    assert(enc_get_task_request(v) =~= (enc_parent_task_id(v.parent_task_node, v.parent_task_id) + enc_parent_task_id(v.task_id.0, v.task_id.1) + enc_optional_time_value(v.timeout) + enc_bool(v.wait_for_completion)));
    lemma_get_task_request_roundtrip(v, rest);
}

/// The wire order of a cancel tasks request: its fields go on the wire one after the
/// other in the order listed here, and a reader given them in that order
/// reads each back into its own field, whatever follows them.
pub proof fn lemma_cancel_tasks_request_wire_order(v: CancelTasksRequestView, rest: Seq<u8>)
    requires
        cancel_tasks_request_fits(v),
    ensures
        enc_cancel_tasks_request(v) == (enc_parent_task_id(v.parent_task_node, v.parent_task_id) + enc_parent_task_id(v.task_id.0, v.task_id.1) + enc_parent_task_id(v.parent_task_filter.0, v.parent_task_filter.1) + enc_string_array(v.nodes) + enc_string_array(v.actions) + enc_optional_time_value(v.timeout) + enc_string(v.reason) + enc_bool(v.wait_for_completion)),
        parse_cancel_tasks_request((enc_parent_task_id(v.parent_task_node, v.parent_task_id) + enc_parent_task_id(v.task_id.0, v.task_id.1) + enc_parent_task_id(v.parent_task_filter.0, v.parent_task_filter.1) + enc_string_array(v.nodes) + enc_string_array(v.actions) + enc_optional_time_value(v.timeout) + enc_string(v.reason) + enc_bool(v.wait_for_completion)) + rest) == WireRead::Decoded(v, (enc_parent_task_id(v.parent_task_node, v.parent_task_id) + enc_parent_task_id(v.task_id.0, v.task_id.1) + enc_parent_task_id(v.parent_task_filter.0, v.parent_task_filter.1) + enc_string_array(v.nodes) + enc_string_array(v.actions) + enc_optional_time_value(v.timeout) + enc_string(v.reason) + enc_bool(v.wait_for_completion)).len() as int),
{
    assert(enc_cancel_tasks_request(v) =~= (enc_parent_task_id(v.parent_task_node, v.parent_task_id) + enc_parent_task_id(v.task_id.0, v.task_id.1) + enc_parent_task_id(v.parent_task_filter.0, v.parent_task_filter.1) + enc_string_array(v.nodes) + enc_string_array(v.actions) + enc_optional_time_value(v.timeout) + enc_string(v.reason) + enc_bool(v.wait_for_completion)));
    lemma_cancel_tasks_request_roundtrip(v, rest);
}

/// The wire order of a list tasks response: its fields go on the wire one after the
/// other in the order listed here, and a reader given them in that order
/// reads each back into its own field, whatever follows them.
pub proof fn lemma_list_tasks_response_wire_order(v: ListTasksResponseView, rest: Seq<u8>)
    requires
        list_tasks_response_fits(v),
    ensures
        enc_list_tasks_response(v) == (enc_vint(v.task_failure_count) + enc_vint(v.node_failure_count) + enc_vint(v.task_count)),
        parse_list_tasks_response((enc_vint(v.task_failure_count) + enc_vint(v.node_failure_count) + enc_vint(v.task_count)) + rest) == WireRead::Decoded(v, (enc_vint(v.task_failure_count) + enc_vint(v.node_failure_count) + enc_vint(v.task_count)).len() as int),
{
    assert(enc_list_tasks_response(v) =~= (enc_vint(v.task_failure_count) + enc_vint(v.node_failure_count) + enc_vint(v.task_count)));
    lemma_list_tasks_response_roundtrip(v, rest);
}

} // verus!
