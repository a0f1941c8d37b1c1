//! The wire format of serialized exceptions, stated as spec functions: what
//! a reader of an exception consumes and what it makes of it.
use vstd::prelude::*;
use crate::codec::{
    enc_bool, enc_i64, enc_optional_string, enc_string, enc_vint, parse_bool, parse_byte, parse_i32, parse_i64, parse_len, parse_optional_string, parse_string,
    parse_string_array, parse_vint, parse_zlong,
};
use crate::stream_maps::parse_string_map;

verus! {

/// What is read of an exception: its class, message, cause, and the search
/// context it names (session id and context id), if any.
pub struct ErrorView {
    pub class_name: Seq<char>,
    pub message: Option<Seq<char>>,
    pub cause: Option<Box<ErrorView>>,
    pub search_context_id: Option<(Seq<char>, i64)>,
}

/// True when `k` bytes can be taken from the front of `s`.
pub open spec fn fits(s: Seq<u8>, k: int) -> bool {
    0 <= k <= s.len()
}

/// The byte count of a successful read.
pub open spec fn used<T>(r: Option<(T, int)>) -> Option<int> {
    match r {
        Some((_, k)) => Some(k),
        None => None,
    }
}

/// `first` bytes, then what `second` reads after them.
pub open spec fn then(first: Option<int>, second: Option<int>) -> Option<int> {
    match first {
        Some(k) => match second {
            Some(m) => Some(k + m),
            None => None,
        },
        None => None,
    }
}

/// `n` consecutive items, each spanning what `item` reads.
pub open spec fn span_repeat(s: Seq<u8>, n: nat, item: spec_fn(Seq<u8>) -> Option<int>) -> Option<int>
    decreases n,
{
    if n == 0 {
        Some(0)
    } else {
        match span_repeat(s, (n - 1) as nat, item) {
            Some(k) => then(Some(k), item(s.skip(k))),
            None => None,
        }
    }
}

/// Once items stop reading, more of them do not read either.
pub proof fn lemma_span_repeat_stays_none(s: Seq<u8>, i: nat, n: nat, item: spec_fn(Seq<u8>) -> Option<int>)
    requires
        i <= n,
        span_repeat(s, i, item) is None,
    ensures
        span_repeat(s, n, item) is None,
    decreases n - i,
{
    if i < n {
        lemma_span_repeat_stays_none(s, i, (n - 1) as nat, item);
    }
}

/// One more item after `i` items.
pub proof fn lemma_span_repeat_step(s: Seq<u8>, i: nat, item: spec_fn(Seq<u8>) -> Option<int>)
    ensures
        span_repeat(s, i + 1, item) == match span_repeat(s, i, item) {
            Some(k) => then(Some(k), item(s.skip(k))),
            None => None,
        },
{
}

// ---------------------------------------------------------------------------
// Fields that a reader of an exception skips.
// ---------------------------------------------------------------------------

/// A stack frame: declaring class, optional file name, method name, line.
pub open spec fn span_stack_frame(s: Seq<u8>) -> Option<int> {
    match parse_string(s) {
        Some((_, a)) => match parse_optional_string(s.skip(a)) {
            Some((_, b)) => match parse_string(s.skip(a + b)) {
                Some((_, c)) => match parse_vint(s.skip(a + b + c)) {
                    Some((_, d)) => Some(a + b + c + d),
                    None => None,
                },
                None => None,
            },
            None => None,
        },
        None => None,
    }
}

/// A stack frame, as a repeated item.
pub open spec fn stack_frame_item() -> spec_fn(Seq<u8>) -> Option<int> {
    |t: Seq<u8>| span_stack_frame(t)
}

/// `n` stack frames.
#[verifier::opaque]
pub open spec fn span_stack_frames(s: Seq<u8>, n: nat) -> Option<int> {
    span_repeat(s, n, stack_frame_item())
}

/// A string list map entry: the key, then the count and the values.
pub open spec fn span_string_list_entry(s: Seq<u8>) -> Option<int> {
    match parse_string(s) {
        Some((_, a)) => match parse_len(s.skip(a)) {
            Some((n, b)) => then(Some(a + b), span_strings(s.skip(a + b), n)),
            None => None,
        },
        None => None,
    }
}

/// A string list map entry, as a repeated item.
pub open spec fn string_list_entry_item() -> spec_fn(Seq<u8>) -> Option<int> {
    |t: Seq<u8>| span_string_list_entry(t)
}

/// `n` string list map entries.
pub open spec fn span_string_list_entries(s: Seq<u8>, n: nat) -> Option<int> {
    span_repeat(s, n, string_list_entry_item())
}

/// A map from strings to string lists: the entry count, then the entries.
#[verifier::opaque]
pub open spec fn span_string_list_map(s: Seq<u8>) -> Option<int> {
    match parse_len(s) {
        Some((n, k)) => then(Some(k), span_string_list_entries(s.skip(k), n)),
        None => None,
    }
}

/// A transport address: the IP length (4 or 16), the IP bytes, the host
/// name, the port.
pub open spec fn span_transport_address(s: Seq<u8>) -> Option<int> {
    match parse_byte(s) {
        Some((len, a)) => if (len == 4 || len == 16) && a + len <= s.len() {
            match parse_string(s.skip(a + len)) {
                Some((_, b)) => then(Some(a + len + b), used(parse_i32(s.skip(a + len + b)))),
                None => None,
            }
        } else {
            None
        },
        None => None,
    }
}

/// A presence flag, then, when set, what `present` reads.
pub open spec fn span_optional(s: Seq<u8>, present: Option<int>) -> Option<int> {
    match parse_bool(s) {
        Some((true, k)) => then(Some(k), present),
        Some((false, k)) => Some(k),
        None => None,
    }
}

/// An optional transport address.
pub open spec fn span_optional_transport_address(s: Seq<u8>) -> Option<int> {
    span_optional(s, span_transport_address(s.skip(1)))
}

/// The fields of an action transport exception: an optional address and an
/// optional action name.
#[verifier::opaque]
pub open spec fn span_action_transport_fields(s: Seq<u8>) -> Option<int> {
    match span_optional_transport_address(s) {
        Some(a) => then(Some(a), used(parse_optional_string(s.skip(a)))),
        None => None,
    }
}

/// A node role: name, abbreviation, whether it can hold data.
pub open spec fn span_role(s: Seq<u8>) -> Option<int> {
    match parse_string(s) {
        Some((_, a)) => match parse_string(s.skip(a)) {
            Some((_, b)) => then(Some(a + b), used(parse_bool(s.skip(a + b)))),
            None => None,
        },
        None => None,
    }
}

/// A node role, as a repeated item.
pub open spec fn role_item() -> spec_fn(Seq<u8>) -> Option<int> {
    |t: Seq<u8>| span_role(t)
}

/// `n` node roles.
pub open spec fn span_roles(s: Seq<u8>, n: nat) -> Option<int> {
    span_repeat(s, n, role_item())
}

/// A string, as a repeated item.
pub open spec fn string_item() -> spec_fn(Seq<u8>) -> Option<int> {
    |t: Seq<u8>| used(parse_string(t))
}

/// `n` strings.
pub open spec fn span_strings(s: Seq<u8>, n: nat) -> Option<int> {
    span_repeat(s, n, string_item())
}

/// The transport address, optional stream address and attributes of a
/// discovery node.
pub open spec fn span_node_addresses_and_attributes(s: Seq<u8>) -> Option<int> {
    match span_transport_address(s) {
        Some(b) => match span_optional_transport_address(s.skip(b)) {
            Some(c) => then(Some(b + c), used(parse_string_map(s.skip(b + c)))),
            None => None,
        },
        None => None,
    }
}

/// The roles (a count, then each role) and version of a discovery node.
pub open spec fn span_node_roles_and_version(s: Seq<u8>) -> Option<int> {
    match parse_len(s) {
        Some((n, e)) => match span_roles(s.skip(e), n) {
            Some(f) => then(Some(e + f), used(parse_vint(s.skip(e + f)))),
            None => None,
        },
        None => None,
    }
}

/// A discovery node: name, id, ephemeral id, host name, host address, the
/// transport address, an optional stream address, attributes, roles, and
/// version.
pub open spec fn span_discovery_node(s: Seq<u8>) -> Option<int> {
    match span_strings(s, 5) {
        Some(a) => match span_node_addresses_and_attributes(s.skip(a)) {
            Some(b) => then(Some(a + b), span_node_roles_and_version(s.skip(a + b))),
            None => None,
        },
        None => None,
    }
}

/// An optional discovery node.
#[verifier::opaque]
pub open spec fn span_optional_discovery_node(s: Seq<u8>) -> Option<int> {
    span_optional(s, span_discovery_node(s.skip(1)))
}

/// An optional script position: offset, start, end.
#[verifier::opaque]
pub open spec fn span_optional_script_position(s: Seq<u8>) -> Option<int> {
    span_optional(s, then(used(parse_i32(s.skip(1))), then(used(parse_i32(s.skip(5))), used(parse_i32(s.skip(9))))))
}

/// A shard id: index name, index uuid, shard number.
pub open spec fn span_shard_id(s: Seq<u8>) -> Option<int> {
    match parse_string(s) {
        Some((_, a)) => match parse_string(s.skip(a)) {
            Some((_, b)) => then(Some(a + b), used(parse_vint(s.skip(a + b)))),
            None => None,
        },
        None => None,
    }
}

/// An optional search shard target: an optional node id text, the shard id,
/// an optional cluster alias.
pub open spec fn span_search_shard_target(s: Seq<u8>) -> Option<int> {
    match span_optional(s, used(parse_string(s.skip(1)))) {
        Some(a) => match span_shard_id(s.skip(a)) {
            Some(b) => then(Some(a + b), used(parse_optional_string(s.skip(a + b)))),
            None => None,
        },
        None => None,
    }
}

#[verifier::opaque]
pub open spec fn span_optional_search_shard_target(s: Seq<u8>) -> Option<int> {
    span_optional(s, span_search_shard_target(s.skip(1)))
}

/// A byte size value: a zig-zag long size, then a unit ordinal.
#[verifier::opaque]
pub open spec fn span_byte_size_value(s: Seq<u8>) -> Option<int> {
    match parse_zlong(s) {
        Some((_, a)) => then(Some(a), used(parse_vint(s.skip(a)))),
        None => None,
    }
}

/// A variable-length integer, as a repeated item.
pub open spec fn vint_item() -> spec_fn(Seq<u8>) -> Option<int> {
    |t: Seq<u8>| used(parse_vint(t))
}

/// `n` variable-length integers.
pub open spec fn span_vints(s: Seq<u8>, n: nat) -> Option<int> {
    span_repeat(s, n, vint_item())
}

/// An enum set: a count, then that many ordinals.
pub open spec fn span_enum_set(s: Seq<u8>) -> Option<int> {
    match parse_len(s) {
        Some((n, k)) => then(Some(k), span_vints(s.skip(k), n)),
        None => None,
    }
}

/// The first fields of a cluster block: id, optional uuid, description,
/// levels.
pub open spec fn span_cluster_block_head(s: Seq<u8>) -> Option<int> {
    match parse_vint(s) {
        Some((_, a)) => match parse_optional_string(s.skip(a)) {
            Some((_, b)) => match parse_string(s.skip(a + b)) {
                Some((_, c)) => then(Some(a + b + c), span_enum_set(s.skip(a + b + c))),
                None => None,
            },
            None => None,
        },
        None => None,
    }
}

/// The last fields of a cluster block: retryable, disables state
/// persistence, status, allows release of resources.
pub open spec fn span_cluster_block_tail(s: Seq<u8>) -> Option<int> {
    match parse_bool(s) {
        Some((_, e)) => match parse_bool(s.skip(e)) {
            Some((_, f)) => match parse_string(s.skip(e + f)) {
                Some((_, g)) => then(Some(e + f + g), used(parse_bool(s.skip(e + f + g)))),
                None => None,
            },
            None => None,
        },
        None => None,
    }
}

/// A cluster block: its first fields, then its last fields.
pub open spec fn span_cluster_block(s: Seq<u8>) -> Option<int> {
    match span_cluster_block_head(s) {
        Some(a) => then(Some(a), span_cluster_block_tail(s.skip(a))),
        None => None,
    }
}

/// A cluster block, as a repeated item.
pub open spec fn cluster_block_item() -> spec_fn(Seq<u8>) -> Option<int> {
    |t: Seq<u8>| span_cluster_block(t)
}

/// `n` cluster blocks.
pub open spec fn span_cluster_blocks_n(s: Seq<u8>, n: nat) -> Option<int> {
    span_repeat(s, n, cluster_block_item())
}

/// A set of cluster blocks: the count, then the blocks.
#[verifier::opaque]
pub open spec fn span_cluster_blocks(s: Seq<u8>) -> Option<int> {
    match parse_len(s) {
        Some((n, k)) => then(Some(k), span_cluster_blocks_n(s.skip(k), n)),
        None => None,
    }
}

/// The fields that follow the common part of the OpenSearch exception with
/// wire id `id` (all but those of a search phase execution exception, which
/// hold exceptions): how many bytes they take, and the search context the
/// exception names.
pub open spec fn parse_exception_extension(id: i32, s: Seq<u8>) -> Option<(Option<(Seq<char>, i64)>, int)> {
    if id == 24 {
        match parse_i64(s) {
            Some((ctx, a)) => match parse_string(s.skip(a)) {
                Some((session, b)) => Some((Some((session, ctx)), a + b)),
                None => None,
            },
            None => None,
        }
    } else {
        match extension_fields(id, s) {
            Some(k) => Some((None, k)),
            None => None,
        }
    }
}

/// The bytes taken by the extension fields of exception `id`, for every id
/// but 24 and 100.
#[verifier::opaque]
pub open spec fn extension_fields(id: i32, s: Seq<u8>) -> Option<int> {
    if id == 12 || id == 20 || id == 83 || id == 103 || id == 36 || id == 42 || id == 49 || id == 133 || id == 143
        || id == 171 {
        nested_extension_fields(id, s)
    } else {
        flat_extension_fields(id, s)
    }
}

/// The extension fields made of a few plain values.
#[verifier::opaque]
pub open spec fn flat_extension_fields(id: i32, s: Seq<u8>) -> Option<int> {
    if id == 101 || id == 57 || id == 82 || id == 88 || id == 71 || id == 78 {
        used(parse_optional_string(s))
    } else if id == 40 || id == 72 {
        then(used(parse_i32(s)), used(parse_i32(s.skip(4))))
    } else if id == 30 {
        match parse_optional_string(s) {
            Some((_, a)) => then(Some(a), used(parse_optional_string(s.skip(a)))),
            None => None,
        }
    } else if id == 62 {
        match parse_string(s) {
            Some((_, a)) => then(Some(a), used(parse_byte(s.skip(a)))),
            None => None,
        }
    } else if id == 76 || id == 149 {
        used(parse_i32(s))
    } else if id == 79 || id == 163 {
        match parse_string(s) {
            Some((_, a)) => then(Some(a), used(parse_string(s.skip(a)))),
            None => None,
        }
    } else if id == 17 || id == 97 || id == 155 || id == 177 || id == 145 {
        used(parse_byte(s))
    } else if id == 175 {
        match parse_vint(s) {
            Some((_, a)) => then(Some(a), used(parse_vint(s.skip(a)))),
            None => None,
        }
    } else {
        Some(0)
    }
}

/// The extension fields of a connect transport exception: the action
/// transport fields, then an optional discovery node.
#[verifier::opaque]
pub open spec fn span_connect_transport_fields(s: Seq<u8>) -> Option<int> {
    match span_action_transport_fields(s) {
        Some(a) => then(Some(a), span_optional_discovery_node(s.skip(a))),
        None => None,
    }
}

/// The extension fields of a recover files recovery exception: a file count
/// and a total size.
#[verifier::opaque]
pub open spec fn span_recover_files_fields(s: Seq<u8>) -> Option<int> {
    then(used(parse_i32(s)), span_byte_size_value(s.skip(4)))
}

/// The extension fields of a circuit breaking exception: byte limit, bytes
/// wanted, durability.
#[verifier::opaque]
pub open spec fn span_circuit_breaking_fields(s: Seq<u8>) -> Option<int> {
    match parse_i64(s) {
        Some((_, a)) => match parse_i64(s.skip(a)) {
            Some((_, b)) => then(Some(a + b), used(parse_vint(s.skip(a + b)))),
            None => None,
        },
        None => None,
    }
}

/// The extension fields of a script exception: script stack, script,
/// language, optional position.
#[verifier::opaque]
pub open spec fn span_script_fields(s: Seq<u8>) -> Option<int> {
    match parse_string_array(s) {
        Some((_, a)) => match parse_string(s.skip(a)) {
            Some((_, b)) => match parse_string(s.skip(a + b)) {
                Some((_, c)) => then(Some(a + b + c), span_optional_script_position(s.skip(a + b + c))),
                None => None,
            },
            None => None,
        },
        None => None,
    }
}

/// The extension fields of a crypto registry exception: name, type, status.
#[verifier::opaque]
pub open spec fn span_crypto_registry_fields(s: Seq<u8>) -> Option<int> {
    match parse_string(s) {
        Some((_, a)) => match parse_string(s.skip(a)) {
            Some((_, b)) => then(Some(a + b), used(parse_i32(s.skip(a + b)))),
            None => None,
        },
        None => None,
    }
}

/// The extension fields that hold addresses, nodes, shard targets, sizes,
/// blocks or scripts (ids 12, 20, 83, 103, 36, 42, 49, 133, 143, 171).
#[verifier::opaque]
pub open spec fn nested_extension_fields(id: i32, s: Seq<u8>) -> Option<int> {
    if id == 12 {
        span_connect_transport_fields(s)
    } else if id == 20 || id == 83 || id == 103 {
        span_action_transport_fields(s)
    } else if id == 36 {
        span_optional_search_shard_target(s)
    } else if id == 42 {
        span_recover_files_fields(s)
    } else if id == 49 {
        span_cluster_blocks(s)
    } else if id == 133 {
        span_circuit_breaking_fields(s)
    } else if id == 143 {
        span_script_fields(s)
    } else {
        span_crypto_registry_fields(s)
    }
}

/// The class of the OpenSearch exception with wire id `id`; unknown ids
/// name the base OpenSearch exception.
#[verifier::opaque]
pub open spec fn opensearch_exception_class_name_spec(id: i32) -> Seq<char> {
    match id {
        0 => "org.opensearch.core.index.snapshots.IndexShardSnapshotFailedException"@,
        1 => "org.opensearch.search.dfs.DfsPhaseExecutionException"@,
        2 => "org.opensearch.common.util.CancellableThreads.ExecutionCancelledException"@,
        3 => "org.opensearch.discovery.ClusterManagerNotDiscoveredException"@,
        4 => "org.opensearch.OpenSearchSecurityException"@,
        5 => "org.opensearch.index.snapshots.IndexShardRestoreException"@,
        6 => "org.opensearch.indices.IndexClosedException"@,
        7 => "org.opensearch.http.BindHttpException"@,
        8 => "org.opensearch.action.search.ReduceSearchPhaseException"@,
        9 => "org.opensearch.node.NodeClosedException"@,
        10 => "org.opensearch.index.engine.SnapshotFailedEngineException"@,
        11 => "org.opensearch.index.shard.ShardNotFoundException"@,
        12 => "org.opensearch.transport.ConnectTransportException"@,
        13 => "org.opensearch.transport.NotSerializableTransportException"@,
        14 => "org.opensearch.transport.ResponseHandlerFailureTransportException"@,
        15 => "org.opensearch.indices.IndexCreationException"@,
        16 => "org.opensearch.index.IndexNotFoundException"@,
        17 => "org.opensearch.cluster.routing.IllegalShardRoutingStateException"@,
        18 => "org.opensearch.action.support.broadcast.BroadcastShardOperationFailedException"@,
        19 => "org.opensearch.ResourceNotFoundException"@,
        20 => "org.opensearch.transport.ActionTransportException"@,
        21 => "org.opensearch.OpenSearchGenerationException"@,
        23 => "org.opensearch.index.shard.IndexShardStartedException"@,
        24 => "org.opensearch.search.SearchContextMissingException"@,
        25 => "org.opensearch.script.GeneralScriptException"@,
        27 => "org.opensearch.snapshots.SnapshotCreationException"@,
        29 => "org.opensearch.index.engine.DocumentMissingException"@,
        30 => "org.opensearch.snapshots.SnapshotException"@,
        31 => "org.opensearch.indices.InvalidAliasNameException"@,
        32 => "org.opensearch.indices.InvalidIndexNameException"@,
        33 => "org.opensearch.indices.IndexPrimaryShardNotAllocatedException"@,
        34 => "org.opensearch.transport.TransportException"@,
        35 => "org.opensearch.OpenSearchParseException"@,
        36 => "org.opensearch.search.SearchException"@,
        37 => "org.opensearch.index.mapper.MapperException"@,
        38 => "org.opensearch.indices.InvalidTypeNameException"@,
        39 => "org.opensearch.snapshots.SnapshotRestoreException"@,
        40 => "org.opensearch.core.common.ParsingException"@,
        41 => "org.opensearch.index.shard.IndexShardClosedException"@,
        42 => "org.opensearch.indices.recovery.RecoverFilesRecoveryException"@,
        43 => "org.opensearch.index.translog.TruncatedTranslogException"@,
        44 => "org.opensearch.indices.recovery.RecoveryFailedException"@,
        45 => "org.opensearch.index.shard.IndexShardRelocatedException"@,
        46 => "org.opensearch.transport.NodeShouldNotConnectException"@,
        48 => "org.opensearch.index.translog.TranslogCorruptedException"@,
        49 => "org.opensearch.cluster.block.ClusterBlockException"@,
        50 => "org.opensearch.search.fetch.FetchPhaseExecutionException"@,
        52 => "org.opensearch.index.engine.VersionConflictEngineException"@,
        53 => "org.opensearch.index.engine.EngineException"@,
        55 => "org.opensearch.action.NoSuchNodeException"@,
        56 => "org.opensearch.common.settings.SettingsException"@,
        57 => "org.opensearch.indices.IndexTemplateMissingException"@,
        58 => "org.opensearch.transport.SendRequestTransportException"@,
        62 => "org.opensearch.core.common.io.stream.NotSerializableExceptionWrapper"@,
        63 => "org.opensearch.indices.AliasFilterParsingException"@,
        65 => "org.opensearch.gateway.GatewayException"@,
        66 => "org.opensearch.index.shard.IndexShardNotRecoveringException"@,
        67 => "org.opensearch.http.HttpException"@,
        68 => "org.opensearch.OpenSearchException"@,
        69 => "org.opensearch.snapshots.SnapshotMissingException"@,
        70 => "org.opensearch.action.PrimaryMissingActionException"@,
        71 => "org.opensearch.action.FailedNodeException"@,
        72 => "org.opensearch.search.SearchParseException"@,
        73 => "org.opensearch.snapshots.ConcurrentSnapshotExecutionException"@,
        74 => "org.opensearch.common.blobstore.BlobStoreException"@,
        75 => "org.opensearch.cluster.IncompatibleClusterStateVersionException"@,
        76 => "org.opensearch.index.engine.RecoveryEngineException"@,
        77 => "org.opensearch.common.util.concurrent.UncategorizedExecutionException"@,
        78 => "org.opensearch.action.TimestampParsingException"@,
        79 => "org.opensearch.action.RoutingMissingException"@,
        81 => "org.opensearch.index.snapshots.IndexShardRestoreFailedException"@,
        82 => "org.opensearch.repositories.RepositoryException"@,
        83 => "org.opensearch.transport.ReceiveTimeoutTransportException"@,
        84 => "org.opensearch.transport.NodeDisconnectedException"@,
        86 => "org.opensearch.search.aggregations.AggregationExecutionException"@,
        88 => "org.opensearch.indices.InvalidIndexTemplateException"@,
        90 => "org.opensearch.index.engine.RefreshFailedEngineException"@,
        91 => "org.opensearch.search.aggregations.AggregationInitializationException"@,
        92 => "org.opensearch.indices.recovery.DelayRecoveryException"@,
        94 => "org.opensearch.transport.client.transport.NoNodeAvailableException"@,
        96 => "org.opensearch.snapshots.InvalidSnapshotNameException"@,
        97 => "org.opensearch.index.shard.IllegalIndexShardStateException"@,
        98 => "org.opensearch.core.index.snapshots.IndexShardSnapshotException"@,
        99 => "org.opensearch.index.shard.IndexShardNotStartedException"@,
        100 => "org.opensearch.action.search.SearchPhaseExecutionException"@,
        101 => "org.opensearch.transport.ActionNotFoundTransportException"@,
        102 => "org.opensearch.transport.TransportSerializationException"@,
        103 => "org.opensearch.transport.RemoteTransportException"@,
        104 => "org.opensearch.index.engine.EngineCreationFailureException"@,
        105 => "org.opensearch.cluster.routing.RoutingException"@,
        106 => "org.opensearch.index.shard.IndexShardRecoveryException"@,
        107 => "org.opensearch.repositories.RepositoryMissingException"@,
        109 => "org.opensearch.index.engine.DocumentSourceMissingException"@,
        111 => "org.opensearch.common.settings.NoClassSettingsException"@,
        112 => "org.opensearch.transport.BindTransportException"@,
        113 => "org.opensearch.rest.action.admin.indices.AliasesNotFoundException"@,
        114 => "org.opensearch.index.shard.IndexShardRecoveringException"@,
        115 => "org.opensearch.index.translog.TranslogException"@,
        116 => "org.opensearch.cluster.metadata.ProcessClusterEventTimeoutException"@,
        117 => "org.opensearch.action.support.replication.ReplicationOperation.RetryOnPrimaryException"@,
        118 => "org.opensearch.OpenSearchTimeoutException"@,
        119 => "org.opensearch.search.query.QueryPhaseExecutionException"@,
        120 => "org.opensearch.repositories.RepositoryVerificationException"@,
        121 => "org.opensearch.search.aggregations.InvalidAggregationPathException"@,
        123 => "org.opensearch.ResourceAlreadyExistsException"@,
        125 => "org.opensearch.transport.TcpTransport.HttpRequestOnTransportException"@,
        126 => "org.opensearch.index.mapper.MapperParsingException"@,
        128 => "org.opensearch.search.builder.SearchSourceBuilderException"@,
        130 => "org.opensearch.action.NoShardAvailableActionException"@,
        131 => "org.opensearch.action.UnavailableShardsException"@,
        132 => "org.opensearch.index.engine.FlushFailedEngineException"@,
        133 => "org.opensearch.core.common.breaker.CircuitBreakingException"@,
        134 => "org.opensearch.transport.NodeNotConnectedException"@,
        135 => "org.opensearch.index.mapper.StrictDynamicMappingException"@,
        136 => "org.opensearch.action.support.replication.TransportReplicationAction.RetryOnReplicaException"@,
        137 => "org.opensearch.indices.TypeMissingException"@,
        140 => "org.opensearch.cluster.coordination.FailedToCommitClusterStateException"@,
        141 => "org.opensearch.index.query.QueryShardException"@,
        142 => "org.opensearch.cluster.action.shard.ShardStateAction.NoLongerPrimaryShardException"@,
        143 => "org.opensearch.script.ScriptException"@,
        144 => "org.opensearch.cluster.NotClusterManagerException"@,
        145 => "org.opensearch.OpenSearchStatusException"@,
        146 => "org.opensearch.core.tasks.TaskCancelledException"@,
        147 => "org.opensearch.env.ShardLockObtainFailedException"@,
        149 => "org.opensearch.search.aggregations.MultiBucketConsumerService.TooManyBucketsException"@,
        150 => "org.opensearch.cluster.coordination.CoordinationStateRejectedException"@,
        151 => "org.opensearch.snapshots.SnapshotInProgressException"@,
        152 => "org.opensearch.transport.NoSuchRemoteClusterException"@,
        153 => "org.opensearch.index.seqno.RetentionLeaseAlreadyExistsException"@,
        154 => "org.opensearch.index.seqno.RetentionLeaseNotFoundException"@,
        155 => "org.opensearch.index.shard.ShardNotInPrimaryModeException"@,
        156 => "org.opensearch.index.seqno.RetentionLeaseInvalidRetainingSeqNoException"@,
        157 => "org.opensearch.ingest.IngestProcessorException"@,
        158 => "org.opensearch.indices.recovery.PeerRecoveryNotFound"@,
        159 => "org.opensearch.cluster.coordination.NodeHealthCheckFailureException"@,
        160 => "org.opensearch.transport.NoSeedNodeLeftException"@,
        161 => "org.opensearch.indices.replication.common.ReplicationFailedException"@,
        162 => "org.opensearch.index.shard.PrimaryShardClosedException"@,
        163 => "org.opensearch.cluster.decommission.DecommissioningFailedException"@,
        164 => "org.opensearch.cluster.decommission.NodeDecommissionedException"@,
        165 => "org.opensearch.cluster.service.ClusterManagerThrottlingException"@,
        166 => "org.opensearch.snapshots.SnapshotInUseDeletionException"@,
        167 => "org.opensearch.cluster.routing.UnsupportedWeightedRoutingStateException"@,
        168 => "org.opensearch.cluster.routing.PreferenceBasedSearchNotAllowedException"@,
        169 => "org.opensearch.cluster.routing.NodeWeighedAwayException"@,
        170 => "org.opensearch.search.pipeline.SearchPipelineProcessingException"@,
        171 => "org.opensearch.crypto.CryptoRegistryException"@,
        172 => "org.opensearch.action.admin.indices.view.ViewNotFoundException"@,
        173 => "org.opensearch.action.admin.indices.view.ViewAlreadyExistsException"@,
        174 => "org.opensearch.indices.InvalidIndexContextException"@,
        175 => "org.opensearch.common.breaker.ResponseLimitBreachedException"@,
        176 => "org.opensearch.index.engine.IngestionEngineException"@,
        177 => "org.opensearch.transport.stream.StreamException"@,
        _ => "org.opensearch.OpenSearchException"@,
    }
}


// ---------------------------------------------------------------------------
// Exceptions. An exception may hold exceptions (its cause, suppressed ones,
// shard failures), so its reader is a family of functions that call each
// other on ever shorter input.
// ---------------------------------------------------------------------------

/// The class of the JVM exception with stream key `key`, and whether it
/// carries a cause, for the keys read as JVM exceptions.
pub open spec fn jvm_exception(key: i32) -> Option<(Seq<char>, bool)> {
    if key == 4 {
        Some(("java.lang.NullPointerException"@, false))
    } else if key == 5 {
        Some(("java.lang.NumberFormatException"@, false))
    } else if key == 6 {
        Some(("java.lang.IllegalArgumentException"@, true))
    } else if key == 8 {
        Some(("java.io.EOFException"@, false))
    } else if key == 9 {
        Some(("java.lang.SecurityException"@, true))
    } else if key == 10 {
        Some(("java.lang.StringIndexOutOfBoundsException"@, false))
    } else if key == 11 {
        Some(("java.lang.ArrayIndexOutOfBoundsException"@, false))
    } else if key == 12 {
        Some(("java.io.FileNotFoundException"@, false))
    } else if key == 14 {
        Some(("java.lang.IllegalStateException"@, true))
    } else if key == 16 {
        Some(("java.lang.InterruptedException"@, false))
    } else if key == 17 {
        Some(("java.io.IOException"@, true))
    } else {
        None
    }
}

/// The class of the rejected-execution exception, stream key 18.
pub open spec fn rejected_execution_class() -> Seq<char> {
    "org.opensearch.common.util.concurrent.OpenSearchRejectedExecutionException"@
}

/// The class given to an exception whose stream key is not known.
pub open spec fn unknown_transport_exception_class() -> Seq<char> {
    "org.opensearch.transport.UnknownTransportException"@
}

/// One decimal digit.
pub open spec fn digit_char(d: nat) -> char {
    if d == 0 {
        '0'
    } else if d == 1 {
        '1'
    } else if d == 2 {
        '2'
    } else if d == 3 {
        '3'
    } else if d == 4 {
        '4'
    } else if d == 5 {
        '5'
    } else if d == 6 {
        '6'
    } else if d == 7 {
        '7'
    } else if d == 8 {
        '8'
    } else {
        '9'
    }
}

/// The decimal digits of `n`, most significant first, without leading zeros.
pub open spec fn decimal_nat(n: nat) -> Seq<char>
    decreases n,
{
    if n < 10 {
        seq![digit_char(n)]
    } else {
        decimal_nat(n / 10).push(digit_char(n % 10))
    }
}

/// `v` in decimal, with a leading minus sign when negative.
pub open spec fn decimal(v: int) -> Seq<char> {
    if v < 0 {
        seq!['-'] + decimal_nat((-v) as nat)
    } else {
        decimal_nat(v as nat)
    }
}

/// The message given to an exception whose stream key is not known.
pub open spec fn unknown_key_message(key: i32) -> Seq<char> {
    "unsupported transport exception key "@ + decimal(key as int)
}

/// A (possibly absent) exception: a presence flag, then the exception.
pub open spec fn parse_exception(s: Seq<u8>) -> Option<(Option<ErrorView>, int)>
    decreases s.len(), 0int, 0int,
{
    match parse_bool(s) {
        Some((false, k)) => Some((None, k)),
        Some((true, k)) => match parse_exception_body(s.skip(k)) {
            Some((e, m)) => Some((Some(e), k + m)),
            None => None,
        },
        None => None,
    }
}

/// An exception after its presence flag: the stream key, then what the key
/// calls for. An unknown key takes the rest of the input.
pub open spec fn parse_exception_body(s: Seq<u8>) -> Option<(ErrorView, int)>
    decreases s.len(), 40int, 0int,
{
    match parse_vint(s) {
        Some((key, k)) => if !fits(s, k) {
            None
        } else if key == 0 {
            match parse_opensearch_exception(s.skip(k)) {
                Some((e, m)) => Some((e, k + m)),
                None => None,
            }
        } else if key == 18 {
            match parse_bool(s.skip(k)) {
                Some((_, b)) => if fits(s, k + b) {
                    match parse_jvm_exception(s.skip(k + b), rejected_execution_class(), false) {
                        Some((e, m)) => Some((e, k + b + m)),
                        None => None,
                    }
                } else {
                    None
                },
                None => None,
            }
        } else {
            match jvm_exception(key) {
                Some((class_name, has_cause)) => match parse_jvm_exception(s.skip(k), class_name, has_cause) {
                    Some((e, m)) => Some((e, k + m)),
                    None => None,
                },
                None => Some(
                    (
                        ErrorView {
                            class_name: unknown_transport_exception_class(),
                            message: Some(unknown_key_message(key)),
                            cause: None,
                            search_context_id: None,
                        },
                        s.len() as int,
                    ),
                ),
            }
        }
        None => None,
    }
}

/// A JVM exception of class `class_name`: its message, its cause when the
/// class carries one, and its stack trace.
pub open spec fn parse_jvm_exception(s: Seq<u8>, class_name: Seq<char>, has_cause: bool) -> Option<(ErrorView, int)>
    decreases s.len(), 30int, 0int,
{
    match parse_optional_string(s) {
        Some((message, a)) => if !fits(s, a) {
            None
        } else {
            match if has_cause {
                parse_exception(s.skip(a))
            } else {
                Some((None, 0))
            } {
                Some((cause, b)) => if fits(s, a + b) {
                    match parse_stack_trace(s.skip(a + b)) {
                        Some(c) => Some(
                            (
                                ErrorView {
                                    class_name,
                                    message,
                                    cause: match cause {
                                        Some(e) => Some(Box::new(e)),
                                        None => None,
                                    },
                                    search_context_id: None,
                                },
                                a + b + c,
                            ),
                        ),
                        None => None,
                    }
                } else {
                    None
                },
                None => None,
            }
        },
        None => None,
    }
}

/// A stack trace: the frames, then the suppressed exceptions.
pub open spec fn parse_stack_trace(s: Seq<u8>) -> Option<int>
    decreases s.len(), 20int, 0int,
{
    match parse_len(s) {
        Some((n, a)) => match span_stack_frames(s.skip(a), n) {
            Some(b) => match parse_len(s.skip(a + b)) {
                Some((m, c)) => if fits(s, a + b + c) {
                    then(Some(a + b + c), span_exceptions(s.skip(a + b + c), m))
                } else {
                    None
                },
                None => None,
            },
            None => None,
        },
        None => None,
    }
}

/// `n` (possibly absent) exceptions, whose values are dropped.
pub open spec fn span_exceptions(s: Seq<u8>, n: nat) -> Option<int>
    decreases s.len(), 10int, n as int,
{
    if n == 0 {
        Some(0)
    } else {
        match span_exceptions(s, (n - 1) as nat) {
            Some(k) => if fits(s, k) {
                then(Some(k), used(parse_exception(s.skip(k))))
            } else {
                None
            },
            None => None,
        }
    }
}

/// An OpenSearch exception: its id, message, then the rest.
pub open spec fn parse_opensearch_exception(s: Seq<u8>) -> Option<(ErrorView, int)>
    decreases s.len(), 30int, 0int,
{
    match parse_vint(s) {
        Some((id, a)) => match parse_optional_string(s.skip(a)) {
            Some((message, b)) => if !fits(s, a + b) {
                None
            } else {
                match parse_opensearch_tail(id, s.skip(a + b)) {
                    Some((cause, context, c)) => Some(
                        (
                            ErrorView {
                                class_name: opensearch_exception_class_name_spec(id),
                                message,
                                cause: match cause {
                                    Some(x) => Some(Box::new(x)),
                                    None => None,
                                },
                                search_context_id: context,
                            },
                            a + b + c,
                        ),
                    ),
                    None => None,
                }
            },
            None => None,
        },
        None => None,
    }
}

/// What follows the message of OpenSearch exception `id`: its cause, then its
/// fields.
pub open spec fn parse_opensearch_tail(id: i32, s: Seq<u8>) -> Option<
    (Option<ErrorView>, Option<(Seq<char>, i64)>, int),
>
    decreases s.len(), 28int, 0int,
{
    match parse_exception(s) {
        Some((cause, c)) => if !fits(s, c) {
            None
        } else {
            match parse_opensearch_fields(id, s.skip(c)) {
                Some((context, f)) => Some((cause, context, c + f)),
                None => None,
            }
        },
        None => None,
    }
}

/// The stack trace, headers and metadata of an OpenSearch exception.
pub open spec fn span_stack_trace_and_maps(s: Seq<u8>) -> Option<int>
    decreases s.len(), 22int, 0int,
{
    match parse_stack_trace(s) {
        Some(d) => match span_string_list_map(s.skip(d)) {
            Some(e1) => match span_string_list_map(s.skip(d + e1)) {
                Some(e2) => Some(d + e1 + e2),
                None => None,
            },
            None => None,
        },
        None => None,
    }
}

/// The stack trace, headers and metadata of OpenSearch exception `id`, then
/// the fields of its class.
pub open spec fn parse_opensearch_fields(id: i32, s: Seq<u8>) -> Option<(Option<(Seq<char>, i64)>, int)>
    decreases s.len(), 25int, 0int,
{
    match span_stack_trace_and_maps(s) {
        Some(d) => if !fits(s, d) {
            None
        } else {
            match parse_opensearch_extension(id, s.skip(d)) {
                Some((context, f)) => Some((context, d + f)),
                None => None,
            }
        },
        None => None,
    }
}

/// The fields of the OpenSearch exception with id `id`: those of a search
/// phase execution exception (phase name and shard failures), else the
/// simpler extension fields.
pub open spec fn parse_opensearch_extension(id: i32, s: Seq<u8>) -> Option<(Option<(Seq<char>, i64)>, int)>
    decreases s.len(), 20int, 0int,
{
    if id == 100 {
        match parse_optional_string(s) {
            Some((_, a)) => match parse_len(s.skip(a)) {
                Some((n, b)) => if fits(s, a + b) {
                    match span_shard_failures(s.skip(a + b), n) {
                        Some(c) => Some((None, a + b + c)),
                        None => None,
                    }
                } else {
                    None
                },
                None => None,
            },
            None => None,
        }
    } else {
        parse_exception_extension(id, s)
    }
}

/// The shard target, reason and status of a shard search failure.
pub open spec fn span_shard_failure_head(s: Seq<u8>) -> Option<int> {
    match span_optional_search_shard_target(s) {
        Some(a) => match parse_string(s.skip(a)) {
            Some((_, b)) => then(Some(a + b), used(parse_string(s.skip(a + b)))),
            None => None,
        },
        None => None,
    }
}

/// `n` shard search failures: the shard target, reason, status and cause of
/// each.
pub open spec fn span_shard_failures(s: Seq<u8>, n: nat) -> Option<int>
    decreases s.len(), 10int, n as int,
{
    if n == 0 {
        Some(0)
    } else {
        match span_shard_failures(s, (n - 1) as nat) {
            Some(k) => match span_shard_failure_head(s.skip(k)) {
                Some(h) => if fits(s, k + h) {
                    then(Some(k + h), used(parse_exception(s.skip(k + h))))
                } else {
                    None
                },
                None => None,
            },
            None => None,
        }
    }
}

/// A whole error body: an exception and nothing after it.
pub open spec fn parse_error_body(s: Seq<u8>) -> Option<Option<ErrorView>> {
    match parse_exception(s) {
        Some((e, n)) => if n == s.len() {
            Some(e)
        } else {
            None
        },
        None => None,
    }
}


/// Once exceptions stop reading, more of them do not read either.
pub proof fn lemma_span_exceptions_stays_none(s: Seq<u8>, i: nat, n: nat)
    requires
        i <= n,
        span_exceptions(s, i) is None,
    ensures
        span_exceptions(s, n) is None,
    decreases n - i,
{
    reveal_with_fuel(span_exceptions, 1);
    if i < n {
        lemma_span_exceptions_stays_none(s, i, (n - 1) as nat);
    }
}

/// Once shard failures stop reading, more of them do not read either.
pub proof fn lemma_span_shard_failures_stays_none(s: Seq<u8>, i: nat, n: nat)
    requires
        i <= n,
        span_shard_failures(s, i) is None,
    ensures
        span_shard_failures(s, n) is None,
    decreases n - i,
{
    reveal_with_fuel(span_shard_failures, 1);
    if i < n {
        lemma_span_shard_failures_stays_none(s, i, (n - 1) as nat);
    }
}


// ---------------------------------------------------------------------------
// Exceptions as this library writes them.
// ---------------------------------------------------------------------------

/// A stack trace with no frames and no suppressed exceptions.
pub open spec fn enc_empty_stack_trace() -> Seq<u8> {
    enc_vint(0) + enc_vint(0)
}

/// A map from strings to string lists with no entries.
pub open spec fn enc_empty_string_list_map() -> Seq<u8> {
    enc_vint(0)
}

/// A JVM exception with stream key `key`, message `message`, no cause and an
/// empty stack trace.
pub open spec fn enc_jvm_exception(key: i32, message: Option<Seq<char>>) -> Seq<u8> {
    enc_bool(true) + enc_vint(key) + enc_optional_string(message) + enc_bool(false) + enc_empty_stack_trace()
}

/// A rejected-execution exception: not for a shut down executor, with
/// message `message`, and an empty stack trace.
pub open spec fn enc_rejected_execution_exception(message: Option<Seq<char>>) -> Seq<u8> {
    enc_bool(true) + enc_vint(18) + enc_bool(false) + enc_optional_string(message) + enc_empty_stack_trace()
}

/// The common part of an OpenSearch exception with id `id`, message
/// `message`, no cause and an empty stack trace.
pub open spec fn enc_opensearch_head(id: i32, message: Option<Seq<char>>) -> Seq<u8> {
    enc_bool(true) + enc_vint(0) + enc_vint(id) + enc_optional_string(message) + enc_bool(false)
        + enc_empty_stack_trace()
}

/// An OpenSearch exception with no headers, no metadata and no fields of its
/// own.
pub open spec fn enc_plain_opensearch_exception(id: i32, message: Option<Seq<char>>) -> Seq<u8> {
    enc_opensearch_head(id, message) + enc_empty_string_list_map() + enc_empty_string_list_map()
}

/// A search-context-missing exception naming context `context_id` of session
/// `session_id`.
pub open spec fn enc_search_context_missing_exception(
    message: Option<Seq<char>>,
    session_id: Seq<char>,
    context_id: i64,
) -> Seq<u8> {
    enc_plain_opensearch_exception(24, message) + enc_i64(context_id) + enc_string(session_id)
}

/// Metadata entries, each a key with a single value.
pub open spec fn enc_metadata_entries(entries: Seq<(Seq<char>, Seq<char>)>) -> Seq<u8>
    decreases entries.len(),
{
    if entries.len() == 0 {
        Seq::<u8>::empty()
    } else {
        enc_metadata_entries(entries.drop_last()) + enc_string(entries.last().0) + enc_vint(1) + enc_string(
            entries.last().1,
        )
    }
}

/// Metadata: the entry count, then the entries.
pub open spec fn enc_metadata(entries: Seq<(Seq<char>, Seq<char>)>) -> Seq<u8> {
    enc_vint(entries.len() as i32) + enc_metadata_entries(entries)
}

/// The metadata naming an index and its uuid.
pub open spec fn index_metadata(index: Seq<char>, index_uuid: Seq<char>) -> Seq<(Seq<char>, Seq<char>)> {
    seq![("opensearch.index"@, index), ("opensearch.index_uuid"@, index_uuid)]
}

/// An OpenSearch exception about index `index`, whose uuid is not known.
pub open spec fn enc_index_exception(id: i32, message: Seq<char>, index: Seq<char>) -> Seq<u8> {
    enc_opensearch_head(id, Some(message)) + enc_empty_string_list_map() + enc_metadata(
        index_metadata(index, "_na_"@),
    )
}

/// The message of an index-not-found exception.
pub open spec fn index_not_found_message(index: Seq<char>) -> Seq<char> {
    "no such index ["@ + index + "]"@
}

/// The message of an invalid-index-name exception.
pub open spec fn invalid_index_name_message(index: Seq<char>, desc: Seq<char>) -> Seq<char> {
    "Invalid index name ["@ + index + "], "@ + desc
}

/// A shard-not-found exception about shard `shard_id` of index `index`.
pub open spec fn enc_shard_not_found_exception(index: Seq<char>, index_uuid: Seq<char>, shard_id: i32) -> Seq<u8> {
    enc_opensearch_head(11, Some("no such shard"@)) + enc_empty_string_list_map() + enc_metadata(
        index_metadata(index, index_uuid).push(("opensearch.shard"@, decimal(shard_id as int))),
    )
}

/// A search phase execution exception of phase `phase_name` whose cause, and
/// whose one shard failure, are the missing search context.
pub open spec fn enc_search_phase_missing_context(
    phase_name: Seq<char>,
    message: Seq<char>,
    missing_context_message: Seq<char>,
    session_id: Seq<char>,
    context_id: i64,
) -> Seq<u8> {
    let missing = enc_search_context_missing_exception(Some(missing_context_message), session_id, context_id);
    enc_bool(true) + enc_vint(0) + enc_vint(100) + enc_optional_string(Some(message)) + missing
        + enc_empty_stack_trace() + enc_empty_string_list_map() + enc_empty_string_list_map() + enc_optional_string(
        Some(phase_name),
    ) + enc_vint(1) + enc_bool(false) + enc_string(missing_context_message) + enc_string("NOT_FOUND"@) + missing
}

} // verus!
