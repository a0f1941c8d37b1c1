//! Which error a reader of exceptions reports on input that does not read:
//! for each part of the exception format, the error of the first field that
//! does not read, as the reader meets the fields in wire order.
use vstd::prelude::*;
use crate::codec::{
    parse_bool, parse_byte, parse_i32, parse_i64, parse_len, parse_optional_string, parse_string,
    parse_string_array, parse_vint, parse_zlong,
};
use crate::error::TransportErrorDecodeError;
use crate::error_format::{
    cluster_block_item, fits, jvm_exception, parse_exception, parse_stack_trace, role_item, span_action_transport_fields,
    span_cluster_block_head, span_exceptions, span_node_addresses_and_attributes, span_optional,
    span_optional_search_shard_target, span_optional_transport_address, span_repeat, span_roles, span_shard_failure_head,
    span_shard_failures, span_shard_id, span_stack_frames, span_stack_trace_and_maps, span_string_list_map, span_strings,
    span_transport_address, span_vints, stack_frame_item, string_item, string_list_entry_item, vint_item,
};
use crate::stream::{
    bool_failure, optional_string_failure, string_array_failure, string_failure, varint32_failure, varint64_failure,
    StreamInputError,
};
use crate::stream_maps::string_map_failure;

verus! {

/// A stream error, as the exception reader reports it.
pub open spec fn stream_failure(e: StreamInputError) -> TransportErrorDecodeError {
    TransportErrorDecodeError::Stream(e)
}

/// The error for input that ends where a fixed-size value should stand.
pub open spec fn eof() -> TransportErrorDecodeError {
    TransportErrorDecodeError::Stream(StreamInputError::UnexpectedEof)
}

/// The error for a length that does not read: its integer does not read, or
/// it is negative.
pub open spec fn length_failure(s: Seq<u8>) -> TransportErrorDecodeError {
    match parse_vint(s) {
        Some((n, _)) => TransportErrorDecodeError::NegativeLength(n),
        None => stream_failure(varint32_failure(s, 0)),
    }
}

/// The error for `n` items that do not read: that of the first item that does
/// not.
pub open spec fn repeat_failure(
    s: Seq<u8>,
    n: nat,
    item: spec_fn(Seq<u8>) -> Option<int>,
    item_failure: spec_fn(Seq<u8>) -> TransportErrorDecodeError,
) -> TransportErrorDecodeError
    decreases n,
{
    if n == 0 {
        eof()
    } else {
        match span_repeat(s, (n - 1) as nat, item) {
            Some(k) => item_failure(s.skip(k)),
            None => repeat_failure(s, (n - 1) as nat, item, item_failure),
        }
    }
}

/// When item `i` is the first that does not read, the error of any longer run
/// of items is that item's error.
pub proof fn lemma_repeat_failure_at(
    s: Seq<u8>,
    i: nat,
    n: nat,
    item: spec_fn(Seq<u8>) -> Option<int>,
    item_failure: spec_fn(Seq<u8>) -> TransportErrorDecodeError,
    k: int,
)
    requires
        i < n,
        span_repeat(s, i, item) == Some(k),
        item(s.skip(k)) is None,
    ensures
        repeat_failure(s, n, item, item_failure) == item_failure(s.skip(k)),
    decreases n - i,
{
    if n > i + 1 {
        lemma_repeat_failure_at(s, i, (n - 1) as nat, item, item_failure, k);
        assert(span_repeat(s, (i + 1) as nat, item) is None);
        crate::error_format::lemma_span_repeat_stays_none(s, (i + 1) as nat, (n - 1) as nat, item);
    }
}

/// A flag, then, when set, what fails with `present`.
pub open spec fn optional_failure(s: Seq<u8>, present: TransportErrorDecodeError) -> TransportErrorDecodeError {
    match parse_bool(s) {
        Some(_) => present,
        None => stream_failure(bool_failure(s)),
    }
}

pub open spec fn stack_frame_failure(s: Seq<u8>) -> TransportErrorDecodeError {
    match parse_string(s) {
        Some((_, a)) => match parse_optional_string(s.skip(a)) {
            Some((_, b)) => match parse_string(s.skip(a + b)) {
                Some((_, c)) => stream_failure(varint32_failure(s.skip(a + b + c), 0)),
                None => stream_failure(string_failure(s.skip(a + b))),
            },
            None => stream_failure(optional_string_failure(s.skip(a))),
        },
        None => stream_failure(string_failure(s)),
    }
}

pub open spec fn stack_frame_failure_item() -> spec_fn(Seq<u8>) -> TransportErrorDecodeError {
    |t: Seq<u8>| stack_frame_failure(t)
}

pub open spec fn string_failure_item() -> spec_fn(Seq<u8>) -> TransportErrorDecodeError {
    |t: Seq<u8>| stream_failure(string_failure(t))
}

pub open spec fn vint_failure_item() -> spec_fn(Seq<u8>) -> TransportErrorDecodeError {
    |t: Seq<u8>| stream_failure(varint32_failure(t, 0))
}

pub open spec fn string_list_entry_failure(s: Seq<u8>) -> TransportErrorDecodeError {
    match parse_string(s) {
        Some((_, a)) => match parse_len(s.skip(a)) {
            Some((n, b)) => repeat_failure(s.skip(a + b), n, string_item(), string_failure_item()),
            None => length_failure(s.skip(a)),
        },
        None => stream_failure(string_failure(s)),
    }
}

pub open spec fn string_list_entry_failure_item() -> spec_fn(Seq<u8>) -> TransportErrorDecodeError {
    |t: Seq<u8>| string_list_entry_failure(t)
}

pub open spec fn string_list_map_failure(s: Seq<u8>) -> TransportErrorDecodeError {
    match parse_len(s) {
        Some((n, k)) => repeat_failure(s.skip(k), n, string_list_entry_item(), string_list_entry_failure_item()),
        None => length_failure(s),
    }
}

/// A transport address: an IP length other than 4 or 16 is refused as such.
pub open spec fn transport_address_failure(s: Seq<u8>) -> TransportErrorDecodeError {
    match parse_byte(s) {
        Some((len, a)) => if len != 4 && len != 16 {
            TransportErrorDecodeError::InvalidIpLength(len as usize)
        } else if a + len > s.len() {
            eof()
        } else {
            match parse_string(s.skip(a + len)) {
                Some(_) => eof(),
                None => stream_failure(string_failure(s.skip(a + len))),
            }
        },
        None => eof(),
    }
}

pub open spec fn optional_transport_address_failure(s: Seq<u8>) -> TransportErrorDecodeError {
    optional_failure(s, transport_address_failure(s.skip(1)))
}

pub open spec fn action_transport_fields_failure(s: Seq<u8>) -> TransportErrorDecodeError {
    match span_optional_transport_address(s) {
        Some(a) => stream_failure(optional_string_failure(s.skip(a))),
        None => optional_transport_address_failure(s),
    }
}

pub open spec fn role_failure(s: Seq<u8>) -> TransportErrorDecodeError {
    match parse_string(s) {
        Some((_, a)) => match parse_string(s.skip(a)) {
            Some((_, b)) => stream_failure(bool_failure(s.skip(a + b))),
            None => stream_failure(string_failure(s.skip(a))),
        },
        None => stream_failure(string_failure(s)),
    }
}

pub open spec fn role_failure_item() -> spec_fn(Seq<u8>) -> TransportErrorDecodeError {
    |t: Seq<u8>| role_failure(t)
}

pub open spec fn node_roles_and_version_failure(s: Seq<u8>) -> TransportErrorDecodeError {
    match parse_len(s) {
        Some((n, e)) => match span_roles(s.skip(e), n) {
            Some(f) => stream_failure(varint32_failure(s.skip(e + f), 0)),
            None => repeat_failure(s.skip(e), n, role_item(), role_failure_item()),
        },
        None => length_failure(s),
    }
}

pub open spec fn node_addresses_and_attributes_failure(s: Seq<u8>) -> TransportErrorDecodeError {
    match span_transport_address(s) {
        Some(b) => match span_optional_transport_address(s.skip(b)) {
            Some(c) => stream_failure(string_map_failure(s.skip(b + c))),
            None => optional_transport_address_failure(s.skip(b)),
        },
        None => transport_address_failure(s),
    }
}

pub open spec fn discovery_node_failure(s: Seq<u8>) -> TransportErrorDecodeError {
    match span_strings(s, 5) {
        Some(a) => match span_node_addresses_and_attributes(s.skip(a)) {
            Some(b) => node_roles_and_version_failure(s.skip(a + b)),
            None => node_addresses_and_attributes_failure(s.skip(a)),
        },
        None => repeat_failure(s, 5, string_item(), string_failure_item()),
    }
}

pub open spec fn optional_discovery_node_failure(s: Seq<u8>) -> TransportErrorDecodeError {
    optional_failure(s, discovery_node_failure(s.skip(1)))
}

pub open spec fn optional_script_position_failure(s: Seq<u8>) -> TransportErrorDecodeError {
    optional_failure(s, eof())
}

pub open spec fn optional_text_failure(s: Seq<u8>) -> TransportErrorDecodeError {
    optional_failure(s, stream_failure(string_failure(s.skip(1))))
}

pub open spec fn shard_id_failure(s: Seq<u8>) -> TransportErrorDecodeError {
    match parse_string(s) {
        Some((_, a)) => match parse_string(s.skip(a)) {
            Some((_, b)) => stream_failure(varint32_failure(s.skip(a + b), 0)),
            None => stream_failure(string_failure(s.skip(a))),
        },
        None => stream_failure(string_failure(s)),
    }
}

pub open spec fn search_shard_target_failure(s: Seq<u8>) -> TransportErrorDecodeError {
    match span_optional(s, crate::error_format::used(parse_string(s.skip(1)))) {
        Some(a) => match span_shard_id(s.skip(a)) {
            Some(b) => stream_failure(optional_string_failure(s.skip(a + b))),
            None => shard_id_failure(s.skip(a)),
        },
        None => optional_text_failure(s),
    }
}

pub open spec fn optional_search_shard_target_failure(s: Seq<u8>) -> TransportErrorDecodeError {
    optional_failure(s, search_shard_target_failure(s.skip(1)))
}

pub open spec fn byte_size_value_failure(s: Seq<u8>) -> TransportErrorDecodeError {
    match parse_zlong(s) {
        Some((_, a)) => stream_failure(varint32_failure(s.skip(a), 0)),
        None => stream_failure(varint64_failure(s, 0)),
    }
}

pub open spec fn enum_set_failure(s: Seq<u8>) -> TransportErrorDecodeError {
    match parse_len(s) {
        Some((n, k)) => repeat_failure(s.skip(k), n, vint_item(), vint_failure_item()),
        None => length_failure(s),
    }
}

pub open spec fn cluster_block_head_failure(s: Seq<u8>) -> TransportErrorDecodeError {
    match parse_vint(s) {
        Some((_, a)) => match parse_optional_string(s.skip(a)) {
            Some((_, b)) => match parse_string(s.skip(a + b)) {
                Some((_, c)) => enum_set_failure(s.skip(a + b + c)),
                None => stream_failure(string_failure(s.skip(a + b))),
            },
            None => stream_failure(optional_string_failure(s.skip(a))),
        },
        None => stream_failure(varint32_failure(s, 0)),
    }
}

pub open spec fn cluster_block_tail_failure(s: Seq<u8>) -> TransportErrorDecodeError {
    match parse_bool(s) {
        Some((_, e)) => match parse_bool(s.skip(e)) {
            Some((_, f)) => match parse_string(s.skip(e + f)) {
                Some((_, g)) => stream_failure(bool_failure(s.skip(e + f + g))),
                None => stream_failure(string_failure(s.skip(e + f))),
            },
            None => stream_failure(bool_failure(s.skip(e))),
        },
        None => stream_failure(bool_failure(s)),
    }
}

pub open spec fn cluster_block_failure(s: Seq<u8>) -> TransportErrorDecodeError {
    match span_cluster_block_head(s) {
        Some(a) => cluster_block_tail_failure(s.skip(a)),
        None => cluster_block_head_failure(s),
    }
}

pub open spec fn cluster_block_failure_item() -> spec_fn(Seq<u8>) -> TransportErrorDecodeError {
    |t: Seq<u8>| cluster_block_failure(t)
}

pub open spec fn cluster_blocks_failure(s: Seq<u8>) -> TransportErrorDecodeError {
    match parse_len(s) {
        Some((n, k)) => repeat_failure(s.skip(k), n, cluster_block_item(), cluster_block_failure_item()),
        None => length_failure(s),
    }
}

/// The extension fields made of a few plain values.
pub open spec fn flat_extension_failure(id: i32, s: Seq<u8>) -> TransportErrorDecodeError {
    if id == 101 || id == 57 || id == 82 || id == 88 || id == 71 || id == 78 {
        stream_failure(optional_string_failure(s))
    } else if id == 30 {
        match parse_optional_string(s) {
            Some((_, a)) => stream_failure(optional_string_failure(s.skip(a))),
            None => stream_failure(optional_string_failure(s)),
        }
    } else if id == 62 {
        match parse_string(s) {
            Some(_) => eof(),
            None => stream_failure(string_failure(s)),
        }
    } else if id == 79 || id == 163 {
        match parse_string(s) {
            Some((_, a)) => stream_failure(string_failure(s.skip(a))),
            None => stream_failure(string_failure(s)),
        }
    } else if id == 175 {
        match parse_vint(s) {
            Some((_, a)) => stream_failure(varint32_failure(s.skip(a), 0)),
            None => stream_failure(varint32_failure(s, 0)),
        }
    } else {
        eof()
    }
}

pub open spec fn connect_transport_failure(s: Seq<u8>) -> TransportErrorDecodeError {
    match span_action_transport_fields(s) {
        Some(a) => optional_discovery_node_failure(s.skip(a)),
        None => action_transport_fields_failure(s),
    }
}

pub open spec fn recover_files_failure(s: Seq<u8>) -> TransportErrorDecodeError {
    match parse_i32(s) {
        Some(_) => byte_size_value_failure(s.skip(4)),
        None => eof(),
    }
}

pub open spec fn circuit_breaking_failure(s: Seq<u8>) -> TransportErrorDecodeError {
    match parse_i64(s) {
        Some((_, a)) => match parse_i64(s.skip(a)) {
            Some((_, b)) => stream_failure(varint32_failure(s.skip(a + b), 0)),
            None => eof(),
        },
        None => eof(),
    }
}

pub open spec fn script_failure(s: Seq<u8>) -> TransportErrorDecodeError {
    match parse_string_array(s) {
        Some((_, a)) => match parse_string(s.skip(a)) {
            Some((_, b)) => match parse_string(s.skip(a + b)) {
                Some((_, c)) => optional_script_position_failure(s.skip(a + b + c)),
                None => stream_failure(string_failure(s.skip(a + b))),
            },
            None => stream_failure(string_failure(s.skip(a))),
        },
        None => stream_failure(string_array_failure(s)),
    }
}

pub open spec fn crypto_registry_failure(s: Seq<u8>) -> TransportErrorDecodeError {
    match parse_string(s) {
        Some((_, a)) => match parse_string(s.skip(a)) {
            Some(_) => eof(),
            None => stream_failure(string_failure(s.skip(a))),
        },
        None => stream_failure(string_failure(s)),
    }
}

/// The extension fields that hold addresses, nodes, shard targets, sizes,
/// blocks or scripts.
pub open spec fn nested_extension_failure(id: i32, s: Seq<u8>) -> TransportErrorDecodeError {
    if id == 12 {
        connect_transport_failure(s)
    } else if id == 20 || id == 83 || id == 103 {
        action_transport_fields_failure(s)
    } else if id == 36 {
        optional_search_shard_target_failure(s)
    } else if id == 42 {
        recover_files_failure(s)
    } else if id == 49 {
        cluster_blocks_failure(s)
    } else if id == 133 {
        circuit_breaking_failure(s)
    } else if id == 143 {
        script_failure(s)
    } else {
        crypto_registry_failure(s)
    }
}

pub open spec fn extension_fields_failure(id: i32, s: Seq<u8>) -> TransportErrorDecodeError {
    if id == 12 || id == 20 || id == 83 || id == 103 || id == 36 || id == 42 || id == 49 || id == 133 || id == 143
        || id == 171 {
        nested_extension_failure(id, s)
    } else {
        flat_extension_failure(id, s)
    }
}

pub open spec fn shard_failure_head_failure(s: Seq<u8>) -> TransportErrorDecodeError {
    match span_optional_search_shard_target(s) {
        Some(a) => match parse_string(s.skip(a)) {
            Some((_, b)) => stream_failure(string_failure(s.skip(a + b))),
            None => stream_failure(string_failure(s.skip(a))),
        },
        None => optional_search_shard_target_failure(s),
    }
}

/// The error for a (possibly absent) exception that does not read.
pub open spec fn exception_failure(s: Seq<u8>) -> TransportErrorDecodeError
    decreases s.len(), 0int, 0int,
{
    match parse_bool(s) {
        Some((true, k)) => exception_body_failure(s.skip(k)),
        Some((false, _)) => eof(),
        None => stream_failure(bool_failure(s)),
    }
}

/// The error for an exception after its presence flag.
pub open spec fn exception_body_failure(s: Seq<u8>) -> TransportErrorDecodeError
    decreases s.len(), 40int, 0int,
{
    match parse_vint(s) {
        Some((key, k)) => if !fits(s, k) {
            eof()
        } else if key == 0 {
            opensearch_failure(s.skip(k))
        } else if key == 18 {
            match parse_bool(s.skip(k)) {
                Some((_, b)) => if fits(s, k + b) {
                    jvm_failure(s.skip(k + b), false)
                } else {
                    eof()
                },
                None => stream_failure(bool_failure(s.skip(k))),
            }
        } else {
            match jvm_exception(key) {
                Some((_, has_cause)) => jvm_failure(s.skip(k), has_cause),
                None => eof(),
            }
        },
        None => stream_failure(varint32_failure(s, 0)),
    }
}

/// The error for a JVM exception: its message, its cause when it has one,
/// then its stack trace.
pub open spec fn jvm_failure(s: Seq<u8>, has_cause: bool) -> TransportErrorDecodeError
    decreases s.len(), 30int, 0int,
{
    match parse_optional_string(s) {
        Some((_, a)) => if !fits(s, a) {
            eof()
        } else if has_cause {
            match parse_exception(s.skip(a)) {
                Some((_, b)) => if fits(s, a + b) {
                    stack_trace_failure(s.skip(a + b))
                } else {
                    eof()
                },
                None => exception_failure(s.skip(a)),
            }
        } else {
            stack_trace_failure(s.skip(a))
        },
        None => stream_failure(optional_string_failure(s)),
    }
}

/// The error for a stack trace: the frame count, the frames, the count of
/// suppressed exceptions, then those.
pub open spec fn stack_trace_failure(s: Seq<u8>) -> TransportErrorDecodeError
    decreases s.len(), 20int, 0int,
{
    match parse_len(s) {
        Some((n, a)) => match span_stack_frames(s.skip(a), n) {
            Some(b) => match parse_len(s.skip(a + b)) {
                Some((m, c)) => if fits(s, a + b + c) {
                    exceptions_failure(s.skip(a + b + c), m)
                } else {
                    eof()
                },
                None => length_failure(s.skip(a + b)),
            },
            None => repeat_failure(s.skip(a), n, stack_frame_item(), stack_frame_failure_item()),
        },
        None => length_failure(s),
    }
}

/// The error for `n` exceptions: that of the first that does not read.
pub open spec fn exceptions_failure(s: Seq<u8>, n: nat) -> TransportErrorDecodeError
    decreases s.len(), 10int, n as int,
{
    if n == 0 {
        eof()
    } else {
        match span_exceptions(s, (n - 1) as nat) {
            Some(k) => if fits(s, k) {
                exception_failure(s.skip(k))
            } else {
                eof()
            },
            None => exceptions_failure(s, (n - 1) as nat),
        }
    }
}

/// The error for an OpenSearch exception: its id, its message, then the rest.
pub open spec fn opensearch_failure(s: Seq<u8>) -> TransportErrorDecodeError
    decreases s.len(), 30int, 0int,
{
    match parse_vint(s) {
        Some((id, a)) => match parse_optional_string(s.skip(a)) {
            Some((_, b)) => if !fits(s, a + b) {
                eof()
            } else {
                opensearch_tail_failure(id, s.skip(a + b))
            },
            None => stream_failure(optional_string_failure(s.skip(a))),
        },
        None => stream_failure(varint32_failure(s, 0)),
    }
}

/// The error for what follows the message of OpenSearch exception `id`.
pub open spec fn opensearch_tail_failure(id: i32, s: Seq<u8>) -> TransportErrorDecodeError
    decreases s.len(), 28int, 0int,
{
    match parse_exception(s) {
        Some((_, c)) => if !fits(s, c) {
            eof()
        } else {
            opensearch_fields_failure(id, s.skip(c))
        },
        None => exception_failure(s),
    }
}

/// The error for the stack trace, headers and metadata of an OpenSearch
/// exception.
pub open spec fn stack_trace_and_maps_failure(s: Seq<u8>) -> TransportErrorDecodeError
    decreases s.len(), 22int, 0int,
{
    match parse_stack_trace(s) {
        Some(d) => match span_string_list_map(s.skip(d)) {
            Some(e1) => string_list_map_failure(s.skip(d + e1)),
            None => string_list_map_failure(s.skip(d)),
        },
        None => stack_trace_failure(s),
    }
}

/// The error for the stack trace, maps and class fields of OpenSearch
/// exception `id`.
pub open spec fn opensearch_fields_failure(id: i32, s: Seq<u8>) -> TransportErrorDecodeError
    decreases s.len(), 25int, 0int,
{
    match span_stack_trace_and_maps(s) {
        Some(d) => if !fits(s, d) {
            eof()
        } else {
            opensearch_extension_failure(id, s.skip(d))
        },
        None => stack_trace_and_maps_failure(s),
    }
}

/// The error for the class fields of OpenSearch exception `id`.
pub open spec fn opensearch_extension_failure(id: i32, s: Seq<u8>) -> TransportErrorDecodeError
    decreases s.len(), 20int, 0int,
{
    if id == 100 {
        match parse_optional_string(s) {
            Some((_, a)) => match parse_len(s.skip(a)) {
                Some((n, b)) => if fits(s, a + b) {
                    shard_failures_failure(s.skip(a + b), n)
                } else {
                    eof()
                },
                None => length_failure(s.skip(a)),
            },
            None => stream_failure(optional_string_failure(s)),
        }
    } else if id == 24 {
        match parse_i64(s) {
            Some((_, a)) => stream_failure(string_failure(s.skip(a))),
            None => eof(),
        }
    } else {
        extension_fields_failure(id, s)
    }
}

/// The error for `n` shard search failures: that of the first that does not
/// read.
pub open spec fn shard_failures_failure(s: Seq<u8>, n: nat) -> TransportErrorDecodeError
    decreases s.len(), 10int, n as int,
{
    if n == 0 {
        eof()
    } else {
        match span_shard_failures(s, (n - 1) as nat) {
            Some(k) => match span_shard_failure_head(s.skip(k)) {
                Some(h) => if fits(s, k + h) {
                    exception_failure(s.skip(k + h))
                } else {
                    eof()
                },
                None => shard_failure_head_failure(s.skip(k)),
            },
            None => shard_failures_failure(s, (n - 1) as nat),
        }
    }
}

/// When exception `i` is the first that does not read, the error of any
/// longer run is that exception's error.
pub proof fn lemma_exceptions_failure_at(s: Seq<u8>, i: nat, n: nat, k: int)
    requires
        i < n,
        span_exceptions(s, i) == Some(k),
        0 <= k <= s.len(),
        parse_exception(s.skip(k)) is None,
    ensures
        exceptions_failure(s, n) == exception_failure(s.skip(k)),
    decreases n - i,
{
    reveal_with_fuel(span_exceptions, 1);
    if n > i + 1 {
        lemma_exceptions_failure_at(s, i, (n - 1) as nat, k);
        crate::error_format::lemma_span_exceptions_stays_none(s, (i + 1) as nat, (n - 1) as nat);
    }
}

/// When shard failure `i` is the first that does not read, the error of any
/// longer run is that failure's error.
pub proof fn lemma_shard_failures_failure_at(s: Seq<u8>, i: nat, n: nat, k: int)
    requires
        i < n,
        span_shard_failures(s, i) == Some(k),
        span_shard_failures(s, (i + 1) as nat) is None,
    ensures
        shard_failures_failure(s, n) == shard_failures_failure(s, (i + 1) as nat),
    decreases n - i,
{
    if n > i + 1 {
        lemma_shard_failures_failure_at(s, i, (n - 1) as nat, k);
        crate::error_format::lemma_span_shard_failures_stays_none(s, (i + 1) as nat, (n - 1) as nat);
    }
}

} // verus!
