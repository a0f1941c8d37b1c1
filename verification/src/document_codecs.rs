//! The bodies of document actions: what each one writes, what a reader makes
//! of its bytes, and that a written body reads back.
use vstd::prelude::*;
use crate::action_wire::{
    enc_enum_set, enc_optional_bool, enc_optional_i64, enc_optional_time_value, enc_parent_task_id, enc_time_value,
    is_unsupported, lemma_enum_set_roundtrip, lift, no_repeats, ordinals_below, parse_enum_set, parse_optional_bool,
    parse_optional_i64, parse_optional_time_value, parse_parent_task_id, parse_time_value, read_enum_set,
    read_optional_bool, read_optional_i64, read_optional_time_value, read_parent_task_id, require_no_trailing_bytes,
    write_enum_set, write_optional_bool, write_optional_i64, write_optional_time_value, write_parent_task_id,
    EnumItems, TimeValueWire, TransportActionWireError, ENUM_ORDINAL_REASON, TIME_UNIT_SECONDS,
};
use crate::document_requests::{
    OpenSearchDeleteRequestWire, OpenSearchDeleteResponseWire, OpenSearchGetRequestWire, OpenSearchIndexRequestWire,
    OpenSearchIndexResponseWire, OpenSearchMultiGetItemRequestWire, OpenSearchMultiGetRequestWire,
    OpenSearchUpdateRequestWire, OpenSearchBulkRequestItemWire, OpenSearchBulkRequestWire,
    OPENSEARCH_DOC_WRITE_REQUEST_DELETE, OPENSEARCH_DOC_WRITE_REQUEST_INDEX, OPENSEARCH_DOC_WRITE_REQUEST_UPDATE,
    OpenSearchRefreshRequestWire, OpenSearchRefreshResponseWire, OpenSearchUpdateResponseWire,
};
use crate::codec::{
    enc_bool, enc_i32, enc_i64, enc_optional_string, enc_string, enc_string_array, enc_vint, lemma_i32_roundtrip,
    lemma_i64_roundtrip, lemma_optional_string_roundtrip, lemma_string_array_roundtrip, lemma_string_roundtrip,
    lemma_vint_roundtrip, parse_len, parse_bool, parse_byte, parse_i32, parse_i64, parse_optional_string, parse_string,
    parse_string_array, parse_vint, string_fits, strings_fit, enc_zlong, enc_vlong, parse_zlong, parse_vlong,
    lemma_zlong_roundtrip, lemma_vlong_roundtrip,
};
use crate::indices_options::{
    enc_indices_options, lemma_indices_options_roundtrip, parse_indices_options, OpenSearchIndicesOptionsWire,
};
use crate::json_section::{
    enc_json_bytes, is_json_document, lemma_json_bytes_roundtrip, parse_json_bytes, read_json_bytes, write_json_bytes,
};
use crate::stream::{strings_view, StreamInput, StreamOutput};
use crate::smap::sorted_keys;
use crate::stream_maps::{enc_string_map, lemma_string_map_roundtrip, pairs_fit, parse_string_map};
use crate::wire_fields::{
    enc_optional_byte, enc_optional_string_array, lemma_bool_roundtrip, lemma_byte_roundtrip, enc_byte, write_byte_field, lemma_optional_bool_roundtrip,
    lemma_optional_byte_roundtrip, lemma_optional_i64_roundtrip, lemma_optional_string_array_roundtrip,
    lemma_optional_time_value_roundtrip, lemma_parent_task_id_roundtrip, lemma_time_value_roundtrip, opt_string_view,
    opt_strings_view, parent_task_id_canonical, parse_optional_byte, parse_optional_string_array, read_optional_byte,
    read_optional_string_array, write_optional_byte, write_optional_string_array, WireRead, lemma_append_assoc,
    lemma_skip_append, lemma_enum_set_field_roundtrip, parse_enum_set_field, read_enum_set_field,
};

verus! {

/// The fields of a get request, as its bytes carry them.
pub struct OpenSearchGetRequestView {
    pub parent_task_node: Seq<char>,
    pub parent_task_id: Option<i64>,
    pub internal_shard_id_present: bool,
    pub index: Option<Seq<char>>,
    pub id: Seq<char>,
    pub routing: Option<Seq<char>>,
    pub preference: Option<Seq<char>>,
    pub refresh: bool,
    pub stored_fields: Option<Seq<Seq<char>>>,
    pub realtime: bool,
    pub version_type: u8,
    pub version: i64,
    pub fetch_source_context_present: bool,
}

impl View for OpenSearchGetRequestWire {
    type V = OpenSearchGetRequestView;

    open spec fn view(&self) -> OpenSearchGetRequestView {
        OpenSearchGetRequestView {
            parent_task_node: self.parent_task_node@,
            parent_task_id: self.parent_task_id,
            internal_shard_id_present: self.internal_shard_id_present,
            index: opt_string_view(self.index),
            id: self.id@,
            routing: opt_string_view(self.routing),
            preference: opt_string_view(self.preference),
            refresh: self.refresh,
            stored_fields: opt_strings_view(self.stored_fields),
            realtime: self.realtime,
            version_type: self.version_type,
            version: self.version,
            fetch_source_context_present: self.fetch_source_context_present,
        }
    }
}

/// The bytes of a get request.
pub open spec fn enc_opensearch_get_request(v: OpenSearchGetRequestView) -> Seq<u8> {
    enc_parent_task_id(v.parent_task_node, v.parent_task_id)
        + enc_bool(v.internal_shard_id_present)
        + enc_optional_string(v.index)
        + enc_string(v.id)
        + enc_optional_string(v.routing)
        + enc_optional_string(v.preference)
        + enc_bool(v.refresh)
        + enc_optional_string_array(v.stored_fields)
        + enc_bool(v.realtime)
        + enc_byte(v.version_type)
        + enc_i64(v.version)
        + enc_bool(v.fetch_source_context_present)
}

/// What a reader makes of the bytes of a get request.
pub open spec fn parse_opensearch_get_request(s: Seq<u8>) -> WireRead<OpenSearchGetRequestView> {
    match parse_parent_task_id(s) {
        Some((pt, k0)) => {
            match parse_bool(s.skip(k0)) {
                Some((internal_shard_id_present, k1)) => {
                    if internal_shard_id_present {
                        WireRead::Unsupported("get request internal shard id"@, "explicit shard ids are not decoded by the get adapter yet"@)
                    } else {
                        match parse_optional_string(s.skip(k0 + k1)) {
                            Some((index, k2)) => {
                                match parse_string(s.skip(k0 + k1 + k2)) {
                                    Some((id, k3)) => {
                                        parse_opensearch_get_request_from_4(s, k0 + k1 + k2 + k3, pt, internal_shard_id_present, index, id)
                                    },
                                    None => WireRead::Malformed,
                                }
                            },
                            None => WireRead::Malformed,
                        }
                    }
                },
                None => WireRead::Malformed,
            }
        },
        None => WireRead::Malformed,
    }
}

/// What a reader makes of the fields of a get request from its
/// 5th field on, at offset `o`, given the fields before them.
pub open spec fn parse_opensearch_get_request_from_4(s: Seq<u8>, o: int, pt: (Seq<char>, Option<i64>), internal_shard_id_present: bool, index: Option<Seq<char>>, id: Seq<char>) -> WireRead<OpenSearchGetRequestView> {
    match parse_optional_string(s.skip(o)) {
        Some((routing, k4)) => {
            match parse_optional_string(s.skip(o + k4)) {
                Some((preference, k5)) => {
                    match parse_bool(s.skip(o + k4 + k5)) {
                        Some((refresh, k6)) => {
                            match parse_optional_string_array(s.skip(o + k4 + k5 + k6)) {
                                Some((stored_fields, k7)) => {
                                    parse_opensearch_get_request_from_8(s, o + k4 + k5 + k6 + k7, pt, internal_shard_id_present, index, id, routing, preference, refresh, stored_fields)
                                },
                                None => WireRead::Malformed,
                            }
                        },
                        None => WireRead::Malformed,
                    }
                },
                None => WireRead::Malformed,
            }
        },
        None => WireRead::Malformed,
    }
}

/// What a reader makes of the fields of a get request from its
/// 9th field on, at offset `o`, given the fields before them.
pub open spec fn parse_opensearch_get_request_from_8(s: Seq<u8>, o: int, pt: (Seq<char>, Option<i64>), internal_shard_id_present: bool, index: Option<Seq<char>>, id: Seq<char>, routing: Option<Seq<char>>, preference: Option<Seq<char>>, refresh: bool, stored_fields: Option<Seq<Seq<char>>>) -> WireRead<OpenSearchGetRequestView> {
    match parse_bool(s.skip(o)) {
        Some((realtime, k8)) => {
            match parse_byte(s.skip(o + k8)) {
                Some((version_type, k9)) => {
                    match parse_i64(s.skip(o + k8 + k9)) {
                        Some((version, k10)) => {
                            match parse_bool(s.skip(o + k8 + k9 + k10)) {
                                Some((fetch_source_context_present, k11)) => {
                                    if fetch_source_context_present {
                                        WireRead::Unsupported("get request fetch source context"@, "fetch source context decoding is not implemented by the get adapter yet"@)
                                    } else {
                                        WireRead::Decoded(OpenSearchGetRequestView { parent_task_node: pt.0, parent_task_id: pt.1, internal_shard_id_present: internal_shard_id_present, index: index, id: id, routing: routing, preference: preference, refresh: refresh, stored_fields: stored_fields, realtime: realtime, version_type: version_type, version: version, fetch_source_context_present: fetch_source_context_present }, o + k8 + k9 + k10 + k11)
                                    }
                                },
                                None => WireRead::Malformed,
                            }
                        },
                        None => WireRead::Malformed,
                    }
                },
                None => WireRead::Malformed,
            }
        },
        None => WireRead::Malformed,
    }
}

/// True when a get request reads back as written.
pub open spec fn opensearch_get_request_fits(v: OpenSearchGetRequestView) -> bool {
    &&& parent_task_id_canonical(v.parent_task_node, v.parent_task_id)
    &&& !v.internal_shard_id_present
    &&& v.index matches Some(c) ==> string_fits(c)
    &&& string_fits(v.id)
    &&& v.routing matches Some(c) ==> string_fits(c)
    &&& v.preference matches Some(c) ==> string_fits(c)
    &&& v.stored_fields matches Some(a) ==> strings_fit(a) && a.len() < 0x8000_0000
    &&& !v.fetch_source_context_present
}

/// Reading the fields of a get request from its 9th field on gives the
/// fields written.
#[verifier::spinoff_prover]
#[verifier::rlimit(100)]
proof fn lemma_opensearch_get_request_from_8_roundtrip(v: OpenSearchGetRequestView, rest: Seq<u8>)
    requires
        opensearch_get_request_fits(v),
    ensures
        parse_opensearch_get_request_from_8(enc_opensearch_get_request(v) + rest, (enc_parent_task_id(v.parent_task_node, v.parent_task_id) + enc_bool(v.internal_shard_id_present) + enc_optional_string(v.index) + enc_string(v.id) + enc_optional_string(v.routing) + enc_optional_string(v.preference) + enc_bool(v.refresh) + enc_optional_string_array(v.stored_fields)).len() as int, (v.parent_task_node, v.parent_task_id), v.internal_shard_id_present, v.index, v.id, v.routing, v.preference, v.refresh, v.stored_fields) == WireRead::Decoded(v, enc_opensearch_get_request(v).len() as int),
{
    let s = enc_opensearch_get_request(v) + rest;
    let t11 = enc_bool(v.fetch_source_context_present) + rest;
    let t10 = enc_i64(v.version) + t11;
    let t9 = enc_byte(v.version_type) + t10;
    let t8 = enc_bool(v.realtime) + t9;
    let t7 = enc_optional_string_array(v.stored_fields) + t8;
    let t6 = enc_bool(v.refresh) + t7;
    let t5 = enc_optional_string(v.preference) + t6;
    let t4 = enc_optional_string(v.routing) + t5;
    let t3 = enc_string(v.id) + t4;
    let t2 = enc_optional_string(v.index) + t3;
    let t1 = enc_bool(v.internal_shard_id_present) + t2;
    let t0 = enc_parent_task_id(v.parent_task_node, v.parent_task_id) + t1;
    let u0 = enc_parent_task_id(v.parent_task_node, v.parent_task_id);
    let u1 = u0 + enc_bool(v.internal_shard_id_present);
    let u2 = u1 + enc_optional_string(v.index);
    let u3 = u2 + enc_string(v.id);
    let u4 = u3 + enc_optional_string(v.routing);
    let u5 = u4 + enc_optional_string(v.preference);
    let u6 = u5 + enc_bool(v.refresh);
    let u7 = u6 + enc_optional_string_array(v.stored_fields);
    let u8 = u7 + enc_bool(v.realtime);
    let u9 = u8 + enc_byte(v.version_type);
    let u10 = u9 + enc_i64(v.version);
    let u11 = u10 + enc_bool(v.fetch_source_context_present);
    assert(s == u11 + rest);
    lemma_append_assoc(u10, enc_bool(v.fetch_source_context_present), rest);
    lemma_append_assoc(u9, enc_i64(v.version), t11);
    lemma_append_assoc(u8, enc_byte(v.version_type), t10);
    lemma_append_assoc(u7, enc_bool(v.realtime), t9);
    lemma_append_assoc(u6, enc_optional_string_array(v.stored_fields), t8);
    lemma_append_assoc(u5, enc_bool(v.refresh), t7);
    lemma_append_assoc(u4, enc_optional_string(v.preference), t6);
    lemma_append_assoc(u3, enc_optional_string(v.routing), t5);
    lemma_append_assoc(u2, enc_string(v.id), t4);
    lemma_append_assoc(u1, enc_optional_string(v.index), t3);
    lemma_append_assoc(u0, enc_bool(v.internal_shard_id_present), t2);
    assert(s == t0);
    lemma_skip_append(u7, t8);
    lemma_bool_roundtrip(v.realtime, t9);
    lemma_skip_append(u8, t9);
    lemma_byte_roundtrip(v.version_type, t10);
    lemma_skip_append(u9, t10);
    lemma_i64_roundtrip(v.version, t11);
    lemma_skip_append(u10, t11);
    lemma_bool_roundtrip(v.fetch_source_context_present, rest);
}

/// Reading the fields of a get request from its 5th field on gives the
/// fields written.
#[verifier::spinoff_prover]
#[verifier::rlimit(100)]
proof fn lemma_opensearch_get_request_from_4_roundtrip(v: OpenSearchGetRequestView, rest: Seq<u8>)
    requires
        opensearch_get_request_fits(v),
    ensures
        parse_opensearch_get_request_from_4(enc_opensearch_get_request(v) + rest, (enc_parent_task_id(v.parent_task_node, v.parent_task_id) + enc_bool(v.internal_shard_id_present) + enc_optional_string(v.index) + enc_string(v.id)).len() as int, (v.parent_task_node, v.parent_task_id), v.internal_shard_id_present, v.index, v.id) == WireRead::Decoded(v, enc_opensearch_get_request(v).len() as int),
{
    let s = enc_opensearch_get_request(v) + rest;
    let t11 = enc_bool(v.fetch_source_context_present) + rest;
    let t10 = enc_i64(v.version) + t11;
    let t9 = enc_byte(v.version_type) + t10;
    let t8 = enc_bool(v.realtime) + t9;
    let t7 = enc_optional_string_array(v.stored_fields) + t8;
    let t6 = enc_bool(v.refresh) + t7;
    let t5 = enc_optional_string(v.preference) + t6;
    let t4 = enc_optional_string(v.routing) + t5;
    let t3 = enc_string(v.id) + t4;
    let t2 = enc_optional_string(v.index) + t3;
    let t1 = enc_bool(v.internal_shard_id_present) + t2;
    let t0 = enc_parent_task_id(v.parent_task_node, v.parent_task_id) + t1;
    let u0 = enc_parent_task_id(v.parent_task_node, v.parent_task_id);
    let u1 = u0 + enc_bool(v.internal_shard_id_present);
    let u2 = u1 + enc_optional_string(v.index);
    let u3 = u2 + enc_string(v.id);
    let u4 = u3 + enc_optional_string(v.routing);
    let u5 = u4 + enc_optional_string(v.preference);
    let u6 = u5 + enc_bool(v.refresh);
    let u7 = u6 + enc_optional_string_array(v.stored_fields);
    let u8 = u7 + enc_bool(v.realtime);
    let u9 = u8 + enc_byte(v.version_type);
    let u10 = u9 + enc_i64(v.version);
    let u11 = u10 + enc_bool(v.fetch_source_context_present);
    assert(s == u11 + rest);
    lemma_append_assoc(u10, enc_bool(v.fetch_source_context_present), rest);
    lemma_append_assoc(u9, enc_i64(v.version), t11);
    lemma_append_assoc(u8, enc_byte(v.version_type), t10);
    lemma_append_assoc(u7, enc_bool(v.realtime), t9);
    lemma_append_assoc(u6, enc_optional_string_array(v.stored_fields), t8);
    lemma_append_assoc(u5, enc_bool(v.refresh), t7);
    lemma_append_assoc(u4, enc_optional_string(v.preference), t6);
    lemma_append_assoc(u3, enc_optional_string(v.routing), t5);
    lemma_append_assoc(u2, enc_string(v.id), t4);
    lemma_append_assoc(u1, enc_optional_string(v.index), t3);
    lemma_append_assoc(u0, enc_bool(v.internal_shard_id_present), t2);
    assert(s == t0);
    lemma_skip_append(u3, t4);
    lemma_optional_string_roundtrip(v.routing, t5);
    lemma_skip_append(u4, t5);
    lemma_optional_string_roundtrip(v.preference, t6);
    lemma_skip_append(u5, t6);
    lemma_bool_roundtrip(v.refresh, t7);
    lemma_skip_append(u6, t7);
    lemma_optional_string_array_roundtrip(v.stored_fields, t8);
    lemma_skip_append(u7, t8);
    lemma_opensearch_get_request_from_8_roundtrip(v, rest);
}

/// Reading a get request back gives the fields written.
#[verifier::spinoff_prover]
#[verifier::rlimit(100)]
pub proof fn lemma_opensearch_get_request_roundtrip(v: OpenSearchGetRequestView, rest: Seq<u8>)
    requires
        opensearch_get_request_fits(v),
    ensures
        parse_opensearch_get_request(enc_opensearch_get_request(v) + rest) == WireRead::Decoded(v, enc_opensearch_get_request(v).len() as int),
{
    let s = enc_opensearch_get_request(v) + rest;
    let t11 = enc_bool(v.fetch_source_context_present) + rest;
    let t10 = enc_i64(v.version) + t11;
    let t9 = enc_byte(v.version_type) + t10;
    let t8 = enc_bool(v.realtime) + t9;
    let t7 = enc_optional_string_array(v.stored_fields) + t8;
    let t6 = enc_bool(v.refresh) + t7;
    let t5 = enc_optional_string(v.preference) + t6;
    let t4 = enc_optional_string(v.routing) + t5;
    let t3 = enc_string(v.id) + t4;
    let t2 = enc_optional_string(v.index) + t3;
    let t1 = enc_bool(v.internal_shard_id_present) + t2;
    let t0 = enc_parent_task_id(v.parent_task_node, v.parent_task_id) + t1;
    let u0 = enc_parent_task_id(v.parent_task_node, v.parent_task_id);
    let u1 = u0 + enc_bool(v.internal_shard_id_present);
    let u2 = u1 + enc_optional_string(v.index);
    let u3 = u2 + enc_string(v.id);
    let u4 = u3 + enc_optional_string(v.routing);
    let u5 = u4 + enc_optional_string(v.preference);
    let u6 = u5 + enc_bool(v.refresh);
    let u7 = u6 + enc_optional_string_array(v.stored_fields);
    let u8 = u7 + enc_bool(v.realtime);
    let u9 = u8 + enc_byte(v.version_type);
    let u10 = u9 + enc_i64(v.version);
    let u11 = u10 + enc_bool(v.fetch_source_context_present);
    assert(s == u11 + rest);
    lemma_append_assoc(u10, enc_bool(v.fetch_source_context_present), rest);
    lemma_append_assoc(u9, enc_i64(v.version), t11);
    lemma_append_assoc(u8, enc_byte(v.version_type), t10);
    lemma_append_assoc(u7, enc_bool(v.realtime), t9);
    lemma_append_assoc(u6, enc_optional_string_array(v.stored_fields), t8);
    lemma_append_assoc(u5, enc_bool(v.refresh), t7);
    lemma_append_assoc(u4, enc_optional_string(v.preference), t6);
    lemma_append_assoc(u3, enc_optional_string(v.routing), t5);
    lemma_append_assoc(u2, enc_string(v.id), t4);
    lemma_append_assoc(u1, enc_optional_string(v.index), t3);
    lemma_append_assoc(u0, enc_bool(v.internal_shard_id_present), t2);
    assert(s == t0);
    lemma_parent_task_id_roundtrip(v.parent_task_node, v.parent_task_id, t1);
    lemma_skip_append(u0, t1);
    lemma_bool_roundtrip(v.internal_shard_id_present, t2);
    lemma_skip_append(u1, t2);
    lemma_optional_string_roundtrip(v.index, t3);
    lemma_skip_append(u2, t3);
    lemma_string_roundtrip(v.id, t4);
    lemma_skip_append(u3, t4);
    lemma_opensearch_get_request_from_4_roundtrip(v, rest);
}

/// What reading a get request from the whole of `bytes` gives: the fields read, a
/// refused shape, or an error.
pub open spec fn opensearch_get_request_read_result(bytes: Seq<u8>, r: Result<OpenSearchGetRequestWire, TransportActionWireError>) -> bool {
    match parse_opensearch_get_request(bytes) {
        WireRead::Decoded(v, n) => if n < bytes.len() {
            r == Err::<OpenSearchGetRequestWire, TransportActionWireError>(TransportActionWireError::TrailingBytes((bytes.len() - n) as usize))
        } else {
            r matches Ok(x) && x@ == v
        },
        WireRead::Unsupported(shape, reason) => is_unsupported(r, shape, reason),
        WireRead::Malformed => r is Err,
    }
}

/// Reading the whole of a written a get request gives back the fields written.
pub proof fn lemma_opensearch_get_request_read_back(v: OpenSearchGetRequestView, r: Result<OpenSearchGetRequestWire, TransportActionWireError>)
    requires
        opensearch_get_request_fits(v),
        opensearch_get_request_read_result(enc_opensearch_get_request(v), r),
    ensures
        r matches Ok(x) && x@ == v,
{
    lemma_opensearch_get_request_roundtrip(v, Seq::empty());
    assert(enc_opensearch_get_request(v) + Seq::<u8>::empty() =~= enc_opensearch_get_request(v));
}

/// The first shape of a get request that a writer refuses, with the reason.
pub open spec fn opensearch_get_request_write_refusal(v: OpenSearchGetRequestView) -> Option<(Seq<char>, Seq<char>)> {
    if v.internal_shard_id_present {
        Some(("get request internal shard id"@, "explicit shard ids are not encoded by the get adapter yet"@))
    } else if v.fetch_source_context_present {
        Some(("get request fetch source context"@, "fetch source context encoding is not implemented by the get adapter yet"@))
    } else {
        None
    }
}

impl OpenSearchGetRequestWire {
    /// Writes a get request; refuses the shapes a writer does not encode.
    #[verifier::spinoff_prover]
    #[verifier::rlimit(100)]
    pub fn write(&self, output: &mut StreamOutput) -> (r: Result<(), TransportActionWireError>)
        ensures
            match opensearch_get_request_write_refusal(self@) {
                Some((shape, reason)) => is_unsupported(r, shape, reason),
                None => r is Ok && final(output)@ == old(output)@ + enc_opensearch_get_request(self@),
            },
    {
        write_parent_task_id(output, self.parent_task_node.as_str(), self.parent_task_id);
        assert(output@ == old(output)@ + enc_parent_task_id(self@.parent_task_node, self@.parent_task_id));
        let ghost mut written = enc_parent_task_id(self@.parent_task_node, self@.parent_task_id);
        if self.internal_shard_id_present {
            return Err(TransportActionWireError::UnsupportedWireShape { shape: "get request internal shard id", reason: "explicit shard ids are not encoded by the get adapter yet" });
        }
        output.write_bool(false);
        proof {
            lemma_append_assoc(old(output)@, written, enc_bool(self@.internal_shard_id_present));
            written = written + enc_bool(self@.internal_shard_id_present);
        }
        match &self.index {
            Some(x) => output.write_optional_string(Some(x.as_str())),
            None => output.write_optional_string(None),
        }
        proof {
            lemma_append_assoc(old(output)@, written, enc_optional_string(self@.index));
            written = written + enc_optional_string(self@.index);
        }
        output.write_string(self.id.as_str());
        proof {
            lemma_append_assoc(old(output)@, written, enc_string(self@.id));
            written = written + enc_string(self@.id);
        }
        match &self.routing {
            Some(x) => output.write_optional_string(Some(x.as_str())),
            None => output.write_optional_string(None),
        }
        proof {
            lemma_append_assoc(old(output)@, written, enc_optional_string(self@.routing));
            written = written + enc_optional_string(self@.routing);
        }
        match &self.preference {
            Some(x) => output.write_optional_string(Some(x.as_str())),
            None => output.write_optional_string(None),
        }
        proof {
            lemma_append_assoc(old(output)@, written, enc_optional_string(self@.preference));
            written = written + enc_optional_string(self@.preference);
        }
        output.write_bool(self.refresh);
        proof {
            lemma_append_assoc(old(output)@, written, enc_bool(self@.refresh));
            written = written + enc_bool(self@.refresh);
        }
        match &self.stored_fields {
            Some(v) => write_optional_string_array(output, Some(v.as_slice())),
            None => write_optional_string_array(output, None),
        }
        proof {
            lemma_append_assoc(old(output)@, written, enc_optional_string_array(self@.stored_fields));
            written = written + enc_optional_string_array(self@.stored_fields);
        }
        output.write_bool(self.realtime);
        proof {
            lemma_append_assoc(old(output)@, written, enc_bool(self@.realtime));
            written = written + enc_bool(self@.realtime);
        }
        write_byte_field(output, self.version_type);
        proof {
            lemma_append_assoc(old(output)@, written, enc_byte(self@.version_type));
            written = written + enc_byte(self@.version_type);
        }
        output.write_i64(self.version);
        proof {
            lemma_append_assoc(old(output)@, written, enc_i64(self@.version));
            written = written + enc_i64(self@.version);
        }
        if self.fetch_source_context_present {
            return Err(TransportActionWireError::UnsupportedWireShape { shape: "get request fetch source context", reason: "fetch source context encoding is not implemented by the get adapter yet" });
        }
        output.write_bool(false);
        proof {
            lemma_append_assoc(old(output)@, written, enc_bool(self@.fetch_source_context_present));
            written = written + enc_bool(self@.fetch_source_context_present);
        }
        assert(output@ == old(output)@ + enc_opensearch_get_request(self@));
        Ok(())
    }

    /// Reads a get request from the whole of `bytes`.
    pub fn read(bytes: Vec<u8>) -> (r: Result<Self, TransportActionWireError>)
        ensures
            opensearch_get_request_read_result(bytes@, r),
    {
        let mut input = StreamInput::new(bytes);
        let ghost s = input.rest();
        let pt = read_parent_task_id(&mut input)?;
        proof {
            assert(input.rest() =~= s.skip(input.pos() - 0));
        }
        let internal_shard_id_present = lift(input.read_bool())?;
        if internal_shard_id_present {
            return Err(TransportActionWireError::UnsupportedWireShape { shape: "get request internal shard id", reason: "explicit shard ids are not decoded by the get adapter yet" });
        }
        proof {
            assert(input.rest() =~= s.skip(input.pos() - 0));
        }
        let index = lift(input.read_optional_string())?;
        proof {
            assert(input.rest() =~= s.skip(input.pos() - 0));
        }
        let id = lift(input.read_string())?;
        proof {
            assert(input.rest() =~= s.skip(input.pos() - 0));
        }
        let routing = lift(input.read_optional_string())?;
        proof {
            assert(input.rest() =~= s.skip(input.pos() - 0));
        }
        let preference = lift(input.read_optional_string())?;
        proof {
            assert(input.rest() =~= s.skip(input.pos() - 0));
        }
        let refresh = lift(input.read_bool())?;
        proof {
            assert(input.rest() =~= s.skip(input.pos() - 0));
        }
        let stored_fields = read_optional_string_array(&mut input)?;
        proof {
            assert(input.rest() =~= s.skip(input.pos() - 0));
        }
        let realtime = lift(input.read_bool())?;
        proof {
            assert(input.rest() =~= s.skip(input.pos() - 0));
        }
        let version_type = lift(input.read_byte())?;
        proof {
            assert(input.rest() =~= s.skip(input.pos() - 0));
        }
        let version = lift(input.read_i64())?;
        proof {
            assert(input.rest() =~= s.skip(input.pos() - 0));
        }
        let fetch_source_context_present = lift(input.read_bool())?;
        if fetch_source_context_present {
            return Err(TransportActionWireError::UnsupportedWireShape { shape: "get request fetch source context", reason: "fetch source context decoding is not implemented by the get adapter yet" });
        }
        proof {
            assert(input.rest() =~= s.skip(input.pos() - 0));
        }
        let value = OpenSearchGetRequestWire { parent_task_node: pt.0, parent_task_id: pt.1, internal_shard_id_present, index, id, routing, preference, refresh, stored_fields, realtime, version_type, version, fetch_source_context_present };
        require_no_trailing_bytes(&input)?;
        Ok(value)
    }
}

/// The fields of a delete request, as its bytes carry them.
pub struct OpenSearchDeleteRequestView {
    pub parent_task_node: Seq<char>,
    pub parent_task_id: Option<i64>,
    pub shard_id_present: bool,
    pub wait_for_active_shards: i32,
    pub timeout: TimeValueWire,
    pub index: Seq<char>,
    pub routed_based_on_cluster_version: i64,
    pub refresh_policy: u8,
    pub id: Seq<char>,
    pub routing: Option<Seq<char>>,
    pub version: i64,
    pub version_type: u8,
    pub if_seq_no: i64,
    pub if_primary_term: i64,
}

impl View for OpenSearchDeleteRequestWire {
    type V = OpenSearchDeleteRequestView;

    open spec fn view(&self) -> OpenSearchDeleteRequestView {
        OpenSearchDeleteRequestView {
            parent_task_node: self.parent_task_node@,
            parent_task_id: self.parent_task_id,
            shard_id_present: self.shard_id_present,
            wait_for_active_shards: self.wait_for_active_shards,
            timeout: self.timeout,
            index: self.index@,
            routed_based_on_cluster_version: self.routed_based_on_cluster_version,
            refresh_policy: self.refresh_policy,
            id: self.id@,
            routing: opt_string_view(self.routing),
            version: self.version,
            version_type: self.version_type,
            if_seq_no: self.if_seq_no,
            if_primary_term: self.if_primary_term,
        }
    }
}

/// The bytes of a delete request.
pub open spec fn enc_opensearch_delete_request(v: OpenSearchDeleteRequestView) -> Seq<u8> {
    enc_parent_task_id(v.parent_task_node, v.parent_task_id)
        + enc_bool(v.shard_id_present)
        + enc_i32(v.wait_for_active_shards)
        + enc_time_value(v.timeout)
        + enc_string(v.index)
        + enc_vlong(v.routed_based_on_cluster_version)
        + enc_byte(v.refresh_policy)
        + enc_string(v.id)
        + enc_optional_string(v.routing)
        + enc_i64(v.version)
        + enc_byte(v.version_type)
        + enc_zlong(v.if_seq_no)
        + enc_vlong(v.if_primary_term)
}

/// What a reader makes of the bytes of a delete request.
pub open spec fn parse_opensearch_delete_request(s: Seq<u8>) -> WireRead<OpenSearchDeleteRequestView> {
    match parse_parent_task_id(s) {
        Some((pt, k0)) => {
            match parse_bool(s.skip(k0)) {
                Some((shard_id_present, k1)) => {
                    if shard_id_present {
                        WireRead::Unsupported("delete request shard id"@, "explicit shard ids are not decoded by the delete adapter yet"@)
                    } else {
                        match parse_i32(s.skip(k0 + k1)) {
                            Some((wait_for_active_shards, k2)) => {
                                match parse_time_value(s.skip(k0 + k1 + k2)) {
                                    Some((timeout, k3)) => {
                                        parse_opensearch_delete_request_from_4(s, k0 + k1 + k2 + k3, pt, shard_id_present, wait_for_active_shards, timeout)
                                    },
                                    None => WireRead::Malformed,
                                }
                            },
                            None => WireRead::Malformed,
                        }
                    }
                },
                None => WireRead::Malformed,
            }
        },
        None => WireRead::Malformed,
    }
}

/// What a reader makes of the fields of a delete request from its
/// 5th field on, at offset `o`, given the fields before them.
pub open spec fn parse_opensearch_delete_request_from_4(s: Seq<u8>, o: int, pt: (Seq<char>, Option<i64>), shard_id_present: bool, wait_for_active_shards: i32, timeout: TimeValueWire) -> WireRead<OpenSearchDeleteRequestView> {
    match parse_string(s.skip(o)) {
        Some((index, k4)) => {
            match parse_vlong(s.skip(o + k4)) {
                Some((routed_based_on_cluster_version, k5)) => {
                    match parse_byte(s.skip(o + k4 + k5)) {
                        Some((refresh_policy, k6)) => {
                            match parse_string(s.skip(o + k4 + k5 + k6)) {
                                Some((id, k7)) => {
                                    parse_opensearch_delete_request_from_8(s, o + k4 + k5 + k6 + k7, pt, shard_id_present, wait_for_active_shards, timeout, index, routed_based_on_cluster_version, refresh_policy, id)
                                },
                                None => WireRead::Malformed,
                            }
                        },
                        None => WireRead::Malformed,
                    }
                },
                None => WireRead::Malformed,
            }
        },
        None => WireRead::Malformed,
    }
}

/// What a reader makes of the fields of a delete request from its
/// 9th field on, at offset `o`, given the fields before them.
pub open spec fn parse_opensearch_delete_request_from_8(s: Seq<u8>, o: int, pt: (Seq<char>, Option<i64>), shard_id_present: bool, wait_for_active_shards: i32, timeout: TimeValueWire, index: Seq<char>, routed_based_on_cluster_version: i64, refresh_policy: u8, id: Seq<char>) -> WireRead<OpenSearchDeleteRequestView> {
    match parse_optional_string(s.skip(o)) {
        Some((routing, k8)) => {
            match parse_i64(s.skip(o + k8)) {
                Some((version, k9)) => {
                    match parse_byte(s.skip(o + k8 + k9)) {
                        Some((version_type, k10)) => {
                            match parse_zlong(s.skip(o + k8 + k9 + k10)) {
                                Some((if_seq_no, k11)) => {
                                    match parse_vlong(s.skip(o + k8 + k9 + k10 + k11)) {
                                        Some((if_primary_term, k12)) => {
                                            WireRead::Decoded(OpenSearchDeleteRequestView { parent_task_node: pt.0, parent_task_id: pt.1, shard_id_present: shard_id_present, wait_for_active_shards: wait_for_active_shards, timeout: timeout, index: index, routed_based_on_cluster_version: routed_based_on_cluster_version, refresh_policy: refresh_policy, id: id, routing: routing, version: version, version_type: version_type, if_seq_no: if_seq_no, if_primary_term: if_primary_term }, o + k8 + k9 + k10 + k11 + k12)
                                        },
                                        None => WireRead::Malformed,
                                    }
                                },
                                None => WireRead::Malformed,
                            }
                        },
                        None => WireRead::Malformed,
                    }
                },
                None => WireRead::Malformed,
            }
        },
        None => WireRead::Malformed,
    }
}

/// True when a delete request reads back as written.
pub open spec fn opensearch_delete_request_fits(v: OpenSearchDeleteRequestView) -> bool {
    &&& parent_task_id_canonical(v.parent_task_node, v.parent_task_id)
    &&& !v.shard_id_present
    &&& string_fits(v.index)
    &&& string_fits(v.id)
    &&& v.routing matches Some(c) ==> string_fits(c)
}

/// Reading the fields of a delete request from its 9th field on gives the
/// fields written.
#[verifier::spinoff_prover]
#[verifier::rlimit(100)]
proof fn lemma_opensearch_delete_request_from_8_roundtrip(v: OpenSearchDeleteRequestView, rest: Seq<u8>)
    requires
        opensearch_delete_request_fits(v),
    ensures
        parse_opensearch_delete_request_from_8(enc_opensearch_delete_request(v) + rest, (enc_parent_task_id(v.parent_task_node, v.parent_task_id) + enc_bool(v.shard_id_present) + enc_i32(v.wait_for_active_shards) + enc_time_value(v.timeout) + enc_string(v.index) + enc_vlong(v.routed_based_on_cluster_version) + enc_byte(v.refresh_policy) + enc_string(v.id)).len() as int, (v.parent_task_node, v.parent_task_id), v.shard_id_present, v.wait_for_active_shards, v.timeout, v.index, v.routed_based_on_cluster_version, v.refresh_policy, v.id) == WireRead::Decoded(v, enc_opensearch_delete_request(v).len() as int),
{
    let s = enc_opensearch_delete_request(v) + rest;
    let t12 = enc_vlong(v.if_primary_term) + rest;
    let t11 = enc_zlong(v.if_seq_no) + t12;
    let t10 = enc_byte(v.version_type) + t11;
    let t9 = enc_i64(v.version) + t10;
    let t8 = enc_optional_string(v.routing) + t9;
    let t7 = enc_string(v.id) + t8;
    let t6 = enc_byte(v.refresh_policy) + t7;
    let t5 = enc_vlong(v.routed_based_on_cluster_version) + t6;
    let t4 = enc_string(v.index) + t5;
    let t3 = enc_time_value(v.timeout) + t4;
    let t2 = enc_i32(v.wait_for_active_shards) + t3;
    let t1 = enc_bool(v.shard_id_present) + t2;
    let t0 = enc_parent_task_id(v.parent_task_node, v.parent_task_id) + t1;
    let u0 = enc_parent_task_id(v.parent_task_node, v.parent_task_id);
    let u1 = u0 + enc_bool(v.shard_id_present);
    let u2 = u1 + enc_i32(v.wait_for_active_shards);
    let u3 = u2 + enc_time_value(v.timeout);
    let u4 = u3 + enc_string(v.index);
    let u5 = u4 + enc_vlong(v.routed_based_on_cluster_version);
    let u6 = u5 + enc_byte(v.refresh_policy);
    let u7 = u6 + enc_string(v.id);
    let u8 = u7 + enc_optional_string(v.routing);
    let u9 = u8 + enc_i64(v.version);
    let u10 = u9 + enc_byte(v.version_type);
    let u11 = u10 + enc_zlong(v.if_seq_no);
    let u12 = u11 + enc_vlong(v.if_primary_term);
    assert(s == u12 + rest);
    lemma_append_assoc(u11, enc_vlong(v.if_primary_term), rest);
    lemma_append_assoc(u10, enc_zlong(v.if_seq_no), t12);
    lemma_append_assoc(u9, enc_byte(v.version_type), t11);
    lemma_append_assoc(u8, enc_i64(v.version), t10);
    lemma_append_assoc(u7, enc_optional_string(v.routing), t9);
    lemma_append_assoc(u6, enc_string(v.id), t8);
    lemma_append_assoc(u5, enc_byte(v.refresh_policy), t7);
    lemma_append_assoc(u4, enc_vlong(v.routed_based_on_cluster_version), t6);
    lemma_append_assoc(u3, enc_string(v.index), t5);
    lemma_append_assoc(u2, enc_time_value(v.timeout), t4);
    lemma_append_assoc(u1, enc_i32(v.wait_for_active_shards), t3);
    lemma_append_assoc(u0, enc_bool(v.shard_id_present), t2);
    assert(s == t0);
    lemma_skip_append(u7, t8);
    lemma_optional_string_roundtrip(v.routing, t9);
    lemma_skip_append(u8, t9);
    lemma_i64_roundtrip(v.version, t10);
    lemma_skip_append(u9, t10);
    lemma_byte_roundtrip(v.version_type, t11);
    lemma_skip_append(u10, t11);
    lemma_zlong_roundtrip(v.if_seq_no, t12);
    lemma_skip_append(u11, t12);
    lemma_vlong_roundtrip(v.if_primary_term, rest);
}

/// Reading the fields of a delete request from its 5th field on gives the
/// fields written.
#[verifier::spinoff_prover]
#[verifier::rlimit(100)]
proof fn lemma_opensearch_delete_request_from_4_roundtrip(v: OpenSearchDeleteRequestView, rest: Seq<u8>)
    requires
        opensearch_delete_request_fits(v),
    ensures
        parse_opensearch_delete_request_from_4(enc_opensearch_delete_request(v) + rest, (enc_parent_task_id(v.parent_task_node, v.parent_task_id) + enc_bool(v.shard_id_present) + enc_i32(v.wait_for_active_shards) + enc_time_value(v.timeout)).len() as int, (v.parent_task_node, v.parent_task_id), v.shard_id_present, v.wait_for_active_shards, v.timeout) == WireRead::Decoded(v, enc_opensearch_delete_request(v).len() as int),
{
    let s = enc_opensearch_delete_request(v) + rest;
    let t12 = enc_vlong(v.if_primary_term) + rest;
    let t11 = enc_zlong(v.if_seq_no) + t12;
    let t10 = enc_byte(v.version_type) + t11;
    let t9 = enc_i64(v.version) + t10;
    let t8 = enc_optional_string(v.routing) + t9;
    let t7 = enc_string(v.id) + t8;
    let t6 = enc_byte(v.refresh_policy) + t7;
    let t5 = enc_vlong(v.routed_based_on_cluster_version) + t6;
    let t4 = enc_string(v.index) + t5;
    let t3 = enc_time_value(v.timeout) + t4;
    let t2 = enc_i32(v.wait_for_active_shards) + t3;
    let t1 = enc_bool(v.shard_id_present) + t2;
    let t0 = enc_parent_task_id(v.parent_task_node, v.parent_task_id) + t1;
    let u0 = enc_parent_task_id(v.parent_task_node, v.parent_task_id);
    let u1 = u0 + enc_bool(v.shard_id_present);
    let u2 = u1 + enc_i32(v.wait_for_active_shards);
    let u3 = u2 + enc_time_value(v.timeout);
    let u4 = u3 + enc_string(v.index);
    let u5 = u4 + enc_vlong(v.routed_based_on_cluster_version);
    let u6 = u5 + enc_byte(v.refresh_policy);
    let u7 = u6 + enc_string(v.id);
    let u8 = u7 + enc_optional_string(v.routing);
    let u9 = u8 + enc_i64(v.version);
    let u10 = u9 + enc_byte(v.version_type);
    let u11 = u10 + enc_zlong(v.if_seq_no);
    let u12 = u11 + enc_vlong(v.if_primary_term);
    assert(s == u12 + rest);
    lemma_append_assoc(u11, enc_vlong(v.if_primary_term), rest);
    lemma_append_assoc(u10, enc_zlong(v.if_seq_no), t12);
    lemma_append_assoc(u9, enc_byte(v.version_type), t11);
    lemma_append_assoc(u8, enc_i64(v.version), t10);
    lemma_append_assoc(u7, enc_optional_string(v.routing), t9);
    lemma_append_assoc(u6, enc_string(v.id), t8);
    lemma_append_assoc(u5, enc_byte(v.refresh_policy), t7);
    lemma_append_assoc(u4, enc_vlong(v.routed_based_on_cluster_version), t6);
    lemma_append_assoc(u3, enc_string(v.index), t5);
    lemma_append_assoc(u2, enc_time_value(v.timeout), t4);
    lemma_append_assoc(u1, enc_i32(v.wait_for_active_shards), t3);
    lemma_append_assoc(u0, enc_bool(v.shard_id_present), t2);
    assert(s == t0);
    lemma_skip_append(u3, t4);
    lemma_string_roundtrip(v.index, t5);
    lemma_skip_append(u4, t5);
    lemma_vlong_roundtrip(v.routed_based_on_cluster_version, t6);
    lemma_skip_append(u5, t6);
    lemma_byte_roundtrip(v.refresh_policy, t7);
    lemma_skip_append(u6, t7);
    lemma_string_roundtrip(v.id, t8);
    lemma_skip_append(u7, t8);
    lemma_opensearch_delete_request_from_8_roundtrip(v, rest);
}

/// Reading a delete request back gives the fields written.
#[verifier::spinoff_prover]
#[verifier::rlimit(100)]
pub proof fn lemma_opensearch_delete_request_roundtrip(v: OpenSearchDeleteRequestView, rest: Seq<u8>)
    requires
        opensearch_delete_request_fits(v),
    ensures
        parse_opensearch_delete_request(enc_opensearch_delete_request(v) + rest) == WireRead::Decoded(v, enc_opensearch_delete_request(v).len() as int),
{
    let s = enc_opensearch_delete_request(v) + rest;
    let t12 = enc_vlong(v.if_primary_term) + rest;
    let t11 = enc_zlong(v.if_seq_no) + t12;
    let t10 = enc_byte(v.version_type) + t11;
    let t9 = enc_i64(v.version) + t10;
    let t8 = enc_optional_string(v.routing) + t9;
    let t7 = enc_string(v.id) + t8;
    let t6 = enc_byte(v.refresh_policy) + t7;
    let t5 = enc_vlong(v.routed_based_on_cluster_version) + t6;
    let t4 = enc_string(v.index) + t5;
    let t3 = enc_time_value(v.timeout) + t4;
    let t2 = enc_i32(v.wait_for_active_shards) + t3;
    let t1 = enc_bool(v.shard_id_present) + t2;
    let t0 = enc_parent_task_id(v.parent_task_node, v.parent_task_id) + t1;
    let u0 = enc_parent_task_id(v.parent_task_node, v.parent_task_id);
    let u1 = u0 + enc_bool(v.shard_id_present);
    let u2 = u1 + enc_i32(v.wait_for_active_shards);
    let u3 = u2 + enc_time_value(v.timeout);
    let u4 = u3 + enc_string(v.index);
    let u5 = u4 + enc_vlong(v.routed_based_on_cluster_version);
    let u6 = u5 + enc_byte(v.refresh_policy);
    let u7 = u6 + enc_string(v.id);
    let u8 = u7 + enc_optional_string(v.routing);
    let u9 = u8 + enc_i64(v.version);
    let u10 = u9 + enc_byte(v.version_type);
    let u11 = u10 + enc_zlong(v.if_seq_no);
    let u12 = u11 + enc_vlong(v.if_primary_term);
    assert(s == u12 + rest);
    lemma_append_assoc(u11, enc_vlong(v.if_primary_term), rest);
    lemma_append_assoc(u10, enc_zlong(v.if_seq_no), t12);
    lemma_append_assoc(u9, enc_byte(v.version_type), t11);
    lemma_append_assoc(u8, enc_i64(v.version), t10);
    lemma_append_assoc(u7, enc_optional_string(v.routing), t9);
    lemma_append_assoc(u6, enc_string(v.id), t8);
    lemma_append_assoc(u5, enc_byte(v.refresh_policy), t7);
    lemma_append_assoc(u4, enc_vlong(v.routed_based_on_cluster_version), t6);
    lemma_append_assoc(u3, enc_string(v.index), t5);
    lemma_append_assoc(u2, enc_time_value(v.timeout), t4);
    lemma_append_assoc(u1, enc_i32(v.wait_for_active_shards), t3);
    lemma_append_assoc(u0, enc_bool(v.shard_id_present), t2);
    assert(s == t0);
    lemma_parent_task_id_roundtrip(v.parent_task_node, v.parent_task_id, t1);
    lemma_skip_append(u0, t1);
    lemma_bool_roundtrip(v.shard_id_present, t2);
    lemma_skip_append(u1, t2);
    lemma_i32_roundtrip(v.wait_for_active_shards, t3);
    lemma_skip_append(u2, t3);
    lemma_time_value_roundtrip(v.timeout, t4);
    lemma_skip_append(u3, t4);
    lemma_opensearch_delete_request_from_4_roundtrip(v, rest);
}

/// What reading a delete request from the whole of `bytes` gives: the fields read, a
/// refused shape, or an error.
pub open spec fn opensearch_delete_request_read_result(bytes: Seq<u8>, r: Result<OpenSearchDeleteRequestWire, TransportActionWireError>) -> bool {
    match parse_opensearch_delete_request(bytes) {
        WireRead::Decoded(v, n) => if n < bytes.len() {
            r == Err::<OpenSearchDeleteRequestWire, TransportActionWireError>(TransportActionWireError::TrailingBytes((bytes.len() - n) as usize))
        } else {
            r matches Ok(x) && x@ == v
        },
        WireRead::Unsupported(shape, reason) => is_unsupported(r, shape, reason),
        WireRead::Malformed => r is Err,
    }
}

/// Reading the whole of a written a delete request gives back the fields written.
pub proof fn lemma_opensearch_delete_request_read_back(v: OpenSearchDeleteRequestView, r: Result<OpenSearchDeleteRequestWire, TransportActionWireError>)
    requires
        opensearch_delete_request_fits(v),
        opensearch_delete_request_read_result(enc_opensearch_delete_request(v), r),
    ensures
        r matches Ok(x) && x@ == v,
{
    lemma_opensearch_delete_request_roundtrip(v, Seq::empty());
    assert(enc_opensearch_delete_request(v) + Seq::<u8>::empty() =~= enc_opensearch_delete_request(v));
}

/// The first shape of a delete request that a writer refuses, with the reason.
pub open spec fn opensearch_delete_request_write_refusal(v: OpenSearchDeleteRequestView) -> Option<(Seq<char>, Seq<char>)> {
    if v.shard_id_present {
        Some(("delete request shard id"@, "explicit shard ids are not encoded by the delete adapter yet"@))
    } else {
        None
    }
}

impl OpenSearchDeleteRequestWire {
    /// Writes a delete request; refuses the shapes a writer does not encode.
    pub fn write(&self, output: &mut StreamOutput) -> (r: Result<(), TransportActionWireError>)
        ensures
            match opensearch_delete_request_write_refusal(self@) {
                Some((shape, reason)) => is_unsupported(r, shape, reason),
                None => r is Ok && final(output)@ == old(output)@ + enc_opensearch_delete_request(self@),
            },
    {
        write_parent_task_id(output, self.parent_task_node.as_str(), self.parent_task_id);
        assert(output@ == old(output)@ + enc_parent_task_id(self@.parent_task_node, self@.parent_task_id));
        if self.shard_id_present {
            return Err(TransportActionWireError::UnsupportedWireShape { shape: "delete request shard id", reason: "explicit shard ids are not encoded by the delete adapter yet" });
        }
        output.write_bool(false);
        output.write_i32(self.wait_for_active_shards);
        self.timeout.write(output);
        output.write_string(self.index.as_str());
        output.write_vlong(self.routed_based_on_cluster_version);
        write_byte_field(output, self.refresh_policy);
        output.write_string(self.id.as_str());
        match &self.routing {
            Some(x) => output.write_optional_string(Some(x.as_str())),
            None => output.write_optional_string(None),
        }
        output.write_i64(self.version);
        write_byte_field(output, self.version_type);
        output.write_zlong(self.if_seq_no);
        output.write_vlong(self.if_primary_term);
        assert(output@ == old(output)@ + enc_opensearch_delete_request(self@));
        Ok(())
    }

    /// Reads a delete request.
    pub fn read_from_input(input: &mut StreamInput) -> (r: Result<Self, TransportActionWireError>)
        ensures
            final(input).data() == old(input).data(),
            old(input).pos() <= final(input).pos() <= final(input).data().len(),
            match parse_opensearch_delete_request(old(input).rest()) {
                WireRead::Decoded(v, n) => r matches Ok(x) && x@ == v && final(input).pos() == old(input).pos() + n,
                WireRead::Unsupported(shape, reason) => is_unsupported(r, shape, reason),
                WireRead::Malformed => r is Err,
            },
    {
        let ghost s = old(input).rest();
        let ghost p0 = old(input).pos();
        let pt = read_parent_task_id(input)?;
        proof {
            assert(input.rest() =~= s.skip(input.pos() - p0));
        }
        let shard_id_present = lift(input.read_bool())?;
        if shard_id_present {
            return Err(TransportActionWireError::UnsupportedWireShape { shape: "delete request shard id", reason: "explicit shard ids are not decoded by the delete adapter yet" });
        }
        proof {
            assert(input.rest() =~= s.skip(input.pos() - p0));
        }
        let wait_for_active_shards = lift(input.read_i32())?;
        proof {
            assert(input.rest() =~= s.skip(input.pos() - p0));
        }
        let timeout = TimeValueWire::read(input)?;
        proof {
            assert(input.rest() =~= s.skip(input.pos() - p0));
        }
        let index = lift(input.read_string())?;
        proof {
            assert(input.rest() =~= s.skip(input.pos() - p0));
        }
        let routed_based_on_cluster_version = lift(input.read_vlong())?;
        proof {
            assert(input.rest() =~= s.skip(input.pos() - p0));
        }
        let refresh_policy = lift(input.read_byte())?;
        proof {
            assert(input.rest() =~= s.skip(input.pos() - p0));
        }
        let id = lift(input.read_string())?;
        proof {
            assert(input.rest() =~= s.skip(input.pos() - p0));
        }
        let routing = lift(input.read_optional_string())?;
        proof {
            assert(input.rest() =~= s.skip(input.pos() - p0));
        }
        let version = lift(input.read_i64())?;
        proof {
            assert(input.rest() =~= s.skip(input.pos() - p0));
        }
        let version_type = lift(input.read_byte())?;
        proof {
            assert(input.rest() =~= s.skip(input.pos() - p0));
        }
        let if_seq_no = lift(input.read_zlong())?;
        proof {
            assert(input.rest() =~= s.skip(input.pos() - p0));
        }
        let if_primary_term = lift(input.read_vlong())?;
        proof {
            assert(input.rest() =~= s.skip(input.pos() - p0));
        }
        Ok(OpenSearchDeleteRequestWire { parent_task_node: pt.0, parent_task_id: pt.1, shard_id_present, wait_for_active_shards, timeout, index, routed_based_on_cluster_version, refresh_policy, id, routing, version, version_type, if_seq_no, if_primary_term })
    }

    /// Reads a delete request from the whole of `bytes`.
    pub fn read(bytes: Vec<u8>) -> (r: Result<Self, TransportActionWireError>)
        ensures
            opensearch_delete_request_read_result(bytes@, r),
    {
        let mut input = StreamInput::new(bytes);
        let value = Self::read_from_input(&mut input)?;
        require_no_trailing_bytes(&input)?;
        Ok(value)
    }
}

/// The fields of an index response, as its bytes carry them.
pub struct OpenSearchIndexResponseView {
    pub shard_total: i32,
    pub shard_successful: i32,
    pub index: Seq<char>,
    pub index_uuid: Seq<char>,
    pub shard_id: i32,
    pub id: Seq<char>,
    pub version: i64,
    pub seq_no: i64,
    pub primary_term: i64,
    pub forced_refresh: bool,
    pub result: u8,
}

impl View for OpenSearchIndexResponseWire {
    type V = OpenSearchIndexResponseView;

    open spec fn view(&self) -> OpenSearchIndexResponseView {
        OpenSearchIndexResponseView {
            shard_total: self.shard_total,
            shard_successful: self.shard_successful,
            index: self.index@,
            index_uuid: self.index_uuid@,
            shard_id: self.shard_id,
            id: self.id@,
            version: self.version,
            seq_no: self.seq_no,
            primary_term: self.primary_term,
            forced_refresh: self.forced_refresh,
            result: self.result,
        }
    }
}

/// The bytes of an index response.
pub open spec fn enc_opensearch_index_response(v: OpenSearchIndexResponseView) -> Seq<u8> {
    enc_vint(v.shard_total)
        + enc_vint(v.shard_successful)
        + enc_vint(0)
        + enc_string(v.index)
        + enc_string(v.index_uuid)
        + enc_vint(v.shard_id)
        + enc_string(v.id)
        + enc_zlong(v.version)
        + enc_zlong(v.seq_no)
        + enc_vlong(v.primary_term)
        + enc_bool(v.forced_refresh)
        + enc_byte(v.result)
}

/// What a reader makes of the bytes of an index response.
pub open spec fn parse_opensearch_index_response(s: Seq<u8>) -> WireRead<OpenSearchIndexResponseView> {
    match parse_vint(s) {
        Some((shard_total, k0)) => {
            match parse_vint(s.skip(k0)) {
                Some((shard_successful, k1)) => {
                    match parse_vint(s.skip(k0 + k1)) {
                        Some((count, k2)) => {
                            if count != 0 {
                                WireRead::Unsupported("index response shard failures"@, "non-empty failure arrays are not decoded by the index adapter yet"@)
                            } else {
                                match parse_string(s.skip(k0 + k1 + k2)) {
                                    Some((index, k3)) => {
                                        parse_opensearch_index_response_from_4(s, k0 + k1 + k2 + k3, shard_total, shard_successful, index)
                                    },
                                    None => WireRead::Malformed,
                                }
                            }
                        },
                        None => WireRead::Malformed,
                    }
                },
                None => WireRead::Malformed,
            }
        },
        None => WireRead::Malformed,
    }
}

/// What a reader makes of the fields of an index response from its
/// 5th field on, at offset `o`, given the fields before them.
pub open spec fn parse_opensearch_index_response_from_4(s: Seq<u8>, o: int, shard_total: i32, shard_successful: i32, index: Seq<char>) -> WireRead<OpenSearchIndexResponseView> {
    match parse_string(s.skip(o)) {
        Some((index_uuid, k4)) => {
            match parse_vint(s.skip(o + k4)) {
                Some((shard_id, k5)) => {
                    match parse_string(s.skip(o + k4 + k5)) {
                        Some((id, k6)) => {
                            match parse_zlong(s.skip(o + k4 + k5 + k6)) {
                                Some((version, k7)) => {
                                    parse_opensearch_index_response_from_8(s, o + k4 + k5 + k6 + k7, shard_total, shard_successful, index, index_uuid, shard_id, id, version)
                                },
                                None => WireRead::Malformed,
                            }
                        },
                        None => WireRead::Malformed,
                    }
                },
                None => WireRead::Malformed,
            }
        },
        None => WireRead::Malformed,
    }
}

/// What a reader makes of the fields of an index response from its
/// 9th field on, at offset `o`, given the fields before them.
pub open spec fn parse_opensearch_index_response_from_8(s: Seq<u8>, o: int, shard_total: i32, shard_successful: i32, index: Seq<char>, index_uuid: Seq<char>, shard_id: i32, id: Seq<char>, version: i64) -> WireRead<OpenSearchIndexResponseView> {
    match parse_zlong(s.skip(o)) {
        Some((seq_no, k8)) => {
            match parse_vlong(s.skip(o + k8)) {
                Some((primary_term, k9)) => {
                    match parse_bool(s.skip(o + k8 + k9)) {
                        Some((forced_refresh, k10)) => {
                            match parse_byte(s.skip(o + k8 + k9 + k10)) {
                                Some((result, k11)) => {
                                    if result != 0u8 && result != 1u8 {
                                        WireRead::Unsupported("index response result"@, "only created and updated index results are decoded by the index adapter"@)
                                    } else {
                                        WireRead::Decoded(OpenSearchIndexResponseView { shard_total: shard_total, shard_successful: shard_successful, index: index, index_uuid: index_uuid, shard_id: shard_id, id: id, version: version, seq_no: seq_no, primary_term: primary_term, forced_refresh: forced_refresh, result: result }, o + k8 + k9 + k10 + k11)
                                    }
                                },
                                None => WireRead::Malformed,
                            }
                        },
                        None => WireRead::Malformed,
                    }
                },
                None => WireRead::Malformed,
            }
        },
        None => WireRead::Malformed,
    }
}

/// True when an index response reads back as written.
pub open spec fn opensearch_index_response_fits(v: OpenSearchIndexResponseView) -> bool {
    &&& string_fits(v.index)
    &&& string_fits(v.index_uuid)
    &&& string_fits(v.id)
    &&& !(v.result != 0u8 && v.result != 1u8)
}

/// Reading the fields of an index response from its 9th field on gives the
/// fields written.
#[verifier::spinoff_prover]
#[verifier::rlimit(100)]
proof fn lemma_opensearch_index_response_from_8_roundtrip(v: OpenSearchIndexResponseView, rest: Seq<u8>)
    requires
        opensearch_index_response_fits(v),
    ensures
        parse_opensearch_index_response_from_8(enc_opensearch_index_response(v) + rest, (enc_vint(v.shard_total) + enc_vint(v.shard_successful) + enc_vint(0) + enc_string(v.index) + enc_string(v.index_uuid) + enc_vint(v.shard_id) + enc_string(v.id) + enc_zlong(v.version)).len() as int, v.shard_total, v.shard_successful, v.index, v.index_uuid, v.shard_id, v.id, v.version) == WireRead::Decoded(v, enc_opensearch_index_response(v).len() as int),
{
    let s = enc_opensearch_index_response(v) + rest;
    let t11 = enc_byte(v.result) + rest;
    let t10 = enc_bool(v.forced_refresh) + t11;
    let t9 = enc_vlong(v.primary_term) + t10;
    let t8 = enc_zlong(v.seq_no) + t9;
    let t7 = enc_zlong(v.version) + t8;
    let t6 = enc_string(v.id) + t7;
    let t5 = enc_vint(v.shard_id) + t6;
    let t4 = enc_string(v.index_uuid) + t5;
    let t3 = enc_string(v.index) + t4;
    let t2 = enc_vint(0) + t3;
    let t1 = enc_vint(v.shard_successful) + t2;
    let t0 = enc_vint(v.shard_total) + t1;
    let u0 = enc_vint(v.shard_total);
    let u1 = u0 + enc_vint(v.shard_successful);
    let u2 = u1 + enc_vint(0);
    let u3 = u2 + enc_string(v.index);
    let u4 = u3 + enc_string(v.index_uuid);
    let u5 = u4 + enc_vint(v.shard_id);
    let u6 = u5 + enc_string(v.id);
    let u7 = u6 + enc_zlong(v.version);
    let u8 = u7 + enc_zlong(v.seq_no);
    let u9 = u8 + enc_vlong(v.primary_term);
    let u10 = u9 + enc_bool(v.forced_refresh);
    let u11 = u10 + enc_byte(v.result);
    assert(s == u11 + rest);
    lemma_append_assoc(u10, enc_byte(v.result), rest);
    lemma_append_assoc(u9, enc_bool(v.forced_refresh), t11);
    lemma_append_assoc(u8, enc_vlong(v.primary_term), t10);
    lemma_append_assoc(u7, enc_zlong(v.seq_no), t9);
    lemma_append_assoc(u6, enc_zlong(v.version), t8);
    lemma_append_assoc(u5, enc_string(v.id), t7);
    lemma_append_assoc(u4, enc_vint(v.shard_id), t6);
    lemma_append_assoc(u3, enc_string(v.index_uuid), t5);
    lemma_append_assoc(u2, enc_string(v.index), t4);
    lemma_append_assoc(u1, enc_vint(0), t3);
    lemma_append_assoc(u0, enc_vint(v.shard_successful), t2);
    assert(s == t0);
    lemma_skip_append(u7, t8);
    lemma_zlong_roundtrip(v.seq_no, t9);
    lemma_skip_append(u8, t9);
    lemma_vlong_roundtrip(v.primary_term, t10);
    lemma_skip_append(u9, t10);
    lemma_bool_roundtrip(v.forced_refresh, t11);
    lemma_skip_append(u10, t11);
    lemma_byte_roundtrip(v.result, rest);
}

/// Reading the fields of an index response from its 5th field on gives the
/// fields written.
#[verifier::spinoff_prover]
#[verifier::rlimit(100)]
proof fn lemma_opensearch_index_response_from_4_roundtrip(v: OpenSearchIndexResponseView, rest: Seq<u8>)
    requires
        opensearch_index_response_fits(v),
    ensures
        parse_opensearch_index_response_from_4(enc_opensearch_index_response(v) + rest, (enc_vint(v.shard_total) + enc_vint(v.shard_successful) + enc_vint(0) + enc_string(v.index)).len() as int, v.shard_total, v.shard_successful, v.index) == WireRead::Decoded(v, enc_opensearch_index_response(v).len() as int),
{
    let s = enc_opensearch_index_response(v) + rest;
    let t11 = enc_byte(v.result) + rest;
    let t10 = enc_bool(v.forced_refresh) + t11;
    let t9 = enc_vlong(v.primary_term) + t10;
    let t8 = enc_zlong(v.seq_no) + t9;
    let t7 = enc_zlong(v.version) + t8;
    let t6 = enc_string(v.id) + t7;
    let t5 = enc_vint(v.shard_id) + t6;
    let t4 = enc_string(v.index_uuid) + t5;
    let t3 = enc_string(v.index) + t4;
    let t2 = enc_vint(0) + t3;
    let t1 = enc_vint(v.shard_successful) + t2;
    let t0 = enc_vint(v.shard_total) + t1;
    let u0 = enc_vint(v.shard_total);
    let u1 = u0 + enc_vint(v.shard_successful);
    let u2 = u1 + enc_vint(0);
    let u3 = u2 + enc_string(v.index);
    let u4 = u3 + enc_string(v.index_uuid);
    let u5 = u4 + enc_vint(v.shard_id);
    let u6 = u5 + enc_string(v.id);
    let u7 = u6 + enc_zlong(v.version);
    let u8 = u7 + enc_zlong(v.seq_no);
    let u9 = u8 + enc_vlong(v.primary_term);
    let u10 = u9 + enc_bool(v.forced_refresh);
    let u11 = u10 + enc_byte(v.result);
    assert(s == u11 + rest);
    lemma_append_assoc(u10, enc_byte(v.result), rest);
    lemma_append_assoc(u9, enc_bool(v.forced_refresh), t11);
    lemma_append_assoc(u8, enc_vlong(v.primary_term), t10);
    lemma_append_assoc(u7, enc_zlong(v.seq_no), t9);
    lemma_append_assoc(u6, enc_zlong(v.version), t8);
    lemma_append_assoc(u5, enc_string(v.id), t7);
    lemma_append_assoc(u4, enc_vint(v.shard_id), t6);
    lemma_append_assoc(u3, enc_string(v.index_uuid), t5);
    lemma_append_assoc(u2, enc_string(v.index), t4);
    lemma_append_assoc(u1, enc_vint(0), t3);
    lemma_append_assoc(u0, enc_vint(v.shard_successful), t2);
    assert(s == t0);
    lemma_skip_append(u3, t4);
    lemma_string_roundtrip(v.index_uuid, t5);
    lemma_skip_append(u4, t5);
    lemma_vint_roundtrip(v.shard_id, t6);
    lemma_skip_append(u5, t6);
    lemma_string_roundtrip(v.id, t7);
    lemma_skip_append(u6, t7);
    lemma_zlong_roundtrip(v.version, t8);
    lemma_skip_append(u7, t8);
    lemma_opensearch_index_response_from_8_roundtrip(v, rest);
}

/// Reading an index response back gives the fields written.
#[verifier::spinoff_prover]
#[verifier::rlimit(100)]
pub proof fn lemma_opensearch_index_response_roundtrip(v: OpenSearchIndexResponseView, rest: Seq<u8>)
    requires
        opensearch_index_response_fits(v),
    ensures
        parse_opensearch_index_response(enc_opensearch_index_response(v) + rest) == WireRead::Decoded(v, enc_opensearch_index_response(v).len() as int),
{
    let s = enc_opensearch_index_response(v) + rest;
    let t11 = enc_byte(v.result) + rest;
    let t10 = enc_bool(v.forced_refresh) + t11;
    let t9 = enc_vlong(v.primary_term) + t10;
    let t8 = enc_zlong(v.seq_no) + t9;
    let t7 = enc_zlong(v.version) + t8;
    let t6 = enc_string(v.id) + t7;
    let t5 = enc_vint(v.shard_id) + t6;
    let t4 = enc_string(v.index_uuid) + t5;
    let t3 = enc_string(v.index) + t4;
    let t2 = enc_vint(0) + t3;
    let t1 = enc_vint(v.shard_successful) + t2;
    let t0 = enc_vint(v.shard_total) + t1;
    let u0 = enc_vint(v.shard_total);
    let u1 = u0 + enc_vint(v.shard_successful);
    let u2 = u1 + enc_vint(0);
    let u3 = u2 + enc_string(v.index);
    let u4 = u3 + enc_string(v.index_uuid);
    let u5 = u4 + enc_vint(v.shard_id);
    let u6 = u5 + enc_string(v.id);
    let u7 = u6 + enc_zlong(v.version);
    let u8 = u7 + enc_zlong(v.seq_no);
    let u9 = u8 + enc_vlong(v.primary_term);
    let u10 = u9 + enc_bool(v.forced_refresh);
    let u11 = u10 + enc_byte(v.result);
    assert(s == u11 + rest);
    lemma_append_assoc(u10, enc_byte(v.result), rest);
    lemma_append_assoc(u9, enc_bool(v.forced_refresh), t11);
    lemma_append_assoc(u8, enc_vlong(v.primary_term), t10);
    lemma_append_assoc(u7, enc_zlong(v.seq_no), t9);
    lemma_append_assoc(u6, enc_zlong(v.version), t8);
    lemma_append_assoc(u5, enc_string(v.id), t7);
    lemma_append_assoc(u4, enc_vint(v.shard_id), t6);
    lemma_append_assoc(u3, enc_string(v.index_uuid), t5);
    lemma_append_assoc(u2, enc_string(v.index), t4);
    lemma_append_assoc(u1, enc_vint(0), t3);
    lemma_append_assoc(u0, enc_vint(v.shard_successful), t2);
    assert(s == t0);
    lemma_vint_roundtrip(v.shard_total, t1);
    lemma_skip_append(u0, t1);
    lemma_vint_roundtrip(v.shard_successful, t2);
    lemma_skip_append(u1, t2);
    lemma_vint_roundtrip(0, t3);
    lemma_skip_append(u2, t3);
    lemma_string_roundtrip(v.index, t4);
    lemma_skip_append(u3, t4);
    lemma_opensearch_index_response_from_4_roundtrip(v, rest);
}

/// What reading an index response from the whole of `bytes` gives: the fields read, a
/// refused shape, or an error.
pub open spec fn opensearch_index_response_read_result(bytes: Seq<u8>, r: Result<OpenSearchIndexResponseWire, TransportActionWireError>) -> bool {
    match parse_opensearch_index_response(bytes) {
        WireRead::Decoded(v, n) => if n < bytes.len() {
            r == Err::<OpenSearchIndexResponseWire, TransportActionWireError>(TransportActionWireError::TrailingBytes((bytes.len() - n) as usize))
        } else {
            r matches Ok(x) && x@ == v
        },
        WireRead::Unsupported(shape, reason) => is_unsupported(r, shape, reason),
        WireRead::Malformed => r is Err,
    }
}

/// Reading the whole of a written an index response gives back the fields written.
pub proof fn lemma_opensearch_index_response_read_back(v: OpenSearchIndexResponseView, r: Result<OpenSearchIndexResponseWire, TransportActionWireError>)
    requires
        opensearch_index_response_fits(v),
        opensearch_index_response_read_result(enc_opensearch_index_response(v), r),
    ensures
        r matches Ok(x) && x@ == v,
{
    lemma_opensearch_index_response_roundtrip(v, Seq::empty());
    assert(enc_opensearch_index_response(v) + Seq::<u8>::empty() =~= enc_opensearch_index_response(v));
}

impl OpenSearchIndexResponseWire {
    /// Writes an index response.
    pub fn write(&self, output: &mut StreamOutput)
        ensures
            final(output)@ == old(output)@ + enc_opensearch_index_response(self@),
    {
        output.write_vint(self.shard_total);
        assert(output@ == old(output)@ + enc_vint(self@.shard_total));
        output.write_vint(self.shard_successful);
        output.write_vint(0);
        output.write_string(self.index.as_str());
        output.write_string(self.index_uuid.as_str());
        output.write_vint(self.shard_id);
        output.write_string(self.id.as_str());
        output.write_zlong(self.version);
        output.write_zlong(self.seq_no);
        output.write_vlong(self.primary_term);
        output.write_bool(self.forced_refresh);
        write_byte_field(output, self.result);
        assert(output@ == old(output)@ + enc_opensearch_index_response(self@));
    }

    /// Reads an index response.
    #[verifier::spinoff_prover]
    #[verifier::rlimit(100)]
    pub fn read_from_input(input: &mut StreamInput) -> (r: Result<Self, TransportActionWireError>)
        ensures
            final(input).data() == old(input).data(),
            old(input).pos() <= final(input).pos() <= final(input).data().len(),
            match parse_opensearch_index_response(old(input).rest()) {
                WireRead::Decoded(v, n) => r matches Ok(x) && x@ == v && final(input).pos() == old(input).pos() + n,
                WireRead::Unsupported(shape, reason) => is_unsupported(r, shape, reason),
                WireRead::Malformed => r is Err,
            },
    {
        let ghost s = old(input).rest();
        let ghost p0 = old(input).pos();
        let shard_total = lift(input.read_vint())?;
        proof {
            assert(input.rest() =~= s.skip(input.pos() - p0));
        }
        let shard_successful = lift(input.read_vint())?;
        proof {
            assert(input.rest() =~= s.skip(input.pos() - p0));
        }
        let count = lift(input.read_vint())?;
        if count != 0 {
            return Err(TransportActionWireError::UnsupportedWireShape { shape: "index response shard failures", reason: "non-empty failure arrays are not decoded by the index adapter yet" });
        }
        proof {
            assert(input.rest() =~= s.skip(input.pos() - p0));
        }
        let index = lift(input.read_string())?;
        proof {
            assert(input.rest() =~= s.skip(input.pos() - p0));
        }
        let index_uuid = lift(input.read_string())?;
        proof {
            assert(input.rest() =~= s.skip(input.pos() - p0));
        }
        let shard_id = lift(input.read_vint())?;
        proof {
            assert(input.rest() =~= s.skip(input.pos() - p0));
        }
        let id = lift(input.read_string())?;
        proof {
            assert(input.rest() =~= s.skip(input.pos() - p0));
        }
        let version = lift(input.read_zlong())?;
        proof {
            assert(input.rest() =~= s.skip(input.pos() - p0));
        }
        let seq_no = lift(input.read_zlong())?;
        proof {
            assert(input.rest() =~= s.skip(input.pos() - p0));
        }
        let primary_term = lift(input.read_vlong())?;
        proof {
            assert(input.rest() =~= s.skip(input.pos() - p0));
        }
        let forced_refresh = lift(input.read_bool())?;
        proof {
            assert(input.rest() =~= s.skip(input.pos() - p0));
        }
        let result = lift(input.read_byte())?;
        proof {
            assert(input.rest() =~= s.skip(input.pos() - p0));
        }
        let value = OpenSearchIndexResponseWire { shard_total, shard_successful, index, index_uuid, shard_id, id, version, seq_no, primary_term, forced_refresh, result };
        if value.result != 0 && value.result != 1 {
            return Err(TransportActionWireError::UnsupportedWireShape { shape: "index response result", reason: "only created and updated index results are decoded by the index adapter" });
        }
        Ok(value)
    }

    /// Reads an index response from the whole of `bytes`.
    pub fn read(bytes: Vec<u8>) -> (r: Result<Self, TransportActionWireError>)
        ensures
            opensearch_index_response_read_result(bytes@, r),
    {
        let mut input = StreamInput::new(bytes);
        let value = Self::read_from_input(&mut input)?;
        require_no_trailing_bytes(&input)?;
        Ok(value)
    }
}

/// The fields of an update response, as its bytes carry them.
pub struct OpenSearchUpdateResponseView {
    pub shard_total: i32,
    pub shard_successful: i32,
    pub index: Seq<char>,
    pub index_uuid: Seq<char>,
    pub shard_id: i32,
    pub id: Seq<char>,
    pub version: i64,
    pub seq_no: i64,
    pub primary_term: i64,
    pub forced_refresh: bool,
    pub result: u8,
    pub get_result_present: bool,
}

impl View for OpenSearchUpdateResponseWire {
    type V = OpenSearchUpdateResponseView;

    open spec fn view(&self) -> OpenSearchUpdateResponseView {
        OpenSearchUpdateResponseView {
            shard_total: self.shard_total,
            shard_successful: self.shard_successful,
            index: self.index@,
            index_uuid: self.index_uuid@,
            shard_id: self.shard_id,
            id: self.id@,
            version: self.version,
            seq_no: self.seq_no,
            primary_term: self.primary_term,
            forced_refresh: self.forced_refresh,
            result: self.result,
            get_result_present: self.get_result_present,
        }
    }
}

/// The bytes of an update response.
pub open spec fn enc_opensearch_update_response(v: OpenSearchUpdateResponseView) -> Seq<u8> {
    enc_vint(v.shard_total)
        + enc_vint(v.shard_successful)
        + enc_vint(0)
        + enc_string(v.index)
        + enc_string(v.index_uuid)
        + enc_vint(v.shard_id)
        + enc_string(v.id)
        + enc_zlong(v.version)
        + enc_zlong(v.seq_no)
        + enc_vlong(v.primary_term)
        + enc_bool(v.forced_refresh)
        + enc_byte(v.result)
        + enc_bool(v.get_result_present)
}

/// What a reader makes of the bytes of an update response.
pub open spec fn parse_opensearch_update_response(s: Seq<u8>) -> WireRead<OpenSearchUpdateResponseView> {
    match parse_vint(s) {
        Some((shard_total, k0)) => {
            match parse_vint(s.skip(k0)) {
                Some((shard_successful, k1)) => {
                    match parse_vint(s.skip(k0 + k1)) {
                        Some((count, k2)) => {
                            if count != 0 {
                                WireRead::Unsupported("update response shard failures"@, "non-empty failure arrays are not decoded by the update adapter yet"@)
                            } else {
                                match parse_string(s.skip(k0 + k1 + k2)) {
                                    Some((index, k3)) => {
                                        parse_opensearch_update_response_from_4(s, k0 + k1 + k2 + k3, shard_total, shard_successful, index)
                                    },
                                    None => WireRead::Malformed,
                                }
                            }
                        },
                        None => WireRead::Malformed,
                    }
                },
                None => WireRead::Malformed,
            }
        },
        None => WireRead::Malformed,
    }
}

/// What a reader makes of the fields of an update response from its
/// 5th field on, at offset `o`, given the fields before them.
pub open spec fn parse_opensearch_update_response_from_4(s: Seq<u8>, o: int, shard_total: i32, shard_successful: i32, index: Seq<char>) -> WireRead<OpenSearchUpdateResponseView> {
    match parse_string(s.skip(o)) {
        Some((index_uuid, k4)) => {
            match parse_vint(s.skip(o + k4)) {
                Some((shard_id, k5)) => {
                    match parse_string(s.skip(o + k4 + k5)) {
                        Some((id, k6)) => {
                            match parse_zlong(s.skip(o + k4 + k5 + k6)) {
                                Some((version, k7)) => {
                                    parse_opensearch_update_response_from_8(s, o + k4 + k5 + k6 + k7, shard_total, shard_successful, index, index_uuid, shard_id, id, version)
                                },
                                None => WireRead::Malformed,
                            }
                        },
                        None => WireRead::Malformed,
                    }
                },
                None => WireRead::Malformed,
            }
        },
        None => WireRead::Malformed,
    }
}

/// What a reader makes of the fields of an update response from its
/// 9th field on, at offset `o`, given the fields before them.
pub open spec fn parse_opensearch_update_response_from_8(s: Seq<u8>, o: int, shard_total: i32, shard_successful: i32, index: Seq<char>, index_uuid: Seq<char>, shard_id: i32, id: Seq<char>, version: i64) -> WireRead<OpenSearchUpdateResponseView> {
    match parse_zlong(s.skip(o)) {
        Some((seq_no, k8)) => {
            match parse_vlong(s.skip(o + k8)) {
                Some((primary_term, k9)) => {
                    match parse_bool(s.skip(o + k8 + k9)) {
                        Some((forced_refresh, k10)) => {
                            match parse_byte(s.skip(o + k8 + k9 + k10)) {
                                Some((result, k11)) => {
                                    match parse_bool(s.skip(o + k8 + k9 + k10 + k11)) {
                                        Some((get_result_present, k12)) => {
                                            if result != 0u8 && result != 1u8 && result != 4u8 {
                                                WireRead::Unsupported("update response result"@, "only created, updated, and noop update results are decoded by the update adapter"@)
                                            } else if get_result_present {
                                                WireRead::Unsupported("update response get result"@, "embedded get results are not decoded by the update adapter yet"@)
                                            } else {
                                                WireRead::Decoded(OpenSearchUpdateResponseView { shard_total: shard_total, shard_successful: shard_successful, index: index, index_uuid: index_uuid, shard_id: shard_id, id: id, version: version, seq_no: seq_no, primary_term: primary_term, forced_refresh: forced_refresh, result: result, get_result_present: get_result_present }, o + k8 + k9 + k10 + k11 + k12)
                                            }
                                        },
                                        None => WireRead::Malformed,
                                    }
                                },
                                None => WireRead::Malformed,
                            }
                        },
                        None => WireRead::Malformed,
                    }
                },
                None => WireRead::Malformed,
            }
        },
        None => WireRead::Malformed,
    }
}

/// True when an update response reads back as written.
pub open spec fn opensearch_update_response_fits(v: OpenSearchUpdateResponseView) -> bool {
    &&& string_fits(v.index)
    &&& string_fits(v.index_uuid)
    &&& string_fits(v.id)
    &&& !v.get_result_present
    &&& !(v.result != 0u8 && v.result != 1u8 && v.result != 4u8)
    &&& !(v.get_result_present)
}

/// Reading the fields of an update response from its 9th field on gives the
/// fields written.
#[verifier::spinoff_prover]
#[verifier::rlimit(100)]
proof fn lemma_opensearch_update_response_from_8_roundtrip(v: OpenSearchUpdateResponseView, rest: Seq<u8>)
    requires
        opensearch_update_response_fits(v),
    ensures
        parse_opensearch_update_response_from_8(enc_opensearch_update_response(v) + rest, (enc_vint(v.shard_total) + enc_vint(v.shard_successful) + enc_vint(0) + enc_string(v.index) + enc_string(v.index_uuid) + enc_vint(v.shard_id) + enc_string(v.id) + enc_zlong(v.version)).len() as int, v.shard_total, v.shard_successful, v.index, v.index_uuid, v.shard_id, v.id, v.version) == WireRead::Decoded(v, enc_opensearch_update_response(v).len() as int),
{
    let s = enc_opensearch_update_response(v) + rest;
    let t12 = enc_bool(v.get_result_present) + rest;
    let t11 = enc_byte(v.result) + t12;
    let t10 = enc_bool(v.forced_refresh) + t11;
    let t9 = enc_vlong(v.primary_term) + t10;
    let t8 = enc_zlong(v.seq_no) + t9;
    let t7 = enc_zlong(v.version) + t8;
    let t6 = enc_string(v.id) + t7;
    let t5 = enc_vint(v.shard_id) + t6;
    let t4 = enc_string(v.index_uuid) + t5;
    let t3 = enc_string(v.index) + t4;
    let t2 = enc_vint(0) + t3;
    let t1 = enc_vint(v.shard_successful) + t2;
    let t0 = enc_vint(v.shard_total) + t1;
    let u0 = enc_vint(v.shard_total);
    let u1 = u0 + enc_vint(v.shard_successful);
    let u2 = u1 + enc_vint(0);
    let u3 = u2 + enc_string(v.index);
    let u4 = u3 + enc_string(v.index_uuid);
    let u5 = u4 + enc_vint(v.shard_id);
    let u6 = u5 + enc_string(v.id);
    let u7 = u6 + enc_zlong(v.version);
    let u8 = u7 + enc_zlong(v.seq_no);
    let u9 = u8 + enc_vlong(v.primary_term);
    let u10 = u9 + enc_bool(v.forced_refresh);
    let u11 = u10 + enc_byte(v.result);
    let u12 = u11 + enc_bool(v.get_result_present);
    assert(s == u12 + rest);
    lemma_append_assoc(u11, enc_bool(v.get_result_present), rest);
    lemma_append_assoc(u10, enc_byte(v.result), t12);
    lemma_append_assoc(u9, enc_bool(v.forced_refresh), t11);
    lemma_append_assoc(u8, enc_vlong(v.primary_term), t10);
    lemma_append_assoc(u7, enc_zlong(v.seq_no), t9);
    lemma_append_assoc(u6, enc_zlong(v.version), t8);
    lemma_append_assoc(u5, enc_string(v.id), t7);
    lemma_append_assoc(u4, enc_vint(v.shard_id), t6);
    lemma_append_assoc(u3, enc_string(v.index_uuid), t5);
    lemma_append_assoc(u2, enc_string(v.index), t4);
    lemma_append_assoc(u1, enc_vint(0), t3);
    lemma_append_assoc(u0, enc_vint(v.shard_successful), t2);
    assert(s == t0);
    lemma_skip_append(u7, t8);
    lemma_zlong_roundtrip(v.seq_no, t9);
    lemma_skip_append(u8, t9);
    lemma_vlong_roundtrip(v.primary_term, t10);
    lemma_skip_append(u9, t10);
    lemma_bool_roundtrip(v.forced_refresh, t11);
    lemma_skip_append(u10, t11);
    lemma_byte_roundtrip(v.result, t12);
    lemma_skip_append(u11, t12);
    lemma_bool_roundtrip(v.get_result_present, rest);
}

/// Reading the fields of an update response from its 5th field on gives the
/// fields written.
#[verifier::spinoff_prover]
#[verifier::rlimit(100)]
proof fn lemma_opensearch_update_response_from_4_roundtrip(v: OpenSearchUpdateResponseView, rest: Seq<u8>)
    requires
        opensearch_update_response_fits(v),
    ensures
        parse_opensearch_update_response_from_4(enc_opensearch_update_response(v) + rest, (enc_vint(v.shard_total) + enc_vint(v.shard_successful) + enc_vint(0) + enc_string(v.index)).len() as int, v.shard_total, v.shard_successful, v.index) == WireRead::Decoded(v, enc_opensearch_update_response(v).len() as int),
{
    let s = enc_opensearch_update_response(v) + rest;
    let t12 = enc_bool(v.get_result_present) + rest;
    let t11 = enc_byte(v.result) + t12;
    let t10 = enc_bool(v.forced_refresh) + t11;
    let t9 = enc_vlong(v.primary_term) + t10;
    let t8 = enc_zlong(v.seq_no) + t9;
    let t7 = enc_zlong(v.version) + t8;
    let t6 = enc_string(v.id) + t7;
    let t5 = enc_vint(v.shard_id) + t6;
    let t4 = enc_string(v.index_uuid) + t5;
    let t3 = enc_string(v.index) + t4;
    let t2 = enc_vint(0) + t3;
    let t1 = enc_vint(v.shard_successful) + t2;
    let t0 = enc_vint(v.shard_total) + t1;
    let u0 = enc_vint(v.shard_total);
    let u1 = u0 + enc_vint(v.shard_successful);
    let u2 = u1 + enc_vint(0);
    let u3 = u2 + enc_string(v.index);
    let u4 = u3 + enc_string(v.index_uuid);
    let u5 = u4 + enc_vint(v.shard_id);
    let u6 = u5 + enc_string(v.id);
    let u7 = u6 + enc_zlong(v.version);
    let u8 = u7 + enc_zlong(v.seq_no);
    let u9 = u8 + enc_vlong(v.primary_term);
    let u10 = u9 + enc_bool(v.forced_refresh);
    let u11 = u10 + enc_byte(v.result);
    let u12 = u11 + enc_bool(v.get_result_present);
    assert(s == u12 + rest);
    lemma_append_assoc(u11, enc_bool(v.get_result_present), rest);
    lemma_append_assoc(u10, enc_byte(v.result), t12);
    lemma_append_assoc(u9, enc_bool(v.forced_refresh), t11);
    lemma_append_assoc(u8, enc_vlong(v.primary_term), t10);
    lemma_append_assoc(u7, enc_zlong(v.seq_no), t9);
    lemma_append_assoc(u6, enc_zlong(v.version), t8);
    lemma_append_assoc(u5, enc_string(v.id), t7);
    lemma_append_assoc(u4, enc_vint(v.shard_id), t6);
    lemma_append_assoc(u3, enc_string(v.index_uuid), t5);
    lemma_append_assoc(u2, enc_string(v.index), t4);
    lemma_append_assoc(u1, enc_vint(0), t3);
    lemma_append_assoc(u0, enc_vint(v.shard_successful), t2);
    assert(s == t0);
    lemma_skip_append(u3, t4);
    lemma_string_roundtrip(v.index_uuid, t5);
    lemma_skip_append(u4, t5);
    lemma_vint_roundtrip(v.shard_id, t6);
    lemma_skip_append(u5, t6);
    lemma_string_roundtrip(v.id, t7);
    lemma_skip_append(u6, t7);
    lemma_zlong_roundtrip(v.version, t8);
    lemma_skip_append(u7, t8);
    lemma_opensearch_update_response_from_8_roundtrip(v, rest);
}

/// Reading an update response back gives the fields written.
#[verifier::spinoff_prover]
#[verifier::rlimit(100)]
pub proof fn lemma_opensearch_update_response_roundtrip(v: OpenSearchUpdateResponseView, rest: Seq<u8>)
    requires
        opensearch_update_response_fits(v),
    ensures
        parse_opensearch_update_response(enc_opensearch_update_response(v) + rest) == WireRead::Decoded(v, enc_opensearch_update_response(v).len() as int),
{
    let s = enc_opensearch_update_response(v) + rest;
    let t12 = enc_bool(v.get_result_present) + rest;
    let t11 = enc_byte(v.result) + t12;
    let t10 = enc_bool(v.forced_refresh) + t11;
    let t9 = enc_vlong(v.primary_term) + t10;
    let t8 = enc_zlong(v.seq_no) + t9;
    let t7 = enc_zlong(v.version) + t8;
    let t6 = enc_string(v.id) + t7;
    let t5 = enc_vint(v.shard_id) + t6;
    let t4 = enc_string(v.index_uuid) + t5;
    let t3 = enc_string(v.index) + t4;
    let t2 = enc_vint(0) + t3;
    let t1 = enc_vint(v.shard_successful) + t2;
    let t0 = enc_vint(v.shard_total) + t1;
    let u0 = enc_vint(v.shard_total);
    let u1 = u0 + enc_vint(v.shard_successful);
    let u2 = u1 + enc_vint(0);
    let u3 = u2 + enc_string(v.index);
    let u4 = u3 + enc_string(v.index_uuid);
    let u5 = u4 + enc_vint(v.shard_id);
    let u6 = u5 + enc_string(v.id);
    let u7 = u6 + enc_zlong(v.version);
    let u8 = u7 + enc_zlong(v.seq_no);
    let u9 = u8 + enc_vlong(v.primary_term);
    let u10 = u9 + enc_bool(v.forced_refresh);
    let u11 = u10 + enc_byte(v.result);
    let u12 = u11 + enc_bool(v.get_result_present);
    assert(s == u12 + rest);
    lemma_append_assoc(u11, enc_bool(v.get_result_present), rest);
    lemma_append_assoc(u10, enc_byte(v.result), t12);
    lemma_append_assoc(u9, enc_bool(v.forced_refresh), t11);
    lemma_append_assoc(u8, enc_vlong(v.primary_term), t10);
    lemma_append_assoc(u7, enc_zlong(v.seq_no), t9);
    lemma_append_assoc(u6, enc_zlong(v.version), t8);
    lemma_append_assoc(u5, enc_string(v.id), t7);
    lemma_append_assoc(u4, enc_vint(v.shard_id), t6);
    lemma_append_assoc(u3, enc_string(v.index_uuid), t5);
    lemma_append_assoc(u2, enc_string(v.index), t4);
    lemma_append_assoc(u1, enc_vint(0), t3);
    lemma_append_assoc(u0, enc_vint(v.shard_successful), t2);
    assert(s == t0);
    lemma_vint_roundtrip(v.shard_total, t1);
    lemma_skip_append(u0, t1);
    lemma_vint_roundtrip(v.shard_successful, t2);
    lemma_skip_append(u1, t2);
    lemma_vint_roundtrip(0, t3);
    lemma_skip_append(u2, t3);
    lemma_string_roundtrip(v.index, t4);
    lemma_skip_append(u3, t4);
    lemma_opensearch_update_response_from_4_roundtrip(v, rest);
}

/// What reading an update response from the whole of `bytes` gives: the fields read, a
/// refused shape, or an error.
pub open spec fn opensearch_update_response_read_result(bytes: Seq<u8>, r: Result<OpenSearchUpdateResponseWire, TransportActionWireError>) -> bool {
    match parse_opensearch_update_response(bytes) {
        WireRead::Decoded(v, n) => if n < bytes.len() {
            r == Err::<OpenSearchUpdateResponseWire, TransportActionWireError>(TransportActionWireError::TrailingBytes((bytes.len() - n) as usize))
        } else {
            r matches Ok(x) && x@ == v
        },
        WireRead::Unsupported(shape, reason) => is_unsupported(r, shape, reason),
        WireRead::Malformed => r is Err,
    }
}

/// Reading the whole of a written an update response gives back the fields written.
pub proof fn lemma_opensearch_update_response_read_back(v: OpenSearchUpdateResponseView, r: Result<OpenSearchUpdateResponseWire, TransportActionWireError>)
    requires
        opensearch_update_response_fits(v),
        opensearch_update_response_read_result(enc_opensearch_update_response(v), r),
    ensures
        r matches Ok(x) && x@ == v,
{
    lemma_opensearch_update_response_roundtrip(v, Seq::empty());
    assert(enc_opensearch_update_response(v) + Seq::<u8>::empty() =~= enc_opensearch_update_response(v));
}

/// The first shape of an update response that a writer refuses, with the reason.
pub open spec fn opensearch_update_response_write_refusal(v: OpenSearchUpdateResponseView) -> Option<(Seq<char>, Seq<char>)> {
    if v.get_result_present {
        Some(("update response get result"@, "embedded get results are not encoded by the update adapter yet"@))
    } else {
        None
    }
}

impl OpenSearchUpdateResponseWire {
    /// Writes an update response; refuses the shapes a writer does not encode.
    pub fn write(&self, output: &mut StreamOutput) -> (r: Result<(), TransportActionWireError>)
        ensures
            match opensearch_update_response_write_refusal(self@) {
                Some((shape, reason)) => is_unsupported(r, shape, reason),
                None => r is Ok && final(output)@ == old(output)@ + enc_opensearch_update_response(self@),
            },
    {
        output.write_vint(self.shard_total);
        assert(output@ == old(output)@ + enc_vint(self@.shard_total));
        output.write_vint(self.shard_successful);
        output.write_vint(0);
        output.write_string(self.index.as_str());
        output.write_string(self.index_uuid.as_str());
        output.write_vint(self.shard_id);
        output.write_string(self.id.as_str());
        output.write_zlong(self.version);
        output.write_zlong(self.seq_no);
        output.write_vlong(self.primary_term);
        output.write_bool(self.forced_refresh);
        write_byte_field(output, self.result);
        if self.get_result_present {
            return Err(TransportActionWireError::UnsupportedWireShape { shape: "update response get result", reason: "embedded get results are not encoded by the update adapter yet" });
        }
        output.write_bool(false);
        assert(output@ == old(output)@ + enc_opensearch_update_response(self@));
        Ok(())
    }

    /// Reads an update response from the whole of `bytes`.
    pub fn read(bytes: Vec<u8>) -> (r: Result<Self, TransportActionWireError>)
        ensures
            opensearch_update_response_read_result(bytes@, r),
    {
        let mut input = StreamInput::new(bytes);
        let ghost s = input.rest();
        let shard_total = lift(input.read_vint())?;
        proof {
            assert(input.rest() =~= s.skip(input.pos() - 0));
        }
        let shard_successful = lift(input.read_vint())?;
        proof {
            assert(input.rest() =~= s.skip(input.pos() - 0));
        }
        let count = lift(input.read_vint())?;
        if count != 0 {
            return Err(TransportActionWireError::UnsupportedWireShape { shape: "update response shard failures", reason: "non-empty failure arrays are not decoded by the update adapter yet" });
        }
        proof {
            assert(input.rest() =~= s.skip(input.pos() - 0));
        }
        let index = lift(input.read_string())?;
        proof {
            assert(input.rest() =~= s.skip(input.pos() - 0));
        }
        let index_uuid = lift(input.read_string())?;
        proof {
            assert(input.rest() =~= s.skip(input.pos() - 0));
        }
        let shard_id = lift(input.read_vint())?;
        proof {
            assert(input.rest() =~= s.skip(input.pos() - 0));
        }
        let id = lift(input.read_string())?;
        proof {
            assert(input.rest() =~= s.skip(input.pos() - 0));
        }
        let version = lift(input.read_zlong())?;
        proof {
            assert(input.rest() =~= s.skip(input.pos() - 0));
        }
        let seq_no = lift(input.read_zlong())?;
        proof {
            assert(input.rest() =~= s.skip(input.pos() - 0));
        }
        let primary_term = lift(input.read_vlong())?;
        proof {
            assert(input.rest() =~= s.skip(input.pos() - 0));
        }
        let forced_refresh = lift(input.read_bool())?;
        proof {
            assert(input.rest() =~= s.skip(input.pos() - 0));
        }
        let result = lift(input.read_byte())?;
        proof {
            assert(input.rest() =~= s.skip(input.pos() - 0));
        }
        let get_result_present = lift(input.read_bool())?;
        proof {
            assert(input.rest() =~= s.skip(input.pos() - 0));
        }
        let value = OpenSearchUpdateResponseWire { shard_total, shard_successful, index, index_uuid, shard_id, id, version, seq_no, primary_term, forced_refresh, result, get_result_present };
        if value.result != 0 && value.result != 1 && value.result != 4 {
            return Err(TransportActionWireError::UnsupportedWireShape { shape: "update response result", reason: "only created, updated, and noop update results are decoded by the update adapter" });
        }
        if value.get_result_present {
            return Err(TransportActionWireError::UnsupportedWireShape { shape: "update response get result", reason: "embedded get results are not decoded by the update adapter yet" });
        }
        require_no_trailing_bytes(&input)?;
        Ok(value)
    }
}

/// The fields of a delete response, as its bytes carry them.
pub struct OpenSearchDeleteResponseView {
    pub shard_total: i32,
    pub shard_successful: i32,
    pub index: Seq<char>,
    pub index_uuid: Seq<char>,
    pub shard_id: i32,
    pub id: Seq<char>,
    pub version: i64,
    pub seq_no: i64,
    pub primary_term: i64,
    pub forced_refresh: bool,
    pub result: u8,
}

impl View for OpenSearchDeleteResponseWire {
    type V = OpenSearchDeleteResponseView;

    open spec fn view(&self) -> OpenSearchDeleteResponseView {
        OpenSearchDeleteResponseView {
            shard_total: self.shard_total,
            shard_successful: self.shard_successful,
            index: self.index@,
            index_uuid: self.index_uuid@,
            shard_id: self.shard_id,
            id: self.id@,
            version: self.version,
            seq_no: self.seq_no,
            primary_term: self.primary_term,
            forced_refresh: self.forced_refresh,
            result: self.result,
        }
    }
}

/// The bytes of a delete response.
pub open spec fn enc_opensearch_delete_response(v: OpenSearchDeleteResponseView) -> Seq<u8> {
    enc_vint(v.shard_total)
        + enc_vint(v.shard_successful)
        + enc_vint(0)
        + enc_string(v.index)
        + enc_string(v.index_uuid)
        + enc_vint(v.shard_id)
        + enc_string(v.id)
        + enc_zlong(v.version)
        + enc_zlong(v.seq_no)
        + enc_vlong(v.primary_term)
        + enc_bool(v.forced_refresh)
        + enc_byte(v.result)
}

/// What a reader makes of the bytes of a delete response.
pub open spec fn parse_opensearch_delete_response(s: Seq<u8>) -> WireRead<OpenSearchDeleteResponseView> {
    match parse_vint(s) {
        Some((shard_total, k0)) => {
            match parse_vint(s.skip(k0)) {
                Some((shard_successful, k1)) => {
                    match parse_vint(s.skip(k0 + k1)) {
                        Some((count, k2)) => {
                            if count != 0 {
                                WireRead::Unsupported("delete response shard failures"@, "non-empty failure arrays are not decoded by the delete adapter yet"@)
                            } else {
                                match parse_string(s.skip(k0 + k1 + k2)) {
                                    Some((index, k3)) => {
                                        parse_opensearch_delete_response_from_4(s, k0 + k1 + k2 + k3, shard_total, shard_successful, index)
                                    },
                                    None => WireRead::Malformed,
                                }
                            }
                        },
                        None => WireRead::Malformed,
                    }
                },
                None => WireRead::Malformed,
            }
        },
        None => WireRead::Malformed,
    }
}

/// What a reader makes of the fields of a delete response from its
/// 5th field on, at offset `o`, given the fields before them.
pub open spec fn parse_opensearch_delete_response_from_4(s: Seq<u8>, o: int, shard_total: i32, shard_successful: i32, index: Seq<char>) -> WireRead<OpenSearchDeleteResponseView> {
    match parse_string(s.skip(o)) {
        Some((index_uuid, k4)) => {
            match parse_vint(s.skip(o + k4)) {
                Some((shard_id, k5)) => {
                    match parse_string(s.skip(o + k4 + k5)) {
                        Some((id, k6)) => {
                            match parse_zlong(s.skip(o + k4 + k5 + k6)) {
                                Some((version, k7)) => {
                                    parse_opensearch_delete_response_from_8(s, o + k4 + k5 + k6 + k7, shard_total, shard_successful, index, index_uuid, shard_id, id, version)
                                },
                                None => WireRead::Malformed,
                            }
                        },
                        None => WireRead::Malformed,
                    }
                },
                None => WireRead::Malformed,
            }
        },
        None => WireRead::Malformed,
    }
}

/// What a reader makes of the fields of a delete response from its
/// 9th field on, at offset `o`, given the fields before them.
pub open spec fn parse_opensearch_delete_response_from_8(s: Seq<u8>, o: int, shard_total: i32, shard_successful: i32, index: Seq<char>, index_uuid: Seq<char>, shard_id: i32, id: Seq<char>, version: i64) -> WireRead<OpenSearchDeleteResponseView> {
    match parse_zlong(s.skip(o)) {
        Some((seq_no, k8)) => {
            match parse_vlong(s.skip(o + k8)) {
                Some((primary_term, k9)) => {
                    match parse_bool(s.skip(o + k8 + k9)) {
                        Some((forced_refresh, k10)) => {
                            match parse_byte(s.skip(o + k8 + k9 + k10)) {
                                Some((result, k11)) => {
                                    if result != 2u8 && result != 3u8 {
                                        WireRead::Unsupported("delete response result"@, "only deleted and not-found delete results are decoded by the delete adapter"@)
                                    } else {
                                        WireRead::Decoded(OpenSearchDeleteResponseView { shard_total: shard_total, shard_successful: shard_successful, index: index, index_uuid: index_uuid, shard_id: shard_id, id: id, version: version, seq_no: seq_no, primary_term: primary_term, forced_refresh: forced_refresh, result: result }, o + k8 + k9 + k10 + k11)
                                    }
                                },
                                None => WireRead::Malformed,
                            }
                        },
                        None => WireRead::Malformed,
                    }
                },
                None => WireRead::Malformed,
            }
        },
        None => WireRead::Malformed,
    }
}

/// True when a delete response reads back as written.
pub open spec fn opensearch_delete_response_fits(v: OpenSearchDeleteResponseView) -> bool {
    &&& string_fits(v.index)
    &&& string_fits(v.index_uuid)
    &&& string_fits(v.id)
    &&& !(v.result != 2u8 && v.result != 3u8)
}

/// Reading the fields of a delete response from its 9th field on gives the
/// fields written.
#[verifier::spinoff_prover]
#[verifier::rlimit(100)]
proof fn lemma_opensearch_delete_response_from_8_roundtrip(v: OpenSearchDeleteResponseView, rest: Seq<u8>)
    requires
        opensearch_delete_response_fits(v),
    ensures
        parse_opensearch_delete_response_from_8(enc_opensearch_delete_response(v) + rest, (enc_vint(v.shard_total) + enc_vint(v.shard_successful) + enc_vint(0) + enc_string(v.index) + enc_string(v.index_uuid) + enc_vint(v.shard_id) + enc_string(v.id) + enc_zlong(v.version)).len() as int, v.shard_total, v.shard_successful, v.index, v.index_uuid, v.shard_id, v.id, v.version) == WireRead::Decoded(v, enc_opensearch_delete_response(v).len() as int),
{
    let s = enc_opensearch_delete_response(v) + rest;
    let t11 = enc_byte(v.result) + rest;
    let t10 = enc_bool(v.forced_refresh) + t11;
    let t9 = enc_vlong(v.primary_term) + t10;
    let t8 = enc_zlong(v.seq_no) + t9;
    let t7 = enc_zlong(v.version) + t8;
    let t6 = enc_string(v.id) + t7;
    let t5 = enc_vint(v.shard_id) + t6;
    let t4 = enc_string(v.index_uuid) + t5;
    let t3 = enc_string(v.index) + t4;
    let t2 = enc_vint(0) + t3;
    let t1 = enc_vint(v.shard_successful) + t2;
    let t0 = enc_vint(v.shard_total) + t1;
    let u0 = enc_vint(v.shard_total);
    let u1 = u0 + enc_vint(v.shard_successful);
    let u2 = u1 + enc_vint(0);
    let u3 = u2 + enc_string(v.index);
    let u4 = u3 + enc_string(v.index_uuid);
    let u5 = u4 + enc_vint(v.shard_id);
    let u6 = u5 + enc_string(v.id);
    let u7 = u6 + enc_zlong(v.version);
    let u8 = u7 + enc_zlong(v.seq_no);
    let u9 = u8 + enc_vlong(v.primary_term);
    let u10 = u9 + enc_bool(v.forced_refresh);
    let u11 = u10 + enc_byte(v.result);
    assert(s == u11 + rest);
    lemma_append_assoc(u10, enc_byte(v.result), rest);
    lemma_append_assoc(u9, enc_bool(v.forced_refresh), t11);
    lemma_append_assoc(u8, enc_vlong(v.primary_term), t10);
    lemma_append_assoc(u7, enc_zlong(v.seq_no), t9);
    lemma_append_assoc(u6, enc_zlong(v.version), t8);
    lemma_append_assoc(u5, enc_string(v.id), t7);
    lemma_append_assoc(u4, enc_vint(v.shard_id), t6);
    lemma_append_assoc(u3, enc_string(v.index_uuid), t5);
    lemma_append_assoc(u2, enc_string(v.index), t4);
    lemma_append_assoc(u1, enc_vint(0), t3);
    lemma_append_assoc(u0, enc_vint(v.shard_successful), t2);
    assert(s == t0);
    lemma_skip_append(u7, t8);
    lemma_zlong_roundtrip(v.seq_no, t9);
    lemma_skip_append(u8, t9);
    lemma_vlong_roundtrip(v.primary_term, t10);
    lemma_skip_append(u9, t10);
    lemma_bool_roundtrip(v.forced_refresh, t11);
    lemma_skip_append(u10, t11);
    lemma_byte_roundtrip(v.result, rest);
}

/// Reading the fields of a delete response from its 5th field on gives the
/// fields written.
#[verifier::spinoff_prover]
#[verifier::rlimit(100)]
proof fn lemma_opensearch_delete_response_from_4_roundtrip(v: OpenSearchDeleteResponseView, rest: Seq<u8>)
    requires
        opensearch_delete_response_fits(v),
    ensures
        parse_opensearch_delete_response_from_4(enc_opensearch_delete_response(v) + rest, (enc_vint(v.shard_total) + enc_vint(v.shard_successful) + enc_vint(0) + enc_string(v.index)).len() as int, v.shard_total, v.shard_successful, v.index) == WireRead::Decoded(v, enc_opensearch_delete_response(v).len() as int),
{
    let s = enc_opensearch_delete_response(v) + rest;
    let t11 = enc_byte(v.result) + rest;
    let t10 = enc_bool(v.forced_refresh) + t11;
    let t9 = enc_vlong(v.primary_term) + t10;
    let t8 = enc_zlong(v.seq_no) + t9;
    let t7 = enc_zlong(v.version) + t8;
    let t6 = enc_string(v.id) + t7;
    let t5 = enc_vint(v.shard_id) + t6;
    let t4 = enc_string(v.index_uuid) + t5;
    let t3 = enc_string(v.index) + t4;
    let t2 = enc_vint(0) + t3;
    let t1 = enc_vint(v.shard_successful) + t2;
    let t0 = enc_vint(v.shard_total) + t1;
    let u0 = enc_vint(v.shard_total);
    let u1 = u0 + enc_vint(v.shard_successful);
    let u2 = u1 + enc_vint(0);
    let u3 = u2 + enc_string(v.index);
    let u4 = u3 + enc_string(v.index_uuid);
    let u5 = u4 + enc_vint(v.shard_id);
    let u6 = u5 + enc_string(v.id);
    let u7 = u6 + enc_zlong(v.version);
    let u8 = u7 + enc_zlong(v.seq_no);
    let u9 = u8 + enc_vlong(v.primary_term);
    let u10 = u9 + enc_bool(v.forced_refresh);
    let u11 = u10 + enc_byte(v.result);
    assert(s == u11 + rest);
    lemma_append_assoc(u10, enc_byte(v.result), rest);
    lemma_append_assoc(u9, enc_bool(v.forced_refresh), t11);
    lemma_append_assoc(u8, enc_vlong(v.primary_term), t10);
    lemma_append_assoc(u7, enc_zlong(v.seq_no), t9);
    lemma_append_assoc(u6, enc_zlong(v.version), t8);
    lemma_append_assoc(u5, enc_string(v.id), t7);
    lemma_append_assoc(u4, enc_vint(v.shard_id), t6);
    lemma_append_assoc(u3, enc_string(v.index_uuid), t5);
    lemma_append_assoc(u2, enc_string(v.index), t4);
    lemma_append_assoc(u1, enc_vint(0), t3);
    lemma_append_assoc(u0, enc_vint(v.shard_successful), t2);
    assert(s == t0);
    lemma_skip_append(u3, t4);
    lemma_string_roundtrip(v.index_uuid, t5);
    lemma_skip_append(u4, t5);
    lemma_vint_roundtrip(v.shard_id, t6);
    lemma_skip_append(u5, t6);
    lemma_string_roundtrip(v.id, t7);
    lemma_skip_append(u6, t7);
    lemma_zlong_roundtrip(v.version, t8);
    lemma_skip_append(u7, t8);
    lemma_opensearch_delete_response_from_8_roundtrip(v, rest);
}

/// Reading a delete response back gives the fields written.
#[verifier::spinoff_prover]
#[verifier::rlimit(100)]
pub proof fn lemma_opensearch_delete_response_roundtrip(v: OpenSearchDeleteResponseView, rest: Seq<u8>)
    requires
        opensearch_delete_response_fits(v),
    ensures
        parse_opensearch_delete_response(enc_opensearch_delete_response(v) + rest) == WireRead::Decoded(v, enc_opensearch_delete_response(v).len() as int),
{
    let s = enc_opensearch_delete_response(v) + rest;
    let t11 = enc_byte(v.result) + rest;
    let t10 = enc_bool(v.forced_refresh) + t11;
    let t9 = enc_vlong(v.primary_term) + t10;
    let t8 = enc_zlong(v.seq_no) + t9;
    let t7 = enc_zlong(v.version) + t8;
    let t6 = enc_string(v.id) + t7;
    let t5 = enc_vint(v.shard_id) + t6;
    let t4 = enc_string(v.index_uuid) + t5;
    let t3 = enc_string(v.index) + t4;
    let t2 = enc_vint(0) + t3;
    let t1 = enc_vint(v.shard_successful) + t2;
    let t0 = enc_vint(v.shard_total) + t1;
    let u0 = enc_vint(v.shard_total);
    let u1 = u0 + enc_vint(v.shard_successful);
    let u2 = u1 + enc_vint(0);
    let u3 = u2 + enc_string(v.index);
    let u4 = u3 + enc_string(v.index_uuid);
    let u5 = u4 + enc_vint(v.shard_id);
    let u6 = u5 + enc_string(v.id);
    let u7 = u6 + enc_zlong(v.version);
    let u8 = u7 + enc_zlong(v.seq_no);
    let u9 = u8 + enc_vlong(v.primary_term);
    let u10 = u9 + enc_bool(v.forced_refresh);
    let u11 = u10 + enc_byte(v.result);
    assert(s == u11 + rest);
    lemma_append_assoc(u10, enc_byte(v.result), rest);
    lemma_append_assoc(u9, enc_bool(v.forced_refresh), t11);
    lemma_append_assoc(u8, enc_vlong(v.primary_term), t10);
    lemma_append_assoc(u7, enc_zlong(v.seq_no), t9);
    lemma_append_assoc(u6, enc_zlong(v.version), t8);
    lemma_append_assoc(u5, enc_string(v.id), t7);
    lemma_append_assoc(u4, enc_vint(v.shard_id), t6);
    lemma_append_assoc(u3, enc_string(v.index_uuid), t5);
    lemma_append_assoc(u2, enc_string(v.index), t4);
    lemma_append_assoc(u1, enc_vint(0), t3);
    lemma_append_assoc(u0, enc_vint(v.shard_successful), t2);
    assert(s == t0);
    lemma_vint_roundtrip(v.shard_total, t1);
    lemma_skip_append(u0, t1);
    lemma_vint_roundtrip(v.shard_successful, t2);
    lemma_skip_append(u1, t2);
    lemma_vint_roundtrip(0, t3);
    lemma_skip_append(u2, t3);
    lemma_string_roundtrip(v.index, t4);
    lemma_skip_append(u3, t4);
    lemma_opensearch_delete_response_from_4_roundtrip(v, rest);
}

/// What reading a delete response from the whole of `bytes` gives: the fields read, a
/// refused shape, or an error.
pub open spec fn opensearch_delete_response_read_result(bytes: Seq<u8>, r: Result<OpenSearchDeleteResponseWire, TransportActionWireError>) -> bool {
    match parse_opensearch_delete_response(bytes) {
        WireRead::Decoded(v, n) => if n < bytes.len() {
            r == Err::<OpenSearchDeleteResponseWire, TransportActionWireError>(TransportActionWireError::TrailingBytes((bytes.len() - n) as usize))
        } else {
            r matches Ok(x) && x@ == v
        },
        WireRead::Unsupported(shape, reason) => is_unsupported(r, shape, reason),
        WireRead::Malformed => r is Err,
    }
}

/// Reading the whole of a written a delete response gives back the fields written.
pub proof fn lemma_opensearch_delete_response_read_back(v: OpenSearchDeleteResponseView, r: Result<OpenSearchDeleteResponseWire, TransportActionWireError>)
    requires
        opensearch_delete_response_fits(v),
        opensearch_delete_response_read_result(enc_opensearch_delete_response(v), r),
    ensures
        r matches Ok(x) && x@ == v,
{
    lemma_opensearch_delete_response_roundtrip(v, Seq::empty());
    assert(enc_opensearch_delete_response(v) + Seq::<u8>::empty() =~= enc_opensearch_delete_response(v));
}

impl OpenSearchDeleteResponseWire {
    /// Writes a delete response.
    pub fn write(&self, output: &mut StreamOutput)
        ensures
            final(output)@ == old(output)@ + enc_opensearch_delete_response(self@),
    {
        output.write_vint(self.shard_total);
        assert(output@ == old(output)@ + enc_vint(self@.shard_total));
        output.write_vint(self.shard_successful);
        output.write_vint(0);
        output.write_string(self.index.as_str());
        output.write_string(self.index_uuid.as_str());
        output.write_vint(self.shard_id);
        output.write_string(self.id.as_str());
        output.write_zlong(self.version);
        output.write_zlong(self.seq_no);
        output.write_vlong(self.primary_term);
        output.write_bool(self.forced_refresh);
        write_byte_field(output, self.result);
        assert(output@ == old(output)@ + enc_opensearch_delete_response(self@));
    }

    /// Reads a delete response.
    #[verifier::spinoff_prover]
    #[verifier::rlimit(100)]
    pub fn read_from_input(input: &mut StreamInput) -> (r: Result<Self, TransportActionWireError>)
        ensures
            final(input).data() == old(input).data(),
            old(input).pos() <= final(input).pos() <= final(input).data().len(),
            match parse_opensearch_delete_response(old(input).rest()) {
                WireRead::Decoded(v, n) => r matches Ok(x) && x@ == v && final(input).pos() == old(input).pos() + n,
                WireRead::Unsupported(shape, reason) => is_unsupported(r, shape, reason),
                WireRead::Malformed => r is Err,
            },
    {
        let ghost s = old(input).rest();
        let ghost p0 = old(input).pos();
        let shard_total = lift(input.read_vint())?;
        proof {
            assert(input.rest() =~= s.skip(input.pos() - p0));
        }
        let shard_successful = lift(input.read_vint())?;
        proof {
            assert(input.rest() =~= s.skip(input.pos() - p0));
        }
        let count = lift(input.read_vint())?;
        if count != 0 {
            return Err(TransportActionWireError::UnsupportedWireShape { shape: "delete response shard failures", reason: "non-empty failure arrays are not decoded by the delete adapter yet" });
        }
        proof {
            assert(input.rest() =~= s.skip(input.pos() - p0));
        }
        let index = lift(input.read_string())?;
        proof {
            assert(input.rest() =~= s.skip(input.pos() - p0));
        }
        let index_uuid = lift(input.read_string())?;
        proof {
            assert(input.rest() =~= s.skip(input.pos() - p0));
        }
        let shard_id = lift(input.read_vint())?;
        proof {
            assert(input.rest() =~= s.skip(input.pos() - p0));
        }
        let id = lift(input.read_string())?;
        proof {
            assert(input.rest() =~= s.skip(input.pos() - p0));
        }
        let version = lift(input.read_zlong())?;
        proof {
            assert(input.rest() =~= s.skip(input.pos() - p0));
        }
        let seq_no = lift(input.read_zlong())?;
        proof {
            assert(input.rest() =~= s.skip(input.pos() - p0));
        }
        let primary_term = lift(input.read_vlong())?;
        proof {
            assert(input.rest() =~= s.skip(input.pos() - p0));
        }
        let forced_refresh = lift(input.read_bool())?;
        proof {
            assert(input.rest() =~= s.skip(input.pos() - p0));
        }
        let result = lift(input.read_byte())?;
        proof {
            assert(input.rest() =~= s.skip(input.pos() - p0));
        }
        let value = OpenSearchDeleteResponseWire { shard_total, shard_successful, index, index_uuid, shard_id, id, version, seq_no, primary_term, forced_refresh, result };
        if value.result != 2 && value.result != 3 {
            return Err(TransportActionWireError::UnsupportedWireShape { shape: "delete response result", reason: "only deleted and not-found delete results are decoded by the delete adapter" });
        }
        Ok(value)
    }

    /// Reads a delete response from the whole of `bytes`.
    pub fn read(bytes: Vec<u8>) -> (r: Result<Self, TransportActionWireError>)
        ensures
            opensearch_delete_response_read_result(bytes@, r),
    {
        let mut input = StreamInput::new(bytes);
        let value = Self::read_from_input(&mut input)?;
        require_no_trailing_bytes(&input)?;
        Ok(value)
    }
}

/// The fields of a refresh request, as its bytes carry them.
pub struct OpenSearchRefreshRequestView {
    pub parent_task_node: Seq<char>,
    pub parent_task_id: Option<i64>,
    pub indices: Seq<Seq<char>>,
    pub indices_options: OpenSearchIndicesOptionsWire,
}

impl View for OpenSearchRefreshRequestWire {
    type V = OpenSearchRefreshRequestView;

    open spec fn view(&self) -> OpenSearchRefreshRequestView {
        OpenSearchRefreshRequestView {
            parent_task_node: self.parent_task_node@,
            parent_task_id: self.parent_task_id,
            indices: strings_view(self.indices@),
            indices_options: self.indices_options,
        }
    }
}

/// The bytes of a refresh request.
pub open spec fn enc_opensearch_refresh_request(v: OpenSearchRefreshRequestView) -> Seq<u8> {
    enc_parent_task_id(v.parent_task_node, v.parent_task_id)
        + enc_string_array(v.indices)
        + enc_indices_options(v.indices_options)
}

/// What a reader makes of the bytes of a refresh request.
pub open spec fn parse_opensearch_refresh_request(s: Seq<u8>) -> WireRead<OpenSearchRefreshRequestView> {
    match parse_parent_task_id(s) {
        Some((pt, k0)) => {
            match parse_string_array(s.skip(k0)) {
                Some((indices, k1)) => {
                    match parse_indices_options(s.skip(k0 + k1)) {
                        Some((indices_options, k2)) => {
                            WireRead::Decoded(OpenSearchRefreshRequestView { parent_task_node: pt.0, parent_task_id: pt.1, indices: indices, indices_options: indices_options }, k0 + k1 + k2)
                        },
                        None => WireRead::Malformed,
                    }
                },
                None => WireRead::Malformed,
            }
        },
        None => WireRead::Malformed,
    }
}

/// True when a refresh request reads back as written.
pub open spec fn opensearch_refresh_request_fits(v: OpenSearchRefreshRequestView) -> bool {
    &&& parent_task_id_canonical(v.parent_task_node, v.parent_task_id)
    &&& strings_fit(v.indices)
    &&& v.indices.len() < 0x8000_0000
}

/// Reading a refresh request back gives the fields written.
#[verifier::spinoff_prover]
#[verifier::rlimit(100)]
pub proof fn lemma_opensearch_refresh_request_roundtrip(v: OpenSearchRefreshRequestView, rest: Seq<u8>)
    requires
        opensearch_refresh_request_fits(v),
    ensures
        parse_opensearch_refresh_request(enc_opensearch_refresh_request(v) + rest) == WireRead::Decoded(v, enc_opensearch_refresh_request(v).len() as int),
{
    let s = enc_opensearch_refresh_request(v) + rest;
    let t2 = enc_indices_options(v.indices_options) + rest;
    let t1 = enc_string_array(v.indices) + t2;
    let t0 = enc_parent_task_id(v.parent_task_node, v.parent_task_id) + t1;
    let u0 = enc_parent_task_id(v.parent_task_node, v.parent_task_id);
    let u1 = u0 + enc_string_array(v.indices);
    let u2 = u1 + enc_indices_options(v.indices_options);
    assert(s == u2 + rest);
    lemma_append_assoc(u1, enc_indices_options(v.indices_options), rest);
    lemma_append_assoc(u0, enc_string_array(v.indices), t2);
    assert(s == t0);
    lemma_parent_task_id_roundtrip(v.parent_task_node, v.parent_task_id, t1);
    lemma_skip_append(u0, t1);
    lemma_string_array_roundtrip(v.indices, t2);
    lemma_skip_append(u1, t2);
    lemma_indices_options_roundtrip(v.indices_options, rest);
}

/// What reading a refresh request from the whole of `bytes` gives: the fields read, a
/// refused shape, or an error.
pub open spec fn opensearch_refresh_request_read_result(bytes: Seq<u8>, r: Result<OpenSearchRefreshRequestWire, TransportActionWireError>) -> bool {
    match parse_opensearch_refresh_request(bytes) {
        WireRead::Decoded(v, n) => if n < bytes.len() {
            r == Err::<OpenSearchRefreshRequestWire, TransportActionWireError>(TransportActionWireError::TrailingBytes((bytes.len() - n) as usize))
        } else {
            r matches Ok(x) && x@ == v
        },
        WireRead::Unsupported(shape, reason) => is_unsupported(r, shape, reason),
        WireRead::Malformed => r is Err,
    }
}

/// Reading the whole of a written a refresh request gives back the fields written.
pub proof fn lemma_opensearch_refresh_request_read_back(v: OpenSearchRefreshRequestView, r: Result<OpenSearchRefreshRequestWire, TransportActionWireError>)
    requires
        opensearch_refresh_request_fits(v),
        opensearch_refresh_request_read_result(enc_opensearch_refresh_request(v), r),
    ensures
        r matches Ok(x) && x@ == v,
{
    lemma_opensearch_refresh_request_roundtrip(v, Seq::empty());
    assert(enc_opensearch_refresh_request(v) + Seq::<u8>::empty() =~= enc_opensearch_refresh_request(v));
}

impl OpenSearchRefreshRequestWire {
    /// Writes a refresh request.
    pub fn write(&self, output: &mut StreamOutput)
        ensures
            final(output)@ == old(output)@ + enc_opensearch_refresh_request(self@),
    {
        write_parent_task_id(output, self.parent_task_node.as_str(), self.parent_task_id);
        assert(output@ == old(output)@ + enc_parent_task_id(self@.parent_task_node, self@.parent_task_id));
        output.write_string_array(self.indices.as_slice());
        self.indices_options.write(output);
        assert(output@ == old(output)@ + enc_opensearch_refresh_request(self@));
    }

    /// Reads a refresh request from the whole of `bytes`.
    pub fn read(bytes: Vec<u8>) -> (r: Result<Self, TransportActionWireError>)
        ensures
            opensearch_refresh_request_read_result(bytes@, r),
    {
        let mut input = StreamInput::new(bytes);
        let ghost s = input.rest();
        let pt = read_parent_task_id(&mut input)?;
        proof {
            assert(input.rest() =~= s.skip(input.pos() - 0));
        }
        let indices = lift(input.read_string_array())?;
        proof {
            assert(input.rest() =~= s.skip(input.pos() - 0));
        }
        let indices_options = OpenSearchIndicesOptionsWire::read(&mut input)?;
        proof {
            assert(input.rest() =~= s.skip(input.pos() - 0));
        }
        let value = OpenSearchRefreshRequestWire { parent_task_node: pt.0, parent_task_id: pt.1, indices, indices_options };
        require_no_trailing_bytes(&input)?;
        Ok(value)
    }
}

/// The fields of a refresh response, as its bytes carry them.
pub struct OpenSearchRefreshResponseView {
    pub total_shards: i32,
    pub successful_shards: i32,
    pub failed_shards: i32,
}

impl View for OpenSearchRefreshResponseWire {
    type V = OpenSearchRefreshResponseView;

    open spec fn view(&self) -> OpenSearchRefreshResponseView {
        OpenSearchRefreshResponseView {
            total_shards: self.total_shards,
            successful_shards: self.successful_shards,
            failed_shards: self.failed_shards,
        }
    }
}

/// The bytes of a refresh response.
pub open spec fn enc_opensearch_refresh_response(v: OpenSearchRefreshResponseView) -> Seq<u8> {
    enc_vint(v.total_shards)
        + enc_vint(v.successful_shards)
        + enc_vint(v.failed_shards)
        + enc_vint(0)
}

/// What a reader makes of the bytes of a refresh response.
pub open spec fn parse_opensearch_refresh_response(s: Seq<u8>) -> WireRead<OpenSearchRefreshResponseView> {
    match parse_vint(s) {
        Some((total_shards, k0)) => {
            match parse_vint(s.skip(k0)) {
                Some((successful_shards, k1)) => {
                    match parse_vint(s.skip(k0 + k1)) {
                        Some((failed_shards, k2)) => {
                            match parse_vint(s.skip(k0 + k1 + k2)) {
                                Some((count, k3)) => {
                                    if count != 0 {
                                        WireRead::Unsupported("refresh response shard failures"@, "non-empty failure arrays are not decoded by the refresh adapter yet"@)
                                    } else {
                                        WireRead::Decoded(OpenSearchRefreshResponseView { total_shards: total_shards, successful_shards: successful_shards, failed_shards: failed_shards }, k0 + k1 + k2 + k3)
                                    }
                                },
                                None => WireRead::Malformed,
                            }
                        },
                        None => WireRead::Malformed,
                    }
                },
                None => WireRead::Malformed,
            }
        },
        None => WireRead::Malformed,
    }
}

/// True when a refresh response reads back as written.
pub open spec fn opensearch_refresh_response_fits(v: OpenSearchRefreshResponseView) -> bool {
    true
}

/// Reading a refresh response back gives the fields written.
#[verifier::spinoff_prover]
#[verifier::rlimit(100)]
pub proof fn lemma_opensearch_refresh_response_roundtrip(v: OpenSearchRefreshResponseView, rest: Seq<u8>)
    requires
        opensearch_refresh_response_fits(v),
    ensures
        parse_opensearch_refresh_response(enc_opensearch_refresh_response(v) + rest) == WireRead::Decoded(v, enc_opensearch_refresh_response(v).len() as int),
{
    let s = enc_opensearch_refresh_response(v) + rest;
    let t3 = enc_vint(0) + rest;
    let t2 = enc_vint(v.failed_shards) + t3;
    let t1 = enc_vint(v.successful_shards) + t2;
    let t0 = enc_vint(v.total_shards) + t1;
    let u0 = enc_vint(v.total_shards);
    let u1 = u0 + enc_vint(v.successful_shards);
    let u2 = u1 + enc_vint(v.failed_shards);
    let u3 = u2 + enc_vint(0);
    assert(s == u3 + rest);
    lemma_append_assoc(u2, enc_vint(0), rest);
    lemma_append_assoc(u1, enc_vint(v.failed_shards), t3);
    lemma_append_assoc(u0, enc_vint(v.successful_shards), t2);
    assert(s == t0);
    lemma_vint_roundtrip(v.total_shards, t1);
    lemma_skip_append(u0, t1);
    lemma_vint_roundtrip(v.successful_shards, t2);
    lemma_skip_append(u1, t2);
    lemma_vint_roundtrip(v.failed_shards, t3);
    lemma_skip_append(u2, t3);
    lemma_vint_roundtrip(0, rest);
}

/// What reading a refresh response from the whole of `bytes` gives: the fields read, a
/// refused shape, or an error.
pub open spec fn opensearch_refresh_response_read_result(bytes: Seq<u8>, r: Result<OpenSearchRefreshResponseWire, TransportActionWireError>) -> bool {
    match parse_opensearch_refresh_response(bytes) {
        WireRead::Decoded(v, n) => if n < bytes.len() {
            r == Err::<OpenSearchRefreshResponseWire, TransportActionWireError>(TransportActionWireError::TrailingBytes((bytes.len() - n) as usize))
        } else {
            r matches Ok(x) && x@ == v
        },
        WireRead::Unsupported(shape, reason) => is_unsupported(r, shape, reason),
        WireRead::Malformed => r is Err,
    }
}

/// Reading the whole of a written a refresh response gives back the fields written.
pub proof fn lemma_opensearch_refresh_response_read_back(v: OpenSearchRefreshResponseView, r: Result<OpenSearchRefreshResponseWire, TransportActionWireError>)
    requires
        opensearch_refresh_response_fits(v),
        opensearch_refresh_response_read_result(enc_opensearch_refresh_response(v), r),
    ensures
        r matches Ok(x) && x@ == v,
{
    lemma_opensearch_refresh_response_roundtrip(v, Seq::empty());
    assert(enc_opensearch_refresh_response(v) + Seq::<u8>::empty() =~= enc_opensearch_refresh_response(v));
}

impl OpenSearchRefreshResponseWire {
    /// Writes a refresh response.
    pub fn write(&self, output: &mut StreamOutput)
        ensures
            final(output)@ == old(output)@ + enc_opensearch_refresh_response(self@),
    {
        output.write_vint(self.total_shards);
        assert(output@ == old(output)@ + enc_vint(self@.total_shards));
        output.write_vint(self.successful_shards);
        output.write_vint(self.failed_shards);
        output.write_vint(0);
        assert(output@ == old(output)@ + enc_opensearch_refresh_response(self@));
    }

    /// Reads a refresh response from the whole of `bytes`.
    pub fn read(bytes: Vec<u8>) -> (r: Result<Self, TransportActionWireError>)
        ensures
            opensearch_refresh_response_read_result(bytes@, r),
    {
        let mut input = StreamInput::new(bytes);
        let ghost s = input.rest();
        let total_shards = lift(input.read_vint())?;
        proof {
            assert(input.rest() =~= s.skip(input.pos() - 0));
        }
        let successful_shards = lift(input.read_vint())?;
        proof {
            assert(input.rest() =~= s.skip(input.pos() - 0));
        }
        let failed_shards = lift(input.read_vint())?;
        proof {
            assert(input.rest() =~= s.skip(input.pos() - 0));
        }
        let count = lift(input.read_vint())?;
        if count != 0 {
            return Err(TransportActionWireError::UnsupportedWireShape { shape: "refresh response shard failures", reason: "non-empty failure arrays are not decoded by the refresh adapter yet" });
        }
        proof {
            assert(input.rest() =~= s.skip(input.pos() - 0));
        }
        let value = OpenSearchRefreshResponseWire { total_shards, successful_shards, failed_shards };
        require_no_trailing_bytes(&input)?;
        Ok(value)
    }
}

/// The fields of an index request, as its bytes carry them.
pub struct OpenSearchIndexRequestView {
    pub parent_task_node: Seq<char>,
    pub parent_task_id: Option<i64>,
    pub shard_id_present: bool,
    pub wait_for_active_shards: i32,
    pub timeout: TimeValueWire,
    pub index: Seq<char>,
    pub routed_based_on_cluster_version: i64,
    pub refresh_policy: u8,
    pub id: Option<Seq<char>>,
    pub routing: Option<Seq<char>>,
    pub source: Seq<u8>,
    pub extra_field_values_present: bool,
    pub op_type: u8,
    pub version: i64,
    pub version_type: u8,
    pub pipeline: Option<Seq<char>>,
    pub final_pipeline: Option<Seq<char>>,
    pub system_ingest_pipeline: Option<Seq<char>>,
    pub pipeline_resolved: bool,
    pub retry: bool,
    pub auto_generated_timestamp: i64,
    pub content_type: Option<Seq<char>>,
    pub if_seq_no: i64,
    pub if_primary_term: i64,
    pub require_alias: bool,
}

impl View for OpenSearchIndexRequestWire {
    type V = OpenSearchIndexRequestView;

    open spec fn view(&self) -> OpenSearchIndexRequestView {
        OpenSearchIndexRequestView {
            parent_task_node: self.parent_task_node@,
            parent_task_id: self.parent_task_id,
            shard_id_present: self.shard_id_present,
            wait_for_active_shards: self.wait_for_active_shards,
            timeout: self.timeout,
            index: self.index@,
            routed_based_on_cluster_version: self.routed_based_on_cluster_version,
            refresh_policy: self.refresh_policy,
            id: opt_string_view(self.id),
            routing: opt_string_view(self.routing),
            source: self.source@,
            extra_field_values_present: self.extra_field_values_present,
            op_type: self.op_type,
            version: self.version,
            version_type: self.version_type,
            pipeline: opt_string_view(self.pipeline),
            final_pipeline: opt_string_view(self.final_pipeline),
            system_ingest_pipeline: opt_string_view(self.system_ingest_pipeline),
            pipeline_resolved: self.pipeline_resolved,
            retry: self.retry,
            auto_generated_timestamp: self.auto_generated_timestamp,
            content_type: opt_string_view(self.content_type),
            if_seq_no: self.if_seq_no,
            if_primary_term: self.if_primary_term,
            require_alias: self.require_alias,
        }
    }
}

/// The bytes of an index request.
pub open spec fn enc_opensearch_index_request(v: OpenSearchIndexRequestView) -> Seq<u8> {
    enc_parent_task_id(v.parent_task_node, v.parent_task_id)
        + enc_bool(v.shard_id_present)
        + enc_i32(v.wait_for_active_shards)
        + enc_time_value(v.timeout)
        + enc_string(v.index)
        + enc_vlong(v.routed_based_on_cluster_version)
        + enc_byte(v.refresh_policy)
        + enc_optional_string(v.id)
        + enc_optional_string(v.routing)
        + enc_json_bytes(v.source)
        + enc_bool(v.extra_field_values_present)
        + enc_byte(v.op_type)
        + enc_i64(v.version)
        + enc_byte(v.version_type)
        + enc_optional_string(v.pipeline)
        + enc_optional_string(v.final_pipeline)
        + enc_optional_string(v.system_ingest_pipeline)
        + enc_bool(v.pipeline_resolved)
        + enc_bool(v.retry)
        + enc_i64(v.auto_generated_timestamp)
        + enc_optional_string(v.content_type)
        + enc_zlong(v.if_seq_no)
        + enc_vlong(v.if_primary_term)
        + enc_bool(v.require_alias)
}

/// What a reader makes of the bytes of an index request.
pub open spec fn parse_opensearch_index_request(s: Seq<u8>) -> WireRead<OpenSearchIndexRequestView> {
    match parse_parent_task_id(s) {
        Some((pt, k0)) => {
            match parse_bool(s.skip(k0)) {
                Some((shard_id_present, k1)) => {
                    if shard_id_present {
                        WireRead::Unsupported("index request shard id"@, "explicit shard ids are not decoded by the index adapter yet"@)
                    } else {
                        match parse_i32(s.skip(k0 + k1)) {
                            Some((wait_for_active_shards, k2)) => {
                                match parse_time_value(s.skip(k0 + k1 + k2)) {
                                    Some((timeout, k3)) => {
                                        parse_opensearch_index_request_from_4(s, k0 + k1 + k2 + k3, pt, shard_id_present, wait_for_active_shards, timeout)
                                    },
                                    None => WireRead::Malformed,
                                }
                            },
                            None => WireRead::Malformed,
                        }
                    }
                },
                None => WireRead::Malformed,
            }
        },
        None => WireRead::Malformed,
    }
}

/// What a reader makes of the fields of an index request from its
/// 5th field on, at offset `o`, given the fields before them.
pub open spec fn parse_opensearch_index_request_from_4(s: Seq<u8>, o: int, pt: (Seq<char>, Option<i64>), shard_id_present: bool, wait_for_active_shards: i32, timeout: TimeValueWire) -> WireRead<OpenSearchIndexRequestView> {
    match parse_string(s.skip(o)) {
        Some((index, k4)) => {
            match parse_vlong(s.skip(o + k4)) {
                Some((routed_based_on_cluster_version, k5)) => {
                    match parse_byte(s.skip(o + k4 + k5)) {
                        Some((refresh_policy, k6)) => {
                            match parse_optional_string(s.skip(o + k4 + k5 + k6)) {
                                Some((id, k7)) => {
                                    parse_opensearch_index_request_from_8(s, o + k4 + k5 + k6 + k7, pt, shard_id_present, wait_for_active_shards, timeout, index, routed_based_on_cluster_version, refresh_policy, id)
                                },
                                None => WireRead::Malformed,
                            }
                        },
                        None => WireRead::Malformed,
                    }
                },
                None => WireRead::Malformed,
            }
        },
        None => WireRead::Malformed,
    }
}

/// What a reader makes of the fields of an index request from its
/// 9th field on, at offset `o`, given the fields before them.
pub open spec fn parse_opensearch_index_request_from_8(s: Seq<u8>, o: int, pt: (Seq<char>, Option<i64>), shard_id_present: bool, wait_for_active_shards: i32, timeout: TimeValueWire, index: Seq<char>, routed_based_on_cluster_version: i64, refresh_policy: u8, id: Option<Seq<char>>) -> WireRead<OpenSearchIndexRequestView> {
    match parse_optional_string(s.skip(o)) {
        Some((routing, k8)) => {
            match parse_json_bytes(s.skip(o + k8)) {
                Some((source, k9)) => {
                    match parse_bool(s.skip(o + k8 + k9)) {
                        Some((extra_field_values_present, k10)) => {
                            if extra_field_values_present {
                                WireRead::Unsupported("index request extra field values"@, "extra field values are not decoded by the index adapter yet"@)
                            } else {
                                match parse_byte(s.skip(o + k8 + k9 + k10)) {
                                    Some((op_type, k11)) => {
                                        parse_opensearch_index_request_from_12(s, o + k8 + k9 + k10 + k11, pt, shard_id_present, wait_for_active_shards, timeout, index, routed_based_on_cluster_version, refresh_policy, id, routing, source, extra_field_values_present, op_type)
                                    },
                                    None => WireRead::Malformed,
                                }
                            }
                        },
                        None => WireRead::Malformed,
                    }
                },
                None => WireRead::Malformed,
            }
        },
        None => WireRead::Malformed,
    }
}

/// What a reader makes of the fields of an index request from its
/// 13th field on, at offset `o`, given the fields before them.
pub open spec fn parse_opensearch_index_request_from_12(s: Seq<u8>, o: int, pt: (Seq<char>, Option<i64>), shard_id_present: bool, wait_for_active_shards: i32, timeout: TimeValueWire, index: Seq<char>, routed_based_on_cluster_version: i64, refresh_policy: u8, id: Option<Seq<char>>, routing: Option<Seq<char>>, source: Seq<u8>, extra_field_values_present: bool, op_type: u8) -> WireRead<OpenSearchIndexRequestView> {
    match parse_i64(s.skip(o)) {
        Some((version, k12)) => {
            match parse_byte(s.skip(o + k12)) {
                Some((version_type, k13)) => {
                    match parse_optional_string(s.skip(o + k12 + k13)) {
                        Some((pipeline, k14)) => {
                            match parse_optional_string(s.skip(o + k12 + k13 + k14)) {
                                Some((final_pipeline, k15)) => {
                                    parse_opensearch_index_request_from_16(s, o + k12 + k13 + k14 + k15, pt, shard_id_present, wait_for_active_shards, timeout, index, routed_based_on_cluster_version, refresh_policy, id, routing, source, extra_field_values_present, op_type, version, version_type, pipeline, final_pipeline)
                                },
                                None => WireRead::Malformed,
                            }
                        },
                        None => WireRead::Malformed,
                    }
                },
                None => WireRead::Malformed,
            }
        },
        None => WireRead::Malformed,
    }
}

/// What a reader makes of the fields of an index request from its
/// 17th field on, at offset `o`, given the fields before them.
pub open spec fn parse_opensearch_index_request_from_16(s: Seq<u8>, o: int, pt: (Seq<char>, Option<i64>), shard_id_present: bool, wait_for_active_shards: i32, timeout: TimeValueWire, index: Seq<char>, routed_based_on_cluster_version: i64, refresh_policy: u8, id: Option<Seq<char>>, routing: Option<Seq<char>>, source: Seq<u8>, extra_field_values_present: bool, op_type: u8, version: i64, version_type: u8, pipeline: Option<Seq<char>>, final_pipeline: Option<Seq<char>>) -> WireRead<OpenSearchIndexRequestView> {
    match parse_optional_string(s.skip(o)) {
        Some((system_ingest_pipeline, k16)) => {
            match parse_bool(s.skip(o + k16)) {
                Some((pipeline_resolved, k17)) => {
                    match parse_bool(s.skip(o + k16 + k17)) {
                        Some((retry, k18)) => {
                            match parse_i64(s.skip(o + k16 + k17 + k18)) {
                                Some((auto_generated_timestamp, k19)) => {
                                    parse_opensearch_index_request_from_20(s, o + k16 + k17 + k18 + k19, pt, shard_id_present, wait_for_active_shards, timeout, index, routed_based_on_cluster_version, refresh_policy, id, routing, source, extra_field_values_present, op_type, version, version_type, pipeline, final_pipeline, system_ingest_pipeline, pipeline_resolved, retry, auto_generated_timestamp)
                                },
                                None => WireRead::Malformed,
                            }
                        },
                        None => WireRead::Malformed,
                    }
                },
                None => WireRead::Malformed,
            }
        },
        None => WireRead::Malformed,
    }
}

/// What a reader makes of the fields of an index request from its
/// 21st field on, at offset `o`, given the fields before them.
pub open spec fn parse_opensearch_index_request_from_20(s: Seq<u8>, o: int, pt: (Seq<char>, Option<i64>), shard_id_present: bool, wait_for_active_shards: i32, timeout: TimeValueWire, index: Seq<char>, routed_based_on_cluster_version: i64, refresh_policy: u8, id: Option<Seq<char>>, routing: Option<Seq<char>>, source: Seq<u8>, extra_field_values_present: bool, op_type: u8, version: i64, version_type: u8, pipeline: Option<Seq<char>>, final_pipeline: Option<Seq<char>>, system_ingest_pipeline: Option<Seq<char>>, pipeline_resolved: bool, retry: bool, auto_generated_timestamp: i64) -> WireRead<OpenSearchIndexRequestView> {
    match parse_optional_string(s.skip(o)) {
        Some((content_type, k20)) => {
            match parse_zlong(s.skip(o + k20)) {
                Some((if_seq_no, k21)) => {
                    match parse_vlong(s.skip(o + k20 + k21)) {
                        Some((if_primary_term, k22)) => {
                            match parse_bool(s.skip(o + k20 + k21 + k22)) {
                                Some((require_alias, k23)) => {
                                    WireRead::Decoded(OpenSearchIndexRequestView { parent_task_node: pt.0, parent_task_id: pt.1, shard_id_present: shard_id_present, wait_for_active_shards: wait_for_active_shards, timeout: timeout, index: index, routed_based_on_cluster_version: routed_based_on_cluster_version, refresh_policy: refresh_policy, id: id, routing: routing, source: source, extra_field_values_present: extra_field_values_present, op_type: op_type, version: version, version_type: version_type, pipeline: pipeline, final_pipeline: final_pipeline, system_ingest_pipeline: system_ingest_pipeline, pipeline_resolved: pipeline_resolved, retry: retry, auto_generated_timestamp: auto_generated_timestamp, content_type: content_type, if_seq_no: if_seq_no, if_primary_term: if_primary_term, require_alias: require_alias }, o + k20 + k21 + k22 + k23)
                                },
                                None => WireRead::Malformed,
                            }
                        },
                        None => WireRead::Malformed,
                    }
                },
                None => WireRead::Malformed,
            }
        },
        None => WireRead::Malformed,
    }
}

/// True when an index request reads back as written.
pub open spec fn opensearch_index_request_fits(v: OpenSearchIndexRequestView) -> bool {
    &&& parent_task_id_canonical(v.parent_task_node, v.parent_task_id)
    &&& !v.shard_id_present
    &&& string_fits(v.index)
    &&& v.id matches Some(c) ==> string_fits(c)
    &&& v.routing matches Some(c) ==> string_fits(c)
    &&& is_json_document(v.source)
    &&& v.source.len() < 0x8000_0000
    &&& !v.extra_field_values_present
    &&& v.pipeline matches Some(c) ==> string_fits(c)
    &&& v.final_pipeline matches Some(c) ==> string_fits(c)
    &&& v.system_ingest_pipeline matches Some(c) ==> string_fits(c)
    &&& v.content_type matches Some(c) ==> string_fits(c)
}

/// Reading the fields of an index request from its 21st field on gives the
/// fields written.
#[verifier::spinoff_prover]
#[verifier::rlimit(100)]
proof fn lemma_opensearch_index_request_from_20_roundtrip(v: OpenSearchIndexRequestView, rest: Seq<u8>)
    requires
        opensearch_index_request_fits(v),
    ensures
        parse_opensearch_index_request_from_20(enc_opensearch_index_request(v) + rest, (enc_parent_task_id(v.parent_task_node, v.parent_task_id) + enc_bool(v.shard_id_present) + enc_i32(v.wait_for_active_shards) + enc_time_value(v.timeout) + enc_string(v.index) + enc_vlong(v.routed_based_on_cluster_version) + enc_byte(v.refresh_policy) + enc_optional_string(v.id) + enc_optional_string(v.routing) + enc_json_bytes(v.source) + enc_bool(v.extra_field_values_present) + enc_byte(v.op_type) + enc_i64(v.version) + enc_byte(v.version_type) + enc_optional_string(v.pipeline) + enc_optional_string(v.final_pipeline) + enc_optional_string(v.system_ingest_pipeline) + enc_bool(v.pipeline_resolved) + enc_bool(v.retry) + enc_i64(v.auto_generated_timestamp)).len() as int, (v.parent_task_node, v.parent_task_id), v.shard_id_present, v.wait_for_active_shards, v.timeout, v.index, v.routed_based_on_cluster_version, v.refresh_policy, v.id, v.routing, v.source, v.extra_field_values_present, v.op_type, v.version, v.version_type, v.pipeline, v.final_pipeline, v.system_ingest_pipeline, v.pipeline_resolved, v.retry, v.auto_generated_timestamp) == WireRead::Decoded(v, enc_opensearch_index_request(v).len() as int),
{
    let s = enc_opensearch_index_request(v) + rest;
    let t23 = enc_bool(v.require_alias) + rest;
    let t22 = enc_vlong(v.if_primary_term) + t23;
    let t21 = enc_zlong(v.if_seq_no) + t22;
    let t20 = enc_optional_string(v.content_type) + t21;
    let t19 = enc_i64(v.auto_generated_timestamp) + t20;
    let t18 = enc_bool(v.retry) + t19;
    let t17 = enc_bool(v.pipeline_resolved) + t18;
    let t16 = enc_optional_string(v.system_ingest_pipeline) + t17;
    let t15 = enc_optional_string(v.final_pipeline) + t16;
    let t14 = enc_optional_string(v.pipeline) + t15;
    let t13 = enc_byte(v.version_type) + t14;
    let t12 = enc_i64(v.version) + t13;
    let t11 = enc_byte(v.op_type) + t12;
    let t10 = enc_bool(v.extra_field_values_present) + t11;
    let t9 = enc_json_bytes(v.source) + t10;
    let t8 = enc_optional_string(v.routing) + t9;
    let t7 = enc_optional_string(v.id) + t8;
    let t6 = enc_byte(v.refresh_policy) + t7;
    let t5 = enc_vlong(v.routed_based_on_cluster_version) + t6;
    let t4 = enc_string(v.index) + t5;
    let t3 = enc_time_value(v.timeout) + t4;
    let t2 = enc_i32(v.wait_for_active_shards) + t3;
    let t1 = enc_bool(v.shard_id_present) + t2;
    let t0 = enc_parent_task_id(v.parent_task_node, v.parent_task_id) + t1;
    let u0 = enc_parent_task_id(v.parent_task_node, v.parent_task_id);
    let u1 = u0 + enc_bool(v.shard_id_present);
    let u2 = u1 + enc_i32(v.wait_for_active_shards);
    let u3 = u2 + enc_time_value(v.timeout);
    let u4 = u3 + enc_string(v.index);
    let u5 = u4 + enc_vlong(v.routed_based_on_cluster_version);
    let u6 = u5 + enc_byte(v.refresh_policy);
    let u7 = u6 + enc_optional_string(v.id);
    let u8 = u7 + enc_optional_string(v.routing);
    let u9 = u8 + enc_json_bytes(v.source);
    let u10 = u9 + enc_bool(v.extra_field_values_present);
    let u11 = u10 + enc_byte(v.op_type);
    let u12 = u11 + enc_i64(v.version);
    let u13 = u12 + enc_byte(v.version_type);
    let u14 = u13 + enc_optional_string(v.pipeline);
    let u15 = u14 + enc_optional_string(v.final_pipeline);
    let u16 = u15 + enc_optional_string(v.system_ingest_pipeline);
    let u17 = u16 + enc_bool(v.pipeline_resolved);
    let u18 = u17 + enc_bool(v.retry);
    let u19 = u18 + enc_i64(v.auto_generated_timestamp);
    let u20 = u19 + enc_optional_string(v.content_type);
    let u21 = u20 + enc_zlong(v.if_seq_no);
    let u22 = u21 + enc_vlong(v.if_primary_term);
    let u23 = u22 + enc_bool(v.require_alias);
    assert(s == u23 + rest);
    lemma_append_assoc(u22, enc_bool(v.require_alias), rest);
    lemma_append_assoc(u21, enc_vlong(v.if_primary_term), t23);
    lemma_append_assoc(u20, enc_zlong(v.if_seq_no), t22);
    lemma_append_assoc(u19, enc_optional_string(v.content_type), t21);
    lemma_append_assoc(u18, enc_i64(v.auto_generated_timestamp), t20);
    lemma_append_assoc(u17, enc_bool(v.retry), t19);
    lemma_append_assoc(u16, enc_bool(v.pipeline_resolved), t18);
    lemma_append_assoc(u15, enc_optional_string(v.system_ingest_pipeline), t17);
    lemma_append_assoc(u14, enc_optional_string(v.final_pipeline), t16);
    lemma_append_assoc(u13, enc_optional_string(v.pipeline), t15);
    lemma_append_assoc(u12, enc_byte(v.version_type), t14);
    lemma_append_assoc(u11, enc_i64(v.version), t13);
    lemma_append_assoc(u10, enc_byte(v.op_type), t12);
    lemma_append_assoc(u9, enc_bool(v.extra_field_values_present), t11);
    lemma_append_assoc(u8, enc_json_bytes(v.source), t10);
    lemma_append_assoc(u7, enc_optional_string(v.routing), t9);
    lemma_append_assoc(u6, enc_optional_string(v.id), t8);
    lemma_append_assoc(u5, enc_byte(v.refresh_policy), t7);
    lemma_append_assoc(u4, enc_vlong(v.routed_based_on_cluster_version), t6);
    lemma_append_assoc(u3, enc_string(v.index), t5);
    lemma_append_assoc(u2, enc_time_value(v.timeout), t4);
    lemma_append_assoc(u1, enc_i32(v.wait_for_active_shards), t3);
    lemma_append_assoc(u0, enc_bool(v.shard_id_present), t2);
    assert(s == t0);
    lemma_skip_append(u19, t20);
    lemma_optional_string_roundtrip(v.content_type, t21);
    lemma_skip_append(u20, t21);
    lemma_zlong_roundtrip(v.if_seq_no, t22);
    lemma_skip_append(u21, t22);
    lemma_vlong_roundtrip(v.if_primary_term, t23);
    lemma_skip_append(u22, t23);
    lemma_bool_roundtrip(v.require_alias, rest);
}

/// Reading the fields of an index request from its 17th field on gives the
/// fields written.
#[verifier::spinoff_prover]
#[verifier::rlimit(100)]
proof fn lemma_opensearch_index_request_from_16_roundtrip(v: OpenSearchIndexRequestView, rest: Seq<u8>)
    requires
        opensearch_index_request_fits(v),
    ensures
        parse_opensearch_index_request_from_16(enc_opensearch_index_request(v) + rest, (enc_parent_task_id(v.parent_task_node, v.parent_task_id) + enc_bool(v.shard_id_present) + enc_i32(v.wait_for_active_shards) + enc_time_value(v.timeout) + enc_string(v.index) + enc_vlong(v.routed_based_on_cluster_version) + enc_byte(v.refresh_policy) + enc_optional_string(v.id) + enc_optional_string(v.routing) + enc_json_bytes(v.source) + enc_bool(v.extra_field_values_present) + enc_byte(v.op_type) + enc_i64(v.version) + enc_byte(v.version_type) + enc_optional_string(v.pipeline) + enc_optional_string(v.final_pipeline)).len() as int, (v.parent_task_node, v.parent_task_id), v.shard_id_present, v.wait_for_active_shards, v.timeout, v.index, v.routed_based_on_cluster_version, v.refresh_policy, v.id, v.routing, v.source, v.extra_field_values_present, v.op_type, v.version, v.version_type, v.pipeline, v.final_pipeline) == WireRead::Decoded(v, enc_opensearch_index_request(v).len() as int),
{
    let s = enc_opensearch_index_request(v) + rest;
    let t23 = enc_bool(v.require_alias) + rest;
    let t22 = enc_vlong(v.if_primary_term) + t23;
    let t21 = enc_zlong(v.if_seq_no) + t22;
    let t20 = enc_optional_string(v.content_type) + t21;
    let t19 = enc_i64(v.auto_generated_timestamp) + t20;
    let t18 = enc_bool(v.retry) + t19;
    let t17 = enc_bool(v.pipeline_resolved) + t18;
    let t16 = enc_optional_string(v.system_ingest_pipeline) + t17;
    let t15 = enc_optional_string(v.final_pipeline) + t16;
    let t14 = enc_optional_string(v.pipeline) + t15;
    let t13 = enc_byte(v.version_type) + t14;
    let t12 = enc_i64(v.version) + t13;
    let t11 = enc_byte(v.op_type) + t12;
    let t10 = enc_bool(v.extra_field_values_present) + t11;
    let t9 = enc_json_bytes(v.source) + t10;
    let t8 = enc_optional_string(v.routing) + t9;
    let t7 = enc_optional_string(v.id) + t8;
    let t6 = enc_byte(v.refresh_policy) + t7;
    let t5 = enc_vlong(v.routed_based_on_cluster_version) + t6;
    let t4 = enc_string(v.index) + t5;
    let t3 = enc_time_value(v.timeout) + t4;
    let t2 = enc_i32(v.wait_for_active_shards) + t3;
    let t1 = enc_bool(v.shard_id_present) + t2;
    let t0 = enc_parent_task_id(v.parent_task_node, v.parent_task_id) + t1;
    let u0 = enc_parent_task_id(v.parent_task_node, v.parent_task_id);
    let u1 = u0 + enc_bool(v.shard_id_present);
    let u2 = u1 + enc_i32(v.wait_for_active_shards);
    let u3 = u2 + enc_time_value(v.timeout);
    let u4 = u3 + enc_string(v.index);
    let u5 = u4 + enc_vlong(v.routed_based_on_cluster_version);
    let u6 = u5 + enc_byte(v.refresh_policy);
    let u7 = u6 + enc_optional_string(v.id);
    let u8 = u7 + enc_optional_string(v.routing);
    let u9 = u8 + enc_json_bytes(v.source);
    let u10 = u9 + enc_bool(v.extra_field_values_present);
    let u11 = u10 + enc_byte(v.op_type);
    let u12 = u11 + enc_i64(v.version);
    let u13 = u12 + enc_byte(v.version_type);
    let u14 = u13 + enc_optional_string(v.pipeline);
    let u15 = u14 + enc_optional_string(v.final_pipeline);
    let u16 = u15 + enc_optional_string(v.system_ingest_pipeline);
    let u17 = u16 + enc_bool(v.pipeline_resolved);
    let u18 = u17 + enc_bool(v.retry);
    let u19 = u18 + enc_i64(v.auto_generated_timestamp);
    let u20 = u19 + enc_optional_string(v.content_type);
    let u21 = u20 + enc_zlong(v.if_seq_no);
    let u22 = u21 + enc_vlong(v.if_primary_term);
    let u23 = u22 + enc_bool(v.require_alias);
    assert(s == u23 + rest);
    lemma_append_assoc(u22, enc_bool(v.require_alias), rest);
    lemma_append_assoc(u21, enc_vlong(v.if_primary_term), t23);
    lemma_append_assoc(u20, enc_zlong(v.if_seq_no), t22);
    lemma_append_assoc(u19, enc_optional_string(v.content_type), t21);
    lemma_append_assoc(u18, enc_i64(v.auto_generated_timestamp), t20);
    lemma_append_assoc(u17, enc_bool(v.retry), t19);
    lemma_append_assoc(u16, enc_bool(v.pipeline_resolved), t18);
    lemma_append_assoc(u15, enc_optional_string(v.system_ingest_pipeline), t17);
    lemma_append_assoc(u14, enc_optional_string(v.final_pipeline), t16);
    lemma_append_assoc(u13, enc_optional_string(v.pipeline), t15);
    lemma_append_assoc(u12, enc_byte(v.version_type), t14);
    lemma_append_assoc(u11, enc_i64(v.version), t13);
    lemma_append_assoc(u10, enc_byte(v.op_type), t12);
    lemma_append_assoc(u9, enc_bool(v.extra_field_values_present), t11);
    lemma_append_assoc(u8, enc_json_bytes(v.source), t10);
    lemma_append_assoc(u7, enc_optional_string(v.routing), t9);
    lemma_append_assoc(u6, enc_optional_string(v.id), t8);
    lemma_append_assoc(u5, enc_byte(v.refresh_policy), t7);
    lemma_append_assoc(u4, enc_vlong(v.routed_based_on_cluster_version), t6);
    lemma_append_assoc(u3, enc_string(v.index), t5);
    lemma_append_assoc(u2, enc_time_value(v.timeout), t4);
    lemma_append_assoc(u1, enc_i32(v.wait_for_active_shards), t3);
    lemma_append_assoc(u0, enc_bool(v.shard_id_present), t2);
    assert(s == t0);
    lemma_skip_append(u15, t16);
    lemma_optional_string_roundtrip(v.system_ingest_pipeline, t17);
    lemma_skip_append(u16, t17);
    lemma_bool_roundtrip(v.pipeline_resolved, t18);
    lemma_skip_append(u17, t18);
    lemma_bool_roundtrip(v.retry, t19);
    lemma_skip_append(u18, t19);
    lemma_i64_roundtrip(v.auto_generated_timestamp, t20);
    lemma_skip_append(u19, t20);
    lemma_opensearch_index_request_from_20_roundtrip(v, rest);
}

/// Reading the fields of an index request from its 13th field on gives the
/// fields written.
#[verifier::spinoff_prover]
#[verifier::rlimit(100)]
proof fn lemma_opensearch_index_request_from_12_roundtrip(v: OpenSearchIndexRequestView, rest: Seq<u8>)
    requires
        opensearch_index_request_fits(v),
    ensures
        parse_opensearch_index_request_from_12(enc_opensearch_index_request(v) + rest, (enc_parent_task_id(v.parent_task_node, v.parent_task_id) + enc_bool(v.shard_id_present) + enc_i32(v.wait_for_active_shards) + enc_time_value(v.timeout) + enc_string(v.index) + enc_vlong(v.routed_based_on_cluster_version) + enc_byte(v.refresh_policy) + enc_optional_string(v.id) + enc_optional_string(v.routing) + enc_json_bytes(v.source) + enc_bool(v.extra_field_values_present) + enc_byte(v.op_type)).len() as int, (v.parent_task_node, v.parent_task_id), v.shard_id_present, v.wait_for_active_shards, v.timeout, v.index, v.routed_based_on_cluster_version, v.refresh_policy, v.id, v.routing, v.source, v.extra_field_values_present, v.op_type) == WireRead::Decoded(v, enc_opensearch_index_request(v).len() as int),
{
    let s = enc_opensearch_index_request(v) + rest;
    let t23 = enc_bool(v.require_alias) + rest;
    let t22 = enc_vlong(v.if_primary_term) + t23;
    let t21 = enc_zlong(v.if_seq_no) + t22;
    let t20 = enc_optional_string(v.content_type) + t21;
    let t19 = enc_i64(v.auto_generated_timestamp) + t20;
    let t18 = enc_bool(v.retry) + t19;
    let t17 = enc_bool(v.pipeline_resolved) + t18;
    let t16 = enc_optional_string(v.system_ingest_pipeline) + t17;
    let t15 = enc_optional_string(v.final_pipeline) + t16;
    let t14 = enc_optional_string(v.pipeline) + t15;
    let t13 = enc_byte(v.version_type) + t14;
    let t12 = enc_i64(v.version) + t13;
    let t11 = enc_byte(v.op_type) + t12;
    let t10 = enc_bool(v.extra_field_values_present) + t11;
    let t9 = enc_json_bytes(v.source) + t10;
    let t8 = enc_optional_string(v.routing) + t9;
    let t7 = enc_optional_string(v.id) + t8;
    let t6 = enc_byte(v.refresh_policy) + t7;
    let t5 = enc_vlong(v.routed_based_on_cluster_version) + t6;
    let t4 = enc_string(v.index) + t5;
    let t3 = enc_time_value(v.timeout) + t4;
    let t2 = enc_i32(v.wait_for_active_shards) + t3;
    let t1 = enc_bool(v.shard_id_present) + t2;
    let t0 = enc_parent_task_id(v.parent_task_node, v.parent_task_id) + t1;
    let u0 = enc_parent_task_id(v.parent_task_node, v.parent_task_id);
    let u1 = u0 + enc_bool(v.shard_id_present);
    let u2 = u1 + enc_i32(v.wait_for_active_shards);
    let u3 = u2 + enc_time_value(v.timeout);
    let u4 = u3 + enc_string(v.index);
    let u5 = u4 + enc_vlong(v.routed_based_on_cluster_version);
    let u6 = u5 + enc_byte(v.refresh_policy);
    let u7 = u6 + enc_optional_string(v.id);
    let u8 = u7 + enc_optional_string(v.routing);
    let u9 = u8 + enc_json_bytes(v.source);
    let u10 = u9 + enc_bool(v.extra_field_values_present);
    let u11 = u10 + enc_byte(v.op_type);
    let u12 = u11 + enc_i64(v.version);
    let u13 = u12 + enc_byte(v.version_type);
    let u14 = u13 + enc_optional_string(v.pipeline);
    let u15 = u14 + enc_optional_string(v.final_pipeline);
    let u16 = u15 + enc_optional_string(v.system_ingest_pipeline);
    let u17 = u16 + enc_bool(v.pipeline_resolved);
    let u18 = u17 + enc_bool(v.retry);
    let u19 = u18 + enc_i64(v.auto_generated_timestamp);
    let u20 = u19 + enc_optional_string(v.content_type);
    let u21 = u20 + enc_zlong(v.if_seq_no);
    let u22 = u21 + enc_vlong(v.if_primary_term);
    let u23 = u22 + enc_bool(v.require_alias);
    assert(s == u23 + rest);
    lemma_append_assoc(u22, enc_bool(v.require_alias), rest);
    lemma_append_assoc(u21, enc_vlong(v.if_primary_term), t23);
    lemma_append_assoc(u20, enc_zlong(v.if_seq_no), t22);
    lemma_append_assoc(u19, enc_optional_string(v.content_type), t21);
    lemma_append_assoc(u18, enc_i64(v.auto_generated_timestamp), t20);
    lemma_append_assoc(u17, enc_bool(v.retry), t19);
    lemma_append_assoc(u16, enc_bool(v.pipeline_resolved), t18);
    lemma_append_assoc(u15, enc_optional_string(v.system_ingest_pipeline), t17);
    lemma_append_assoc(u14, enc_optional_string(v.final_pipeline), t16);
    lemma_append_assoc(u13, enc_optional_string(v.pipeline), t15);
    lemma_append_assoc(u12, enc_byte(v.version_type), t14);
    lemma_append_assoc(u11, enc_i64(v.version), t13);
    lemma_append_assoc(u10, enc_byte(v.op_type), t12);
    lemma_append_assoc(u9, enc_bool(v.extra_field_values_present), t11);
    lemma_append_assoc(u8, enc_json_bytes(v.source), t10);
    lemma_append_assoc(u7, enc_optional_string(v.routing), t9);
    lemma_append_assoc(u6, enc_optional_string(v.id), t8);
    lemma_append_assoc(u5, enc_byte(v.refresh_policy), t7);
    lemma_append_assoc(u4, enc_vlong(v.routed_based_on_cluster_version), t6);
    lemma_append_assoc(u3, enc_string(v.index), t5);
    lemma_append_assoc(u2, enc_time_value(v.timeout), t4);
    lemma_append_assoc(u1, enc_i32(v.wait_for_active_shards), t3);
    lemma_append_assoc(u0, enc_bool(v.shard_id_present), t2);
    assert(s == t0);
    lemma_skip_append(u11, t12);
    lemma_i64_roundtrip(v.version, t13);
    lemma_skip_append(u12, t13);
    lemma_byte_roundtrip(v.version_type, t14);
    lemma_skip_append(u13, t14);
    lemma_optional_string_roundtrip(v.pipeline, t15);
    lemma_skip_append(u14, t15);
    lemma_optional_string_roundtrip(v.final_pipeline, t16);
    lemma_skip_append(u15, t16);
    lemma_opensearch_index_request_from_16_roundtrip(v, rest);
}

/// Reading the fields of an index request from its 9th field on gives the
/// fields written.
#[verifier::spinoff_prover]
#[verifier::rlimit(100)]
proof fn lemma_opensearch_index_request_from_8_roundtrip(v: OpenSearchIndexRequestView, rest: Seq<u8>)
    requires
        opensearch_index_request_fits(v),
    ensures
        parse_opensearch_index_request_from_8(enc_opensearch_index_request(v) + rest, (enc_parent_task_id(v.parent_task_node, v.parent_task_id) + enc_bool(v.shard_id_present) + enc_i32(v.wait_for_active_shards) + enc_time_value(v.timeout) + enc_string(v.index) + enc_vlong(v.routed_based_on_cluster_version) + enc_byte(v.refresh_policy) + enc_optional_string(v.id)).len() as int, (v.parent_task_node, v.parent_task_id), v.shard_id_present, v.wait_for_active_shards, v.timeout, v.index, v.routed_based_on_cluster_version, v.refresh_policy, v.id) == WireRead::Decoded(v, enc_opensearch_index_request(v).len() as int),
{
    let s = enc_opensearch_index_request(v) + rest;
    let t23 = enc_bool(v.require_alias) + rest;
    let t22 = enc_vlong(v.if_primary_term) + t23;
    let t21 = enc_zlong(v.if_seq_no) + t22;
    let t20 = enc_optional_string(v.content_type) + t21;
    let t19 = enc_i64(v.auto_generated_timestamp) + t20;
    let t18 = enc_bool(v.retry) + t19;
    let t17 = enc_bool(v.pipeline_resolved) + t18;
    let t16 = enc_optional_string(v.system_ingest_pipeline) + t17;
    let t15 = enc_optional_string(v.final_pipeline) + t16;
    let t14 = enc_optional_string(v.pipeline) + t15;
    let t13 = enc_byte(v.version_type) + t14;
    let t12 = enc_i64(v.version) + t13;
    let t11 = enc_byte(v.op_type) + t12;
    let t10 = enc_bool(v.extra_field_values_present) + t11;
    let t9 = enc_json_bytes(v.source) + t10;
    let t8 = enc_optional_string(v.routing) + t9;
    let t7 = enc_optional_string(v.id) + t8;
    let t6 = enc_byte(v.refresh_policy) + t7;
    let t5 = enc_vlong(v.routed_based_on_cluster_version) + t6;
    let t4 = enc_string(v.index) + t5;
    let t3 = enc_time_value(v.timeout) + t4;
    let t2 = enc_i32(v.wait_for_active_shards) + t3;
    let t1 = enc_bool(v.shard_id_present) + t2;
    let t0 = enc_parent_task_id(v.parent_task_node, v.parent_task_id) + t1;
    let u0 = enc_parent_task_id(v.parent_task_node, v.parent_task_id);
    let u1 = u0 + enc_bool(v.shard_id_present);
    let u2 = u1 + enc_i32(v.wait_for_active_shards);
    let u3 = u2 + enc_time_value(v.timeout);
    let u4 = u3 + enc_string(v.index);
    let u5 = u4 + enc_vlong(v.routed_based_on_cluster_version);
    let u6 = u5 + enc_byte(v.refresh_policy);
    let u7 = u6 + enc_optional_string(v.id);
    let u8 = u7 + enc_optional_string(v.routing);
    let u9 = u8 + enc_json_bytes(v.source);
    let u10 = u9 + enc_bool(v.extra_field_values_present);
    let u11 = u10 + enc_byte(v.op_type);
    let u12 = u11 + enc_i64(v.version);
    let u13 = u12 + enc_byte(v.version_type);
    let u14 = u13 + enc_optional_string(v.pipeline);
    let u15 = u14 + enc_optional_string(v.final_pipeline);
    let u16 = u15 + enc_optional_string(v.system_ingest_pipeline);
    let u17 = u16 + enc_bool(v.pipeline_resolved);
    let u18 = u17 + enc_bool(v.retry);
    let u19 = u18 + enc_i64(v.auto_generated_timestamp);
    let u20 = u19 + enc_optional_string(v.content_type);
    let u21 = u20 + enc_zlong(v.if_seq_no);
    let u22 = u21 + enc_vlong(v.if_primary_term);
    let u23 = u22 + enc_bool(v.require_alias);
    assert(s == u23 + rest);
    lemma_append_assoc(u22, enc_bool(v.require_alias), rest);
    lemma_append_assoc(u21, enc_vlong(v.if_primary_term), t23);
    lemma_append_assoc(u20, enc_zlong(v.if_seq_no), t22);
    lemma_append_assoc(u19, enc_optional_string(v.content_type), t21);
    lemma_append_assoc(u18, enc_i64(v.auto_generated_timestamp), t20);
    lemma_append_assoc(u17, enc_bool(v.retry), t19);
    lemma_append_assoc(u16, enc_bool(v.pipeline_resolved), t18);
    lemma_append_assoc(u15, enc_optional_string(v.system_ingest_pipeline), t17);
    lemma_append_assoc(u14, enc_optional_string(v.final_pipeline), t16);
    lemma_append_assoc(u13, enc_optional_string(v.pipeline), t15);
    lemma_append_assoc(u12, enc_byte(v.version_type), t14);
    lemma_append_assoc(u11, enc_i64(v.version), t13);
    lemma_append_assoc(u10, enc_byte(v.op_type), t12);
    lemma_append_assoc(u9, enc_bool(v.extra_field_values_present), t11);
    lemma_append_assoc(u8, enc_json_bytes(v.source), t10);
    lemma_append_assoc(u7, enc_optional_string(v.routing), t9);
    lemma_append_assoc(u6, enc_optional_string(v.id), t8);
    lemma_append_assoc(u5, enc_byte(v.refresh_policy), t7);
    lemma_append_assoc(u4, enc_vlong(v.routed_based_on_cluster_version), t6);
    lemma_append_assoc(u3, enc_string(v.index), t5);
    lemma_append_assoc(u2, enc_time_value(v.timeout), t4);
    lemma_append_assoc(u1, enc_i32(v.wait_for_active_shards), t3);
    lemma_append_assoc(u0, enc_bool(v.shard_id_present), t2);
    assert(s == t0);
    lemma_skip_append(u7, t8);
    lemma_optional_string_roundtrip(v.routing, t9);
    lemma_skip_append(u8, t9);
    lemma_json_bytes_roundtrip(v.source, t10);
    lemma_skip_append(u9, t10);
    lemma_bool_roundtrip(v.extra_field_values_present, t11);
    lemma_skip_append(u10, t11);
    lemma_byte_roundtrip(v.op_type, t12);
    lemma_skip_append(u11, t12);
    lemma_opensearch_index_request_from_12_roundtrip(v, rest);
}

/// Reading the fields of an index request from its 5th field on gives the
/// fields written.
#[verifier::spinoff_prover]
#[verifier::rlimit(100)]
proof fn lemma_opensearch_index_request_from_4_roundtrip(v: OpenSearchIndexRequestView, rest: Seq<u8>)
    requires
        opensearch_index_request_fits(v),
    ensures
        parse_opensearch_index_request_from_4(enc_opensearch_index_request(v) + rest, (enc_parent_task_id(v.parent_task_node, v.parent_task_id) + enc_bool(v.shard_id_present) + enc_i32(v.wait_for_active_shards) + enc_time_value(v.timeout)).len() as int, (v.parent_task_node, v.parent_task_id), v.shard_id_present, v.wait_for_active_shards, v.timeout) == WireRead::Decoded(v, enc_opensearch_index_request(v).len() as int),
{
    let s = enc_opensearch_index_request(v) + rest;
    let t23 = enc_bool(v.require_alias) + rest;
    let t22 = enc_vlong(v.if_primary_term) + t23;
    let t21 = enc_zlong(v.if_seq_no) + t22;
    let t20 = enc_optional_string(v.content_type) + t21;
    let t19 = enc_i64(v.auto_generated_timestamp) + t20;
    let t18 = enc_bool(v.retry) + t19;
    let t17 = enc_bool(v.pipeline_resolved) + t18;
    let t16 = enc_optional_string(v.system_ingest_pipeline) + t17;
    let t15 = enc_optional_string(v.final_pipeline) + t16;
    let t14 = enc_optional_string(v.pipeline) + t15;
    let t13 = enc_byte(v.version_type) + t14;
    let t12 = enc_i64(v.version) + t13;
    let t11 = enc_byte(v.op_type) + t12;
    let t10 = enc_bool(v.extra_field_values_present) + t11;
    let t9 = enc_json_bytes(v.source) + t10;
    let t8 = enc_optional_string(v.routing) + t9;
    let t7 = enc_optional_string(v.id) + t8;
    let t6 = enc_byte(v.refresh_policy) + t7;
    let t5 = enc_vlong(v.routed_based_on_cluster_version) + t6;
    let t4 = enc_string(v.index) + t5;
    let t3 = enc_time_value(v.timeout) + t4;
    let t2 = enc_i32(v.wait_for_active_shards) + t3;
    let t1 = enc_bool(v.shard_id_present) + t2;
    let t0 = enc_parent_task_id(v.parent_task_node, v.parent_task_id) + t1;
    let u0 = enc_parent_task_id(v.parent_task_node, v.parent_task_id);
    let u1 = u0 + enc_bool(v.shard_id_present);
    let u2 = u1 + enc_i32(v.wait_for_active_shards);
    let u3 = u2 + enc_time_value(v.timeout);
    let u4 = u3 + enc_string(v.index);
    let u5 = u4 + enc_vlong(v.routed_based_on_cluster_version);
    let u6 = u5 + enc_byte(v.refresh_policy);
    let u7 = u6 + enc_optional_string(v.id);
    let u8 = u7 + enc_optional_string(v.routing);
    let u9 = u8 + enc_json_bytes(v.source);
    let u10 = u9 + enc_bool(v.extra_field_values_present);
    let u11 = u10 + enc_byte(v.op_type);
    let u12 = u11 + enc_i64(v.version);
    let u13 = u12 + enc_byte(v.version_type);
    let u14 = u13 + enc_optional_string(v.pipeline);
    let u15 = u14 + enc_optional_string(v.final_pipeline);
    let u16 = u15 + enc_optional_string(v.system_ingest_pipeline);
    let u17 = u16 + enc_bool(v.pipeline_resolved);
    let u18 = u17 + enc_bool(v.retry);
    let u19 = u18 + enc_i64(v.auto_generated_timestamp);
    let u20 = u19 + enc_optional_string(v.content_type);
    let u21 = u20 + enc_zlong(v.if_seq_no);
    let u22 = u21 + enc_vlong(v.if_primary_term);
    let u23 = u22 + enc_bool(v.require_alias);
    assert(s == u23 + rest);
    lemma_append_assoc(u22, enc_bool(v.require_alias), rest);
    lemma_append_assoc(u21, enc_vlong(v.if_primary_term), t23);
    lemma_append_assoc(u20, enc_zlong(v.if_seq_no), t22);
    lemma_append_assoc(u19, enc_optional_string(v.content_type), t21);
    lemma_append_assoc(u18, enc_i64(v.auto_generated_timestamp), t20);
    lemma_append_assoc(u17, enc_bool(v.retry), t19);
    lemma_append_assoc(u16, enc_bool(v.pipeline_resolved), t18);
    lemma_append_assoc(u15, enc_optional_string(v.system_ingest_pipeline), t17);
    lemma_append_assoc(u14, enc_optional_string(v.final_pipeline), t16);
    lemma_append_assoc(u13, enc_optional_string(v.pipeline), t15);
    lemma_append_assoc(u12, enc_byte(v.version_type), t14);
    lemma_append_assoc(u11, enc_i64(v.version), t13);
    lemma_append_assoc(u10, enc_byte(v.op_type), t12);
    lemma_append_assoc(u9, enc_bool(v.extra_field_values_present), t11);
    lemma_append_assoc(u8, enc_json_bytes(v.source), t10);
    lemma_append_assoc(u7, enc_optional_string(v.routing), t9);
    lemma_append_assoc(u6, enc_optional_string(v.id), t8);
    lemma_append_assoc(u5, enc_byte(v.refresh_policy), t7);
    lemma_append_assoc(u4, enc_vlong(v.routed_based_on_cluster_version), t6);
    lemma_append_assoc(u3, enc_string(v.index), t5);
    lemma_append_assoc(u2, enc_time_value(v.timeout), t4);
    lemma_append_assoc(u1, enc_i32(v.wait_for_active_shards), t3);
    lemma_append_assoc(u0, enc_bool(v.shard_id_present), t2);
    assert(s == t0);
    lemma_skip_append(u3, t4);
    lemma_string_roundtrip(v.index, t5);
    lemma_skip_append(u4, t5);
    lemma_vlong_roundtrip(v.routed_based_on_cluster_version, t6);
    lemma_skip_append(u5, t6);
    lemma_byte_roundtrip(v.refresh_policy, t7);
    lemma_skip_append(u6, t7);
    lemma_optional_string_roundtrip(v.id, t8);
    lemma_skip_append(u7, t8);
    lemma_opensearch_index_request_from_8_roundtrip(v, rest);
}

/// Reading an index request back gives the fields written.
#[verifier::spinoff_prover]
#[verifier::rlimit(100)]
pub proof fn lemma_opensearch_index_request_roundtrip(v: OpenSearchIndexRequestView, rest: Seq<u8>)
    requires
        opensearch_index_request_fits(v),
    ensures
        parse_opensearch_index_request(enc_opensearch_index_request(v) + rest) == WireRead::Decoded(v, enc_opensearch_index_request(v).len() as int),
{
    let s = enc_opensearch_index_request(v) + rest;
    let t23 = enc_bool(v.require_alias) + rest;
    let t22 = enc_vlong(v.if_primary_term) + t23;
    let t21 = enc_zlong(v.if_seq_no) + t22;
    let t20 = enc_optional_string(v.content_type) + t21;
    let t19 = enc_i64(v.auto_generated_timestamp) + t20;
    let t18 = enc_bool(v.retry) + t19;
    let t17 = enc_bool(v.pipeline_resolved) + t18;
    let t16 = enc_optional_string(v.system_ingest_pipeline) + t17;
    let t15 = enc_optional_string(v.final_pipeline) + t16;
    let t14 = enc_optional_string(v.pipeline) + t15;
    let t13 = enc_byte(v.version_type) + t14;
    let t12 = enc_i64(v.version) + t13;
    let t11 = enc_byte(v.op_type) + t12;
    let t10 = enc_bool(v.extra_field_values_present) + t11;
    let t9 = enc_json_bytes(v.source) + t10;
    let t8 = enc_optional_string(v.routing) + t9;
    let t7 = enc_optional_string(v.id) + t8;
    let t6 = enc_byte(v.refresh_policy) + t7;
    let t5 = enc_vlong(v.routed_based_on_cluster_version) + t6;
    let t4 = enc_string(v.index) + t5;
    let t3 = enc_time_value(v.timeout) + t4;
    let t2 = enc_i32(v.wait_for_active_shards) + t3;
    let t1 = enc_bool(v.shard_id_present) + t2;
    let t0 = enc_parent_task_id(v.parent_task_node, v.parent_task_id) + t1;
    let u0 = enc_parent_task_id(v.parent_task_node, v.parent_task_id);
    let u1 = u0 + enc_bool(v.shard_id_present);
    let u2 = u1 + enc_i32(v.wait_for_active_shards);
    let u3 = u2 + enc_time_value(v.timeout);
    let u4 = u3 + enc_string(v.index);
    let u5 = u4 + enc_vlong(v.routed_based_on_cluster_version);
    let u6 = u5 + enc_byte(v.refresh_policy);
    let u7 = u6 + enc_optional_string(v.id);
    let u8 = u7 + enc_optional_string(v.routing);
    let u9 = u8 + enc_json_bytes(v.source);
    let u10 = u9 + enc_bool(v.extra_field_values_present);
    let u11 = u10 + enc_byte(v.op_type);
    let u12 = u11 + enc_i64(v.version);
    let u13 = u12 + enc_byte(v.version_type);
    let u14 = u13 + enc_optional_string(v.pipeline);
    let u15 = u14 + enc_optional_string(v.final_pipeline);
    let u16 = u15 + enc_optional_string(v.system_ingest_pipeline);
    let u17 = u16 + enc_bool(v.pipeline_resolved);
    let u18 = u17 + enc_bool(v.retry);
    let u19 = u18 + enc_i64(v.auto_generated_timestamp);
    let u20 = u19 + enc_optional_string(v.content_type);
    let u21 = u20 + enc_zlong(v.if_seq_no);
    let u22 = u21 + enc_vlong(v.if_primary_term);
    let u23 = u22 + enc_bool(v.require_alias);
    assert(s == u23 + rest);
    lemma_append_assoc(u22, enc_bool(v.require_alias), rest);
    lemma_append_assoc(u21, enc_vlong(v.if_primary_term), t23);
    lemma_append_assoc(u20, enc_zlong(v.if_seq_no), t22);
    lemma_append_assoc(u19, enc_optional_string(v.content_type), t21);
    lemma_append_assoc(u18, enc_i64(v.auto_generated_timestamp), t20);
    lemma_append_assoc(u17, enc_bool(v.retry), t19);
    lemma_append_assoc(u16, enc_bool(v.pipeline_resolved), t18);
    lemma_append_assoc(u15, enc_optional_string(v.system_ingest_pipeline), t17);
    lemma_append_assoc(u14, enc_optional_string(v.final_pipeline), t16);
    lemma_append_assoc(u13, enc_optional_string(v.pipeline), t15);
    lemma_append_assoc(u12, enc_byte(v.version_type), t14);
    lemma_append_assoc(u11, enc_i64(v.version), t13);
    lemma_append_assoc(u10, enc_byte(v.op_type), t12);
    lemma_append_assoc(u9, enc_bool(v.extra_field_values_present), t11);
    lemma_append_assoc(u8, enc_json_bytes(v.source), t10);
    lemma_append_assoc(u7, enc_optional_string(v.routing), t9);
    lemma_append_assoc(u6, enc_optional_string(v.id), t8);
    lemma_append_assoc(u5, enc_byte(v.refresh_policy), t7);
    lemma_append_assoc(u4, enc_vlong(v.routed_based_on_cluster_version), t6);
    lemma_append_assoc(u3, enc_string(v.index), t5);
    lemma_append_assoc(u2, enc_time_value(v.timeout), t4);
    lemma_append_assoc(u1, enc_i32(v.wait_for_active_shards), t3);
    lemma_append_assoc(u0, enc_bool(v.shard_id_present), t2);
    assert(s == t0);
    lemma_parent_task_id_roundtrip(v.parent_task_node, v.parent_task_id, t1);
    lemma_skip_append(u0, t1);
    lemma_bool_roundtrip(v.shard_id_present, t2);
    lemma_skip_append(u1, t2);
    lemma_i32_roundtrip(v.wait_for_active_shards, t3);
    lemma_skip_append(u2, t3);
    lemma_time_value_roundtrip(v.timeout, t4);
    lemma_skip_append(u3, t4);
    lemma_opensearch_index_request_from_4_roundtrip(v, rest);
}

/// What reading an index request from the whole of `bytes` gives: the fields read, a
/// refused shape, or an error.
pub open spec fn opensearch_index_request_read_result(bytes: Seq<u8>, r: Result<OpenSearchIndexRequestWire, TransportActionWireError>) -> bool {
    match parse_opensearch_index_request(bytes) {
        WireRead::Decoded(v, n) => if n < bytes.len() {
            r == Err::<OpenSearchIndexRequestWire, TransportActionWireError>(TransportActionWireError::TrailingBytes((bytes.len() - n) as usize))
        } else {
            r matches Ok(x) && x@ == v
        },
        WireRead::Unsupported(shape, reason) => is_unsupported(r, shape, reason),
        WireRead::Malformed => r is Err,
    }
}

/// Reading the whole of a written an index request gives back the fields written.
pub proof fn lemma_opensearch_index_request_read_back(v: OpenSearchIndexRequestView, r: Result<OpenSearchIndexRequestWire, TransportActionWireError>)
    requires
        opensearch_index_request_fits(v),
        opensearch_index_request_read_result(enc_opensearch_index_request(v), r),
    ensures
        r matches Ok(x) && x@ == v,
{
    lemma_opensearch_index_request_roundtrip(v, Seq::empty());
    assert(enc_opensearch_index_request(v) + Seq::<u8>::empty() =~= enc_opensearch_index_request(v));
}

/// The first shape of an index request that a writer refuses, with the reason.
pub open spec fn opensearch_index_request_write_refusal(v: OpenSearchIndexRequestView) -> Option<(Seq<char>, Seq<char>)> {
    if v.shard_id_present {
        Some(("index request shard id"@, "explicit shard ids are not encoded by the index adapter yet"@))
    } else if v.extra_field_values_present {
        Some(("index request extra field values"@, "extra field values are not encoded by the index adapter yet"@))
    } else {
        None
    }
}

impl OpenSearchIndexRequestWire {
    /// Writes an index request; refuses the shapes a writer does not encode.
    #[verifier::spinoff_prover]
    #[verifier::rlimit(100)]
    pub fn write(&self, output: &mut StreamOutput) -> (r: Result<(), TransportActionWireError>)
        ensures
            match opensearch_index_request_write_refusal(self@) {
                Some((shape, reason)) => is_unsupported(r, shape, reason),
                None => r is Ok && final(output)@ == old(output)@ + enc_opensearch_index_request(self@),
            },
    {
        write_parent_task_id(output, self.parent_task_node.as_str(), self.parent_task_id);
        assert(output@ == old(output)@ + enc_parent_task_id(self@.parent_task_node, self@.parent_task_id));
        let ghost mut written = enc_parent_task_id(self@.parent_task_node, self@.parent_task_id);
        if self.shard_id_present {
            return Err(TransportActionWireError::UnsupportedWireShape { shape: "index request shard id", reason: "explicit shard ids are not encoded by the index adapter yet" });
        }
        output.write_bool(false);
        proof {
            lemma_append_assoc(old(output)@, written, enc_bool(self@.shard_id_present));
            written = written + enc_bool(self@.shard_id_present);
        }
        output.write_i32(self.wait_for_active_shards);
        proof {
            lemma_append_assoc(old(output)@, written, enc_i32(self@.wait_for_active_shards));
            written = written + enc_i32(self@.wait_for_active_shards);
        }
        self.timeout.write(output);
        proof {
            lemma_append_assoc(old(output)@, written, enc_time_value(self@.timeout));
            written = written + enc_time_value(self@.timeout);
        }
        output.write_string(self.index.as_str());
        proof {
            lemma_append_assoc(old(output)@, written, enc_string(self@.index));
            written = written + enc_string(self@.index);
        }
        output.write_vlong(self.routed_based_on_cluster_version);
        proof {
            lemma_append_assoc(old(output)@, written, enc_vlong(self@.routed_based_on_cluster_version));
            written = written + enc_vlong(self@.routed_based_on_cluster_version);
        }
        write_byte_field(output, self.refresh_policy);
        proof {
            lemma_append_assoc(old(output)@, written, enc_byte(self@.refresh_policy));
            written = written + enc_byte(self@.refresh_policy);
        }
        match &self.id {
            Some(x) => output.write_optional_string(Some(x.as_str())),
            None => output.write_optional_string(None),
        }
        proof {
            lemma_append_assoc(old(output)@, written, enc_optional_string(self@.id));
            written = written + enc_optional_string(self@.id);
        }
        match &self.routing {
            Some(x) => output.write_optional_string(Some(x.as_str())),
            None => output.write_optional_string(None),
        }
        proof {
            lemma_append_assoc(old(output)@, written, enc_optional_string(self@.routing));
            written = written + enc_optional_string(self@.routing);
        }
        write_json_bytes(output, self.source.as_slice());
        proof {
            lemma_append_assoc(old(output)@, written, enc_json_bytes(self@.source));
            written = written + enc_json_bytes(self@.source);
        }
        if self.extra_field_values_present {
            return Err(TransportActionWireError::UnsupportedWireShape { shape: "index request extra field values", reason: "extra field values are not encoded by the index adapter yet" });
        }
        output.write_bool(false);
        proof {
            lemma_append_assoc(old(output)@, written, enc_bool(self@.extra_field_values_present));
            written = written + enc_bool(self@.extra_field_values_present);
        }
        write_byte_field(output, self.op_type);
        proof {
            lemma_append_assoc(old(output)@, written, enc_byte(self@.op_type));
            written = written + enc_byte(self@.op_type);
        }
        output.write_i64(self.version);
        proof {
            lemma_append_assoc(old(output)@, written, enc_i64(self@.version));
            written = written + enc_i64(self@.version);
        }
        write_byte_field(output, self.version_type);
        proof {
            lemma_append_assoc(old(output)@, written, enc_byte(self@.version_type));
            written = written + enc_byte(self@.version_type);
        }
        match &self.pipeline {
            Some(x) => output.write_optional_string(Some(x.as_str())),
            None => output.write_optional_string(None),
        }
        proof {
            lemma_append_assoc(old(output)@, written, enc_optional_string(self@.pipeline));
            written = written + enc_optional_string(self@.pipeline);
        }
        match &self.final_pipeline {
            Some(x) => output.write_optional_string(Some(x.as_str())),
            None => output.write_optional_string(None),
        }
        proof {
            lemma_append_assoc(old(output)@, written, enc_optional_string(self@.final_pipeline));
            written = written + enc_optional_string(self@.final_pipeline);
        }
        match &self.system_ingest_pipeline {
            Some(x) => output.write_optional_string(Some(x.as_str())),
            None => output.write_optional_string(None),
        }
        proof {
            lemma_append_assoc(old(output)@, written, enc_optional_string(self@.system_ingest_pipeline));
            written = written + enc_optional_string(self@.system_ingest_pipeline);
        }
        output.write_bool(self.pipeline_resolved);
        proof {
            lemma_append_assoc(old(output)@, written, enc_bool(self@.pipeline_resolved));
            written = written + enc_bool(self@.pipeline_resolved);
        }
        output.write_bool(self.retry);
        proof {
            lemma_append_assoc(old(output)@, written, enc_bool(self@.retry));
            written = written + enc_bool(self@.retry);
        }
        output.write_i64(self.auto_generated_timestamp);
        proof {
            lemma_append_assoc(old(output)@, written, enc_i64(self@.auto_generated_timestamp));
            written = written + enc_i64(self@.auto_generated_timestamp);
        }
        match &self.content_type {
            Some(x) => output.write_optional_string(Some(x.as_str())),
            None => output.write_optional_string(None),
        }
        proof {
            lemma_append_assoc(old(output)@, written, enc_optional_string(self@.content_type));
            written = written + enc_optional_string(self@.content_type);
        }
        output.write_zlong(self.if_seq_no);
        proof {
            lemma_append_assoc(old(output)@, written, enc_zlong(self@.if_seq_no));
            written = written + enc_zlong(self@.if_seq_no);
        }
        output.write_vlong(self.if_primary_term);
        proof {
            lemma_append_assoc(old(output)@, written, enc_vlong(self@.if_primary_term));
            written = written + enc_vlong(self@.if_primary_term);
        }
        output.write_bool(self.require_alias);
        proof {
            lemma_append_assoc(old(output)@, written, enc_bool(self@.require_alias));
            written = written + enc_bool(self@.require_alias);
        }
        assert(output@ == old(output)@ + enc_opensearch_index_request(self@));
        Ok(())
    }

    /// Reads an index request.
    #[verifier::spinoff_prover]
    #[verifier::rlimit(100)]
    pub fn read_from_input(input: &mut StreamInput) -> (r: Result<Self, TransportActionWireError>)
        ensures
            final(input).data() == old(input).data(),
            old(input).pos() <= final(input).pos() <= final(input).data().len(),
            match parse_opensearch_index_request(old(input).rest()) {
                WireRead::Decoded(v, n) => r matches Ok(x) && x@ == v && final(input).pos() == old(input).pos() + n,
                WireRead::Unsupported(shape, reason) => is_unsupported(r, shape, reason),
                WireRead::Malformed => r is Err,
            },
    {
        let ghost s = old(input).rest();
        let ghost p0 = old(input).pos();
        let pt = read_parent_task_id(input)?;
        proof {
            assert(input.rest() =~= s.skip(input.pos() - p0));
        }
        let shard_id_present = lift(input.read_bool())?;
        if shard_id_present {
            return Err(TransportActionWireError::UnsupportedWireShape { shape: "index request shard id", reason: "explicit shard ids are not decoded by the index adapter yet" });
        }
        proof {
            assert(input.rest() =~= s.skip(input.pos() - p0));
        }
        let wait_for_active_shards = lift(input.read_i32())?;
        proof {
            assert(input.rest() =~= s.skip(input.pos() - p0));
        }
        let timeout = TimeValueWire::read(input)?;
        proof {
            assert(input.rest() =~= s.skip(input.pos() - p0));
        }
        let index = lift(input.read_string())?;
        proof {
            assert(input.rest() =~= s.skip(input.pos() - p0));
        }
        let routed_based_on_cluster_version = lift(input.read_vlong())?;
        proof {
            assert(input.rest() =~= s.skip(input.pos() - p0));
        }
        let refresh_policy = lift(input.read_byte())?;
        proof {
            assert(input.rest() =~= s.skip(input.pos() - p0));
        }
        let id = lift(input.read_optional_string())?;
        proof {
            assert(input.rest() =~= s.skip(input.pos() - p0));
        }
        let routing = lift(input.read_optional_string())?;
        proof {
            assert(input.rest() =~= s.skip(input.pos() - p0));
        }
        let source = read_json_bytes(input)?;
        proof {
            assert(input.rest() =~= s.skip(input.pos() - p0));
        }
        let extra_field_values_present = lift(input.read_bool())?;
        if extra_field_values_present {
            return Err(TransportActionWireError::UnsupportedWireShape { shape: "index request extra field values", reason: "extra field values are not decoded by the index adapter yet" });
        }
        proof {
            assert(input.rest() =~= s.skip(input.pos() - p0));
        }
        let op_type = lift(input.read_byte())?;
        proof {
            assert(input.rest() =~= s.skip(input.pos() - p0));
        }
        let version = lift(input.read_i64())?;
        proof {
            assert(input.rest() =~= s.skip(input.pos() - p0));
        }
        let version_type = lift(input.read_byte())?;
        proof {
            assert(input.rest() =~= s.skip(input.pos() - p0));
        }
        let pipeline = lift(input.read_optional_string())?;
        proof {
            assert(input.rest() =~= s.skip(input.pos() - p0));
        }
        let final_pipeline = lift(input.read_optional_string())?;
        proof {
            assert(input.rest() =~= s.skip(input.pos() - p0));
        }
        let system_ingest_pipeline = lift(input.read_optional_string())?;
        proof {
            assert(input.rest() =~= s.skip(input.pos() - p0));
        }
        let pipeline_resolved = lift(input.read_bool())?;
        proof {
            assert(input.rest() =~= s.skip(input.pos() - p0));
        }
        let retry = lift(input.read_bool())?;
        proof {
            assert(input.rest() =~= s.skip(input.pos() - p0));
        }
        let auto_generated_timestamp = lift(input.read_i64())?;
        proof {
            assert(input.rest() =~= s.skip(input.pos() - p0));
        }
        let content_type = lift(input.read_optional_string())?;
        proof {
            assert(input.rest() =~= s.skip(input.pos() - p0));
        }
        let if_seq_no = lift(input.read_zlong())?;
        proof {
            assert(input.rest() =~= s.skip(input.pos() - p0));
        }
        let if_primary_term = lift(input.read_vlong())?;
        proof {
            assert(input.rest() =~= s.skip(input.pos() - p0));
        }
        let require_alias = lift(input.read_bool())?;
        proof {
            assert(input.rest() =~= s.skip(input.pos() - p0));
        }
        Ok(OpenSearchIndexRequestWire { parent_task_node: pt.0, parent_task_id: pt.1, shard_id_present, wait_for_active_shards, timeout, index, routed_based_on_cluster_version, refresh_policy, id, routing, source, extra_field_values_present, op_type, version, version_type, pipeline, final_pipeline, system_ingest_pipeline, pipeline_resolved, retry, auto_generated_timestamp, content_type, if_seq_no, if_primary_term, require_alias })
    }

    /// Reads an index request from the whole of `bytes`.
    pub fn read(bytes: Vec<u8>) -> (r: Result<Self, TransportActionWireError>)
        ensures
            opensearch_index_request_read_result(bytes@, r),
    {
        let mut input = StreamInput::new(bytes);
        let value = Self::read_from_input(&mut input)?;
        require_no_trailing_bytes(&input)?;
        Ok(value)
    }
}

/// The fields of an update request, as its bytes carry them.
pub struct OpenSearchUpdateRequestView {
    pub parent_task_node: Seq<char>,
    pub parent_task_id: Option<i64>,
    pub index: Seq<char>,
    pub shard_id_present: bool,
    pub timeout: TimeValueWire,
    pub concrete_index: Option<Seq<char>>,
    pub wait_for_active_shards: i32,
    pub id: Seq<char>,
    pub routing: Option<Seq<char>>,
    pub script_present: bool,
    pub retry_on_conflict: i32,
    pub refresh_policy: u8,
    pub doc: Option<OpenSearchIndexRequestView>,
    pub fetch_source_context_present: bool,
    pub upsert: Option<OpenSearchIndexRequestView>,
    pub doc_as_upsert: bool,
    pub if_seq_no: i64,
    pub if_primary_term: i64,
    pub detect_noop: bool,
    pub scripted_upsert: bool,
    pub require_alias: bool,
}

impl View for OpenSearchUpdateRequestWire {
    type V = OpenSearchUpdateRequestView;

    open spec fn view(&self) -> OpenSearchUpdateRequestView {
        OpenSearchUpdateRequestView {
            parent_task_node: self.parent_task_node@,
            parent_task_id: self.parent_task_id,
            index: self.index@,
            shard_id_present: self.shard_id_present,
            timeout: self.timeout,
            concrete_index: opt_string_view(self.concrete_index),
            wait_for_active_shards: self.wait_for_active_shards,
            id: self.id@,
            routing: opt_string_view(self.routing),
            script_present: self.script_present,
            retry_on_conflict: self.retry_on_conflict,
            refresh_policy: self.refresh_policy,
            doc: opt_index_request_view(self.doc),
            fetch_source_context_present: self.fetch_source_context_present,
            upsert: opt_index_request_view(self.upsert),
            doc_as_upsert: self.doc_as_upsert,
            if_seq_no: self.if_seq_no,
            if_primary_term: self.if_primary_term,
            detect_noop: self.detect_noop,
            scripted_upsert: self.scripted_upsert,
            require_alias: self.require_alias,
        }
    }
}

/// The bytes of an update request.
pub open spec fn enc_opensearch_update_request(v: OpenSearchUpdateRequestView) -> Seq<u8> {
    enc_parent_task_id(v.parent_task_node, v.parent_task_id)
        + enc_string(v.index)
        + enc_bool(v.shard_id_present)
        + enc_time_value(v.timeout)
        + enc_optional_string(v.concrete_index)
        + enc_i32(v.wait_for_active_shards)
        + enc_string(v.id)
        + enc_optional_string(v.routing)
        + enc_bool(v.script_present)
        + enc_vint(v.retry_on_conflict)
        + enc_byte(v.refresh_policy)
        + enc_optional_index_request(v.doc)
        + enc_bool(v.fetch_source_context_present)
        + enc_optional_index_request(v.upsert)
        + enc_bool(v.doc_as_upsert)
        + enc_zlong(v.if_seq_no)
        + enc_vlong(v.if_primary_term)
        + enc_bool(v.detect_noop)
        + enc_bool(v.scripted_upsert)
        + enc_bool(v.require_alias)
}

/// What a reader makes of the bytes of an update request.
pub open spec fn parse_opensearch_update_request(s: Seq<u8>) -> WireRead<OpenSearchUpdateRequestView> {
    match parse_parent_task_id(s) {
        Some((pt, k0)) => {
            match parse_string(s.skip(k0)) {
                Some((index, k1)) => {
                    match parse_bool(s.skip(k0 + k1)) {
                        Some((shard_id_present, k2)) => {
                            if shard_id_present {
                                WireRead::Unsupported("update request shard id"@, "explicit shard ids are not decoded by the update adapter yet"@)
                            } else {
                                match parse_time_value(s.skip(k0 + k1 + k2)) {
                                    Some((timeout, k3)) => {
                                        parse_opensearch_update_request_from_4(s, k0 + k1 + k2 + k3, pt, index, shard_id_present, timeout)
                                    },
                                    None => WireRead::Malformed,
                                }
                            }
                        },
                        None => WireRead::Malformed,
                    }
                },
                None => WireRead::Malformed,
            }
        },
        None => WireRead::Malformed,
    }
}

/// What a reader makes of the fields of an update request from its
/// 5th field on, at offset `o`, given the fields before them.
pub open spec fn parse_opensearch_update_request_from_4(s: Seq<u8>, o: int, pt: (Seq<char>, Option<i64>), index: Seq<char>, shard_id_present: bool, timeout: TimeValueWire) -> WireRead<OpenSearchUpdateRequestView> {
    match parse_optional_string(s.skip(o)) {
        Some((concrete_index, k4)) => {
            match parse_i32(s.skip(o + k4)) {
                Some((wait_for_active_shards, k5)) => {
                    match parse_string(s.skip(o + k4 + k5)) {
                        Some((id, k6)) => {
                            match parse_optional_string(s.skip(o + k4 + k5 + k6)) {
                                Some((routing, k7)) => {
                                    parse_opensearch_update_request_from_8(s, o + k4 + k5 + k6 + k7, pt, index, shard_id_present, timeout, concrete_index, wait_for_active_shards, id, routing)
                                },
                                None => WireRead::Malformed,
                            }
                        },
                        None => WireRead::Malformed,
                    }
                },
                None => WireRead::Malformed,
            }
        },
        None => WireRead::Malformed,
    }
}

/// What a reader makes of the fields of an update request from its
/// 9th field on, at offset `o`, given the fields before them.
pub open spec fn parse_opensearch_update_request_from_8(s: Seq<u8>, o: int, pt: (Seq<char>, Option<i64>), index: Seq<char>, shard_id_present: bool, timeout: TimeValueWire, concrete_index: Option<Seq<char>>, wait_for_active_shards: i32, id: Seq<char>, routing: Option<Seq<char>>) -> WireRead<OpenSearchUpdateRequestView> {
    match parse_bool(s.skip(o)) {
        Some((script_present, k8)) => {
            if script_present {
                WireRead::Unsupported("update request script"@, "scripted updates are not decoded by the update adapter yet"@)
            } else {
                match parse_vint(s.skip(o + k8)) {
                    Some((retry_on_conflict, k9)) => {
                        match parse_byte(s.skip(o + k8 + k9)) {
                            Some((refresh_policy, k10)) => {
                                match parse_optional_index_request(s.skip(o + k8 + k9 + k10)) {
                                    WireRead::Decoded(doc, k11) => {
                                        parse_opensearch_update_request_from_12(s, o + k8 + k9 + k10 + k11, pt, index, shard_id_present, timeout, concrete_index, wait_for_active_shards, id, routing, script_present, retry_on_conflict, refresh_policy, doc)
                                    },
                                    WireRead::Unsupported(shape, reason) => WireRead::Unsupported(shape, reason),
                                    WireRead::Malformed => WireRead::Malformed,
                                }
                            },
                            None => WireRead::Malformed,
                        }
                    },
                    None => WireRead::Malformed,
                }
            }
        },
        None => WireRead::Malformed,
    }
}

/// What a reader makes of the fields of an update request from its
/// 13th field on, at offset `o`, given the fields before them.
pub open spec fn parse_opensearch_update_request_from_12(s: Seq<u8>, o: int, pt: (Seq<char>, Option<i64>), index: Seq<char>, shard_id_present: bool, timeout: TimeValueWire, concrete_index: Option<Seq<char>>, wait_for_active_shards: i32, id: Seq<char>, routing: Option<Seq<char>>, script_present: bool, retry_on_conflict: i32, refresh_policy: u8, doc: Option<OpenSearchIndexRequestView>) -> WireRead<OpenSearchUpdateRequestView> {
    match parse_bool(s.skip(o)) {
        Some((fetch_source_context_present, k12)) => {
            if fetch_source_context_present {
                WireRead::Unsupported("update request fetch source context"@, "fetch source context is not decoded by the update adapter yet"@)
            } else {
                match parse_optional_index_request(s.skip(o + k12)) {
                    WireRead::Decoded(upsert, k13) => {
                        match parse_bool(s.skip(o + k12 + k13)) {
                            Some((doc_as_upsert, k14)) => {
                                match parse_zlong(s.skip(o + k12 + k13 + k14)) {
                                    Some((if_seq_no, k15)) => {
                                        parse_opensearch_update_request_from_16(s, o + k12 + k13 + k14 + k15, pt, index, shard_id_present, timeout, concrete_index, wait_for_active_shards, id, routing, script_present, retry_on_conflict, refresh_policy, doc, fetch_source_context_present, upsert, doc_as_upsert, if_seq_no)
                                    },
                                    None => WireRead::Malformed,
                                }
                            },
                            None => WireRead::Malformed,
                        }
                    },
                    WireRead::Unsupported(shape, reason) => WireRead::Unsupported(shape, reason),
                    WireRead::Malformed => WireRead::Malformed,
                }
            }
        },
        None => WireRead::Malformed,
    }
}

/// What a reader makes of the fields of an update request from its
/// 17th field on, at offset `o`, given the fields before them.
pub open spec fn parse_opensearch_update_request_from_16(s: Seq<u8>, o: int, pt: (Seq<char>, Option<i64>), index: Seq<char>, shard_id_present: bool, timeout: TimeValueWire, concrete_index: Option<Seq<char>>, wait_for_active_shards: i32, id: Seq<char>, routing: Option<Seq<char>>, script_present: bool, retry_on_conflict: i32, refresh_policy: u8, doc: Option<OpenSearchIndexRequestView>, fetch_source_context_present: bool, upsert: Option<OpenSearchIndexRequestView>, doc_as_upsert: bool, if_seq_no: i64) -> WireRead<OpenSearchUpdateRequestView> {
    match parse_vlong(s.skip(o)) {
        Some((if_primary_term, k16)) => {
            match parse_bool(s.skip(o + k16)) {
                Some((detect_noop, k17)) => {
                    match parse_bool(s.skip(o + k16 + k17)) {
                        Some((scripted_upsert, k18)) => {
                            match parse_bool(s.skip(o + k16 + k17 + k18)) {
                                Some((require_alias, k19)) => {
                                    WireRead::Decoded(OpenSearchUpdateRequestView { parent_task_node: pt.0, parent_task_id: pt.1, index: index, shard_id_present: shard_id_present, timeout: timeout, concrete_index: concrete_index, wait_for_active_shards: wait_for_active_shards, id: id, routing: routing, script_present: script_present, retry_on_conflict: retry_on_conflict, refresh_policy: refresh_policy, doc: doc, fetch_source_context_present: fetch_source_context_present, upsert: upsert, doc_as_upsert: doc_as_upsert, if_seq_no: if_seq_no, if_primary_term: if_primary_term, detect_noop: detect_noop, scripted_upsert: scripted_upsert, require_alias: require_alias }, o + k16 + k17 + k18 + k19)
                                },
                                None => WireRead::Malformed,
                            }
                        },
                        None => WireRead::Malformed,
                    }
                },
                None => WireRead::Malformed,
            }
        },
        None => WireRead::Malformed,
    }
}

/// True when an update request reads back as written.
pub open spec fn opensearch_update_request_fits(v: OpenSearchUpdateRequestView) -> bool {
    &&& parent_task_id_canonical(v.parent_task_node, v.parent_task_id)
    &&& string_fits(v.index)
    &&& !v.shard_id_present
    &&& v.concrete_index matches Some(c) ==> string_fits(c)
    &&& string_fits(v.id)
    &&& v.routing matches Some(c) ==> string_fits(c)
    &&& !v.script_present
    &&& optional_index_request_fits(v.doc)
    &&& !v.fetch_source_context_present
    &&& optional_index_request_fits(v.upsert)
}

/// Reading the fields of an update request from its 17th field on gives the
/// fields written.
#[verifier::spinoff_prover]
#[verifier::rlimit(100)]
proof fn lemma_opensearch_update_request_from_16_roundtrip(v: OpenSearchUpdateRequestView, rest: Seq<u8>)
    requires
        opensearch_update_request_fits(v),
    ensures
        parse_opensearch_update_request_from_16(enc_opensearch_update_request(v) + rest, (enc_parent_task_id(v.parent_task_node, v.parent_task_id) + enc_string(v.index) + enc_bool(v.shard_id_present) + enc_time_value(v.timeout) + enc_optional_string(v.concrete_index) + enc_i32(v.wait_for_active_shards) + enc_string(v.id) + enc_optional_string(v.routing) + enc_bool(v.script_present) + enc_vint(v.retry_on_conflict) + enc_byte(v.refresh_policy) + enc_optional_index_request(v.doc) + enc_bool(v.fetch_source_context_present) + enc_optional_index_request(v.upsert) + enc_bool(v.doc_as_upsert) + enc_zlong(v.if_seq_no)).len() as int, (v.parent_task_node, v.parent_task_id), v.index, v.shard_id_present, v.timeout, v.concrete_index, v.wait_for_active_shards, v.id, v.routing, v.script_present, v.retry_on_conflict, v.refresh_policy, v.doc, v.fetch_source_context_present, v.upsert, v.doc_as_upsert, v.if_seq_no) == WireRead::Decoded(v, enc_opensearch_update_request(v).len() as int),
{
    let s = enc_opensearch_update_request(v) + rest;
    let t19 = enc_bool(v.require_alias) + rest;
    let t18 = enc_bool(v.scripted_upsert) + t19;
    let t17 = enc_bool(v.detect_noop) + t18;
    let t16 = enc_vlong(v.if_primary_term) + t17;
    let t15 = enc_zlong(v.if_seq_no) + t16;
    let t14 = enc_bool(v.doc_as_upsert) + t15;
    let t13 = enc_optional_index_request(v.upsert) + t14;
    let t12 = enc_bool(v.fetch_source_context_present) + t13;
    let t11 = enc_optional_index_request(v.doc) + t12;
    let t10 = enc_byte(v.refresh_policy) + t11;
    let t9 = enc_vint(v.retry_on_conflict) + t10;
    let t8 = enc_bool(v.script_present) + t9;
    let t7 = enc_optional_string(v.routing) + t8;
    let t6 = enc_string(v.id) + t7;
    let t5 = enc_i32(v.wait_for_active_shards) + t6;
    let t4 = enc_optional_string(v.concrete_index) + t5;
    let t3 = enc_time_value(v.timeout) + t4;
    let t2 = enc_bool(v.shard_id_present) + t3;
    let t1 = enc_string(v.index) + t2;
    let t0 = enc_parent_task_id(v.parent_task_node, v.parent_task_id) + t1;
    let u0 = enc_parent_task_id(v.parent_task_node, v.parent_task_id);
    let u1 = u0 + enc_string(v.index);
    let u2 = u1 + enc_bool(v.shard_id_present);
    let u3 = u2 + enc_time_value(v.timeout);
    let u4 = u3 + enc_optional_string(v.concrete_index);
    let u5 = u4 + enc_i32(v.wait_for_active_shards);
    let u6 = u5 + enc_string(v.id);
    let u7 = u6 + enc_optional_string(v.routing);
    let u8 = u7 + enc_bool(v.script_present);
    let u9 = u8 + enc_vint(v.retry_on_conflict);
    let u10 = u9 + enc_byte(v.refresh_policy);
    let u11 = u10 + enc_optional_index_request(v.doc);
    let u12 = u11 + enc_bool(v.fetch_source_context_present);
    let u13 = u12 + enc_optional_index_request(v.upsert);
    let u14 = u13 + enc_bool(v.doc_as_upsert);
    let u15 = u14 + enc_zlong(v.if_seq_no);
    let u16 = u15 + enc_vlong(v.if_primary_term);
    let u17 = u16 + enc_bool(v.detect_noop);
    let u18 = u17 + enc_bool(v.scripted_upsert);
    let u19 = u18 + enc_bool(v.require_alias);
    assert(s == u19 + rest);
    lemma_append_assoc(u18, enc_bool(v.require_alias), rest);
    lemma_append_assoc(u17, enc_bool(v.scripted_upsert), t19);
    lemma_append_assoc(u16, enc_bool(v.detect_noop), t18);
    lemma_append_assoc(u15, enc_vlong(v.if_primary_term), t17);
    lemma_append_assoc(u14, enc_zlong(v.if_seq_no), t16);
    lemma_append_assoc(u13, enc_bool(v.doc_as_upsert), t15);
    lemma_append_assoc(u12, enc_optional_index_request(v.upsert), t14);
    lemma_append_assoc(u11, enc_bool(v.fetch_source_context_present), t13);
    lemma_append_assoc(u10, enc_optional_index_request(v.doc), t12);
    lemma_append_assoc(u9, enc_byte(v.refresh_policy), t11);
    lemma_append_assoc(u8, enc_vint(v.retry_on_conflict), t10);
    lemma_append_assoc(u7, enc_bool(v.script_present), t9);
    lemma_append_assoc(u6, enc_optional_string(v.routing), t8);
    lemma_append_assoc(u5, enc_string(v.id), t7);
    lemma_append_assoc(u4, enc_i32(v.wait_for_active_shards), t6);
    lemma_append_assoc(u3, enc_optional_string(v.concrete_index), t5);
    lemma_append_assoc(u2, enc_time_value(v.timeout), t4);
    lemma_append_assoc(u1, enc_bool(v.shard_id_present), t3);
    lemma_append_assoc(u0, enc_string(v.index), t2);
    assert(s == t0);
    lemma_skip_append(u15, t16);
    lemma_vlong_roundtrip(v.if_primary_term, t17);
    lemma_skip_append(u16, t17);
    lemma_bool_roundtrip(v.detect_noop, t18);
    lemma_skip_append(u17, t18);
    lemma_bool_roundtrip(v.scripted_upsert, t19);
    lemma_skip_append(u18, t19);
    lemma_bool_roundtrip(v.require_alias, rest);
}

/// Reading the fields of an update request from its 13th field on gives the
/// fields written.
#[verifier::spinoff_prover]
#[verifier::rlimit(100)]
proof fn lemma_opensearch_update_request_from_12_roundtrip(v: OpenSearchUpdateRequestView, rest: Seq<u8>)
    requires
        opensearch_update_request_fits(v),
    ensures
        parse_opensearch_update_request_from_12(enc_opensearch_update_request(v) + rest, (enc_parent_task_id(v.parent_task_node, v.parent_task_id) + enc_string(v.index) + enc_bool(v.shard_id_present) + enc_time_value(v.timeout) + enc_optional_string(v.concrete_index) + enc_i32(v.wait_for_active_shards) + enc_string(v.id) + enc_optional_string(v.routing) + enc_bool(v.script_present) + enc_vint(v.retry_on_conflict) + enc_byte(v.refresh_policy) + enc_optional_index_request(v.doc)).len() as int, (v.parent_task_node, v.parent_task_id), v.index, v.shard_id_present, v.timeout, v.concrete_index, v.wait_for_active_shards, v.id, v.routing, v.script_present, v.retry_on_conflict, v.refresh_policy, v.doc) == WireRead::Decoded(v, enc_opensearch_update_request(v).len() as int),
{
    let s = enc_opensearch_update_request(v) + rest;
    let t19 = enc_bool(v.require_alias) + rest;
    let t18 = enc_bool(v.scripted_upsert) + t19;
    let t17 = enc_bool(v.detect_noop) + t18;
    let t16 = enc_vlong(v.if_primary_term) + t17;
    let t15 = enc_zlong(v.if_seq_no) + t16;
    let t14 = enc_bool(v.doc_as_upsert) + t15;
    let t13 = enc_optional_index_request(v.upsert) + t14;
    let t12 = enc_bool(v.fetch_source_context_present) + t13;
    let t11 = enc_optional_index_request(v.doc) + t12;
    let t10 = enc_byte(v.refresh_policy) + t11;
    let t9 = enc_vint(v.retry_on_conflict) + t10;
    let t8 = enc_bool(v.script_present) + t9;
    let t7 = enc_optional_string(v.routing) + t8;
    let t6 = enc_string(v.id) + t7;
    let t5 = enc_i32(v.wait_for_active_shards) + t6;
    let t4 = enc_optional_string(v.concrete_index) + t5;
    let t3 = enc_time_value(v.timeout) + t4;
    let t2 = enc_bool(v.shard_id_present) + t3;
    let t1 = enc_string(v.index) + t2;
    let t0 = enc_parent_task_id(v.parent_task_node, v.parent_task_id) + t1;
    let u0 = enc_parent_task_id(v.parent_task_node, v.parent_task_id);
    let u1 = u0 + enc_string(v.index);
    let u2 = u1 + enc_bool(v.shard_id_present);
    let u3 = u2 + enc_time_value(v.timeout);
    let u4 = u3 + enc_optional_string(v.concrete_index);
    let u5 = u4 + enc_i32(v.wait_for_active_shards);
    let u6 = u5 + enc_string(v.id);
    let u7 = u6 + enc_optional_string(v.routing);
    let u8 = u7 + enc_bool(v.script_present);
    let u9 = u8 + enc_vint(v.retry_on_conflict);
    let u10 = u9 + enc_byte(v.refresh_policy);
    let u11 = u10 + enc_optional_index_request(v.doc);
    let u12 = u11 + enc_bool(v.fetch_source_context_present);
    let u13 = u12 + enc_optional_index_request(v.upsert);
    let u14 = u13 + enc_bool(v.doc_as_upsert);
    let u15 = u14 + enc_zlong(v.if_seq_no);
    let u16 = u15 + enc_vlong(v.if_primary_term);
    let u17 = u16 + enc_bool(v.detect_noop);
    let u18 = u17 + enc_bool(v.scripted_upsert);
    let u19 = u18 + enc_bool(v.require_alias);
    assert(s == u19 + rest);
    lemma_append_assoc(u18, enc_bool(v.require_alias), rest);
    lemma_append_assoc(u17, enc_bool(v.scripted_upsert), t19);
    lemma_append_assoc(u16, enc_bool(v.detect_noop), t18);
    lemma_append_assoc(u15, enc_vlong(v.if_primary_term), t17);
    lemma_append_assoc(u14, enc_zlong(v.if_seq_no), t16);
    lemma_append_assoc(u13, enc_bool(v.doc_as_upsert), t15);
    lemma_append_assoc(u12, enc_optional_index_request(v.upsert), t14);
    lemma_append_assoc(u11, enc_bool(v.fetch_source_context_present), t13);
    lemma_append_assoc(u10, enc_optional_index_request(v.doc), t12);
    lemma_append_assoc(u9, enc_byte(v.refresh_policy), t11);
    lemma_append_assoc(u8, enc_vint(v.retry_on_conflict), t10);
    lemma_append_assoc(u7, enc_bool(v.script_present), t9);
    lemma_append_assoc(u6, enc_optional_string(v.routing), t8);
    lemma_append_assoc(u5, enc_string(v.id), t7);
    lemma_append_assoc(u4, enc_i32(v.wait_for_active_shards), t6);
    lemma_append_assoc(u3, enc_optional_string(v.concrete_index), t5);
    lemma_append_assoc(u2, enc_time_value(v.timeout), t4);
    lemma_append_assoc(u1, enc_bool(v.shard_id_present), t3);
    lemma_append_assoc(u0, enc_string(v.index), t2);
    assert(s == t0);
    lemma_skip_append(u11, t12);
    lemma_bool_roundtrip(v.fetch_source_context_present, t13);
    lemma_skip_append(u12, t13);
    lemma_optional_index_request_roundtrip(v.upsert, t14);
    lemma_skip_append(u13, t14);
    lemma_bool_roundtrip(v.doc_as_upsert, t15);
    lemma_skip_append(u14, t15);
    lemma_zlong_roundtrip(v.if_seq_no, t16);
    lemma_skip_append(u15, t16);
    lemma_opensearch_update_request_from_16_roundtrip(v, rest);
}

/// Reading the fields of an update request from its 9th field on gives the
/// fields written.
#[verifier::spinoff_prover]
#[verifier::rlimit(100)]
proof fn lemma_opensearch_update_request_from_8_roundtrip(v: OpenSearchUpdateRequestView, rest: Seq<u8>)
    requires
        opensearch_update_request_fits(v),
    ensures
        parse_opensearch_update_request_from_8(enc_opensearch_update_request(v) + rest, (enc_parent_task_id(v.parent_task_node, v.parent_task_id) + enc_string(v.index) + enc_bool(v.shard_id_present) + enc_time_value(v.timeout) + enc_optional_string(v.concrete_index) + enc_i32(v.wait_for_active_shards) + enc_string(v.id) + enc_optional_string(v.routing)).len() as int, (v.parent_task_node, v.parent_task_id), v.index, v.shard_id_present, v.timeout, v.concrete_index, v.wait_for_active_shards, v.id, v.routing) == WireRead::Decoded(v, enc_opensearch_update_request(v).len() as int),
{
    let s = enc_opensearch_update_request(v) + rest;
    let t19 = enc_bool(v.require_alias) + rest;
    let t18 = enc_bool(v.scripted_upsert) + t19;
    let t17 = enc_bool(v.detect_noop) + t18;
    let t16 = enc_vlong(v.if_primary_term) + t17;
    let t15 = enc_zlong(v.if_seq_no) + t16;
    let t14 = enc_bool(v.doc_as_upsert) + t15;
    let t13 = enc_optional_index_request(v.upsert) + t14;
    let t12 = enc_bool(v.fetch_source_context_present) + t13;
    let t11 = enc_optional_index_request(v.doc) + t12;
    let t10 = enc_byte(v.refresh_policy) + t11;
    let t9 = enc_vint(v.retry_on_conflict) + t10;
    let t8 = enc_bool(v.script_present) + t9;
    let t7 = enc_optional_string(v.routing) + t8;
    let t6 = enc_string(v.id) + t7;
    let t5 = enc_i32(v.wait_for_active_shards) + t6;
    let t4 = enc_optional_string(v.concrete_index) + t5;
    let t3 = enc_time_value(v.timeout) + t4;
    let t2 = enc_bool(v.shard_id_present) + t3;
    let t1 = enc_string(v.index) + t2;
    let t0 = enc_parent_task_id(v.parent_task_node, v.parent_task_id) + t1;
    let u0 = enc_parent_task_id(v.parent_task_node, v.parent_task_id);
    let u1 = u0 + enc_string(v.index);
    let u2 = u1 + enc_bool(v.shard_id_present);
    let u3 = u2 + enc_time_value(v.timeout);
    let u4 = u3 + enc_optional_string(v.concrete_index);
    let u5 = u4 + enc_i32(v.wait_for_active_shards);
    let u6 = u5 + enc_string(v.id);
    let u7 = u6 + enc_optional_string(v.routing);
    let u8 = u7 + enc_bool(v.script_present);
    let u9 = u8 + enc_vint(v.retry_on_conflict);
    let u10 = u9 + enc_byte(v.refresh_policy);
    let u11 = u10 + enc_optional_index_request(v.doc);
    let u12 = u11 + enc_bool(v.fetch_source_context_present);
    let u13 = u12 + enc_optional_index_request(v.upsert);
    let u14 = u13 + enc_bool(v.doc_as_upsert);
    let u15 = u14 + enc_zlong(v.if_seq_no);
    let u16 = u15 + enc_vlong(v.if_primary_term);
    let u17 = u16 + enc_bool(v.detect_noop);
    let u18 = u17 + enc_bool(v.scripted_upsert);
    let u19 = u18 + enc_bool(v.require_alias);
    assert(s == u19 + rest);
    lemma_append_assoc(u18, enc_bool(v.require_alias), rest);
    lemma_append_assoc(u17, enc_bool(v.scripted_upsert), t19);
    lemma_append_assoc(u16, enc_bool(v.detect_noop), t18);
    lemma_append_assoc(u15, enc_vlong(v.if_primary_term), t17);
    lemma_append_assoc(u14, enc_zlong(v.if_seq_no), t16);
    lemma_append_assoc(u13, enc_bool(v.doc_as_upsert), t15);
    lemma_append_assoc(u12, enc_optional_index_request(v.upsert), t14);
    lemma_append_assoc(u11, enc_bool(v.fetch_source_context_present), t13);
    lemma_append_assoc(u10, enc_optional_index_request(v.doc), t12);
    lemma_append_assoc(u9, enc_byte(v.refresh_policy), t11);
    lemma_append_assoc(u8, enc_vint(v.retry_on_conflict), t10);
    lemma_append_assoc(u7, enc_bool(v.script_present), t9);
    lemma_append_assoc(u6, enc_optional_string(v.routing), t8);
    lemma_append_assoc(u5, enc_string(v.id), t7);
    lemma_append_assoc(u4, enc_i32(v.wait_for_active_shards), t6);
    lemma_append_assoc(u3, enc_optional_string(v.concrete_index), t5);
    lemma_append_assoc(u2, enc_time_value(v.timeout), t4);
    lemma_append_assoc(u1, enc_bool(v.shard_id_present), t3);
    lemma_append_assoc(u0, enc_string(v.index), t2);
    assert(s == t0);
    lemma_skip_append(u7, t8);
    lemma_bool_roundtrip(v.script_present, t9);
    lemma_skip_append(u8, t9);
    lemma_vint_roundtrip(v.retry_on_conflict, t10);
    lemma_skip_append(u9, t10);
    lemma_byte_roundtrip(v.refresh_policy, t11);
    lemma_skip_append(u10, t11);
    lemma_optional_index_request_roundtrip(v.doc, t12);
    lemma_skip_append(u11, t12);
    lemma_opensearch_update_request_from_12_roundtrip(v, rest);
}

/// Reading the fields of an update request from its 5th field on gives the
/// fields written.
#[verifier::spinoff_prover]
#[verifier::rlimit(100)]
proof fn lemma_opensearch_update_request_from_4_roundtrip(v: OpenSearchUpdateRequestView, rest: Seq<u8>)
    requires
        opensearch_update_request_fits(v),
    ensures
        parse_opensearch_update_request_from_4(enc_opensearch_update_request(v) + rest, (enc_parent_task_id(v.parent_task_node, v.parent_task_id) + enc_string(v.index) + enc_bool(v.shard_id_present) + enc_time_value(v.timeout)).len() as int, (v.parent_task_node, v.parent_task_id), v.index, v.shard_id_present, v.timeout) == WireRead::Decoded(v, enc_opensearch_update_request(v).len() as int),
{
    let s = enc_opensearch_update_request(v) + rest;
    let t19 = enc_bool(v.require_alias) + rest;
    let t18 = enc_bool(v.scripted_upsert) + t19;
    let t17 = enc_bool(v.detect_noop) + t18;
    let t16 = enc_vlong(v.if_primary_term) + t17;
    let t15 = enc_zlong(v.if_seq_no) + t16;
    let t14 = enc_bool(v.doc_as_upsert) + t15;
    let t13 = enc_optional_index_request(v.upsert) + t14;
    let t12 = enc_bool(v.fetch_source_context_present) + t13;
    let t11 = enc_optional_index_request(v.doc) + t12;
    let t10 = enc_byte(v.refresh_policy) + t11;
    let t9 = enc_vint(v.retry_on_conflict) + t10;
    let t8 = enc_bool(v.script_present) + t9;
    let t7 = enc_optional_string(v.routing) + t8;
    let t6 = enc_string(v.id) + t7;
    let t5 = enc_i32(v.wait_for_active_shards) + t6;
    let t4 = enc_optional_string(v.concrete_index) + t5;
    let t3 = enc_time_value(v.timeout) + t4;
    let t2 = enc_bool(v.shard_id_present) + t3;
    let t1 = enc_string(v.index) + t2;
    let t0 = enc_parent_task_id(v.parent_task_node, v.parent_task_id) + t1;
    let u0 = enc_parent_task_id(v.parent_task_node, v.parent_task_id);
    let u1 = u0 + enc_string(v.index);
    let u2 = u1 + enc_bool(v.shard_id_present);
    let u3 = u2 + enc_time_value(v.timeout);
    let u4 = u3 + enc_optional_string(v.concrete_index);
    let u5 = u4 + enc_i32(v.wait_for_active_shards);
    let u6 = u5 + enc_string(v.id);
    let u7 = u6 + enc_optional_string(v.routing);
    let u8 = u7 + enc_bool(v.script_present);
    let u9 = u8 + enc_vint(v.retry_on_conflict);
    let u10 = u9 + enc_byte(v.refresh_policy);
    let u11 = u10 + enc_optional_index_request(v.doc);
    let u12 = u11 + enc_bool(v.fetch_source_context_present);
    let u13 = u12 + enc_optional_index_request(v.upsert);
    let u14 = u13 + enc_bool(v.doc_as_upsert);
    let u15 = u14 + enc_zlong(v.if_seq_no);
    let u16 = u15 + enc_vlong(v.if_primary_term);
    let u17 = u16 + enc_bool(v.detect_noop);
    let u18 = u17 + enc_bool(v.scripted_upsert);
    let u19 = u18 + enc_bool(v.require_alias);
    assert(s == u19 + rest);
    lemma_append_assoc(u18, enc_bool(v.require_alias), rest);
    lemma_append_assoc(u17, enc_bool(v.scripted_upsert), t19);
    lemma_append_assoc(u16, enc_bool(v.detect_noop), t18);
    lemma_append_assoc(u15, enc_vlong(v.if_primary_term), t17);
    lemma_append_assoc(u14, enc_zlong(v.if_seq_no), t16);
    lemma_append_assoc(u13, enc_bool(v.doc_as_upsert), t15);
    lemma_append_assoc(u12, enc_optional_index_request(v.upsert), t14);
    lemma_append_assoc(u11, enc_bool(v.fetch_source_context_present), t13);
    lemma_append_assoc(u10, enc_optional_index_request(v.doc), t12);
    lemma_append_assoc(u9, enc_byte(v.refresh_policy), t11);
    lemma_append_assoc(u8, enc_vint(v.retry_on_conflict), t10);
    lemma_append_assoc(u7, enc_bool(v.script_present), t9);
    lemma_append_assoc(u6, enc_optional_string(v.routing), t8);
    lemma_append_assoc(u5, enc_string(v.id), t7);
    lemma_append_assoc(u4, enc_i32(v.wait_for_active_shards), t6);
    lemma_append_assoc(u3, enc_optional_string(v.concrete_index), t5);
    lemma_append_assoc(u2, enc_time_value(v.timeout), t4);
    lemma_append_assoc(u1, enc_bool(v.shard_id_present), t3);
    lemma_append_assoc(u0, enc_string(v.index), t2);
    assert(s == t0);
    lemma_skip_append(u3, t4);
    lemma_optional_string_roundtrip(v.concrete_index, t5);
    lemma_skip_append(u4, t5);
    lemma_i32_roundtrip(v.wait_for_active_shards, t6);
    lemma_skip_append(u5, t6);
    lemma_string_roundtrip(v.id, t7);
    lemma_skip_append(u6, t7);
    lemma_optional_string_roundtrip(v.routing, t8);
    lemma_skip_append(u7, t8);
    lemma_opensearch_update_request_from_8_roundtrip(v, rest);
}

/// Reading an update request back gives the fields written.
#[verifier::spinoff_prover]
#[verifier::rlimit(100)]
pub proof fn lemma_opensearch_update_request_roundtrip(v: OpenSearchUpdateRequestView, rest: Seq<u8>)
    requires
        opensearch_update_request_fits(v),
    ensures
        parse_opensearch_update_request(enc_opensearch_update_request(v) + rest) == WireRead::Decoded(v, enc_opensearch_update_request(v).len() as int),
{
    let s = enc_opensearch_update_request(v) + rest;
    let t19 = enc_bool(v.require_alias) + rest;
    let t18 = enc_bool(v.scripted_upsert) + t19;
    let t17 = enc_bool(v.detect_noop) + t18;
    let t16 = enc_vlong(v.if_primary_term) + t17;
    let t15 = enc_zlong(v.if_seq_no) + t16;
    let t14 = enc_bool(v.doc_as_upsert) + t15;
    let t13 = enc_optional_index_request(v.upsert) + t14;
    let t12 = enc_bool(v.fetch_source_context_present) + t13;
    let t11 = enc_optional_index_request(v.doc) + t12;
    let t10 = enc_byte(v.refresh_policy) + t11;
    let t9 = enc_vint(v.retry_on_conflict) + t10;
    let t8 = enc_bool(v.script_present) + t9;
    let t7 = enc_optional_string(v.routing) + t8;
    let t6 = enc_string(v.id) + t7;
    let t5 = enc_i32(v.wait_for_active_shards) + t6;
    let t4 = enc_optional_string(v.concrete_index) + t5;
    let t3 = enc_time_value(v.timeout) + t4;
    let t2 = enc_bool(v.shard_id_present) + t3;
    let t1 = enc_string(v.index) + t2;
    let t0 = enc_parent_task_id(v.parent_task_node, v.parent_task_id) + t1;
    let u0 = enc_parent_task_id(v.parent_task_node, v.parent_task_id);
    let u1 = u0 + enc_string(v.index);
    let u2 = u1 + enc_bool(v.shard_id_present);
    let u3 = u2 + enc_time_value(v.timeout);
    let u4 = u3 + enc_optional_string(v.concrete_index);
    let u5 = u4 + enc_i32(v.wait_for_active_shards);
    let u6 = u5 + enc_string(v.id);
    let u7 = u6 + enc_optional_string(v.routing);
    let u8 = u7 + enc_bool(v.script_present);
    let u9 = u8 + enc_vint(v.retry_on_conflict);
    let u10 = u9 + enc_byte(v.refresh_policy);
    let u11 = u10 + enc_optional_index_request(v.doc);
    let u12 = u11 + enc_bool(v.fetch_source_context_present);
    let u13 = u12 + enc_optional_index_request(v.upsert);
    let u14 = u13 + enc_bool(v.doc_as_upsert);
    let u15 = u14 + enc_zlong(v.if_seq_no);
    let u16 = u15 + enc_vlong(v.if_primary_term);
    let u17 = u16 + enc_bool(v.detect_noop);
    let u18 = u17 + enc_bool(v.scripted_upsert);
    let u19 = u18 + enc_bool(v.require_alias);
    assert(s == u19 + rest);
    lemma_append_assoc(u18, enc_bool(v.require_alias), rest);
    lemma_append_assoc(u17, enc_bool(v.scripted_upsert), t19);
    lemma_append_assoc(u16, enc_bool(v.detect_noop), t18);
    lemma_append_assoc(u15, enc_vlong(v.if_primary_term), t17);
    lemma_append_assoc(u14, enc_zlong(v.if_seq_no), t16);
    lemma_append_assoc(u13, enc_bool(v.doc_as_upsert), t15);
    lemma_append_assoc(u12, enc_optional_index_request(v.upsert), t14);
    lemma_append_assoc(u11, enc_bool(v.fetch_source_context_present), t13);
    lemma_append_assoc(u10, enc_optional_index_request(v.doc), t12);
    lemma_append_assoc(u9, enc_byte(v.refresh_policy), t11);
    lemma_append_assoc(u8, enc_vint(v.retry_on_conflict), t10);
    lemma_append_assoc(u7, enc_bool(v.script_present), t9);
    lemma_append_assoc(u6, enc_optional_string(v.routing), t8);
    lemma_append_assoc(u5, enc_string(v.id), t7);
    lemma_append_assoc(u4, enc_i32(v.wait_for_active_shards), t6);
    lemma_append_assoc(u3, enc_optional_string(v.concrete_index), t5);
    lemma_append_assoc(u2, enc_time_value(v.timeout), t4);
    lemma_append_assoc(u1, enc_bool(v.shard_id_present), t3);
    lemma_append_assoc(u0, enc_string(v.index), t2);
    assert(s == t0);
    lemma_parent_task_id_roundtrip(v.parent_task_node, v.parent_task_id, t1);
    lemma_skip_append(u0, t1);
    lemma_string_roundtrip(v.index, t2);
    lemma_skip_append(u1, t2);
    lemma_bool_roundtrip(v.shard_id_present, t3);
    lemma_skip_append(u2, t3);
    lemma_time_value_roundtrip(v.timeout, t4);
    lemma_skip_append(u3, t4);
    lemma_opensearch_update_request_from_4_roundtrip(v, rest);
}

/// What reading an update request from the whole of `bytes` gives: the fields read, a
/// refused shape, or an error.
pub open spec fn opensearch_update_request_read_result(bytes: Seq<u8>, r: Result<OpenSearchUpdateRequestWire, TransportActionWireError>) -> bool {
    match parse_opensearch_update_request(bytes) {
        WireRead::Decoded(v, n) => if n < bytes.len() {
            r == Err::<OpenSearchUpdateRequestWire, TransportActionWireError>(TransportActionWireError::TrailingBytes((bytes.len() - n) as usize))
        } else {
            r matches Ok(x) && x@ == v
        },
        WireRead::Unsupported(shape, reason) => is_unsupported(r, shape, reason),
        WireRead::Malformed => r is Err,
    }
}

/// Reading the whole of a written an update request gives back the fields written.
pub proof fn lemma_opensearch_update_request_read_back(v: OpenSearchUpdateRequestView, r: Result<OpenSearchUpdateRequestWire, TransportActionWireError>)
    requires
        opensearch_update_request_fits(v),
        opensearch_update_request_read_result(enc_opensearch_update_request(v), r),
    ensures
        r matches Ok(x) && x@ == v,
{
    lemma_opensearch_update_request_roundtrip(v, Seq::empty());
    assert(enc_opensearch_update_request(v) + Seq::<u8>::empty() =~= enc_opensearch_update_request(v));
}

/// The first shape of an update request that a writer refuses, with the reason.
pub open spec fn opensearch_update_request_write_refusal(v: OpenSearchUpdateRequestView) -> Option<(Seq<char>, Seq<char>)> {
    if v.shard_id_present {
        Some(("update request shard id"@, "explicit shard ids are not encoded by the update adapter yet"@))
    } else if v.script_present {
        Some(("update request script"@, "scripted updates are not encoded by the update adapter yet"@))
    } else if optional_index_request_write_refusal(v.doc) is Some {
        optional_index_request_write_refusal(v.doc)
    } else if v.fetch_source_context_present {
        Some(("update request fetch source context"@, "fetch source context is not encoded by the update adapter yet"@))
    } else if optional_index_request_write_refusal(v.upsert) is Some {
        optional_index_request_write_refusal(v.upsert)
    } else {
        None
    }
}

impl OpenSearchUpdateRequestWire {
    /// Writes an update request; refuses the shapes a writer does not encode.
    #[verifier::spinoff_prover]
    #[verifier::rlimit(100)]
    pub fn write(&self, output: &mut StreamOutput) -> (r: Result<(), TransportActionWireError>)
        ensures
            match opensearch_update_request_write_refusal(self@) {
                Some((shape, reason)) => is_unsupported(r, shape, reason),
                None => r is Ok && final(output)@ == old(output)@ + enc_opensearch_update_request(self@),
            },
    {
        write_parent_task_id(output, self.parent_task_node.as_str(), self.parent_task_id);
        assert(output@ == old(output)@ + enc_parent_task_id(self@.parent_task_node, self@.parent_task_id));
        let ghost mut written = enc_parent_task_id(self@.parent_task_node, self@.parent_task_id);
        output.write_string(self.index.as_str());
        proof {
            lemma_append_assoc(old(output)@, written, enc_string(self@.index));
            written = written + enc_string(self@.index);
        }
        if self.shard_id_present {
            return Err(TransportActionWireError::UnsupportedWireShape { shape: "update request shard id", reason: "explicit shard ids are not encoded by the update adapter yet" });
        }
        output.write_bool(false);
        proof {
            lemma_append_assoc(old(output)@, written, enc_bool(self@.shard_id_present));
            written = written + enc_bool(self@.shard_id_present);
        }
        self.timeout.write(output);
        proof {
            lemma_append_assoc(old(output)@, written, enc_time_value(self@.timeout));
            written = written + enc_time_value(self@.timeout);
        }
        match &self.concrete_index {
            Some(x) => output.write_optional_string(Some(x.as_str())),
            None => output.write_optional_string(None),
        }
        proof {
            lemma_append_assoc(old(output)@, written, enc_optional_string(self@.concrete_index));
            written = written + enc_optional_string(self@.concrete_index);
        }
        output.write_i32(self.wait_for_active_shards);
        proof {
            lemma_append_assoc(old(output)@, written, enc_i32(self@.wait_for_active_shards));
            written = written + enc_i32(self@.wait_for_active_shards);
        }
        output.write_string(self.id.as_str());
        proof {
            lemma_append_assoc(old(output)@, written, enc_string(self@.id));
            written = written + enc_string(self@.id);
        }
        match &self.routing {
            Some(x) => output.write_optional_string(Some(x.as_str())),
            None => output.write_optional_string(None),
        }
        proof {
            lemma_append_assoc(old(output)@, written, enc_optional_string(self@.routing));
            written = written + enc_optional_string(self@.routing);
        }
        if self.script_present {
            return Err(TransportActionWireError::UnsupportedWireShape { shape: "update request script", reason: "scripted updates are not encoded by the update adapter yet" });
        }
        output.write_bool(false);
        proof {
            lemma_append_assoc(old(output)@, written, enc_bool(self@.script_present));
            written = written + enc_bool(self@.script_present);
        }
        output.write_vint(self.retry_on_conflict);
        proof {
            lemma_append_assoc(old(output)@, written, enc_vint(self@.retry_on_conflict));
            written = written + enc_vint(self@.retry_on_conflict);
        }
        write_byte_field(output, self.refresh_policy);
        proof {
            lemma_append_assoc(old(output)@, written, enc_byte(self@.refresh_policy));
            written = written + enc_byte(self@.refresh_policy);
        }
        write_optional_index_request(output, &self.doc)?;
        proof {
            lemma_append_assoc(old(output)@, written, enc_optional_index_request(self@.doc));
            written = written + enc_optional_index_request(self@.doc);
        }
        if self.fetch_source_context_present {
            return Err(TransportActionWireError::UnsupportedWireShape { shape: "update request fetch source context", reason: "fetch source context is not encoded by the update adapter yet" });
        }
        output.write_bool(false);
        proof {
            lemma_append_assoc(old(output)@, written, enc_bool(self@.fetch_source_context_present));
            written = written + enc_bool(self@.fetch_source_context_present);
        }
        write_optional_index_request(output, &self.upsert)?;
        proof {
            lemma_append_assoc(old(output)@, written, enc_optional_index_request(self@.upsert));
            written = written + enc_optional_index_request(self@.upsert);
        }
        output.write_bool(self.doc_as_upsert);
        proof {
            lemma_append_assoc(old(output)@, written, enc_bool(self@.doc_as_upsert));
            written = written + enc_bool(self@.doc_as_upsert);
        }
        output.write_zlong(self.if_seq_no);
        proof {
            lemma_append_assoc(old(output)@, written, enc_zlong(self@.if_seq_no));
            written = written + enc_zlong(self@.if_seq_no);
        }
        output.write_vlong(self.if_primary_term);
        proof {
            lemma_append_assoc(old(output)@, written, enc_vlong(self@.if_primary_term));
            written = written + enc_vlong(self@.if_primary_term);
        }
        output.write_bool(self.detect_noop);
        proof {
            lemma_append_assoc(old(output)@, written, enc_bool(self@.detect_noop));
            written = written + enc_bool(self@.detect_noop);
        }
        output.write_bool(self.scripted_upsert);
        proof {
            lemma_append_assoc(old(output)@, written, enc_bool(self@.scripted_upsert));
            written = written + enc_bool(self@.scripted_upsert);
        }
        output.write_bool(self.require_alias);
        proof {
            lemma_append_assoc(old(output)@, written, enc_bool(self@.require_alias));
            written = written + enc_bool(self@.require_alias);
        }
        assert(output@ == old(output)@ + enc_opensearch_update_request(self@));
        Ok(())
    }

    /// Reads an update request from the whole of `bytes`.
    pub fn read(bytes: Vec<u8>) -> (r: Result<Self, TransportActionWireError>)
        ensures
            opensearch_update_request_read_result(bytes@, r),
    {
        let mut input = StreamInput::new(bytes);
        let ghost s = input.rest();
        let pt = read_parent_task_id(&mut input)?;
        proof {
            assert(input.rest() =~= s.skip(input.pos() - 0));
        }
        let index = lift(input.read_string())?;
        proof {
            assert(input.rest() =~= s.skip(input.pos() - 0));
        }
        let shard_id_present = lift(input.read_bool())?;
        if shard_id_present {
            return Err(TransportActionWireError::UnsupportedWireShape { shape: "update request shard id", reason: "explicit shard ids are not decoded by the update adapter yet" });
        }
        proof {
            assert(input.rest() =~= s.skip(input.pos() - 0));
        }
        let timeout = TimeValueWire::read(&mut input)?;
        proof {
            assert(input.rest() =~= s.skip(input.pos() - 0));
        }
        let concrete_index = lift(input.read_optional_string())?;
        proof {
            assert(input.rest() =~= s.skip(input.pos() - 0));
        }
        let wait_for_active_shards = lift(input.read_i32())?;
        proof {
            assert(input.rest() =~= s.skip(input.pos() - 0));
        }
        let id = lift(input.read_string())?;
        proof {
            assert(input.rest() =~= s.skip(input.pos() - 0));
        }
        let routing = lift(input.read_optional_string())?;
        proof {
            assert(input.rest() =~= s.skip(input.pos() - 0));
        }
        let script_present = lift(input.read_bool())?;
        if script_present {
            return Err(TransportActionWireError::UnsupportedWireShape { shape: "update request script", reason: "scripted updates are not decoded by the update adapter yet" });
        }
        proof {
            assert(input.rest() =~= s.skip(input.pos() - 0));
        }
        let retry_on_conflict = lift(input.read_vint())?;
        proof {
            assert(input.rest() =~= s.skip(input.pos() - 0));
        }
        let refresh_policy = lift(input.read_byte())?;
        proof {
            assert(input.rest() =~= s.skip(input.pos() - 0));
        }
        let doc = read_optional_index_request(&mut input)?;
        proof {
            assert(input.rest() =~= s.skip(input.pos() - 0));
        }
        let fetch_source_context_present = lift(input.read_bool())?;
        if fetch_source_context_present {
            return Err(TransportActionWireError::UnsupportedWireShape { shape: "update request fetch source context", reason: "fetch source context is not decoded by the update adapter yet" });
        }
        proof {
            assert(input.rest() =~= s.skip(input.pos() - 0));
        }
        let upsert = read_optional_index_request(&mut input)?;
        proof {
            assert(input.rest() =~= s.skip(input.pos() - 0));
        }
        let doc_as_upsert = lift(input.read_bool())?;
        proof {
            assert(input.rest() =~= s.skip(input.pos() - 0));
        }
        let if_seq_no = lift(input.read_zlong())?;
        proof {
            assert(input.rest() =~= s.skip(input.pos() - 0));
        }
        let if_primary_term = lift(input.read_vlong())?;
        proof {
            assert(input.rest() =~= s.skip(input.pos() - 0));
        }
        let detect_noop = lift(input.read_bool())?;
        proof {
            assert(input.rest() =~= s.skip(input.pos() - 0));
        }
        let scripted_upsert = lift(input.read_bool())?;
        proof {
            assert(input.rest() =~= s.skip(input.pos() - 0));
        }
        let require_alias = lift(input.read_bool())?;
        proof {
            assert(input.rest() =~= s.skip(input.pos() - 0));
        }
        let value = OpenSearchUpdateRequestWire { parent_task_node: pt.0, parent_task_id: pt.1, index, shard_id_present, timeout, concrete_index, wait_for_active_shards, id, routing, script_present, retry_on_conflict, refresh_policy, doc, fetch_source_context_present, upsert, doc_as_upsert, if_seq_no, if_primary_term, detect_noop, scripted_upsert, require_alias };
        require_no_trailing_bytes(&input)?;
        Ok(value)
    }
}

/// The fields of a multi-get item, as its bytes carry them.
pub struct OpenSearchMultiGetItemRequestView {
    pub index: Seq<char>,
    pub id: Seq<char>,
    pub routing: Option<Seq<char>>,
    pub stored_fields: Option<Seq<Seq<char>>>,
    pub version: i64,
    pub version_type: u8,
    pub fetch_source_context_present: bool,
}

impl View for OpenSearchMultiGetItemRequestWire {
    type V = OpenSearchMultiGetItemRequestView;

    open spec fn view(&self) -> OpenSearchMultiGetItemRequestView {
        OpenSearchMultiGetItemRequestView {
            index: self.index@,
            id: self.id@,
            routing: opt_string_view(self.routing),
            stored_fields: opt_strings_view(self.stored_fields),
            version: self.version,
            version_type: self.version_type,
            fetch_source_context_present: self.fetch_source_context_present,
        }
    }
}

/// The bytes of a multi-get item.
pub open spec fn enc_opensearch_multi_get_item_request(v: OpenSearchMultiGetItemRequestView) -> Seq<u8> {
    enc_string(v.index)
        + enc_string(v.id)
        + enc_optional_string(v.routing)
        + enc_optional_string_array(v.stored_fields)
        + enc_i64(v.version)
        + enc_byte(v.version_type)
        + enc_bool(v.fetch_source_context_present)
}

/// What a reader makes of the bytes of a multi-get item.
pub open spec fn parse_opensearch_multi_get_item_request(s: Seq<u8>) -> WireRead<OpenSearchMultiGetItemRequestView> {
    match parse_string(s) {
        Some((index, k0)) => {
            match parse_string(s.skip(k0)) {
                Some((id, k1)) => {
                    match parse_optional_string(s.skip(k0 + k1)) {
                        Some((routing, k2)) => {
                            match parse_optional_string_array(s.skip(k0 + k1 + k2)) {
                                Some((stored_fields, k3)) => {
                                    match parse_i64(s.skip(k0 + k1 + k2 + k3)) {
                                        Some((version, k4)) => {
                                            match parse_byte(s.skip(k0 + k1 + k2 + k3 + k4)) {
                                                Some((version_type, k5)) => {
                                                    match parse_bool(s.skip(k0 + k1 + k2 + k3 + k4 + k5)) {
                                                        Some((fetch_source_context_present, k6)) => {
                                                            if fetch_source_context_present {
                                                                WireRead::Unsupported("multi-get request item fetch source context"@, "fetch source context decoding is not implemented by the multi-get adapter yet"@)
                                                            } else {
                                                                WireRead::Decoded(OpenSearchMultiGetItemRequestView { index: index, id: id, routing: routing, stored_fields: stored_fields, version: version, version_type: version_type, fetch_source_context_present: fetch_source_context_present }, k0 + k1 + k2 + k3 + k4 + k5 + k6)
                                                            }
                                                        },
                                                        None => WireRead::Malformed,
                                                    }
                                                },
                                                None => WireRead::Malformed,
                                            }
                                        },
                                        None => WireRead::Malformed,
                                    }
                                },
                                None => WireRead::Malformed,
                            }
                        },
                        None => WireRead::Malformed,
                    }
                },
                None => WireRead::Malformed,
            }
        },
        None => WireRead::Malformed,
    }
}

/// True when a multi-get item reads back as written.
pub open spec fn opensearch_multi_get_item_request_fits(v: OpenSearchMultiGetItemRequestView) -> bool {
    &&& string_fits(v.index)
    &&& string_fits(v.id)
    &&& v.routing matches Some(c) ==> string_fits(c)
    &&& v.stored_fields matches Some(a) ==> strings_fit(a) && a.len() < 0x8000_0000
    &&& !v.fetch_source_context_present
}

/// Reading a multi-get item back gives the fields written.
#[verifier::spinoff_prover]
#[verifier::rlimit(100)]
pub proof fn lemma_opensearch_multi_get_item_request_roundtrip(v: OpenSearchMultiGetItemRequestView, rest: Seq<u8>)
    requires
        opensearch_multi_get_item_request_fits(v),
    ensures
        parse_opensearch_multi_get_item_request(enc_opensearch_multi_get_item_request(v) + rest) == WireRead::Decoded(v, enc_opensearch_multi_get_item_request(v).len() as int),
{
    let s = enc_opensearch_multi_get_item_request(v) + rest;
    let t6 = enc_bool(v.fetch_source_context_present) + rest;
    let t5 = enc_byte(v.version_type) + t6;
    let t4 = enc_i64(v.version) + t5;
    let t3 = enc_optional_string_array(v.stored_fields) + t4;
    let t2 = enc_optional_string(v.routing) + t3;
    let t1 = enc_string(v.id) + t2;
    let t0 = enc_string(v.index) + t1;
    let u0 = enc_string(v.index);
    let u1 = u0 + enc_string(v.id);
    let u2 = u1 + enc_optional_string(v.routing);
    let u3 = u2 + enc_optional_string_array(v.stored_fields);
    let u4 = u3 + enc_i64(v.version);
    let u5 = u4 + enc_byte(v.version_type);
    let u6 = u5 + enc_bool(v.fetch_source_context_present);
    assert(s == u6 + rest);
    lemma_append_assoc(u5, enc_bool(v.fetch_source_context_present), rest);
    lemma_append_assoc(u4, enc_byte(v.version_type), t6);
    lemma_append_assoc(u3, enc_i64(v.version), t5);
    lemma_append_assoc(u2, enc_optional_string_array(v.stored_fields), t4);
    lemma_append_assoc(u1, enc_optional_string(v.routing), t3);
    lemma_append_assoc(u0, enc_string(v.id), t2);
    assert(s == t0);
    lemma_string_roundtrip(v.index, t1);
    lemma_skip_append(u0, t1);
    lemma_string_roundtrip(v.id, t2);
    lemma_skip_append(u1, t2);
    lemma_optional_string_roundtrip(v.routing, t3);
    lemma_skip_append(u2, t3);
    lemma_optional_string_array_roundtrip(v.stored_fields, t4);
    lemma_skip_append(u3, t4);
    lemma_i64_roundtrip(v.version, t5);
    lemma_skip_append(u4, t5);
    lemma_byte_roundtrip(v.version_type, t6);
    lemma_skip_append(u5, t6);
    lemma_bool_roundtrip(v.fetch_source_context_present, rest);
}

/// The first shape of a multi-get item that a writer refuses, with the reason.
pub open spec fn opensearch_multi_get_item_request_write_refusal(v: OpenSearchMultiGetItemRequestView) -> Option<(Seq<char>, Seq<char>)> {
    if v.fetch_source_context_present {
        Some(("multi-get request item fetch source context"@, "fetch source context encoding is not implemented by the multi-get adapter yet"@))
    } else {
        None
    }
}

impl OpenSearchMultiGetItemRequestWire {
    /// Writes a multi-get item; refuses the shapes a writer does not encode.
    pub fn write(&self, output: &mut StreamOutput) -> (r: Result<(), TransportActionWireError>)
        ensures
            match opensearch_multi_get_item_request_write_refusal(self@) {
                Some((shape, reason)) => is_unsupported(r, shape, reason),
                None => r is Ok && final(output)@ == old(output)@ + enc_opensearch_multi_get_item_request(self@),
            },
    {
        output.write_string(self.index.as_str());
        assert(output@ == old(output)@ + enc_string(self@.index));
        output.write_string(self.id.as_str());
        match &self.routing {
            Some(x) => output.write_optional_string(Some(x.as_str())),
            None => output.write_optional_string(None),
        }
        match &self.stored_fields {
            Some(v) => write_optional_string_array(output, Some(v.as_slice())),
            None => write_optional_string_array(output, None),
        }
        output.write_i64(self.version);
        write_byte_field(output, self.version_type);
        if self.fetch_source_context_present {
            return Err(TransportActionWireError::UnsupportedWireShape { shape: "multi-get request item fetch source context", reason: "fetch source context encoding is not implemented by the multi-get adapter yet" });
        }
        output.write_bool(false);
        assert(output@ == old(output)@ + enc_opensearch_multi_get_item_request(self@));
        Ok(())
    }

    /// Reads a multi-get item.
    pub fn read(input: &mut StreamInput) -> (r: Result<Self, TransportActionWireError>)
        ensures
            final(input).data() == old(input).data(),
            old(input).pos() <= final(input).pos() <= final(input).data().len(),
            match parse_opensearch_multi_get_item_request(old(input).rest()) {
                WireRead::Decoded(v, n) => r matches Ok(x) && x@ == v && final(input).pos() == old(input).pos() + n,
                WireRead::Unsupported(shape, reason) => is_unsupported(r, shape, reason),
                WireRead::Malformed => r is Err,
            },
    {
        let ghost s = old(input).rest();
        let ghost p0 = old(input).pos();
        let index = lift(input.read_string())?;
        proof {
            assert(input.rest() =~= s.skip(input.pos() - p0));
        }
        let id = lift(input.read_string())?;
        proof {
            assert(input.rest() =~= s.skip(input.pos() - p0));
        }
        let routing = lift(input.read_optional_string())?;
        proof {
            assert(input.rest() =~= s.skip(input.pos() - p0));
        }
        let stored_fields = read_optional_string_array(input)?;
        proof {
            assert(input.rest() =~= s.skip(input.pos() - p0));
        }
        let version = lift(input.read_i64())?;
        proof {
            assert(input.rest() =~= s.skip(input.pos() - p0));
        }
        let version_type = lift(input.read_byte())?;
        proof {
            assert(input.rest() =~= s.skip(input.pos() - p0));
        }
        let fetch_source_context_present = lift(input.read_bool())?;
        if fetch_source_context_present {
            return Err(TransportActionWireError::UnsupportedWireShape { shape: "multi-get request item fetch source context", reason: "fetch source context decoding is not implemented by the multi-get adapter yet" });
        }
        proof {
            assert(input.rest() =~= s.skip(input.pos() - p0));
        }
        Ok(OpenSearchMultiGetItemRequestWire { index, id, routing, stored_fields, version, version_type, fetch_source_context_present })
    }
}

/// The fields of a multi-get request, as its bytes carry them.
pub struct OpenSearchMultiGetRequestView {
    pub parent_task_node: Seq<char>,
    pub parent_task_id: Option<i64>,
    pub preference: Option<Seq<char>>,
    pub refresh: bool,
    pub realtime: bool,
    pub items: Seq<OpenSearchMultiGetItemRequestView>,
}

impl View for OpenSearchMultiGetRequestWire {
    type V = OpenSearchMultiGetRequestView;

    open spec fn view(&self) -> OpenSearchMultiGetRequestView {
        OpenSearchMultiGetRequestView {
            parent_task_node: self.parent_task_node@,
            parent_task_id: self.parent_task_id,
            preference: opt_string_view(self.preference),
            refresh: self.refresh,
            realtime: self.realtime,
            items: mget_item_views(self.items@),
        }
    }
}

/// The bytes of a multi-get request.
pub open spec fn enc_opensearch_multi_get_request(v: OpenSearchMultiGetRequestView) -> Seq<u8> {
    enc_parent_task_id(v.parent_task_node, v.parent_task_id)
        + enc_optional_string(v.preference)
        + enc_bool(v.refresh)
        + enc_bool(v.realtime)
        + enc_mget_items_array(v.items)
}

/// What a reader makes of the bytes of a multi-get request.
pub open spec fn parse_opensearch_multi_get_request(s: Seq<u8>) -> WireRead<OpenSearchMultiGetRequestView> {
    match parse_parent_task_id(s) {
        Some((pt, k0)) => {
            match parse_optional_string(s.skip(k0)) {
                Some((preference, k1)) => {
                    match parse_bool(s.skip(k0 + k1)) {
                        Some((refresh, k2)) => {
                            match parse_bool(s.skip(k0 + k1 + k2)) {
                                Some((realtime, k3)) => {
                                    match parse_mget_items_array(s.skip(k0 + k1 + k2 + k3)) {
                                        WireRead::Decoded(items, k4) => {
                                            WireRead::Decoded(OpenSearchMultiGetRequestView { parent_task_node: pt.0, parent_task_id: pt.1, preference: preference, refresh: refresh, realtime: realtime, items: items }, k0 + k1 + k2 + k3 + k4)
                                        },
                                        WireRead::Unsupported(shape, reason) => WireRead::Unsupported(shape, reason),
                                        WireRead::Malformed => WireRead::Malformed,
                                    }
                                },
                                None => WireRead::Malformed,
                            }
                        },
                        None => WireRead::Malformed,
                    }
                },
                None => WireRead::Malformed,
            }
        },
        None => WireRead::Malformed,
    }
}

/// True when a multi-get request reads back as written.
pub open spec fn opensearch_multi_get_request_fits(v: OpenSearchMultiGetRequestView) -> bool {
    &&& parent_task_id_canonical(v.parent_task_node, v.parent_task_id)
    &&& v.preference matches Some(c) ==> string_fits(c)
    &&& mget_items_array_fits(v.items)
}

/// Reading a multi-get request back gives the fields written.
#[verifier::spinoff_prover]
#[verifier::rlimit(100)]
pub proof fn lemma_opensearch_multi_get_request_roundtrip(v: OpenSearchMultiGetRequestView, rest: Seq<u8>)
    requires
        opensearch_multi_get_request_fits(v),
    ensures
        parse_opensearch_multi_get_request(enc_opensearch_multi_get_request(v) + rest) == WireRead::Decoded(v, enc_opensearch_multi_get_request(v).len() as int),
{
    let s = enc_opensearch_multi_get_request(v) + rest;
    let t4 = enc_mget_items_array(v.items) + rest;
    let t3 = enc_bool(v.realtime) + t4;
    let t2 = enc_bool(v.refresh) + t3;
    let t1 = enc_optional_string(v.preference) + t2;
    let t0 = enc_parent_task_id(v.parent_task_node, v.parent_task_id) + t1;
    let u0 = enc_parent_task_id(v.parent_task_node, v.parent_task_id);
    let u1 = u0 + enc_optional_string(v.preference);
    let u2 = u1 + enc_bool(v.refresh);
    let u3 = u2 + enc_bool(v.realtime);
    let u4 = u3 + enc_mget_items_array(v.items);
    assert(s == u4 + rest);
    lemma_append_assoc(u3, enc_mget_items_array(v.items), rest);
    lemma_append_assoc(u2, enc_bool(v.realtime), t4);
    lemma_append_assoc(u1, enc_bool(v.refresh), t3);
    lemma_append_assoc(u0, enc_optional_string(v.preference), t2);
    assert(s == t0);
    lemma_parent_task_id_roundtrip(v.parent_task_node, v.parent_task_id, t1);
    lemma_skip_append(u0, t1);
    lemma_optional_string_roundtrip(v.preference, t2);
    lemma_skip_append(u1, t2);
    lemma_bool_roundtrip(v.refresh, t3);
    lemma_skip_append(u2, t3);
    lemma_bool_roundtrip(v.realtime, t4);
    lemma_skip_append(u3, t4);
    lemma_mget_items_array_roundtrip(v.items, rest);
}

/// What reading a multi-get request from the whole of `bytes` gives: the fields read, a
/// refused shape, or an error.
pub open spec fn opensearch_multi_get_request_read_result(bytes: Seq<u8>, r: Result<OpenSearchMultiGetRequestWire, TransportActionWireError>) -> bool {
    match parse_opensearch_multi_get_request(bytes) {
        WireRead::Decoded(v, n) => if n < bytes.len() {
            r == Err::<OpenSearchMultiGetRequestWire, TransportActionWireError>(TransportActionWireError::TrailingBytes((bytes.len() - n) as usize))
        } else {
            r matches Ok(x) && x@ == v
        },
        WireRead::Unsupported(shape, reason) => is_unsupported(r, shape, reason),
        WireRead::Malformed => r is Err,
    }
}

/// Reading the whole of a written a multi-get request gives back the fields written.
pub proof fn lemma_opensearch_multi_get_request_read_back(v: OpenSearchMultiGetRequestView, r: Result<OpenSearchMultiGetRequestWire, TransportActionWireError>)
    requires
        opensearch_multi_get_request_fits(v),
        opensearch_multi_get_request_read_result(enc_opensearch_multi_get_request(v), r),
    ensures
        r matches Ok(x) && x@ == v,
{
    lemma_opensearch_multi_get_request_roundtrip(v, Seq::empty());
    assert(enc_opensearch_multi_get_request(v) + Seq::<u8>::empty() =~= enc_opensearch_multi_get_request(v));
}

/// The first shape of a multi-get request that a writer refuses, with the reason.
pub open spec fn opensearch_multi_get_request_write_refusal(v: OpenSearchMultiGetRequestView) -> Option<(Seq<char>, Seq<char>)> {
    if mget_items_array_write_refusal(v.items) is Some {
        mget_items_array_write_refusal(v.items)
    } else {
        None
    }
}

impl OpenSearchMultiGetRequestWire {
    /// Writes a multi-get request; refuses the shapes a writer does not encode.
    pub fn write(&self, output: &mut StreamOutput) -> (r: Result<(), TransportActionWireError>)
        ensures
            match opensearch_multi_get_request_write_refusal(self@) {
                Some((shape, reason)) => is_unsupported(r, shape, reason),
                None => r is Ok && final(output)@ == old(output)@ + enc_opensearch_multi_get_request(self@),
            },
    {
        write_parent_task_id(output, self.parent_task_node.as_str(), self.parent_task_id);
        assert(output@ == old(output)@ + enc_parent_task_id(self@.parent_task_node, self@.parent_task_id));
        match &self.preference {
            Some(x) => output.write_optional_string(Some(x.as_str())),
            None => output.write_optional_string(None),
        }
        output.write_bool(self.refresh);
        output.write_bool(self.realtime);
        write_mget_items_array(output, &self.items)?;
        assert(output@ == old(output)@ + enc_opensearch_multi_get_request(self@));
        Ok(())
    }

    /// Reads a multi-get request from the whole of `bytes`.
    pub fn read(bytes: Vec<u8>) -> (r: Result<Self, TransportActionWireError>)
        ensures
            opensearch_multi_get_request_read_result(bytes@, r),
    {
        let mut input = StreamInput::new(bytes);
        let ghost s = input.rest();
        let pt = read_parent_task_id(&mut input)?;
        proof {
            assert(input.rest() =~= s.skip(input.pos() - 0));
        }
        let preference = lift(input.read_optional_string())?;
        proof {
            assert(input.rest() =~= s.skip(input.pos() - 0));
        }
        let refresh = lift(input.read_bool())?;
        proof {
            assert(input.rest() =~= s.skip(input.pos() - 0));
        }
        let realtime = lift(input.read_bool())?;
        proof {
            assert(input.rest() =~= s.skip(input.pos() - 0));
        }
        let items = read_mget_items_array(&mut input)?;
        proof {
            assert(input.rest() =~= s.skip(input.pos() - 0));
        }
        let value = OpenSearchMultiGetRequestWire { parent_task_node: pt.0, parent_task_id: pt.1, preference, refresh, realtime, items };
        require_no_trailing_bytes(&input)?;
        Ok(value)
    }
}

/// The fields of a bulk request, as its bytes carry them.
pub struct OpenSearchBulkRequestView {
    pub parent_task_node: Seq<char>,
    pub parent_task_id: Option<i64>,
    pub wait_for_active_shards: i32,
    pub items: Seq<OpenSearchBulkRequestItemView>,
    pub refresh_policy: u8,
    pub timeout: TimeValueWire,
}

impl View for OpenSearchBulkRequestWire {
    type V = OpenSearchBulkRequestView;

    open spec fn view(&self) -> OpenSearchBulkRequestView {
        OpenSearchBulkRequestView {
            parent_task_node: self.parent_task_node@,
            parent_task_id: self.parent_task_id,
            wait_for_active_shards: self.wait_for_active_shards,
            items: bulk_item_views(self.items@),
            refresh_policy: self.refresh_policy,
            timeout: self.timeout,
        }
    }
}

/// The bytes of a bulk request.
pub open spec fn enc_opensearch_bulk_request(v: OpenSearchBulkRequestView) -> Seq<u8> {
    enc_parent_task_id(v.parent_task_node, v.parent_task_id)
        + enc_i32(v.wait_for_active_shards)
        + enc_bulk_items_array(v.items)
        + enc_byte(v.refresh_policy)
        + enc_time_value(v.timeout)
}

/// What a reader makes of the bytes of a bulk request.
pub open spec fn parse_opensearch_bulk_request(s: Seq<u8>) -> WireRead<OpenSearchBulkRequestView> {
    match parse_parent_task_id(s) {
        Some((pt, k0)) => {
            match parse_i32(s.skip(k0)) {
                Some((wait_for_active_shards, k1)) => {
                    match parse_bulk_items_array(s.skip(k0 + k1)) {
                        WireRead::Decoded(items, k2) => {
                            match parse_byte(s.skip(k0 + k1 + k2)) {
                                Some((refresh_policy, k3)) => {
                                    match parse_time_value(s.skip(k0 + k1 + k2 + k3)) {
                                        Some((timeout, k4)) => {
                                            WireRead::Decoded(OpenSearchBulkRequestView { parent_task_node: pt.0, parent_task_id: pt.1, wait_for_active_shards: wait_for_active_shards, items: items, refresh_policy: refresh_policy, timeout: timeout }, k0 + k1 + k2 + k3 + k4)
                                        },
                                        None => WireRead::Malformed,
                                    }
                                },
                                None => WireRead::Malformed,
                            }
                        },
                        WireRead::Unsupported(shape, reason) => WireRead::Unsupported(shape, reason),
                        WireRead::Malformed => WireRead::Malformed,
                    }
                },
                None => WireRead::Malformed,
            }
        },
        None => WireRead::Malformed,
    }
}

/// True when a bulk request reads back as written.
pub open spec fn opensearch_bulk_request_fits(v: OpenSearchBulkRequestView) -> bool {
    &&& parent_task_id_canonical(v.parent_task_node, v.parent_task_id)
    &&& bulk_items_array_fits(v.items)
}

/// Reading a bulk request back gives the fields written.
#[verifier::spinoff_prover]
#[verifier::rlimit(100)]
pub proof fn lemma_opensearch_bulk_request_roundtrip(v: OpenSearchBulkRequestView, rest: Seq<u8>)
    requires
        opensearch_bulk_request_fits(v),
    ensures
        parse_opensearch_bulk_request(enc_opensearch_bulk_request(v) + rest) == WireRead::Decoded(v, enc_opensearch_bulk_request(v).len() as int),
{
    let s = enc_opensearch_bulk_request(v) + rest;
    let t4 = enc_time_value(v.timeout) + rest;
    let t3 = enc_byte(v.refresh_policy) + t4;
    let t2 = enc_bulk_items_array(v.items) + t3;
    let t1 = enc_i32(v.wait_for_active_shards) + t2;
    let t0 = enc_parent_task_id(v.parent_task_node, v.parent_task_id) + t1;
    let u0 = enc_parent_task_id(v.parent_task_node, v.parent_task_id);
    let u1 = u0 + enc_i32(v.wait_for_active_shards);
    let u2 = u1 + enc_bulk_items_array(v.items);
    let u3 = u2 + enc_byte(v.refresh_policy);
    let u4 = u3 + enc_time_value(v.timeout);
    assert(s == u4 + rest);
    lemma_append_assoc(u3, enc_time_value(v.timeout), rest);
    lemma_append_assoc(u2, enc_byte(v.refresh_policy), t4);
    lemma_append_assoc(u1, enc_bulk_items_array(v.items), t3);
    lemma_append_assoc(u0, enc_i32(v.wait_for_active_shards), t2);
    assert(s == t0);
    lemma_parent_task_id_roundtrip(v.parent_task_node, v.parent_task_id, t1);
    lemma_skip_append(u0, t1);
    lemma_i32_roundtrip(v.wait_for_active_shards, t2);
    lemma_skip_append(u1, t2);
    lemma_bulk_items_array_roundtrip(v.items, t3);
    lemma_skip_append(u2, t3);
    lemma_byte_roundtrip(v.refresh_policy, t4);
    lemma_skip_append(u3, t4);
    lemma_time_value_roundtrip(v.timeout, rest);
}

/// What reading a bulk request from the whole of `bytes` gives: the fields read, a
/// refused shape, or an error.
pub open spec fn opensearch_bulk_request_read_result(bytes: Seq<u8>, r: Result<OpenSearchBulkRequestWire, TransportActionWireError>) -> bool {
    match parse_opensearch_bulk_request(bytes) {
        WireRead::Decoded(v, n) => if n < bytes.len() {
            r == Err::<OpenSearchBulkRequestWire, TransportActionWireError>(TransportActionWireError::TrailingBytes((bytes.len() - n) as usize))
        } else {
            r matches Ok(x) && x@ == v
        },
        WireRead::Unsupported(shape, reason) => is_unsupported(r, shape, reason),
        WireRead::Malformed => r is Err,
    }
}

/// Reading the whole of a written a bulk request gives back the fields written.
pub proof fn lemma_opensearch_bulk_request_read_back(v: OpenSearchBulkRequestView, r: Result<OpenSearchBulkRequestWire, TransportActionWireError>)
    requires
        opensearch_bulk_request_fits(v),
        opensearch_bulk_request_read_result(enc_opensearch_bulk_request(v), r),
    ensures
        r matches Ok(x) && x@ == v,
{
    lemma_opensearch_bulk_request_roundtrip(v, Seq::empty());
    assert(enc_opensearch_bulk_request(v) + Seq::<u8>::empty() =~= enc_opensearch_bulk_request(v));
}

/// The first shape of a bulk request that a writer refuses, with the reason.
pub open spec fn opensearch_bulk_request_write_refusal(v: OpenSearchBulkRequestView) -> Option<(Seq<char>, Seq<char>)> {
    if bulk_items_array_write_refusal(v.items) is Some {
        bulk_items_array_write_refusal(v.items)
    } else {
        None
    }
}

impl OpenSearchBulkRequestWire {
    /// Writes a bulk request; refuses the shapes a writer does not encode.
    pub fn write(&self, output: &mut StreamOutput) -> (r: Result<(), TransportActionWireError>)
        ensures
            match opensearch_bulk_request_write_refusal(self@) {
                Some((shape, reason)) => is_unsupported(r, shape, reason),
                None => r is Ok && final(output)@ == old(output)@ + enc_opensearch_bulk_request(self@),
            },
    {
        write_parent_task_id(output, self.parent_task_node.as_str(), self.parent_task_id);
        assert(output@ == old(output)@ + enc_parent_task_id(self@.parent_task_node, self@.parent_task_id));
        output.write_i32(self.wait_for_active_shards);
        write_bulk_items_array(output, &self.items)?;
        write_byte_field(output, self.refresh_policy);
        self.timeout.write(output);
        assert(output@ == old(output)@ + enc_opensearch_bulk_request(self@));
        Ok(())
    }

    /// Reads a bulk request from the whole of `bytes`.
    pub fn read(bytes: Vec<u8>) -> (r: Result<Self, TransportActionWireError>)
        ensures
            opensearch_bulk_request_read_result(bytes@, r),
    {
        let mut input = StreamInput::new(bytes);
        let ghost s = input.rest();
        let pt = read_parent_task_id(&mut input)?;
        proof {
            assert(input.rest() =~= s.skip(input.pos() - 0));
        }
        let wait_for_active_shards = lift(input.read_i32())?;
        proof {
            assert(input.rest() =~= s.skip(input.pos() - 0));
        }
        let items = read_bulk_items_array(&mut input)?;
        proof {
            assert(input.rest() =~= s.skip(input.pos() - 0));
        }
        let refresh_policy = lift(input.read_byte())?;
        proof {
            assert(input.rest() =~= s.skip(input.pos() - 0));
        }
        let timeout = TimeValueWire::read(&mut input)?;
        proof {
            assert(input.rest() =~= s.skip(input.pos() - 0));
        }
        let value = OpenSearchBulkRequestWire { parent_task_node: pt.0, parent_task_id: pt.1, wait_for_active_shards, items, refresh_policy, timeout };
        require_no_trailing_bytes(&input)?;
        Ok(value)
    }
}


/// The fields of an optional nested index request.
pub open spec fn opt_index_request_view(o: Option<OpenSearchIndexRequestWire>) -> Option<OpenSearchIndexRequestView> {
    match o {
        Some(x) => Some(x@),
        None => None,
    }
}

/// An optional nested index request: a presence flag, then the request.
#[verifier::opaque]
pub open spec fn enc_optional_index_request(o: Option<OpenSearchIndexRequestView>) -> Seq<u8> {
    match o {
        Some(v) => enc_bool(true) + enc_opensearch_index_request(v),
        None => enc_bool(false),
    }
}

/// What a reader makes of an optional nested index request.
#[verifier::opaque]
pub open spec fn parse_optional_index_request(s: Seq<u8>) -> WireRead<Option<OpenSearchIndexRequestView>> {
    match parse_bool(s) {
        None => WireRead::Malformed,
        Some((present, k)) => if present {
            match parse_opensearch_index_request(s.skip(k)) {
                WireRead::Decoded(v, m) => WireRead::Decoded(Some(v), k + m),
                WireRead::Unsupported(shape, reason) => WireRead::Unsupported(shape, reason),
                WireRead::Malformed => WireRead::Malformed,
            }
        } else {
            WireRead::Decoded(None, k)
        },
    }
}

/// True when an optional nested index request reads back as written.
#[verifier::opaque]
pub open spec fn optional_index_request_fits(o: Option<OpenSearchIndexRequestView>) -> bool {
    match o {
        Some(v) => opensearch_index_request_fits(v),
        None => true,
    }
}

/// The shape of an optional nested index request that a writer refuses.
pub open spec fn optional_index_request_write_refusal(o: Option<OpenSearchIndexRequestView>) -> Option<(Seq<char>, Seq<char>)> {
    match o {
        Some(v) => opensearch_index_request_write_refusal(v),
        None => None,
    }
}

/// Writes an optional nested index request; refuses the shapes its writer
/// refuses.
pub fn write_optional_index_request(output: &mut StreamOutput, o: &Option<OpenSearchIndexRequestWire>) -> (r: Result<
    (),
    TransportActionWireError,
>)
    ensures
        match optional_index_request_write_refusal(opt_index_request_view(*o)) {
            Some((shape, reason)) => is_unsupported(r, shape, reason),
            None => r is Ok && final(output)@ == old(output)@ + enc_optional_index_request(opt_index_request_view(*o)),
        },
{
    reveal(enc_optional_index_request);
    match o {
        Some(x) => {
            output.write_bool(true);
            let ghost mid = output@;
            x.write(output)?;
            assert(output@ =~= old(output)@ + (enc_bool(true) + enc_opensearch_index_request(x@)));
            Ok(())
        },
        None => {
            output.write_bool(false);
            Ok(())
        },
    }
}

/// Reads an optional nested index request.
pub fn read_optional_index_request(input: &mut StreamInput) -> (r: Result<
    Option<OpenSearchIndexRequestWire>,
    TransportActionWireError,
>)
    ensures
        final(input).data() == old(input).data(),
        old(input).pos() <= final(input).pos() <= final(input).data().len(),
        match parse_optional_index_request(old(input).rest()) {
            WireRead::Decoded(v, n) => r matches Ok(x) && opt_index_request_view(x) == v && final(input).pos()
                == old(input).pos() + n,
            WireRead::Unsupported(shape, reason) => is_unsupported(r, shape, reason),
            WireRead::Malformed => r is Err,
        },
{
    reveal(parse_optional_index_request);
    let ghost s = old(input).rest();
    let present = lift(input.read_bool())?;
    if present {
        assert(input.rest() =~= s.skip(1));
        let x = OpenSearchIndexRequestWire::read_from_input(input)?;
        Ok(Some(x))
    } else {
        Ok(None)
    }
}

/// An optional nested index request reads back as written.
pub proof fn lemma_optional_index_request_roundtrip(o: Option<OpenSearchIndexRequestView>, rest: Seq<u8>)
    requires
        optional_index_request_fits(o),
    ensures
        parse_optional_index_request(enc_optional_index_request(o) + rest) == WireRead::Decoded(
            o,
            enc_optional_index_request(o).len() as int,
        ),
{
    reveal(parse_optional_index_request);
    reveal(enc_optional_index_request);
    reveal(optional_index_request_fits);
    match o {
        Some(v) => {
            let s = enc_optional_index_request(o) + rest;
            lemma_append_assoc(enc_bool(true), enc_opensearch_index_request(v), rest);
            lemma_bool_roundtrip(true, enc_opensearch_index_request(v) + rest);
            lemma_skip_append(enc_bool(true), enc_opensearch_index_request(v) + rest);
            lemma_opensearch_index_request_roundtrip(v, rest);
        },
        None => {
            lemma_bool_roundtrip(false, rest);
        },
    }
}

/// The fields of each multi-get item.
pub open spec fn mget_item_views(v: Seq<OpenSearchMultiGetItemRequestWire>) -> Seq<OpenSearchMultiGetItemRequestView> {
    v.map_values(|x: OpenSearchMultiGetItemRequestWire| x@)
}

/// Multi-get items one after the other.
pub open spec fn enc_mget_items(v: Seq<OpenSearchMultiGetItemRequestView>) -> Seq<u8>
    decreases v.len(),
{
    if v.len() == 0 {
        seq![]
    } else {
        enc_mget_items(v.drop_last()) + enc_opensearch_multi_get_item_request(v.last())
    }
}

/// The item count, then the items.
#[verifier::opaque]
pub open spec fn enc_mget_items_array(v: Seq<OpenSearchMultiGetItemRequestView>) -> Seq<u8> {
    enc_vint(v.len() as i32) + enc_mget_items(v)
}

/// What a reader makes of `n` multi-get items one after the other.
pub open spec fn parse_mget_items(s: Seq<u8>, n: nat) -> WireRead<Seq<OpenSearchMultiGetItemRequestView>>
    decreases n,
{
    if n == 0 {
        WireRead::Decoded(seq![], 0)
    } else {
        match parse_mget_items(s, (n - 1) as nat) {
            WireRead::Decoded(v, k) => match parse_opensearch_multi_get_item_request(s.skip(k)) {
                WireRead::Decoded(x, m) => WireRead::Decoded(v.push(x), k + m),
                WireRead::Unsupported(shape, reason) => WireRead::Unsupported(shape, reason),
                WireRead::Malformed => WireRead::Malformed,
            },
            other => other,
        }
    }
}

/// What a reader makes of an item count, which must not be negative, and
/// the items.
#[verifier::opaque]
pub open spec fn parse_mget_items_array(s: Seq<u8>) -> WireRead<Seq<OpenSearchMultiGetItemRequestView>> {
    match parse_len(s) {
        None => WireRead::Malformed,
        Some((n, k)) => match parse_mget_items(s.skip(k), n) {
            WireRead::Decoded(v, m) => WireRead::Decoded(v, k + m),
            WireRead::Unsupported(shape, reason) => WireRead::Unsupported(shape, reason),
            WireRead::Malformed => WireRead::Malformed,
        },
    }
}

/// True when the items read back as written.
pub open spec fn mget_items_array_fits(v: Seq<OpenSearchMultiGetItemRequestView>) -> bool {
    &&& v.len() < 0x8000_0000
    &&& forall|i: int| 0 <= i < v.len() ==> #[trigger] opensearch_multi_get_item_request_fits(v[i])
}

/// The refusal of the first item that a writer refuses, if any.
pub open spec fn mget_items_array_write_refusal(v: Seq<OpenSearchMultiGetItemRequestView>) -> Option<(Seq<char>, Seq<char>)>
    decreases v.len(),
{
    if v.len() == 0 {
        None
    } else {
        match opensearch_multi_get_item_request_write_refusal(v[0]) {
            Some(refusal) => Some(refusal),
            None => mget_items_array_write_refusal(v.drop_first()),
        }
    }
}

/// Writes the item count and the items; refuses at the first item a writer
/// refuses.
pub fn write_mget_items_array(output: &mut StreamOutput, items: &Vec<OpenSearchMultiGetItemRequestWire>) -> (r: Result<
    (),
    TransportActionWireError,
>)
    ensures
        match mget_items_array_write_refusal(mget_item_views(items@)) {
            Some((shape, reason)) => is_unsupported(r, shape, reason),
            None => r is Ok && final(output)@ == old(output)@ + enc_mget_items_array(mget_item_views(items@)),
        },
{
    reveal(enc_mget_items_array);
    let ghost views = mget_item_views(items@);
    output.write_vint(items.len() as i32);
    let ghost start = output@;
    let mut i: usize = 0;
    assert(views.skip(0) =~= views);
    assert(views.take(0) =~= Seq::<OpenSearchMultiGetItemRequestView>::empty());
    while i < items.len()
        invariant
            i <= items@.len(),
            views == mget_item_views(items@),
            mget_items_array_write_refusal(views) == mget_items_array_write_refusal(views.skip(i as int)),
            start == old(output)@ + enc_vint(items@.len() as i32),
            output@ == start + enc_mget_items(views.take(i as int)),
        decreases items@.len() - i,
    {
        let ghost tail = views.skip(i as int);
        assert(tail[0] == views[i as int]);
        assert(tail.drop_first() =~= views.skip(i + 1));
        items[i].write(output)?;
        proof {
            assert(views.take(i + 1).drop_last() =~= views.take(i as int));
            assert(views.take(i + 1).last() == views[i as int]);
            lemma_append_assoc(start, enc_mget_items(views.take(i as int)), enc_opensearch_multi_get_item_request(views[i as int]));
        }
        i = i + 1;
    }
    assert(views.take(i as int) =~= views);
    assert(views.skip(i as int) =~= Seq::<OpenSearchMultiGetItemRequestView>::empty());
    Ok(())
}

/// When the items before index `i` read but item `i` does not, no count of
/// items beyond `i` reads either, and the failure is the same.
proof fn lemma_mget_items_fail_after(s: Seq<u8>, i: nat, n: nat)
    requires
        i < n,
        parse_mget_items(s, (i + 1) as nat) !is Decoded,
    ensures
        parse_mget_items(s, n) == parse_mget_items(s, (i + 1) as nat),
    decreases n - i,
{
    if n > i + 1 {
        lemma_mget_items_fail_after(s, i, (n - 1) as nat);
    }
}

/// Reads an item count and the items.
pub fn read_mget_items_array(input: &mut StreamInput) -> (r: Result<Vec<OpenSearchMultiGetItemRequestWire>, TransportActionWireError>)
    ensures
        final(input).data() == old(input).data(),
        old(input).pos() <= final(input).pos() <= final(input).data().len(),
        match parse_mget_items_array(old(input).rest()) {
            WireRead::Decoded(v, n) => r matches Ok(x) && mget_item_views(x@) == v && final(input).pos() == old(input).pos() + n,
            WireRead::Unsupported(shape, reason) => is_unsupported(r, shape, reason),
            WireRead::Malformed => r is Err,
        },
{
    reveal(parse_mget_items_array);
    let ghost s0 = old(input).rest();
    let n = lift(input.read_len())?;
    let ghost k0 = input.pos() - old(input).pos();
    let ghost s = s0.skip(k0);
    assert(input.rest() =~= s);
    let ghost p0 = input.pos();
    let mut items: Vec<OpenSearchMultiGetItemRequestWire> = Vec::new();
    assert(mget_item_views(items@) =~= Seq::<OpenSearchMultiGetItemRequestView>::empty());
    let mut i: usize = 0;
    while i < n
        invariant
            i <= n,
            input.data() == old(input).data(),
            old(input).pos() <= p0 <= input.pos() <= input.data().len(),
            s == input.data().skip(p0 as int),
            s0 == old(input).rest(),
            parse_len(s0) == Some((n as nat, k0)),
            s == s0.skip(k0),
            p0 == old(input).pos() + k0,
            parse_mget_items(s, i as nat) == WireRead::Decoded(mget_item_views(items@), input.pos() - p0),
        decreases n - i,
    {
        reveal(parse_mget_items_array);
        assert(input.rest() =~= s.skip(input.pos() - p0));
        let item = match OpenSearchMultiGetItemRequestWire::read(input) {
            Ok(x) => x,
            Err(e) => {
                proof {
                    lemma_mget_items_fail_after(s, i as nat, n as nat);
                }
                return Err(e);
            },
        };
        proof {
            assert(mget_item_views(items@.push(item)) =~= mget_item_views(items@).push(item@));
        }
        items.push(item);
        i = i + 1;
    }
    Ok(items)
}

/// Items written one after the other read back as written.
proof fn lemma_mget_items_roundtrip(v: Seq<OpenSearchMultiGetItemRequestView>, rest: Seq<u8>)
    requires
        forall|i: int| 0 <= i < v.len() ==> #[trigger] opensearch_multi_get_item_request_fits(v[i]),
    ensures
        parse_mget_items(enc_mget_items(v) + rest, v.len()) == WireRead::Decoded(v, enc_mget_items(v).len() as int),
    decreases v.len(),
{
    if v.len() > 0 {
        let init = v.drop_last();
        let e = enc_opensearch_multi_get_item_request(v.last());
        assert forall|i: int| 0 <= i < init.len() implies #[trigger] opensearch_multi_get_item_request_fits(init[i]) by {
            assert(init[i] == v[i]);
        }
        lemma_mget_items_roundtrip(init, e + rest);
        let s = enc_mget_items(v) + rest;
        assert(enc_mget_items(v) == enc_mget_items(init) + e);
        lemma_append_assoc(enc_mget_items(init), e, rest);
        assert(s == enc_mget_items(init) + (e + rest));
        assert(opensearch_multi_get_item_request_fits(v[v.len() - 1]));
        lemma_opensearch_multi_get_item_request_roundtrip(v.last(), rest);
        lemma_skip_append(enc_mget_items(init), e + rest);
        let k = enc_mget_items(init).len() as int;
        assert(s.skip(k) == e + rest);
        assert(parse_mget_items(s, init.len()) == WireRead::Decoded(init, k));
        assert(((v.len() - 1) as nat) == init.len());
        assert(init.push(v.last()) =~= v);
        assert(parse_opensearch_multi_get_item_request(s.skip(k)) == WireRead::Decoded(v.last(), e.len() as int));
    } else {
        assert(enc_mget_items(v) + rest =~= rest);
        assert(v =~= Seq::<OpenSearchMultiGetItemRequestView>::empty());
    }
}

/// An item count and items read back as written.
pub proof fn lemma_mget_items_array_roundtrip(v: Seq<OpenSearchMultiGetItemRequestView>, rest: Seq<u8>)
    requires
        mget_items_array_fits(v),
    ensures
        parse_mget_items_array(enc_mget_items_array(v) + rest) == WireRead::Decoded(v, enc_mget_items_array(v).len() as int),
{
    reveal(parse_mget_items_array);
    reveal(enc_mget_items_array);
    let c = enc_vint(v.len() as i32);
    lemma_append_assoc(c, enc_mget_items(v), rest);
    lemma_vint_roundtrip(v.len() as i32, enc_mget_items(v) + rest);
    lemma_skip_append(c, enc_mget_items(v) + rest);
    lemma_mget_items_roundtrip(v, rest);
}

/// The fields of one bulk write, as its bytes carry them.
pub enum OpenSearchBulkRequestItemView {
    Index(OpenSearchIndexRequestView),
    Delete(OpenSearchDeleteRequestView),
}

impl View for OpenSearchBulkRequestItemWire {
    type V = OpenSearchBulkRequestItemView;

    open spec fn view(&self) -> OpenSearchBulkRequestItemView {
        match self {
            OpenSearchBulkRequestItemWire::Index(x) => OpenSearchBulkRequestItemView::Index(x@),
            OpenSearchBulkRequestItemWire::Delete(x) => OpenSearchBulkRequestItemView::Delete(x@),
        }
    }
}

/// A bulk write: its kind, then the index or delete request.
#[verifier::opaque]
pub open spec fn enc_bulk_item(v: OpenSearchBulkRequestItemView) -> Seq<u8> {
    match v {
        OpenSearchBulkRequestItemView::Index(x) => enc_byte(OPENSEARCH_DOC_WRITE_REQUEST_INDEX) + enc_opensearch_index_request(x),
        OpenSearchBulkRequestItemView::Delete(x) => enc_byte(OPENSEARCH_DOC_WRITE_REQUEST_DELETE) + enc_opensearch_delete_request(x),
    }
}

/// What a reader makes of one bulk write: update writes and unknown kinds
/// are refused.
#[verifier::opaque]
pub open spec fn parse_bulk_item(s: Seq<u8>) -> WireRead<OpenSearchBulkRequestItemView> {
    match parse_byte(s) {
        None => WireRead::Malformed,
        Some((kind, k)) => if kind == OPENSEARCH_DOC_WRITE_REQUEST_INDEX {
            match parse_opensearch_index_request(s.skip(k)) {
                WireRead::Decoded(x, m) => WireRead::Decoded(OpenSearchBulkRequestItemView::Index(x), k + m),
                WireRead::Unsupported(shape, reason) => WireRead::Unsupported(shape, reason),
                WireRead::Malformed => WireRead::Malformed,
            }
        } else if kind == OPENSEARCH_DOC_WRITE_REQUEST_DELETE {
            match parse_opensearch_delete_request(s.skip(k)) {
                WireRead::Decoded(x, m) => WireRead::Decoded(OpenSearchBulkRequestItemView::Delete(x), k + m),
                WireRead::Unsupported(shape, reason) => WireRead::Unsupported(shape, reason),
                WireRead::Malformed => WireRead::Malformed,
            }
        } else if kind == OPENSEARCH_DOC_WRITE_REQUEST_UPDATE {
            WireRead::Unsupported("bulk request update item"@, "update items are not decoded by the bulk adapter yet"@)
        } else {
            WireRead::Unsupported(
                "bulk request item type"@,
                "bulk item request type is outside the OpenSearch source-derived range"@,
            )
        },
    }
}

/// True when a bulk write reads back as written.
pub open spec fn bulk_item_fits(v: OpenSearchBulkRequestItemView) -> bool {
    match v {
        OpenSearchBulkRequestItemView::Index(x) => opensearch_index_request_fits(x),
        OpenSearchBulkRequestItemView::Delete(x) => opensearch_delete_request_fits(x),
    }
}

/// The shape of a bulk write that a writer refuses: that of its request.
pub open spec fn bulk_item_write_refusal(v: OpenSearchBulkRequestItemView) -> Option<(Seq<char>, Seq<char>)> {
    match v {
        OpenSearchBulkRequestItemView::Index(x) => opensearch_index_request_write_refusal(x),
        OpenSearchBulkRequestItemView::Delete(x) => opensearch_delete_request_write_refusal(x),
    }
}

/// A bulk write reads back as written, whatever follows it.
pub proof fn lemma_bulk_item_roundtrip(v: OpenSearchBulkRequestItemView, rest: Seq<u8>)
    requires
        bulk_item_fits(v),
    ensures
        parse_bulk_item(enc_bulk_item(v) + rest) == WireRead::Decoded(v, enc_bulk_item(v).len() as int),
{
    reveal(enc_bulk_item);
    reveal(parse_bulk_item);
    match v {
        OpenSearchBulkRequestItemView::Index(x) => {
            let t = enc_byte(OPENSEARCH_DOC_WRITE_REQUEST_INDEX);
            lemma_append_assoc(t, enc_opensearch_index_request(x), rest);
            lemma_byte_roundtrip(OPENSEARCH_DOC_WRITE_REQUEST_INDEX, enc_opensearch_index_request(x) + rest);
            lemma_skip_append(t, enc_opensearch_index_request(x) + rest);
            lemma_opensearch_index_request_roundtrip(x, rest);
        },
        OpenSearchBulkRequestItemView::Delete(x) => {
            let t = enc_byte(OPENSEARCH_DOC_WRITE_REQUEST_DELETE);
            lemma_append_assoc(t, enc_opensearch_delete_request(x), rest);
            lemma_byte_roundtrip(OPENSEARCH_DOC_WRITE_REQUEST_DELETE, enc_opensearch_delete_request(x) + rest);
            lemma_skip_append(t, enc_opensearch_delete_request(x) + rest);
            lemma_opensearch_delete_request_roundtrip(x, rest);
        },
    }
}

impl OpenSearchBulkRequestItemWire {
    /// Writes a bulk write; refuses the shapes its request's writer refuses.
    pub fn write(&self, output: &mut StreamOutput) -> (r: Result<(), TransportActionWireError>)
        ensures
            match bulk_item_write_refusal(self@) {
                Some((shape, reason)) => is_unsupported(r, shape, reason),
                None => r is Ok && final(output)@ == old(output)@ + enc_bulk_item(self@),
            },
    {
        reveal(enc_bulk_item);
        match self {
            OpenSearchBulkRequestItemWire::Index(x) => {
                write_byte_field(output, OPENSEARCH_DOC_WRITE_REQUEST_INDEX);
                x.write(output)?;
                assert(output@ =~= old(output)@ + enc_bulk_item(self@));
                Ok(())
            },
            OpenSearchBulkRequestItemWire::Delete(x) => {
                write_byte_field(output, OPENSEARCH_DOC_WRITE_REQUEST_DELETE);
                x.write(output)?;
                assert(output@ =~= old(output)@ + enc_bulk_item(self@));
                Ok(())
            },
        }
    }

    /// Reads a bulk write.
    pub fn read(input: &mut StreamInput) -> (r: Result<Self, TransportActionWireError>)
        ensures
            final(input).data() == old(input).data(),
            old(input).pos() <= final(input).pos() <= final(input).data().len(),
            match parse_bulk_item(old(input).rest()) {
                WireRead::Decoded(v, n) => r matches Ok(x) && x@ == v && final(input).pos() == old(input).pos() + n,
                WireRead::Unsupported(shape, reason) => is_unsupported(r, shape, reason),
                WireRead::Malformed => r is Err,
            },
    {
        reveal(parse_bulk_item);
        let ghost s = old(input).rest();
        let kind = lift(input.read_byte())?;
        assert(input.rest() =~= s.skip(1));
        if kind == OPENSEARCH_DOC_WRITE_REQUEST_INDEX {
            let x = OpenSearchIndexRequestWire::read_from_input(input)?;
            Ok(OpenSearchBulkRequestItemWire::Index(x))
        } else if kind == OPENSEARCH_DOC_WRITE_REQUEST_DELETE {
            let x = OpenSearchDeleteRequestWire::read_from_input(input)?;
            Ok(OpenSearchBulkRequestItemWire::Delete(x))
        } else if kind == OPENSEARCH_DOC_WRITE_REQUEST_UPDATE {
            Err(
                TransportActionWireError::UnsupportedWireShape {
                    shape: "bulk request update item",
                    reason: "update items are not decoded by the bulk adapter yet",
                },
            )
        } else {
            Err(
                TransportActionWireError::UnsupportedWireShape {
                    shape: "bulk request item type",
                    reason: "bulk item request type is outside the OpenSearch source-derived range",
                },
            )
        }
    }
}

/// The fields of each bulk write.
pub open spec fn bulk_item_views(v: Seq<OpenSearchBulkRequestItemWire>) -> Seq<OpenSearchBulkRequestItemView> {
    v.map_values(|x: OpenSearchBulkRequestItemWire| x@)
}

/// Bulk writes one after the other.
pub open spec fn enc_bulk_items(v: Seq<OpenSearchBulkRequestItemView>) -> Seq<u8>
    decreases v.len(),
{
    if v.len() == 0 {
        seq![]
    } else {
        enc_bulk_items(v.drop_last()) + enc_bulk_item(v.last())
    }
}

/// The item count, then the items.
#[verifier::opaque]
pub open spec fn enc_bulk_items_array(v: Seq<OpenSearchBulkRequestItemView>) -> Seq<u8> {
    enc_vint(v.len() as i32) + enc_bulk_items(v)
}

/// What a reader makes of `n` bulk writes one after the other.
pub open spec fn parse_bulk_items(s: Seq<u8>, n: nat) -> WireRead<Seq<OpenSearchBulkRequestItemView>>
    decreases n,
{
    if n == 0 {
        WireRead::Decoded(seq![], 0)
    } else {
        match parse_bulk_items(s, (n - 1) as nat) {
            WireRead::Decoded(v, k) => match parse_bulk_item(s.skip(k)) {
                WireRead::Decoded(x, m) => WireRead::Decoded(v.push(x), k + m),
                WireRead::Unsupported(shape, reason) => WireRead::Unsupported(shape, reason),
                WireRead::Malformed => WireRead::Malformed,
            },
            other => other,
        }
    }
}

/// What a reader makes of an item count, which must not be negative, and
/// the items.
#[verifier::opaque]
pub open spec fn parse_bulk_items_array(s: Seq<u8>) -> WireRead<Seq<OpenSearchBulkRequestItemView>> {
    match parse_len(s) {
        None => WireRead::Malformed,
        Some((n, k)) => match parse_bulk_items(s.skip(k), n) {
            WireRead::Decoded(v, m) => WireRead::Decoded(v, k + m),
            WireRead::Unsupported(shape, reason) => WireRead::Unsupported(shape, reason),
            WireRead::Malformed => WireRead::Malformed,
        },
    }
}

/// True when the items read back as written.
pub open spec fn bulk_items_array_fits(v: Seq<OpenSearchBulkRequestItemView>) -> bool {
    &&& v.len() < 0x8000_0000
    &&& forall|i: int| 0 <= i < v.len() ==> #[trigger] bulk_item_fits(v[i])
}

/// The refusal of the first item that a writer refuses, if any.
pub open spec fn bulk_items_array_write_refusal(v: Seq<OpenSearchBulkRequestItemView>) -> Option<(Seq<char>, Seq<char>)>
    decreases v.len(),
{
    if v.len() == 0 {
        None
    } else {
        match bulk_item_write_refusal(v[0]) {
            Some(refusal) => Some(refusal),
            None => bulk_items_array_write_refusal(v.drop_first()),
        }
    }
}

/// Writes the item count and the items; refuses at the first item a writer
/// refuses.
pub fn write_bulk_items_array(output: &mut StreamOutput, items: &Vec<OpenSearchBulkRequestItemWire>) -> (r: Result<
    (),
    TransportActionWireError,
>)
    ensures
        match bulk_items_array_write_refusal(bulk_item_views(items@)) {
            Some((shape, reason)) => is_unsupported(r, shape, reason),
            None => r is Ok && final(output)@ == old(output)@ + enc_bulk_items_array(bulk_item_views(items@)),
        },
{
    reveal(enc_bulk_items_array);
    let ghost views = bulk_item_views(items@);
    output.write_vint(items.len() as i32);
    let ghost start = output@;
    let mut i: usize = 0;
    assert(views.skip(0) =~= views);
    assert(views.take(0) =~= Seq::<OpenSearchBulkRequestItemView>::empty());
    while i < items.len()
        invariant
            i <= items@.len(),
            views == bulk_item_views(items@),
            bulk_items_array_write_refusal(views) == bulk_items_array_write_refusal(views.skip(i as int)),
            start == old(output)@ + enc_vint(items@.len() as i32),
            output@ == start + enc_bulk_items(views.take(i as int)),
        decreases items@.len() - i,
    {
        let ghost tail = views.skip(i as int);
        assert(tail[0] == views[i as int]);
        assert(tail.drop_first() =~= views.skip(i + 1));
        items[i].write(output)?;
        proof {
            assert(views.take(i + 1).drop_last() =~= views.take(i as int));
            assert(views.take(i + 1).last() == views[i as int]);
            lemma_append_assoc(start, enc_bulk_items(views.take(i as int)), enc_bulk_item(views[i as int]));
        }
        i = i + 1;
    }
    assert(views.take(i as int) =~= views);
    assert(views.skip(i as int) =~= Seq::<OpenSearchBulkRequestItemView>::empty());
    Ok(())
}

/// When the items before index `i` read but item `i` does not, no count of
/// items beyond `i` reads either, and the failure is the same.
proof fn lemma_bulk_items_fail_after(s: Seq<u8>, i: nat, n: nat)
    requires
        i < n,
        parse_bulk_items(s, (i + 1) as nat) !is Decoded,
    ensures
        parse_bulk_items(s, n) == parse_bulk_items(s, (i + 1) as nat),
    decreases n - i,
{
    if n > i + 1 {
        lemma_bulk_items_fail_after(s, i, (n - 1) as nat);
    }
}

/// Reads an item count and the items.
pub fn read_bulk_items_array(input: &mut StreamInput) -> (r: Result<Vec<OpenSearchBulkRequestItemWire>, TransportActionWireError>)
    ensures
        final(input).data() == old(input).data(),
        old(input).pos() <= final(input).pos() <= final(input).data().len(),
        match parse_bulk_items_array(old(input).rest()) {
            WireRead::Decoded(v, n) => r matches Ok(x) && bulk_item_views(x@) == v && final(input).pos() == old(input).pos() + n,
            WireRead::Unsupported(shape, reason) => is_unsupported(r, shape, reason),
            WireRead::Malformed => r is Err,
        },
{
    reveal(parse_bulk_items_array);
    let ghost s0 = old(input).rest();
    let n = lift(input.read_len())?;
    let ghost k0 = input.pos() - old(input).pos();
    let ghost s = s0.skip(k0);
    assert(input.rest() =~= s);
    let ghost p0 = input.pos();
    let mut items: Vec<OpenSearchBulkRequestItemWire> = Vec::new();
    assert(bulk_item_views(items@) =~= Seq::<OpenSearchBulkRequestItemView>::empty());
    let mut i: usize = 0;
    while i < n
        invariant
            i <= n,
            input.data() == old(input).data(),
            old(input).pos() <= p0 <= input.pos() <= input.data().len(),
            s == input.data().skip(p0 as int),
            s0 == old(input).rest(),
            parse_len(s0) == Some((n as nat, k0)),
            s == s0.skip(k0),
            p0 == old(input).pos() + k0,
            parse_bulk_items(s, i as nat) == WireRead::Decoded(bulk_item_views(items@), input.pos() - p0),
        decreases n - i,
    {
        reveal(parse_bulk_items_array);
        assert(input.rest() =~= s.skip(input.pos() - p0));
        let item = match OpenSearchBulkRequestItemWire::read(input) {
            Ok(x) => x,
            Err(e) => {
                proof {
                    lemma_bulk_items_fail_after(s, i as nat, n as nat);
                }
                return Err(e);
            },
        };
        proof {
            assert(bulk_item_views(items@.push(item)) =~= bulk_item_views(items@).push(item@));
        }
        items.push(item);
        i = i + 1;
    }
    Ok(items)
}

/// Items written one after the other read back as written.
proof fn lemma_bulk_items_roundtrip(v: Seq<OpenSearchBulkRequestItemView>, rest: Seq<u8>)
    requires
        forall|i: int| 0 <= i < v.len() ==> #[trigger] bulk_item_fits(v[i]),
    ensures
        parse_bulk_items(enc_bulk_items(v) + rest, v.len()) == WireRead::Decoded(v, enc_bulk_items(v).len() as int),
    decreases v.len(),
{
    if v.len() > 0 {
        let init = v.drop_last();
        let e = enc_bulk_item(v.last());
        assert forall|i: int| 0 <= i < init.len() implies #[trigger] bulk_item_fits(init[i]) by {
            assert(init[i] == v[i]);
        }
        lemma_bulk_items_roundtrip(init, e + rest);
        let s = enc_bulk_items(v) + rest;
        assert(enc_bulk_items(v) == enc_bulk_items(init) + e);
        lemma_append_assoc(enc_bulk_items(init), e, rest);
        assert(s == enc_bulk_items(init) + (e + rest));
        assert(bulk_item_fits(v[v.len() - 1]));
        lemma_bulk_item_roundtrip(v.last(), rest);
        lemma_skip_append(enc_bulk_items(init), e + rest);
        let k = enc_bulk_items(init).len() as int;
        assert(s.skip(k) == e + rest);
        assert(parse_bulk_items(s, init.len()) == WireRead::Decoded(init, k));
        assert(((v.len() - 1) as nat) == init.len());
        assert(init.push(v.last()) =~= v);
        assert(parse_bulk_item(s.skip(k)) == WireRead::Decoded(v.last(), e.len() as int));
    } else {
        assert(enc_bulk_items(v) + rest =~= rest);
        assert(v =~= Seq::<OpenSearchBulkRequestItemView>::empty());
    }
}

/// An item count and items read back as written.
pub proof fn lemma_bulk_items_array_roundtrip(v: Seq<OpenSearchBulkRequestItemView>, rest: Seq<u8>)
    requires
        bulk_items_array_fits(v),
    ensures
        parse_bulk_items_array(enc_bulk_items_array(v) + rest) == WireRead::Decoded(v, enc_bulk_items_array(v).len() as int),
{
    reveal(parse_bulk_items_array);
    reveal(enc_bulk_items_array);
    let c = enc_vint(v.len() as i32);
    lemma_append_assoc(c, enc_bulk_items(v), rest);
    lemma_vint_roundtrip(v.len() as i32, enc_bulk_items(v) + rest);
    lemma_skip_append(c, enc_bulk_items(v) + rest);
    lemma_bulk_items_roundtrip(v, rest);
}
/// The wire order of a get request: its fields go on the wire one after the
/// other in the order listed here, and a reader given them in that order
/// reads each back into its own field, whatever follows them.
pub proof fn lemma_opensearch_get_request_wire_order(v: OpenSearchGetRequestView, rest: Seq<u8>)
    requires
        opensearch_get_request_fits(v),
    ensures
        enc_opensearch_get_request(v) == (enc_parent_task_id(v.parent_task_node, v.parent_task_id) + enc_bool(v.internal_shard_id_present) + enc_optional_string(v.index) + enc_string(v.id) + enc_optional_string(v.routing) + enc_optional_string(v.preference) + enc_bool(v.refresh) + enc_optional_string_array(v.stored_fields) + enc_bool(v.realtime) + enc_byte(v.version_type) + enc_i64(v.version) + enc_bool(v.fetch_source_context_present)),
        parse_opensearch_get_request((enc_parent_task_id(v.parent_task_node, v.parent_task_id) + enc_bool(v.internal_shard_id_present) + enc_optional_string(v.index) + enc_string(v.id) + enc_optional_string(v.routing) + enc_optional_string(v.preference) + enc_bool(v.refresh) + enc_optional_string_array(v.stored_fields) + enc_bool(v.realtime) + enc_byte(v.version_type) + enc_i64(v.version) + enc_bool(v.fetch_source_context_present)) + rest) == WireRead::Decoded(v, (enc_parent_task_id(v.parent_task_node, v.parent_task_id) + enc_bool(v.internal_shard_id_present) + enc_optional_string(v.index) + enc_string(v.id) + enc_optional_string(v.routing) + enc_optional_string(v.preference) + enc_bool(v.refresh) + enc_optional_string_array(v.stored_fields) + enc_bool(v.realtime) + enc_byte(v.version_type) + enc_i64(v.version) + enc_bool(v.fetch_source_context_present)).len() as int),
{
    assert(enc_opensearch_get_request(v) =~= (enc_parent_task_id(v.parent_task_node, v.parent_task_id) + enc_bool(v.internal_shard_id_present) + enc_optional_string(v.index) + enc_string(v.id) + enc_optional_string(v.routing) + enc_optional_string(v.preference) + enc_bool(v.refresh) + enc_optional_string_array(v.stored_fields) + enc_bool(v.realtime) + enc_byte(v.version_type) + enc_i64(v.version) + enc_bool(v.fetch_source_context_present)));
    lemma_opensearch_get_request_roundtrip(v, rest);
}

/// The wire order of a delete request: its fields go on the wire one after the
/// other in the order listed here, and a reader given them in that order
/// reads each back into its own field, whatever follows them.
pub proof fn lemma_opensearch_delete_request_wire_order(v: OpenSearchDeleteRequestView, rest: Seq<u8>)
    requires
        opensearch_delete_request_fits(v),
    ensures
        enc_opensearch_delete_request(v) == (enc_parent_task_id(v.parent_task_node, v.parent_task_id) + enc_bool(v.shard_id_present) + enc_i32(v.wait_for_active_shards) + enc_time_value(v.timeout) + enc_string(v.index) + enc_vlong(v.routed_based_on_cluster_version) + enc_byte(v.refresh_policy) + enc_string(v.id) + enc_optional_string(v.routing) + enc_i64(v.version) + enc_byte(v.version_type) + enc_zlong(v.if_seq_no) + enc_vlong(v.if_primary_term)),
        parse_opensearch_delete_request((enc_parent_task_id(v.parent_task_node, v.parent_task_id) + enc_bool(v.shard_id_present) + enc_i32(v.wait_for_active_shards) + enc_time_value(v.timeout) + enc_string(v.index) + enc_vlong(v.routed_based_on_cluster_version) + enc_byte(v.refresh_policy) + enc_string(v.id) + enc_optional_string(v.routing) + enc_i64(v.version) + enc_byte(v.version_type) + enc_zlong(v.if_seq_no) + enc_vlong(v.if_primary_term)) + rest) == WireRead::Decoded(v, (enc_parent_task_id(v.parent_task_node, v.parent_task_id) + enc_bool(v.shard_id_present) + enc_i32(v.wait_for_active_shards) + enc_time_value(v.timeout) + enc_string(v.index) + enc_vlong(v.routed_based_on_cluster_version) + enc_byte(v.refresh_policy) + enc_string(v.id) + enc_optional_string(v.routing) + enc_i64(v.version) + enc_byte(v.version_type) + enc_zlong(v.if_seq_no) + enc_vlong(v.if_primary_term)).len() as int),
{
    assert(enc_opensearch_delete_request(v) =~= (enc_parent_task_id(v.parent_task_node, v.parent_task_id) + enc_bool(v.shard_id_present) + enc_i32(v.wait_for_active_shards) + enc_time_value(v.timeout) + enc_string(v.index) + enc_vlong(v.routed_based_on_cluster_version) + enc_byte(v.refresh_policy) + enc_string(v.id) + enc_optional_string(v.routing) + enc_i64(v.version) + enc_byte(v.version_type) + enc_zlong(v.if_seq_no) + enc_vlong(v.if_primary_term)));
    lemma_opensearch_delete_request_roundtrip(v, rest);
}

/// The wire order of a index response: its fields go on the wire one after the
/// other in the order listed here, and a reader given them in that order
/// reads each back into its own field, whatever follows them.
pub proof fn lemma_opensearch_index_response_wire_order(v: OpenSearchIndexResponseView, rest: Seq<u8>)
    requires
        opensearch_index_response_fits(v),
    ensures
        enc_opensearch_index_response(v) == (enc_vint(v.shard_total) + enc_vint(v.shard_successful) + enc_vint(0) + enc_string(v.index) + enc_string(v.index_uuid) + enc_vint(v.shard_id) + enc_string(v.id) + enc_zlong(v.version) + enc_zlong(v.seq_no) + enc_vlong(v.primary_term) + enc_bool(v.forced_refresh) + enc_byte(v.result)),
        parse_opensearch_index_response((enc_vint(v.shard_total) + enc_vint(v.shard_successful) + enc_vint(0) + enc_string(v.index) + enc_string(v.index_uuid) + enc_vint(v.shard_id) + enc_string(v.id) + enc_zlong(v.version) + enc_zlong(v.seq_no) + enc_vlong(v.primary_term) + enc_bool(v.forced_refresh) + enc_byte(v.result)) + rest) == WireRead::Decoded(v, (enc_vint(v.shard_total) + enc_vint(v.shard_successful) + enc_vint(0) + enc_string(v.index) + enc_string(v.index_uuid) + enc_vint(v.shard_id) + enc_string(v.id) + enc_zlong(v.version) + enc_zlong(v.seq_no) + enc_vlong(v.primary_term) + enc_bool(v.forced_refresh) + enc_byte(v.result)).len() as int),
{
    assert(enc_opensearch_index_response(v) =~= (enc_vint(v.shard_total) + enc_vint(v.shard_successful) + enc_vint(0) + enc_string(v.index) + enc_string(v.index_uuid) + enc_vint(v.shard_id) + enc_string(v.id) + enc_zlong(v.version) + enc_zlong(v.seq_no) + enc_vlong(v.primary_term) + enc_bool(v.forced_refresh) + enc_byte(v.result)));
    lemma_opensearch_index_response_roundtrip(v, rest);
}

/// The wire order of a update response: its fields go on the wire one after the
/// other in the order listed here, and a reader given them in that order
/// reads each back into its own field, whatever follows them.
pub proof fn lemma_opensearch_update_response_wire_order(v: OpenSearchUpdateResponseView, rest: Seq<u8>)
    requires
        opensearch_update_response_fits(v),
    ensures
        enc_opensearch_update_response(v) == (enc_vint(v.shard_total) + enc_vint(v.shard_successful) + enc_vint(0) + enc_string(v.index) + enc_string(v.index_uuid) + enc_vint(v.shard_id) + enc_string(v.id) + enc_zlong(v.version) + enc_zlong(v.seq_no) + enc_vlong(v.primary_term) + enc_bool(v.forced_refresh) + enc_byte(v.result) + enc_bool(v.get_result_present)),
        parse_opensearch_update_response((enc_vint(v.shard_total) + enc_vint(v.shard_successful) + enc_vint(0) + enc_string(v.index) + enc_string(v.index_uuid) + enc_vint(v.shard_id) + enc_string(v.id) + enc_zlong(v.version) + enc_zlong(v.seq_no) + enc_vlong(v.primary_term) + enc_bool(v.forced_refresh) + enc_byte(v.result) + enc_bool(v.get_result_present)) + rest) == WireRead::Decoded(v, (enc_vint(v.shard_total) + enc_vint(v.shard_successful) + enc_vint(0) + enc_string(v.index) + enc_string(v.index_uuid) + enc_vint(v.shard_id) + enc_string(v.id) + enc_zlong(v.version) + enc_zlong(v.seq_no) + enc_vlong(v.primary_term) + enc_bool(v.forced_refresh) + enc_byte(v.result) + enc_bool(v.get_result_present)).len() as int),
{
    assert(enc_opensearch_update_response(v) =~= (enc_vint(v.shard_total) + enc_vint(v.shard_successful) + enc_vint(0) + enc_string(v.index) + enc_string(v.index_uuid) + enc_vint(v.shard_id) + enc_string(v.id) + enc_zlong(v.version) + enc_zlong(v.seq_no) + enc_vlong(v.primary_term) + enc_bool(v.forced_refresh) + enc_byte(v.result) + enc_bool(v.get_result_present)));
    lemma_opensearch_update_response_roundtrip(v, rest);
}

/// The wire order of a delete response: its fields go on the wire one after the
/// other in the order listed here, and a reader given them in that order
/// reads each back into its own field, whatever follows them.
pub proof fn lemma_opensearch_delete_response_wire_order(v: OpenSearchDeleteResponseView, rest: Seq<u8>)
    requires
        opensearch_delete_response_fits(v),
    ensures
        enc_opensearch_delete_response(v) == (enc_vint(v.shard_total) + enc_vint(v.shard_successful) + enc_vint(0) + enc_string(v.index) + enc_string(v.index_uuid) + enc_vint(v.shard_id) + enc_string(v.id) + enc_zlong(v.version) + enc_zlong(v.seq_no) + enc_vlong(v.primary_term) + enc_bool(v.forced_refresh) + enc_byte(v.result)),
        parse_opensearch_delete_response((enc_vint(v.shard_total) + enc_vint(v.shard_successful) + enc_vint(0) + enc_string(v.index) + enc_string(v.index_uuid) + enc_vint(v.shard_id) + enc_string(v.id) + enc_zlong(v.version) + enc_zlong(v.seq_no) + enc_vlong(v.primary_term) + enc_bool(v.forced_refresh) + enc_byte(v.result)) + rest) == WireRead::Decoded(v, (enc_vint(v.shard_total) + enc_vint(v.shard_successful) + enc_vint(0) + enc_string(v.index) + enc_string(v.index_uuid) + enc_vint(v.shard_id) + enc_string(v.id) + enc_zlong(v.version) + enc_zlong(v.seq_no) + enc_vlong(v.primary_term) + enc_bool(v.forced_refresh) + enc_byte(v.result)).len() as int),
{
    assert(enc_opensearch_delete_response(v) =~= (enc_vint(v.shard_total) + enc_vint(v.shard_successful) + enc_vint(0) + enc_string(v.index) + enc_string(v.index_uuid) + enc_vint(v.shard_id) + enc_string(v.id) + enc_zlong(v.version) + enc_zlong(v.seq_no) + enc_vlong(v.primary_term) + enc_bool(v.forced_refresh) + enc_byte(v.result)));
    lemma_opensearch_delete_response_roundtrip(v, rest);
}

/// The wire order of a refresh request: its fields go on the wire one after the
/// other in the order listed here, and a reader given them in that order
/// reads each back into its own field, whatever follows them.
pub proof fn lemma_opensearch_refresh_request_wire_order(v: OpenSearchRefreshRequestView, rest: Seq<u8>)
    requires
        opensearch_refresh_request_fits(v),
    ensures
        enc_opensearch_refresh_request(v) == (enc_parent_task_id(v.parent_task_node, v.parent_task_id) + enc_string_array(v.indices) + enc_indices_options(v.indices_options)),
        parse_opensearch_refresh_request((enc_parent_task_id(v.parent_task_node, v.parent_task_id) + enc_string_array(v.indices) + enc_indices_options(v.indices_options)) + rest) == WireRead::Decoded(v, (enc_parent_task_id(v.parent_task_node, v.parent_task_id) + enc_string_array(v.indices) + enc_indices_options(v.indices_options)).len() as int),
{
    assert(enc_opensearch_refresh_request(v) =~= (enc_parent_task_id(v.parent_task_node, v.parent_task_id) + enc_string_array(v.indices) + enc_indices_options(v.indices_options)));
    lemma_opensearch_refresh_request_roundtrip(v, rest);
}

/// The wire order of a refresh response: its fields go on the wire one after the
/// other in the order listed here, and a reader given them in that order
/// reads each back into its own field, whatever follows them.
pub proof fn lemma_opensearch_refresh_response_wire_order(v: OpenSearchRefreshResponseView, rest: Seq<u8>)
    requires
        opensearch_refresh_response_fits(v),
    ensures
        enc_opensearch_refresh_response(v) == (enc_vint(v.total_shards) + enc_vint(v.successful_shards) + enc_vint(v.failed_shards) + enc_vint(0)),
        parse_opensearch_refresh_response((enc_vint(v.total_shards) + enc_vint(v.successful_shards) + enc_vint(v.failed_shards) + enc_vint(0)) + rest) == WireRead::Decoded(v, (enc_vint(v.total_shards) + enc_vint(v.successful_shards) + enc_vint(v.failed_shards) + enc_vint(0)).len() as int),
{
    assert(enc_opensearch_refresh_response(v) =~= (enc_vint(v.total_shards) + enc_vint(v.successful_shards) + enc_vint(v.failed_shards) + enc_vint(0)));
    lemma_opensearch_refresh_response_roundtrip(v, rest);
}

/// The wire order of a index request: its fields go on the wire one after the
/// other in the order listed here, and a reader given them in that order
/// reads each back into its own field, whatever follows them.
pub proof fn lemma_opensearch_index_request_wire_order(v: OpenSearchIndexRequestView, rest: Seq<u8>)
    requires
        opensearch_index_request_fits(v),
    ensures
        enc_opensearch_index_request(v) == (enc_parent_task_id(v.parent_task_node, v.parent_task_id) + enc_bool(v.shard_id_present) + enc_i32(v.wait_for_active_shards) + enc_time_value(v.timeout) + enc_string(v.index) + enc_vlong(v.routed_based_on_cluster_version) + enc_byte(v.refresh_policy) + enc_optional_string(v.id) + enc_optional_string(v.routing) + enc_json_bytes(v.source) + enc_bool(v.extra_field_values_present) + enc_byte(v.op_type) + enc_i64(v.version) + enc_byte(v.version_type) + enc_optional_string(v.pipeline) + enc_optional_string(v.final_pipeline) + enc_optional_string(v.system_ingest_pipeline) + enc_bool(v.pipeline_resolved) + enc_bool(v.retry) + enc_i64(v.auto_generated_timestamp) + enc_optional_string(v.content_type) + enc_zlong(v.if_seq_no) + enc_vlong(v.if_primary_term) + enc_bool(v.require_alias)),
        parse_opensearch_index_request((enc_parent_task_id(v.parent_task_node, v.parent_task_id) + enc_bool(v.shard_id_present) + enc_i32(v.wait_for_active_shards) + enc_time_value(v.timeout) + enc_string(v.index) + enc_vlong(v.routed_based_on_cluster_version) + enc_byte(v.refresh_policy) + enc_optional_string(v.id) + enc_optional_string(v.routing) + enc_json_bytes(v.source) + enc_bool(v.extra_field_values_present) + enc_byte(v.op_type) + enc_i64(v.version) + enc_byte(v.version_type) + enc_optional_string(v.pipeline) + enc_optional_string(v.final_pipeline) + enc_optional_string(v.system_ingest_pipeline) + enc_bool(v.pipeline_resolved) + enc_bool(v.retry) + enc_i64(v.auto_generated_timestamp) + enc_optional_string(v.content_type) + enc_zlong(v.if_seq_no) + enc_vlong(v.if_primary_term) + enc_bool(v.require_alias)) + rest) == WireRead::Decoded(v, (enc_parent_task_id(v.parent_task_node, v.parent_task_id) + enc_bool(v.shard_id_present) + enc_i32(v.wait_for_active_shards) + enc_time_value(v.timeout) + enc_string(v.index) + enc_vlong(v.routed_based_on_cluster_version) + enc_byte(v.refresh_policy) + enc_optional_string(v.id) + enc_optional_string(v.routing) + enc_json_bytes(v.source) + enc_bool(v.extra_field_values_present) + enc_byte(v.op_type) + enc_i64(v.version) + enc_byte(v.version_type) + enc_optional_string(v.pipeline) + enc_optional_string(v.final_pipeline) + enc_optional_string(v.system_ingest_pipeline) + enc_bool(v.pipeline_resolved) + enc_bool(v.retry) + enc_i64(v.auto_generated_timestamp) + enc_optional_string(v.content_type) + enc_zlong(v.if_seq_no) + enc_vlong(v.if_primary_term) + enc_bool(v.require_alias)).len() as int),
{
    assert(enc_opensearch_index_request(v) =~= (enc_parent_task_id(v.parent_task_node, v.parent_task_id) + enc_bool(v.shard_id_present) + enc_i32(v.wait_for_active_shards) + enc_time_value(v.timeout) + enc_string(v.index) + enc_vlong(v.routed_based_on_cluster_version) + enc_byte(v.refresh_policy) + enc_optional_string(v.id) + enc_optional_string(v.routing) + enc_json_bytes(v.source) + enc_bool(v.extra_field_values_present) + enc_byte(v.op_type) + enc_i64(v.version) + enc_byte(v.version_type) + enc_optional_string(v.pipeline) + enc_optional_string(v.final_pipeline) + enc_optional_string(v.system_ingest_pipeline) + enc_bool(v.pipeline_resolved) + enc_bool(v.retry) + enc_i64(v.auto_generated_timestamp) + enc_optional_string(v.content_type) + enc_zlong(v.if_seq_no) + enc_vlong(v.if_primary_term) + enc_bool(v.require_alias)));
    lemma_opensearch_index_request_roundtrip(v, rest);
}

/// The wire order of a update request: its fields go on the wire one after the
/// other in the order listed here, and a reader given them in that order
/// reads each back into its own field, whatever follows them.
pub proof fn lemma_opensearch_update_request_wire_order(v: OpenSearchUpdateRequestView, rest: Seq<u8>)
    requires
        opensearch_update_request_fits(v),
    ensures
        enc_opensearch_update_request(v) == (enc_parent_task_id(v.parent_task_node, v.parent_task_id) + enc_string(v.index) + enc_bool(v.shard_id_present) + enc_time_value(v.timeout) + enc_optional_string(v.concrete_index) + enc_i32(v.wait_for_active_shards) + enc_string(v.id) + enc_optional_string(v.routing) + enc_bool(v.script_present) + enc_vint(v.retry_on_conflict) + enc_byte(v.refresh_policy) + enc_optional_index_request(v.doc) + enc_bool(v.fetch_source_context_present) + enc_optional_index_request(v.upsert) + enc_bool(v.doc_as_upsert) + enc_zlong(v.if_seq_no) + enc_vlong(v.if_primary_term) + enc_bool(v.detect_noop) + enc_bool(v.scripted_upsert) + enc_bool(v.require_alias)),
        parse_opensearch_update_request((enc_parent_task_id(v.parent_task_node, v.parent_task_id) + enc_string(v.index) + enc_bool(v.shard_id_present) + enc_time_value(v.timeout) + enc_optional_string(v.concrete_index) + enc_i32(v.wait_for_active_shards) + enc_string(v.id) + enc_optional_string(v.routing) + enc_bool(v.script_present) + enc_vint(v.retry_on_conflict) + enc_byte(v.refresh_policy) + enc_optional_index_request(v.doc) + enc_bool(v.fetch_source_context_present) + enc_optional_index_request(v.upsert) + enc_bool(v.doc_as_upsert) + enc_zlong(v.if_seq_no) + enc_vlong(v.if_primary_term) + enc_bool(v.detect_noop) + enc_bool(v.scripted_upsert) + enc_bool(v.require_alias)) + rest) == WireRead::Decoded(v, (enc_parent_task_id(v.parent_task_node, v.parent_task_id) + enc_string(v.index) + enc_bool(v.shard_id_present) + enc_time_value(v.timeout) + enc_optional_string(v.concrete_index) + enc_i32(v.wait_for_active_shards) + enc_string(v.id) + enc_optional_string(v.routing) + enc_bool(v.script_present) + enc_vint(v.retry_on_conflict) + enc_byte(v.refresh_policy) + enc_optional_index_request(v.doc) + enc_bool(v.fetch_source_context_present) + enc_optional_index_request(v.upsert) + enc_bool(v.doc_as_upsert) + enc_zlong(v.if_seq_no) + enc_vlong(v.if_primary_term) + enc_bool(v.detect_noop) + enc_bool(v.scripted_upsert) + enc_bool(v.require_alias)).len() as int),
{
    assert(enc_opensearch_update_request(v) =~= (enc_parent_task_id(v.parent_task_node, v.parent_task_id) + enc_string(v.index) + enc_bool(v.shard_id_present) + enc_time_value(v.timeout) + enc_optional_string(v.concrete_index) + enc_i32(v.wait_for_active_shards) + enc_string(v.id) + enc_optional_string(v.routing) + enc_bool(v.script_present) + enc_vint(v.retry_on_conflict) + enc_byte(v.refresh_policy) + enc_optional_index_request(v.doc) + enc_bool(v.fetch_source_context_present) + enc_optional_index_request(v.upsert) + enc_bool(v.doc_as_upsert) + enc_zlong(v.if_seq_no) + enc_vlong(v.if_primary_term) + enc_bool(v.detect_noop) + enc_bool(v.scripted_upsert) + enc_bool(v.require_alias)));
    lemma_opensearch_update_request_roundtrip(v, rest);
}

/// The wire order of a multi get item request: its fields go on the wire one after the
/// other in the order listed here, and a reader given them in that order
/// reads each back into its own field, whatever follows them.
pub proof fn lemma_opensearch_multi_get_item_request_wire_order(v: OpenSearchMultiGetItemRequestView, rest: Seq<u8>)
    requires
        opensearch_multi_get_item_request_fits(v),
    ensures
        enc_opensearch_multi_get_item_request(v) == (enc_string(v.index) + enc_string(v.id) + enc_optional_string(v.routing) + enc_optional_string_array(v.stored_fields) + enc_i64(v.version) + enc_byte(v.version_type) + enc_bool(v.fetch_source_context_present)),
        parse_opensearch_multi_get_item_request((enc_string(v.index) + enc_string(v.id) + enc_optional_string(v.routing) + enc_optional_string_array(v.stored_fields) + enc_i64(v.version) + enc_byte(v.version_type) + enc_bool(v.fetch_source_context_present)) + rest) == WireRead::Decoded(v, (enc_string(v.index) + enc_string(v.id) + enc_optional_string(v.routing) + enc_optional_string_array(v.stored_fields) + enc_i64(v.version) + enc_byte(v.version_type) + enc_bool(v.fetch_source_context_present)).len() as int),
{
    assert(enc_opensearch_multi_get_item_request(v) =~= (enc_string(v.index) + enc_string(v.id) + enc_optional_string(v.routing) + enc_optional_string_array(v.stored_fields) + enc_i64(v.version) + enc_byte(v.version_type) + enc_bool(v.fetch_source_context_present)));
    lemma_opensearch_multi_get_item_request_roundtrip(v, rest);
}

/// The wire order of a multi get request: its fields go on the wire one after the
/// other in the order listed here, and a reader given them in that order
/// reads each back into its own field, whatever follows them.
pub proof fn lemma_opensearch_multi_get_request_wire_order(v: OpenSearchMultiGetRequestView, rest: Seq<u8>)
    requires
        opensearch_multi_get_request_fits(v),
    ensures
        enc_opensearch_multi_get_request(v) == (enc_parent_task_id(v.parent_task_node, v.parent_task_id) + enc_optional_string(v.preference) + enc_bool(v.refresh) + enc_bool(v.realtime) + enc_mget_items_array(v.items)),
        parse_opensearch_multi_get_request((enc_parent_task_id(v.parent_task_node, v.parent_task_id) + enc_optional_string(v.preference) + enc_bool(v.refresh) + enc_bool(v.realtime) + enc_mget_items_array(v.items)) + rest) == WireRead::Decoded(v, (enc_parent_task_id(v.parent_task_node, v.parent_task_id) + enc_optional_string(v.preference) + enc_bool(v.refresh) + enc_bool(v.realtime) + enc_mget_items_array(v.items)).len() as int),
{
    assert(enc_opensearch_multi_get_request(v) =~= (enc_parent_task_id(v.parent_task_node, v.parent_task_id) + enc_optional_string(v.preference) + enc_bool(v.refresh) + enc_bool(v.realtime) + enc_mget_items_array(v.items)));
    lemma_opensearch_multi_get_request_roundtrip(v, rest);
}

/// The wire order of a bulk request: its fields go on the wire one after the
/// other in the order listed here, and a reader given them in that order
/// reads each back into its own field, whatever follows them.
pub proof fn lemma_opensearch_bulk_request_wire_order(v: OpenSearchBulkRequestView, rest: Seq<u8>)
    requires
        opensearch_bulk_request_fits(v),
    ensures
        enc_opensearch_bulk_request(v) == (enc_parent_task_id(v.parent_task_node, v.parent_task_id) + enc_i32(v.wait_for_active_shards) + enc_bulk_items_array(v.items) + enc_byte(v.refresh_policy) + enc_time_value(v.timeout)),
        parse_opensearch_bulk_request((enc_parent_task_id(v.parent_task_node, v.parent_task_id) + enc_i32(v.wait_for_active_shards) + enc_bulk_items_array(v.items) + enc_byte(v.refresh_policy) + enc_time_value(v.timeout)) + rest) == WireRead::Decoded(v, (enc_parent_task_id(v.parent_task_node, v.parent_task_id) + enc_i32(v.wait_for_active_shards) + enc_bulk_items_array(v.items) + enc_byte(v.refresh_policy) + enc_time_value(v.timeout)).len() as int),
{
    assert(enc_opensearch_bulk_request(v) =~= (enc_parent_task_id(v.parent_task_node, v.parent_task_id) + enc_i32(v.wait_for_active_shards) + enc_bulk_items_array(v.items) + enc_byte(v.refresh_policy) + enc_time_value(v.timeout)));
    lemma_opensearch_bulk_request_roundtrip(v, rest);
}

/// The wire order of a mget items array: its fields go on the wire one after the
/// other in the order listed here, and a reader given them in that order
/// reads each back into its own field, whatever follows them.
pub proof fn lemma_mget_items_array_wire_order(v: Seq<OpenSearchMultiGetItemRequestView>, rest: Seq<u8>)
    requires
        mget_items_array_fits(v),
    ensures
        enc_mget_items_array(v) == (enc_vint(v.len() as i32) + enc_mget_items(v)),
        parse_mget_items_array((enc_vint(v.len() as i32) + enc_mget_items(v)) + rest) == WireRead::Decoded(v, (enc_vint(v.len() as i32) + enc_mget_items(v)).len() as int),
{
    reveal(enc_mget_items_array);
    assert(enc_mget_items_array(v) =~= (enc_vint(v.len() as i32) + enc_mget_items(v)));
    lemma_mget_items_array_roundtrip(v, rest);
}

/// The wire order of a bulk items array: its fields go on the wire one after the
/// other in the order listed here, and a reader given them in that order
/// reads each back into its own field, whatever follows them.
pub proof fn lemma_bulk_items_array_wire_order(v: Seq<OpenSearchBulkRequestItemView>, rest: Seq<u8>)
    requires
        bulk_items_array_fits(v),
    ensures
        enc_bulk_items_array(v) == (enc_vint(v.len() as i32) + enc_bulk_items(v)),
        parse_bulk_items_array((enc_vint(v.len() as i32) + enc_bulk_items(v)) + rest) == WireRead::Decoded(v, (enc_vint(v.len() as i32) + enc_bulk_items(v)).len() as int),
{
    reveal(enc_bulk_items_array);
    assert(enc_bulk_items_array(v) =~= (enc_vint(v.len() as i32) + enc_bulk_items(v)));
    lemma_bulk_items_array_roundtrip(v, rest);
}

} // verus!
