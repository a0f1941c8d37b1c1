//! What a reader of exceptions makes of the exceptions this library writes.
use vstd::prelude::*;
use crate::codec::{
    enc_bool, enc_i64, enc_optional_string, enc_string, enc_vint, lemma_i64_roundtrip, lemma_optional_string_roundtrip,
    lemma_string_roundtrip, lemma_vint_roundtrip, parse_len,
};
use crate::error_format::decimal_nat;
use crate::error_format::{
    decimal, enc_index_exception, enc_metadata, enc_metadata_entries, enc_search_context_missing_exception,
    enc_search_phase_missing_context, enc_shard_not_found_exception, extension_fields, flat_extension_fields,
    index_metadata, opensearch_exception_class_name_spec, parse_opensearch_exception, parse_opensearch_extension,
    parse_opensearch_fields, parse_opensearch_tail, span_optional_search_shard_target, span_shard_failure_head,
    span_shard_failures, span_stack_trace_and_maps, span_string_list_entry, span_strings, string_list_entry_item,
    string_item, lemma_span_repeat_step,
    enc_empty_stack_trace, enc_empty_string_list_map, enc_jvm_exception, enc_opensearch_head,
    enc_plain_opensearch_exception, enc_rejected_execution_exception, jvm_exception, parse_exception,
    parse_exception_body, parse_jvm_exception, parse_stack_trace, rejected_execution_class, span_exceptions,
    span_repeat, span_stack_frames, span_string_list_map, span_string_list_entries, ErrorView,
};

verus! {

/// One byte of a small variable-length integer.
#[verifier::spinoff_prover]
#[verifier::rlimit(100)]
proof fn lemma_small_vint(v: i32)
    requires
        0 <= v < 128,
    ensures
        enc_vint(v) == seq![v as u8],
{
    assert((v as u32) < 128u32);
    assert(((v as u32) as u8) == (v as u8));
}

/// An empty stack trace reads as its two bytes.
#[verifier::spinoff_prover]
#[verifier::rlimit(100)]
pub proof fn lemma_empty_stack_trace_read(rest: Seq<u8>)
    ensures
        parse_stack_trace(enc_empty_stack_trace() + rest) == Some(2int),
{
    reveal(span_stack_frames);
    lemma_small_vint(0);
    let s = enc_empty_stack_trace() + rest;
    assert(s =~= seq![0u8] + (seq![0u8] + rest));
    lemma_vint_roundtrip(0, seq![0u8] + rest);
    assert(s.skip(1) =~= seq![0u8] + rest);
    assert(span_stack_frames(s.skip(1), 0) == Some(0int));
    assert(s.skip(1int + 0int) =~= seq![0u8] + rest);
    lemma_vint_roundtrip(0, rest);
    assert(parse_len(s.skip(1)) == Some((0nat, 1int)));
    assert(span_exceptions(s.skip(2), 0) == Some(0int));
}

/// An empty string list map reads as its one byte.
#[verifier::spinoff_prover]
#[verifier::rlimit(100)]
pub proof fn lemma_empty_string_list_map_read(rest: Seq<u8>)
    ensures
        span_string_list_map(enc_empty_string_list_map() + rest) == Some(1int),
{
    reveal(span_string_list_map);
    lemma_small_vint(0);
    let s = enc_empty_string_list_map() + rest;
    lemma_vint_roundtrip(0, rest);
    assert(span_string_list_entries(s.skip(1), 0) == Some(0int));
}

/// A present exception reads as its body after the flag.
#[verifier::spinoff_prover]
#[verifier::rlimit(100)]
pub proof fn lemma_present_exception_read(x: Seq<u8>)
    ensures
        parse_exception(enc_bool(true) + x) == match parse_exception_body(x) {
            Some((e, m)) => Some((Some(e), 1 + m)),
            None => None,
        },
{
    let s = enc_bool(true) + x;
    assert(s.skip(1) =~= x);
}

/// An absent exception reads as its one flag byte.
#[verifier::spinoff_prover]
#[verifier::rlimit(100)]
pub proof fn lemma_absent_exception_read(x: Seq<u8>)
    ensures
        parse_exception(enc_bool(false) + x) == Some((None::<ErrorView>, 1int)),
{
}

/// The body of a JVM exception reads as its key, then the JVM fields.
#[verifier::spinoff_prover]
#[verifier::rlimit(100)]
pub proof fn lemma_jvm_body_read(key: i32, x: Seq<u8>)
    requires
        jvm_exception(key) is Some,
    ensures
        parse_exception_body(enc_vint(key) + x) == match parse_jvm_exception(
            x,
            jvm_exception(key)->Some_0.0,
            jvm_exception(key)->Some_0.1,
        ) {
            Some((e, m)) => Some((e, enc_vint(key).len() as int + m)),
            None => None,
        },
{
    lemma_vint_roundtrip(key, x);
    assert((enc_vint(key) + x).skip(enc_vint(key).len() as int) =~= x);
}

/// The JVM fields of a class that carries a cause: message, an absent cause,
/// an empty stack trace.
#[verifier::spinoff_prover]
#[verifier::rlimit(100)]
pub proof fn lemma_jvm_fields_read(class_name: Seq<char>, message: Option<Seq<char>>, rest: Seq<u8>)
    requires
        message matches Some(m) ==> m.len() < 0x8000_0000,
    ensures
        parse_jvm_exception(
            enc_optional_string(message) + enc_bool(false) + enc_empty_stack_trace() + rest,
            class_name,
            true,
        ) == Some(
            (
                ErrorView { class_name, message, cause: None, search_context_id: None },
                enc_optional_string(message).len() as int + 3,
            ),
        ),
{
    let m = enc_optional_string(message);
    let tail = enc_empty_stack_trace() + rest;
    let s = m + enc_bool(false) + enc_empty_stack_trace() + rest;
    assert(s =~= m + (enc_bool(false) + tail));
    lemma_optional_string_roundtrip(message, enc_bool(false) + tail);
    let a = m.len() as int;
    assert(s.skip(a) =~= enc_bool(false) + tail);
    lemma_absent_exception_read(tail);
    assert(s.skip(a + 1) =~= tail);
    lemma_empty_stack_trace_read(rest);
    lemma_small_vint(0);
}

/// A JVM exception of a class that carries a cause, written with no cause,
/// reads back as its class and message.
#[verifier::spinoff_prover]
#[verifier::rlimit(100)]
pub proof fn lemma_jvm_exception_read_back(key: i32, message: Option<Seq<char>>, rest: Seq<u8>)
    requires
        jvm_exception(key) matches Some((_, has_cause)) && has_cause,
        message matches Some(m) ==> m.len() < 0x8000_0000,
    ensures
        parse_exception(enc_jvm_exception(key, message) + rest) == Some(
            (
                Some(
                    ErrorView {
                        class_name: jvm_exception(key)->Some_0.0,
                        message,
                        cause: None,
                        search_context_id: None,
                    },
                ),
                enc_jvm_exception(key, message).len() as int,
            ),
        ),
{
    let x = enc_optional_string(message) + enc_bool(false) + enc_empty_stack_trace() + rest;
    assert(enc_jvm_exception(key, message) + rest =~= enc_bool(true) + (enc_vint(key) + x));
    lemma_present_exception_read(enc_vint(key) + x);
    lemma_jvm_body_read(key, x);
    lemma_jvm_fields_read(jvm_exception(key)->Some_0.0, message, rest);
    lemma_small_vint(0);
}


/// An exception with no cause in a JVM class that carries none: message and
/// empty stack trace.
#[verifier::spinoff_prover]
#[verifier::rlimit(100)]
pub proof fn lemma_jvm_fields_without_cause_read(class_name: Seq<char>, message: Option<Seq<char>>, rest: Seq<u8>)
    requires
        message matches Some(m) ==> m.len() < 0x8000_0000,
    ensures
        parse_jvm_exception(enc_optional_string(message) + enc_empty_stack_trace() + rest, class_name, false) == Some(
            (
                ErrorView { class_name, message, cause: None, search_context_id: None },
                enc_optional_string(message).len() as int + 2,
            ),
        ),
{
    let m = enc_optional_string(message);
    let s = m + enc_empty_stack_trace() + rest;
    assert(s =~= m + (enc_empty_stack_trace() + rest));
    lemma_optional_string_roundtrip(message, enc_empty_stack_trace() + rest);
    let a = m.len() as int;
    assert(s.skip(a) =~= enc_empty_stack_trace() + rest);
    assert(s.skip(a + 0) =~= enc_empty_stack_trace() + rest);
    lemma_empty_stack_trace_read(rest);
    lemma_small_vint(0);
}

/// A rejected execution exception reads back as its class and message.
#[verifier::spinoff_prover]
#[verifier::rlimit(100)]
pub proof fn lemma_rejected_execution_exception_read_back(message: Option<Seq<char>>, rest: Seq<u8>)
    requires
        message matches Some(m) ==> m.len() < 0x8000_0000,
    ensures
        parse_exception(enc_rejected_execution_exception(message) + rest) == Some(
            (
                Some(ErrorView { class_name: rejected_execution_class(), message, cause: None, search_context_id: None }),
                enc_rejected_execution_exception(message).len() as int,
            ),
        ),
{
    let x = enc_optional_string(message) + enc_empty_stack_trace() + rest;
    let body = enc_vint(18) + (enc_bool(false) + x);
    assert(enc_rejected_execution_exception(message) + rest =~= enc_bool(true) + body);
    lemma_present_exception_read(body);
    lemma_small_vint(18);
    lemma_vint_roundtrip(18, enc_bool(false) + x);
    assert(body.skip(1) =~= enc_bool(false) + x);
    assert(body.skip(2int) =~= x);
    lemma_jvm_fields_without_cause_read(rejected_execution_class(), message, rest);
    lemma_small_vint(0);
}

/// The OpenSearch exceptions without fields of their own among those this
/// library writes.
pub open spec fn written_without_fields(id: i32) -> bool {
    id == 75 || id == 19 || id == 16 || id == 32 || id == 6 || id == 11
}

/// The fields of such an exception take no bytes.
#[verifier::spinoff_prover]
#[verifier::rlimit(100)]
pub proof fn lemma_no_extension_read(id: i32, x: Seq<u8>)
    requires
        written_without_fields(id),
    ensures
        parse_opensearch_extension(id, x) == Some((None::<(Seq<char>, i64)>, 0int)),
{
    reveal(extension_fields);
    reveal(flat_extension_fields);
}

/// The fields of a search context missing exception: the context id, then
/// the session id.
#[verifier::spinoff_prover]
#[verifier::rlimit(100)]
pub proof fn lemma_search_context_fields_read(session_id: Seq<char>, context_id: i64, rest: Seq<u8>)
    requires
        session_id.len() < 0x8000_0000,
    ensures
        parse_opensearch_extension(24, enc_i64(context_id) + enc_string(session_id) + rest) == Some(
            (Some((session_id, context_id)), 8 + enc_string(session_id).len() as int),
        ),
{
    let s = enc_i64(context_id) + enc_string(session_id) + rest;
    assert(s =~= enc_i64(context_id) + (enc_string(session_id) + rest));
    lemma_i64_roundtrip(context_id, enc_string(session_id) + rest);
    assert(s.skip(8) =~= enc_string(session_id) + rest);
    lemma_string_roundtrip(session_id, rest);
}

/// A stack trace and two maps read as their bytes, given what each map reads.
#[verifier::spinoff_prover]
#[verifier::rlimit(100)]
pub proof fn lemma_stack_trace_and_maps_read(m1: Seq<u8>, m2: Seq<u8>, rest: Seq<u8>)
    requires
        span_string_list_map(m1 + m2 + rest) == Some(m1.len() as int),
        span_string_list_map(m2 + rest) == Some(m2.len() as int),
    ensures
        span_stack_trace_and_maps(enc_empty_stack_trace() + m1 + m2 + rest) == Some(2 + m1.len() as int + m2.len() as int),
{
    let s = enc_empty_stack_trace() + m1 + m2 + rest;
    assert(s =~= enc_empty_stack_trace() + (m1 + m2 + rest));
    lemma_empty_stack_trace_read(m1 + m2 + rest);
    lemma_small_vint(0);
    assert(s.skip(2) =~= m1 + m2 + rest);
    assert(s.skip(2 + m1.len() as int) =~= m2 + rest);
}

/// The fields of OpenSearch exception `id`: the stack trace and maps, then
/// the fields of its class.
#[verifier::spinoff_prover]
#[verifier::rlimit(100)]
proof fn lemma_opensearch_fields_read(id: i32, s: Seq<u8>, d: int, context: Option<(Seq<char>, i64)>, f: int)
    requires
        span_stack_trace_and_maps(s) == Some(d),
        0 <= d <= s.len(),
        parse_opensearch_extension(id, s.skip(d)) == Some((context, f)),
    ensures
        parse_opensearch_fields(id, s) == Some((context, d + f)),
{
}

/// An absent cause, then the fields.
#[verifier::spinoff_prover]
#[verifier::rlimit(100)]
proof fn lemma_opensearch_tail_without_cause_read(id: i32, after: Seq<u8>, context: Option<(Seq<char>, i64)>, n: int)
    requires
        parse_opensearch_fields(id, after) == Some((context, n)),
    ensures
        parse_opensearch_tail(id, enc_bool(false) + after) == Some((None::<ErrorView>, context, 1 + n)),
{
    lemma_absent_exception_read(after);
    assert((enc_bool(false) + after).skip(1) =~= after);
}

/// The body of an OpenSearch exception: its stream key, then the exception.
#[verifier::spinoff_prover]
#[verifier::rlimit(100)]
proof fn lemma_opensearch_key_read(x: Seq<u8>)
    ensures
        parse_exception_body(enc_vint(0) + x) == match parse_opensearch_exception(x) {
            Some((e, m)) => Some((e, 1 + m)),
            None => None,
        },
{
    lemma_small_vint(0);
    lemma_vint_roundtrip(0, x);
    assert((enc_vint(0) + x).skip(1) =~= x);
}

/// An OpenSearch exception reads as its id, message and tail.
#[verifier::spinoff_prover]
#[verifier::rlimit(100)]
proof fn lemma_opensearch_id_and_message_read(
    id: i32,
    message: Option<Seq<char>>,
    tail: Seq<u8>,
    context: Option<(Seq<char>, i64)>,
    c: int,
)
    requires
        message matches Some(m) ==> m.len() < 0x8000_0000,
        parse_opensearch_tail(id, tail) == Some((None::<ErrorView>, context, c)),
    ensures
        parse_opensearch_exception(enc_vint(id) + (enc_optional_string(message) + tail)) == Some(
            (
                ErrorView {
                    class_name: opensearch_exception_class_name_spec(id),
                    message,
                    cause: None,
                    search_context_id: context,
                },
                enc_vint(id).len() + enc_optional_string(message).len() + c,
            ),
        ),
{
    let om = enc_optional_string(message);
    let x = enc_vint(id) + (om + tail);
    lemma_vint_roundtrip(id, om + tail);
    let a = enc_vint(id).len() as int;
    assert(x.skip(a) =~= om + tail);
    lemma_optional_string_roundtrip(message, tail);
    let b = om.len() as int;
    assert(x.skip(a + b) =~= tail);
}

/// A present OpenSearch exception reads as its key, id, message and tail.
#[verifier::spinoff_prover]
#[verifier::rlimit(100)]
proof fn lemma_opensearch_body_read(
    id: i32,
    message: Option<Seq<char>>,
    tail: Seq<u8>,
    context: Option<(Seq<char>, i64)>,
    c: int,
)
    requires
        message matches Some(m) ==> m.len() < 0x8000_0000,
        parse_opensearch_tail(id, tail) == Some((None::<ErrorView>, context, c)),
    ensures
        parse_exception(enc_bool(true) + enc_vint(0) + enc_vint(id) + enc_optional_string(message) + tail) == Some(
            (
                Some(
                    ErrorView {
                        class_name: opensearch_exception_class_name_spec(id),
                        message,
                        cause: None,
                        search_context_id: context,
                    },
                ),
                2 + enc_vint(id).len() + enc_optional_string(message).len() + c,
            ),
        ),
{
    let x = enc_vint(id) + (enc_optional_string(message) + tail);
    assert(enc_bool(true) + enc_vint(0) + enc_vint(id) + enc_optional_string(message) + tail =~= enc_bool(true) + (
    enc_vint(0) + x));
    lemma_opensearch_id_and_message_read(id, message, tail, context, c);
    lemma_opensearch_key_read(x);
    lemma_present_exception_read(enc_vint(0) + x);
}

/// An OpenSearch exception with no cause, an empty stack trace and two maps,
/// followed by its fields and whatever comes after them, given what the maps
/// and the fields read.
#[verifier::spinoff_prover]
#[verifier::rlimit(100)]
pub proof fn lemma_opensearch_exception_read(
    id: i32,
    message: Option<Seq<char>>,
    m1: Seq<u8>,
    m2: Seq<u8>,
    t: Seq<u8>,
    context: Option<(Seq<char>, i64)>,
    f: int,
)
    requires
        message matches Some(m) ==> m.len() < 0x8000_0000,
        span_string_list_map(m1 + m2 + t) == Some(m1.len() as int),
        span_string_list_map(m2 + t) == Some(m2.len() as int),
        parse_opensearch_extension(id, t) == Some((context, f)),
    ensures
        parse_exception(enc_opensearch_head(id, message) + m1 + m2 + t) == Some(
            (
                Some(
                    ErrorView {
                        class_name: opensearch_exception_class_name_spec(id),
                        message,
                        cause: None,
                        search_context_id: context,
                    },
                ),
                (enc_opensearch_head(id, message) + m1 + m2).len() + f,
            ),
        ),
{
    let tail = enc_bool(false) + (enc_empty_stack_trace() + m1 + m2 + t);
    lemma_opensearch_tail_read(id, m1, m2, t, context, f);
    lemma_opensearch_body_read(id, message, tail, context, 3 + m1.len() + m2.len() + f);
    lemma_opensearch_head_split(id, message, m1, m2, t);
}

/// The bytes of an OpenSearch exception, cut where its reader looks.
#[verifier::spinoff_prover]
#[verifier::rlimit(100)]
proof fn lemma_opensearch_head_split(id: i32, message: Option<Seq<char>>, m1: Seq<u8>, m2: Seq<u8>, t: Seq<u8>)
    ensures
        enc_opensearch_head(id, message) + m1 + m2 + t == enc_bool(true) + enc_vint(0) + enc_vint(id)
            + enc_optional_string(message) + (enc_bool(false) + (enc_empty_stack_trace() + m1 + m2 + t)),
        (enc_opensearch_head(id, message) + m1 + m2).len() == 5 + enc_vint(id).len() + enc_optional_string(message).len()
            + m1.len() + m2.len(),
{
    lemma_small_vint(0);
    assert(enc_opensearch_head(id, message) + m1 + m2 + t =~= enc_bool(true) + enc_vint(0) + enc_vint(id)
        + enc_optional_string(message) + (enc_bool(false) + (enc_empty_stack_trace() + m1 + m2 + t)));
}

/// What follows the message of an OpenSearch exception with no cause, an
/// empty stack trace and two maps.
#[verifier::spinoff_prover]
#[verifier::rlimit(100)]
proof fn lemma_opensearch_tail_read(
    id: i32,
    m1: Seq<u8>,
    m2: Seq<u8>,
    t: Seq<u8>,
    context: Option<(Seq<char>, i64)>,
    f: int,
)
    requires
        span_string_list_map(m1 + m2 + t) == Some(m1.len() as int),
        span_string_list_map(m2 + t) == Some(m2.len() as int),
        parse_opensearch_extension(id, t) == Some((context, f)),
    ensures
        parse_opensearch_tail(id, enc_bool(false) + (enc_empty_stack_trace() + m1 + m2 + t)) == Some(
            (None::<ErrorView>, context, 3 + m1.len() + m2.len() + f),
        ),
{
    let after = enc_empty_stack_trace() + m1 + m2 + t;
    let d: int = 2 + m1.len() as int + m2.len() as int;
    lemma_stack_trace_and_maps_read(m1, m2, t);
    assert(after.skip(d) =~= t);
    lemma_opensearch_fields_read(id, after, d, context, f);
    lemma_opensearch_tail_without_cause_read(id, after, context, d + f);
}

/// Metadata entries read as their bytes when each key and value fits.
#[verifier::spinoff_prover]
#[verifier::rlimit(100)]
pub proof fn lemma_metadata_entries_read(entries: Seq<(Seq<char>, Seq<char>)>, rest: Seq<u8>)
    requires
        forall|i: int| 0 <= i < entries.len() ==> (#[trigger] entries[i]).0.len() < 0x8000_0000 && entries[i].1.len()
            < 0x8000_0000,
    ensures
        span_repeat(enc_metadata_entries(entries) + rest, entries.len(), string_list_entry_item()) == Some(
            enc_metadata_entries(entries).len() as int,
        ),
    decreases entries.len(),
{
    if entries.len() > 0 {
        let init = entries.drop_last();
        let (k, v) = entries.last();
        assert(entries[entries.len() - 1] == (k, v));
        assert forall|i: int| 0 <= i < init.len() implies (#[trigger] init[i]).0.len() < 0x8000_0000 && init[i].1.len()
            < 0x8000_0000 by {
            assert(init[i] == entries[i]);
        }
        let e = enc_string(k) + enc_vint(1) + enc_string(v);
        let r2 = e + rest;
        assert(enc_metadata_entries(entries) + rest =~= enc_metadata_entries(init) + r2);
        lemma_metadata_entries_read(init, r2);
        let n = enc_metadata_entries(init).len() as int;
        lemma_span_repeat_step(enc_metadata_entries(entries) + rest, init.len(), string_list_entry_item());
        assert((enc_metadata_entries(entries) + rest).skip(n) =~= r2);
        lemma_string_roundtrip(k, enc_vint(1) + enc_string(v) + rest);
        assert(r2 =~= enc_string(k) + (enc_vint(1) + enc_string(v) + rest));
        let a = enc_string(k).len() as int;
        assert(r2.skip(a) =~= enc_vint(1) + (enc_string(v) + rest));
        lemma_small_vint(1);
        lemma_vint_roundtrip(1, enc_string(v) + rest);
        assert(r2.skip(a + 1) =~= enc_string(v) + rest);
        lemma_string_roundtrip(v, rest);
        lemma_span_repeat_step(enc_string(v) + rest, 0, string_item());
        assert((enc_string(v) + rest).skip(0) =~= enc_string(v) + rest);
        assert(span_strings(enc_string(v) + rest, 1) == Some(enc_string(v).len() as int));
        assert(span_string_list_entry(r2) == Some(e.len() as int));
    } else {
        assert(enc_metadata_entries(entries) =~= Seq::<u8>::empty());
    }
}

/// Metadata reads as its bytes when it has fewer than 128 entries and each
/// key and value fits.
#[verifier::spinoff_prover]
#[verifier::rlimit(100)]
pub proof fn lemma_metadata_read(entries: Seq<(Seq<char>, Seq<char>)>, rest: Seq<u8>)
    requires
        entries.len() < 128,
        forall|i: int| 0 <= i < entries.len() ==> (#[trigger] entries[i]).0.len() < 0x8000_0000 && entries[i].1.len()
            < 0x8000_0000,
    ensures
        span_string_list_map(enc_metadata(entries) + rest) == Some(enc_metadata(entries).len() as int),
{
    reveal(span_string_list_map);
    let n = entries.len() as i32;
    lemma_small_vint(n);
    let s = enc_metadata(entries) + rest;
    assert(s =~= enc_vint(n) + (enc_metadata_entries(entries) + rest));
    lemma_vint_roundtrip(n, enc_metadata_entries(entries) + rest);
    assert(s.skip(1) =~= enc_metadata_entries(entries) + rest);
    lemma_metadata_entries_read(entries, rest);
}

/// An OpenSearch exception without fields of its own, written with no
/// headers and no metadata, reads back as its class and message.
#[verifier::spinoff_prover]
#[verifier::rlimit(100)]
pub proof fn lemma_plain_opensearch_exception_read_back(id: i32, message: Option<Seq<char>>, rest: Seq<u8>)
    requires
        written_without_fields(id),
        message matches Some(m) ==> m.len() < 0x8000_0000,
    ensures
        parse_exception(enc_plain_opensearch_exception(id, message) + rest) == Some(
            (
                Some(
                    ErrorView {
                        class_name: opensearch_exception_class_name_spec(id),
                        message,
                        cause: None,
                        search_context_id: None,
                    },
                ),
                enc_plain_opensearch_exception(id, message).len() as int,
            ),
        ),
{
    let e = enc_empty_string_list_map();
    lemma_small_vint(0);
    lemma_empty_string_list_map_read(e + rest);
    lemma_empty_string_list_map_read(rest);
    assert(e + e + rest =~= e + (e + rest));
    lemma_no_extension_read(id, rest);
    lemma_opensearch_exception_read(id, message, e, e, rest, None, 0);
}

/// A search context missing exception reads back as its class, message and
/// the search context it names.
#[verifier::spinoff_prover]
#[verifier::rlimit(100)]
pub proof fn lemma_search_context_missing_exception_read_back(
    message: Option<Seq<char>>,
    session_id: Seq<char>,
    context_id: i64,
    rest: Seq<u8>,
)
    requires
        message matches Some(m) ==> m.len() < 0x8000_0000,
        session_id.len() < 0x8000_0000,
    ensures
        parse_exception(enc_search_context_missing_exception(message, session_id, context_id) + rest) == Some(
            (
                Some(
                    ErrorView {
                        class_name: opensearch_exception_class_name_spec(24),
                        message,
                        cause: None,
                        search_context_id: Some((session_id, context_id)),
                    },
                ),
                enc_search_context_missing_exception(message, session_id, context_id).len() as int,
            ),
        ),
{
    let e = enc_empty_string_list_map();
    let t = enc_i64(context_id) + enc_string(session_id) + rest;
    lemma_small_vint(0);
    lemma_empty_string_list_map_read(e + t);
    lemma_empty_string_list_map_read(t);
    assert(e + e + t =~= e + (e + t));
    lemma_search_context_fields_read(session_id, context_id, rest);
    lemma_i64_roundtrip(context_id, enc_string(session_id) + rest);
    lemma_opensearch_exception_read(24, message, e, e, t, Some((session_id, context_id)), 8 + enc_string(session_id).len() as int);
    assert(enc_search_context_missing_exception(message, session_id, context_id) + rest =~= enc_opensearch_head(
        24,
        message,
    ) + e + e + t);
}

/// `n` below `10^k` has at most `k` decimal digits.
#[verifier::spinoff_prover]
#[verifier::rlimit(100)]
proof fn lemma_decimal_nat_len(n: nat, k: nat, p: nat)
    requires
        k >= 1,
        n < p,
        p == pow10(k),
    ensures
        decimal_nat(n).len() <= k,
    decreases k,
{
    if n >= 10 {
        let q = pow10((k - 1) as nat);
        assert(k >= 2) by {
            if k == 1 {
                assert(pow10(0) == 1);
            }
        }
        assert(p == 10 * q);
        assert(n / 10 < q) by (nonlinear_arith)
            requires
                n < 10 * q,
        ;
        lemma_decimal_nat_len(n / 10, (k - 1) as nat, q);
    }
}

/// `10^k`.
spec fn pow10(k: nat) -> nat
    decreases k,
{
    if k == 0 {
        1
    } else {
        10 * pow10((k - 1) as nat)
    }
}

/// An `i32` has at most eleven characters in decimal.
#[verifier::spinoff_prover]
#[verifier::rlimit(100)]
proof fn lemma_i32_decimal_len(v: i32)
    ensures
        decimal(v as int).len() <= 11,
{
    reveal_with_fuel(pow10, 11);
    if v < 0 {
        lemma_decimal_nat_len((-v) as nat, 10, pow10(10));
    } else {
        lemma_decimal_nat_len(v as nat, 10, pow10(10));
    }
}

/// Each key and value of `entries` fits a string on the wire.
pub open spec fn entries_fit(entries: Seq<(Seq<char>, Seq<char>)>) -> bool {
    forall|i: int| 0 <= i < entries.len() ==> (#[trigger] entries[i]).0.len() < 0x8000_0000 && entries[i].1.len()
        < 0x8000_0000
}

/// The index metadata fits when the index and its uuid do.
#[verifier::spinoff_prover]
#[verifier::rlimit(100)]
proof fn lemma_index_metadata_fits(index: Seq<char>, index_uuid: Seq<char>)
    requires
        index.len() < 0x8000_0000,
        index_uuid.len() < 0x8000_0000,
    ensures
        entries_fit(index_metadata(index, index_uuid)),
{
    reveal_strlit("opensearch.index");
    reveal_strlit("opensearch.index_uuid");
    let m = index_metadata(index, index_uuid);
    assert(m[0] == ("opensearch.index"@, index));
    assert(m[1] == ("opensearch.index_uuid"@, index_uuid));
}

/// An OpenSearch exception with no headers and `entries` as metadata, and no
/// fields of its own, reads back as its class and message.
#[verifier::spinoff_prover]
#[verifier::rlimit(100)]
proof fn lemma_metadata_exception_read_back(
    id: i32,
    message: Seq<char>,
    entries: Seq<(Seq<char>, Seq<char>)>,
    rest: Seq<u8>,
)
    requires
        written_without_fields(id),
        message.len() < 0x8000_0000,
        entries.len() < 128,
        entries_fit(entries),
    ensures
        parse_exception(enc_opensearch_head(id, Some(message)) + enc_empty_string_list_map() + enc_metadata(entries)
            + rest) == Some(
            (
                Some(
                    ErrorView {
                        class_name: opensearch_exception_class_name_spec(id),
                        message: Some(message),
                        cause: None,
                        search_context_id: None,
                    },
                ),
                (enc_opensearch_head(id, Some(message)) + enc_empty_string_list_map() + enc_metadata(entries)).len() as int,
            ),
        ),
{
    let e = enc_empty_string_list_map();
    let md = enc_metadata(entries);
    lemma_small_vint(0);
    lemma_metadata_read(entries, rest);
    lemma_empty_string_list_map_read(md + rest);
    assert(e + md + rest =~= e + (md + rest));
    lemma_no_extension_read(id, rest);
    lemma_opensearch_exception_read(id, Some(message), e, md, rest, None, 0);
}

/// An exception about an index (not found, invalid name, closed) reads back
/// as its class and message.
#[verifier::spinoff_prover]
#[verifier::rlimit(100)]
pub proof fn lemma_index_exception_read_back(id: i32, message: Seq<char>, index: Seq<char>, rest: Seq<u8>)
    requires
        id == 16 || id == 32 || id == 6,
        message.len() < 0x8000_0000,
        index.len() < 0x8000_0000,
    ensures
        parse_exception(enc_index_exception(id, message, index) + rest) == Some(
            (
                Some(
                    ErrorView {
                        class_name: opensearch_exception_class_name_spec(id),
                        message: Some(message),
                        cause: None,
                        search_context_id: None,
                    },
                ),
                enc_index_exception(id, message, index).len() as int,
            ),
        ),
{
    reveal_strlit("_na_");
    lemma_index_metadata_fits(index, "_na_"@);
    lemma_metadata_exception_read_back(id, message, index_metadata(index, "_na_"@), rest);
}

/// A shard not found exception reads back as its class and message.
#[verifier::spinoff_prover]
#[verifier::rlimit(100)]
pub proof fn lemma_shard_not_found_exception_read_back(
    index: Seq<char>,
    index_uuid: Seq<char>,
    shard_id: i32,
    rest: Seq<u8>,
)
    requires
        index.len() < 0x8000_0000,
        index_uuid.len() < 0x8000_0000,
    ensures
        parse_exception(enc_shard_not_found_exception(index, index_uuid, shard_id) + rest) == Some(
            (
                Some(
                    ErrorView {
                        class_name: opensearch_exception_class_name_spec(11),
                        message: Some("no such shard"@),
                        cause: None,
                        search_context_id: None,
                    },
                ),
                enc_shard_not_found_exception(index, index_uuid, shard_id).len() as int,
            ),
        ),
{
    reveal_strlit("no such shard");
    reveal_strlit("opensearch.shard");
    lemma_index_metadata_fits(index, index_uuid);
    lemma_i32_decimal_len(shard_id);
    let entries = index_metadata(index, index_uuid).push(("opensearch.shard"@, decimal(shard_id as int)));
    assert forall|i: int| 0 <= i < entries.len() implies (#[trigger] entries[i]).0.len() < 0x8000_0000
        && entries[i].1.len() < 0x8000_0000 by {
        if i < 2 {
            assert(entries[i] == index_metadata(index, index_uuid)[i]);
        }
    }
    lemma_metadata_exception_read_back(11, "no such shard"@, entries, rest);
}


/// A JVM exception that carries a cause goes on the wire as the presence
/// flag, its stream key, its message, an absent cause and an empty stack trace
/// (no frames, no suppressed exceptions), in that order; a reader given those
/// reads the exception of that class with that message.
pub proof fn lemma_jvm_exception_wire_order(key: i32, message: Option<Seq<char>>, rest: Seq<u8>)
    requires
        jvm_exception(key) matches Some((_, has_cause)) && has_cause,
        message matches Some(m) ==> m.len() < 0x8000_0000,
    ensures
        ({
            let wire = enc_bool(true) + enc_vint(key) + enc_optional_string(message) + enc_bool(false) + enc_vint(0)
                + enc_vint(0);
            &&& enc_jvm_exception(key, message) == wire
            &&& parse_exception(wire + rest) == Some(
                (
                    Some(
                        ErrorView {
                            class_name: jvm_exception(key)->Some_0.0,
                            message,
                            cause: None,
                            search_context_id: None,
                        },
                    ),
                    wire.len() as int,
                ),
            )
        }),
{
    let wire = enc_bool(true) + enc_vint(key) + enc_optional_string(message) + enc_bool(false) + enc_vint(0) + enc_vint(0);
    assert(enc_jvm_exception(key, message) =~= wire);
    lemma_jvm_exception_read_back(key, message, rest);
}

/// An OpenSearch exception with no cause, headers, metadata or fields of its
/// own goes on the wire as the presence flag, the OpenSearch stream key 0, its
/// id, its message, an absent cause, an empty stack trace, then empty header
/// and metadata maps, in that order; a reader given those reads the class the
/// id names, with that message.
pub proof fn lemma_plain_opensearch_exception_wire_order(id: i32, message: Option<Seq<char>>, rest: Seq<u8>)
    requires
        written_without_fields(id),
        message matches Some(m) ==> m.len() < 0x8000_0000,
    ensures
        ({
            let wire = enc_bool(true) + enc_vint(0) + enc_vint(id) + enc_optional_string(message) + enc_bool(false)
                + enc_vint(0) + enc_vint(0) + enc_vint(0) + enc_vint(0);
            &&& enc_plain_opensearch_exception(id, message) == wire
            &&& parse_exception(wire + rest) == Some(
                (
                    Some(
                        ErrorView {
                            class_name: opensearch_exception_class_name_spec(id),
                            message,
                            cause: None,
                            search_context_id: None,
                        },
                    ),
                    wire.len() as int,
                ),
            )
        }),
{
    let wire = enc_bool(true) + enc_vint(0) + enc_vint(id) + enc_optional_string(message) + enc_bool(false) + enc_vint(0)
        + enc_vint(0) + enc_vint(0) + enc_vint(0);
    assert(enc_plain_opensearch_exception(id, message) =~= wire);
    lemma_plain_opensearch_exception_read_back(id, message, rest);
}

} // verus!
