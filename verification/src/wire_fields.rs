//! Fields that action bodies share, and what a reader makes of a whole body.
use vstd::prelude::*;
use crate::action_wire::{
    enc_enum_set, is_unsupported, lemma_enum_set_roundtrip, no_repeats, ordinals_below, parse_enum_set, read_enum_set,
    EnumItems, ENUM_ORDINAL_REASON,
    enc_optional_bool, enc_optional_i64, enc_optional_time_value, enc_parent_task_id, enc_time_value, lift,
    parse_optional_bool, parse_optional_i64, parse_optional_time_value, parse_parent_task_id, parse_time_value,
    TimeValueWire, TransportActionWireError,
};
use crate::codec::{
    enc_vint, lemma_vint_roundtrip, parse_vint,
    enc_bool, enc_i64, enc_string, enc_string_array, enc_zlong, lemma_i64_roundtrip, lemma_string_array_roundtrip,
    lemma_string_roundtrip, lemma_zlong_roundtrip, parse_bool, parse_byte, parse_i64, parse_string, parse_string_array,
    string_fits, strings_fit,
};
use crate::stream::{strings_view, StreamInput, StreamOutput};

verus! {

/// What a reader makes of the bytes of an action body: the value and the
/// bytes it took, a shape that is refused, or bytes that do not hold a body.
pub enum WireRead<V> {
    Decoded(V, int),
    Unsupported(Seq<char>, Seq<char>),
    Malformed,
}

/// The characters of an optional string.
pub open spec fn opt_string_view(o: Option<String>) -> Option<Seq<char>> {
    match o {
        Some(s) => Some(s@),
        None => None,
    }
}

/// The characters of each string of an optional string array.
pub open spec fn opt_strings_view(o: Option<Vec<String>>) -> Option<Seq<Seq<char>>> {
    match o {
        Some(v) => Some(strings_view(v@)),
        None => None,
    }
}

/// A parent task id reads back as written when the number is present exactly
/// when the node is named (an absent number under a named node reads back as
/// -1).
pub open spec fn parent_task_id_canonical(node: Seq<char>, id: Option<i64>) -> bool {
    string_fits(node) && (node.len() == 0 <==> id is None)
}

/// A single byte.
pub open spec fn enc_byte(b: u8) -> Seq<u8> {
    seq![b]
}

/// Writes a single byte.
pub fn write_byte_field(output: &mut StreamOutput, b: u8)
    ensures
        final(output)@ == old(output)@ + enc_byte(b),
{
    output.write_byte(b);
    assert(old(output)@.push(b) =~= old(output)@ + enc_byte(b));
}

/// An optional byte: a presence flag, then the byte.
#[verifier::opaque]
pub open spec fn enc_optional_byte(v: Option<u8>) -> Seq<u8> {
    match v {
        Some(b) => enc_bool(true).push(b),
        None => enc_bool(false),
    }
}

#[verifier::opaque]
pub open spec fn parse_optional_byte(s: Seq<u8>) -> Option<(Option<u8>, int)> {
    match parse_bool(s) {
        Some((true, k)) => match parse_byte(s.skip(k)) {
            Some((b, j)) => Some((Some(b), k + j)),
            None => None,
        },
        Some((false, k)) => Some((None, k)),
        None => None,
    }
}

pub fn write_optional_byte(output: &mut StreamOutput, value: Option<u8>)
    ensures
        final(output)@ == old(output)@ + enc_optional_byte(value),
{
    reveal(enc_optional_byte);
    match value {
        Some(b) => {
            output.write_bool(true);
            output.write_byte(b);
        },
        None => output.write_bool(false),
    }
    assert(output@ =~= old(output)@ + enc_optional_byte(value));
}

pub fn read_optional_byte(input: &mut StreamInput) -> (r: Result<Option<u8>, TransportActionWireError>)
    ensures
        final(input).data() == old(input).data(),
        old(input).pos() <= final(input).pos() <= final(input).data().len(),
        match parse_optional_byte(old(input).rest()) {
            Some((v, n)) => r == Ok::<Option<u8>, TransportActionWireError>(v) && final(input).pos() == old(input).pos() + n,
            None => r is Err,
        },
{
    reveal(parse_optional_byte);
    let ghost s = old(input).rest();
    if lift(input.read_bool())? {
        assert(input.rest() =~= s.skip(input.pos() - old(input).pos()));
        Ok(Some(lift(input.read_byte())?))
    } else {
        Ok(None)
    }
}

/// An optional string array: a presence flag, then the array.
#[verifier::opaque]
pub open spec fn enc_optional_string_array(v: Option<Seq<Seq<char>>>) -> Seq<u8> {
    match v {
        Some(a) => enc_bool(true) + enc_string_array(a),
        None => enc_bool(false),
    }
}

#[verifier::opaque]
pub open spec fn parse_optional_string_array(s: Seq<u8>) -> Option<(Option<Seq<Seq<char>>>, int)> {
    match parse_bool(s) {
        Some((true, k)) => match parse_string_array(s.skip(k)) {
            Some((a, j)) => Some((Some(a), k + j)),
            None => None,
        },
        Some((false, k)) => Some((None, k)),
        None => None,
    }
}

pub fn write_optional_string_array(output: &mut StreamOutput, values: Option<&[String]>)
    ensures
        final(output)@ == old(output)@ + enc_optional_string_array(
            match values {
                Some(v) => Some(strings_view(v@)),
                None => None,
            },
        ),
{
    reveal(enc_optional_string_array);
    match values {
        Some(v) => {
            output.write_bool(true);
            output.write_string_array(v);
        },
        None => output.write_bool(false),
    }
    assert(output@ =~= old(output)@ + enc_optional_string_array(
        match values {
            Some(v) => Some(strings_view(v@)),
            None => None,
        },
    ));
}

pub fn read_optional_string_array(input: &mut StreamInput) -> (r: Result<Option<Vec<String>>, TransportActionWireError>)
    ensures
        final(input).data() == old(input).data(),
        old(input).pos() <= final(input).pos() <= final(input).data().len(),
        match parse_optional_string_array(old(input).rest()) {
            Some((v, n)) => r matches Ok(o) && opt_strings_view(o) == v && final(input).pos() == old(input).pos() + n,
            None => r is Err,
        },
{
    reveal(parse_optional_string_array);
    let ghost s = old(input).rest();
    if lift(input.read_bool())? {
        assert(input.rest() =~= s.skip(input.pos() - old(input).pos()));
        Ok(Some(lift(input.read_string_array())?))
    } else {
        Ok(None)
    }
}

/// What a reader makes of an enum set of an enum with `count` variants whose
/// out-of-range ordinals are refused as `shape`.
#[verifier::opaque]
pub open spec fn parse_enum_set_field(s: Seq<u8>, count: u8, shape: Seq<char>) -> WireRead<Seq<u8>> {
    match parse_enum_set(s, count) {
        EnumItems::Read(v, n) => WireRead::Decoded(v, n),
        EnumItems::OutOfRange => WireRead::Unsupported(shape, ENUM_ORDINAL_REASON@),
        EnumItems::Malformed => WireRead::Malformed,
    }
}

/// Reads an enum set field.
pub fn read_enum_set_field(input: &mut StreamInput, variant_count: u8, shape: &'static str) -> (r: Result<Vec<u8>, TransportActionWireError>)
    ensures
        final(input).data() == old(input).data(),
        old(input).pos() <= final(input).pos() <= final(input).data().len(),
        match parse_enum_set_field(old(input).rest(), variant_count, shape@) {
            WireRead::Decoded(v, n) => r matches Ok(o) && o@ == v && final(input).pos() == old(input).pos() + n,
            WireRead::Unsupported(a, b) => is_unsupported(r, a, b),
            WireRead::Malformed => r is Err,
        },
{
    reveal(parse_enum_set_field);
    read_enum_set(input, variant_count, shape)
}

/// An enum set field reads back as written when its members are distinct
/// ordinals of the enum.
pub proof fn lemma_enum_set_field_roundtrip(v: Seq<u8>, rest: Seq<u8>, count: u8, shape: Seq<char>)
    requires
        ordinals_below(v, count),
        no_repeats(v),
        v.len() < 0x8000_0000,
    ensures
        parse_enum_set_field(enc_enum_set(v) + rest, count, shape) == WireRead::Decoded(v, enc_enum_set(v).len() as int),
{
    reveal(parse_enum_set_field);
    lemma_enum_set_roundtrip(v, rest, count);
}

/// Shard health statuses: a count, then one byte per status.
pub open spec fn enc_status_bytes(v: Seq<u8>) -> Seq<u8> {
    enc_vint(v.len() as i32) + v
}

/// What a reader makes of shard health statuses: a negative count and a
/// status above red are refused; bytes that run out are malformed.
#[verifier::opaque]
pub open spec fn parse_status_bytes(s: Seq<u8>) -> WireRead<Seq<u8>> {
    match parse_vint(s) {
        Some((n, k)) => if n < 0 {
            WireRead::Unsupported(
                "indices shard stores status count"@,
                "indices-shard-stores status count cannot be negative"@,
            )
        } else if exists|i: int| 0 <= i < n && k + i < s.len() && #[trigger] s[k + i] > 2 {
            WireRead::Unsupported(
                "indices shard stores status value"@,
                "indices-shard-stores status must be green, yellow, or red"@,
            )
        } else if k + n > s.len() {
            WireRead::Malformed
        } else {
            WireRead::Decoded(s.subrange(k, k + n), k + n)
        },
        None => WireRead::Malformed,
    }
}

/// Writes shard health statuses.
pub fn write_status_bytes(output: &mut StreamOutput, statuses: &[u8])
    ensures
        final(output)@ == old(output)@ + enc_status_bytes(statuses@),
{
    output.write_vint(statuses.len() as i32);
    let ghost mid = output@;
    let mut i: usize = 0;
    while i < statuses.len()
        invariant
            i <= statuses@.len(),
            output@ == mid + statuses@.take(i as int),
        decreases statuses@.len() - i,
    {
        output.write_byte(statuses[i]);
        assert(statuses@.take(i + 1) =~= statuses@.take(i as int).push(statuses@[i as int]));
        i = i + 1;
    }
    assert(statuses@.take(i as int) =~= statuses@);
    assert(output@ =~= old(output)@ + enc_status_bytes(statuses@));
}

/// Reads shard health statuses.
pub fn read_status_bytes(input: &mut StreamInput) -> (r: Result<Vec<u8>, TransportActionWireError>)
    ensures
        final(input).data() == old(input).data(),
        old(input).pos() <= final(input).pos() <= final(input).data().len(),
        match parse_status_bytes(old(input).rest()) {
            WireRead::Decoded(v, n) => r matches Ok(o) && o@ == v && final(input).pos() == old(input).pos() + n,
            WireRead::Unsupported(a, b) => is_unsupported(r, a, b),
            WireRead::Malformed => r is Err,
        },
{
    reveal(parse_status_bytes);
    let ghost s = old(input).rest();
    let count = lift(input.read_vint())?;
    let ghost k = input.pos() - old(input).pos();
    if count < 0 {
        return Err(
            TransportActionWireError::UnsupportedWireShape {
                shape: "indices shard stores status count",
                reason: "indices-shard-stores status count cannot be negative",
            },
        );
    }
    assert(input.rest() =~= s.skip(k));
    let mut statuses: Vec<u8> = Vec::new();
    let mut i: i32 = 0;
    while i < count
        invariant
            0 <= i <= count,
            input.data() == old(input).data(),
            old(input).pos() <= old(input).data().len(),
            s == old(input).rest(),
            parse_vint(s) == Some((count, k)),
            0 <= k <= s.len(),
            input.pos() == old(input).pos() + k + i,
            input.pos() <= input.data().len(),
            input.rest() == s.skip(k + i),
            statuses@ == s.subrange(k, k + i),
            forall|j: int| 0 <= j < i ==> #[trigger] s[k + j] <= 2,
        decreases count - i,
    {
        reveal(parse_status_bytes);
        let status = match input.read_byte() {
            Ok(b) => b,
            Err(e) => {
                proof {
                    assert(k + i >= s.len());
                    assert forall|j: int| 0 <= j < count && k + j < s.len() implies #[trigger] s[k + j] <= 2 by {
                        assert(j < i);
                    }
                }
                return Err(TransportActionWireError::Stream(e));
            },
        };
        assert(status == s[k + i]);
        if status > 2 {
            return Err(
                TransportActionWireError::UnsupportedWireShape {
                    shape: "indices shard stores status value",
                    reason: "indices-shard-stores status must be green, yellow, or red",
                },
            );
        }
        statuses.push(status);
        assert(s.subrange(k, k + i + 1) =~= s.subrange(k, k + i).push(status));
        assert(input.rest() =~= s.skip(k + i + 1));
        i = i + 1;
    }
    proof {
        assert forall|j: int| 0 <= j < count && k + j < s.len() implies !(#[trigger] s[k + j] > 2) by {
            assert(j < i);
        }
    }
    Ok(statuses)
}

/// Shard health statuses read back as written when each is green, yellow or
/// red and their count fits a count.
pub proof fn lemma_status_bytes_roundtrip(v: Seq<u8>, rest: Seq<u8>)
    requires
        forall|i: int| 0 <= i < v.len() ==> #[trigger] v[i] <= 2,
        v.len() < 0x8000_0000,
    ensures
        parse_status_bytes(enc_status_bytes(v) + rest) == WireRead::Decoded(v, enc_status_bytes(v).len() as int),
{
    reveal(parse_status_bytes);
    let n = v.len() as i32;
    let s = enc_status_bytes(v) + rest;
    assert(s =~= enc_vint(n) + (v + rest));
    lemma_vint_roundtrip(n, v + rest);
    let k = enc_vint(n).len() as int;
    assert forall|i: int| 0 <= i < n && k + i < s.len() implies !(#[trigger] s[k + i] > 2) by {
        assert(s[k + i] == v[i]);
    }
    assert(s.subrange(k, k + n) =~= v);
}

/// Appending bytes is associative.
pub proof fn lemma_append_assoc(a: Seq<u8>, b: Seq<u8>, c: Seq<u8>)
    ensures
        a + b + c == a + (b + c),
{
    assert(a + b + c =~= a + (b + c));
}

/// What follows a prefix, once the prefix is skipped.
pub proof fn lemma_skip_append(a: Seq<u8>, b: Seq<u8>)
    ensures
        (a + b).skip(a.len() as int) == b,
{
    assert((a + b).skip(a.len() as int) =~= b);
}

// ---------------------------------------------------------------------------
// Reading back what was written, field by field.
// ---------------------------------------------------------------------------

/// A boolean reads back as written.
pub proof fn lemma_bool_roundtrip(b: bool, rest: Seq<u8>)
    ensures
        parse_bool(enc_bool(b) + rest) == Some((b, 1int)),
{
}

/// A byte reads back as written.
pub proof fn lemma_byte_roundtrip(b: u8, rest: Seq<u8>)
    ensures
        parse_byte(enc_byte(b) + rest) == Some((b, 1int)),
{
}

/// A time value reads back as written.
pub proof fn lemma_time_value_roundtrip(t: TimeValueWire, rest: Seq<u8>)
    ensures
        parse_time_value(enc_time_value(t) + rest) == Some((t, enc_time_value(t).len() as int)),
{
    reveal(enc_time_value);
    reveal(parse_time_value);
    let s = enc_time_value(t) + rest;
    let z = enc_zlong(t.duration);
    assert(s =~= z + (seq![t.time_unit_ordinal] + rest));
    lemma_zlong_roundtrip(t.duration, seq![t.time_unit_ordinal] + rest);
    assert(s.skip(z.len() as int) =~= seq![t.time_unit_ordinal] + rest);
}

/// A parent task id reads back as written when it is canonical.
pub proof fn lemma_parent_task_id_roundtrip(node: Seq<char>, id: Option<i64>, rest: Seq<u8>)
    requires
        parent_task_id_canonical(node, id),
    ensures
        parse_parent_task_id(enc_parent_task_id(node, id) + rest) == Some(
            ((node, id), enc_parent_task_id(node, id).len() as int),
        ),
{
    reveal(enc_parent_task_id);
    reveal(parse_parent_task_id);
    let e = enc_string(node);
    if node.len() == 0 {
        assert(enc_parent_task_id(node, id) =~= e);
        lemma_string_roundtrip(node, rest);
    } else {
        let v = id->Some_0;
        let s = enc_parent_task_id(node, id) + rest;
        assert(s =~= e + (enc_i64(v) + rest));
        lemma_string_roundtrip(node, enc_i64(v) + rest);
        assert(s.skip(e.len() as int) =~= enc_i64(v) + rest);
        lemma_i64_roundtrip(v, rest);
    }
}

/// An optional long reads back as written.
pub proof fn lemma_optional_i64_roundtrip(v: Option<i64>, rest: Seq<u8>)
    ensures
        parse_optional_i64(enc_optional_i64(v) + rest) == Some((v, enc_optional_i64(v).len() as int)),
{
    reveal(enc_optional_i64);
    reveal(parse_optional_i64);
    let s = enc_optional_i64(v) + rest;
    if let Some(x) = v {
        assert(s =~= enc_bool(true) + (enc_i64(x) + rest));
        assert(s.skip(1) =~= enc_i64(x) + rest);
        lemma_i64_roundtrip(x, rest);
    }
}

/// An optional boolean reads back as written.
pub proof fn lemma_optional_bool_roundtrip(v: Option<bool>, rest: Seq<u8>)
    ensures
        parse_optional_bool(enc_optional_bool(v) + rest) == Some((v, 1int)),
        enc_optional_bool(v).len() == 1,
{
    reveal(parse_optional_bool);
}

/// An optional time value reads back as written.
pub proof fn lemma_optional_time_value_roundtrip(v: Option<TimeValueWire>, rest: Seq<u8>)
    ensures
        parse_optional_time_value(enc_optional_time_value(v) + rest) == Some(
            (v, enc_optional_time_value(v).len() as int),
        ),
{
    reveal(enc_optional_time_value);
    reveal(parse_optional_time_value);
    let s = enc_optional_time_value(v) + rest;
    if let Some(t) = v {
        assert(s =~= enc_bool(true) + (enc_time_value(t) + rest));
        assert(s.skip(1) =~= enc_time_value(t) + rest);
        lemma_time_value_roundtrip(t, rest);
    }
}

/// An optional byte reads back as written.
pub proof fn lemma_optional_byte_roundtrip(v: Option<u8>, rest: Seq<u8>)
    ensures
        parse_optional_byte(enc_optional_byte(v) + rest) == Some((v, enc_optional_byte(v).len() as int)),
{
    reveal(enc_optional_byte);
    reveal(parse_optional_byte);
    let s = enc_optional_byte(v) + rest;
    if let Some(b) = v {
        assert(s =~= enc_bool(true) + (seq![b] + rest));
        assert(s.skip(1) =~= seq![b] + rest);
    }
}

/// An optional string array reads back as written when its strings fit.
pub proof fn lemma_optional_string_array_roundtrip(v: Option<Seq<Seq<char>>>, rest: Seq<u8>)
    requires
        v matches Some(a) ==> strings_fit(a) && a.len() < 0x8000_0000,
    ensures
        parse_optional_string_array(enc_optional_string_array(v) + rest) == Some(
            (v, enc_optional_string_array(v).len() as int),
        ),
{
    reveal(enc_optional_string_array);
    reveal(parse_optional_string_array);
    let s = enc_optional_string_array(v) + rest;
    if let Some(a) = v {
        assert(s =~= enc_bool(true) + (enc_string_array(a) + rest));
        assert(s.skip(1) =~= enc_string_array(a) + rest);
        lemma_string_array_roundtrip(a, rest);
    }
}

/// The wire order of a status bytes: its fields go on the wire one after the
/// other in the order listed here, and a reader given them in that order
/// reads each back into its own field, whatever follows them.
pub proof fn lemma_status_bytes_wire_order(v: Seq<u8>, rest: Seq<u8>)
    requires
        forall|i: int| 0 <= i < v.len() ==> #[trigger] v[i] <= 2,
        v.len() < 0x8000_0000,
    ensures
        enc_status_bytes(v) == (enc_vint(v.len() as i32) + v),
        parse_status_bytes((enc_vint(v.len() as i32) + v) + rest) == WireRead::Decoded(v, (enc_vint(v.len() as i32) + v).len() as int),
{
    assert(enc_status_bytes(v) =~= (enc_vint(v.len() as i32) + v));
    lemma_status_bytes_roundtrip(v, rest);
}


/// A time value goes on the wire as its duration (zig-zag encoded), then its
/// unit byte; a reader given them in that order reads each into its own field.
pub proof fn lemma_time_value_wire_order(duration: i64, time_unit_ordinal: u8, rest: Seq<u8>)
    ensures
        ({
            let t = TimeValueWire { duration, time_unit_ordinal };
            let wire = enc_zlong(duration) + seq![time_unit_ordinal];
            &&& enc_time_value(t) == wire
            &&& parse_time_value(wire + rest) == Some((t, wire.len() as int))
        }),
{
    let t = TimeValueWire { duration, time_unit_ordinal };
    reveal(enc_time_value);
    assert(enc_time_value(t) =~= enc_zlong(duration) + seq![time_unit_ordinal]);
    lemma_time_value_roundtrip(t, rest);
}

/// A parent task id goes on the wire as the node name, then, when the name is
/// not empty, the task number; a reader given them reads each into its place.
pub proof fn lemma_parent_task_id_wire_order(node: Seq<char>, id: i64, rest: Seq<u8>)
    requires
        string_fits(node),
        node.len() > 0,
    ensures
        ({
            let wire = enc_string(node) + enc_i64(id);
            &&& enc_parent_task_id(node, Some(id)) == wire
            &&& parse_parent_task_id(wire + rest) == Some(((node, Some(id)), wire.len() as int))
        }),
{
    reveal(enc_parent_task_id);
    assert(enc_parent_task_id(node, Some(id)) =~= enc_string(node) + enc_i64(id));
    lemma_parent_task_id_roundtrip(node, Some(id), rest);
}

} // verus!
