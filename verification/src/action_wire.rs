//! Values shared by the action request and response codecs: the error type,
//! time values, parent task ids, optional values and enum sets.
use vstd::prelude::*;
use crate::codec::{
    lemma_vint_roundtrip,
    enc_bool, enc_i64, enc_string, enc_vint, enc_zlong, parse_bool, parse_byte, parse_i64,
    parse_len, parse_string, parse_vint, parse_zlong,
};
use crate::stream::{StreamInput, StreamInputError, StreamOutput};

verus! {

/// Why an action body could not be encoded, decoded or served.
#[derive(Clone, Debug, PartialEq, Eq)]
pub enum TransportActionWireError {
    /// The byte stream itself was malformed.
    Stream(StreamInputError),
    /// Bytes were left after the body.
    TrailingBytes(usize),
    /// A JSON section is not one JSON document.
    JsonDecode,
    /// The message carried another action than the one expected.
    UnexpectedAction { expected: &'static str, actual: String },
    /// A field that must be present was missing.
    MissingRequiredField { field: &'static str },
    /// The message status did not fit the exchange.
    UnexpectedMessageStatus { expected: &'static str, actual: u8 },
    /// A shape of request or response that this library does not serve.
    UnsupportedWireShape { shape: &'static str, reason: &'static str },
}

/// True when `r` is the unsupported-shape error with these two texts.
pub open spec fn is_unsupported<T>(r: Result<T, TransportActionWireError>, shape: Seq<char>, reason: Seq<char>) -> bool {
    r matches Err(TransportActionWireError::UnsupportedWireShape { shape: s, reason: e }) && s@ == shape && e@ == reason
}

/// Carries a stream error over into an action error.
pub fn lift<T>(r: Result<T, StreamInputError>) -> (o: Result<T, TransportActionWireError>)
    ensures
        r is Ok <==> o is Ok,
        r matches Ok(v) ==> o == Ok::<T, TransportActionWireError>(v),
        r matches Err(e) ==> o == Err::<T, TransportActionWireError>(TransportActionWireError::Stream(e)),
{
    match r {
        Ok(v) => Ok(v),
        Err(e) => Err(TransportActionWireError::Stream(e)),
    }
}

/// Wire ordinal of the milliseconds time unit.
pub const TIME_UNIT_MILLISECONDS: u8 = 2;
/// Wire ordinal of the seconds time unit.
pub const TIME_UNIT_SECONDS: u8 = 3;
/// Wire ordinal of the minutes time unit.
pub const TIME_UNIT_MINUTES: u8 = 4;

/// A duration and the ordinal of its time unit.
#[derive(Clone, Copy, Debug, PartialEq, Eq, Structural)]
pub struct TimeValueWire {
    pub duration: i64,
    pub time_unit_ordinal: u8,
}

impl TimeValueWire {
    /// `duration` milliseconds.
    pub fn millis(duration: i64) -> (t: Self)
        ensures
            t.duration == duration,
            t.time_unit_ordinal == TIME_UNIT_MILLISECONDS,
    {
        TimeValueWire { duration, time_unit_ordinal: TIME_UNIT_MILLISECONDS }
    }

    /// `duration` seconds.
    pub fn seconds(duration: i64) -> (t: Self)
        ensures
            t.duration == duration,
            t.time_unit_ordinal == TIME_UNIT_SECONDS,
    {
        TimeValueWire { duration, time_unit_ordinal: TIME_UNIT_SECONDS }
    }

    /// `duration` minutes.
    pub fn minutes(duration: i64) -> (t: Self)
        ensures
            t.duration == duration,
            t.time_unit_ordinal == TIME_UNIT_MINUTES,
    {
        TimeValueWire { duration, time_unit_ordinal: TIME_UNIT_MINUTES }
    }

    pub fn write(&self, output: &mut StreamOutput)
        ensures
            final(output)@ == old(output)@ + enc_time_value(*self),
    {
        reveal(enc_time_value);
        output.write_zlong(self.duration);
        output.write_byte(self.time_unit_ordinal);
    }

    pub fn read(input: &mut StreamInput) -> (r: Result<Self, TransportActionWireError>)
        ensures
            final(input).data() == old(input).data(),
            old(input).pos() <= final(input).pos() <= final(input).data().len(),
            match parse_time_value(old(input).rest()) {
                Some((t, n)) => r == Ok::<Self, TransportActionWireError>(t) && final(input).pos() == old(input).pos() + n,
                None => r is Err,
            },
    {
        reveal(parse_time_value);
        let ghost s = old(input).rest();
        let duration = lift(input.read_zlong())?;
        assert(input.rest() =~= s.skip(input.pos() - old(input).pos()));
        let time_unit_ordinal = lift(input.read_byte())?;
        Ok(TimeValueWire { duration, time_unit_ordinal })
    }
}

impl Default for TimeValueWire {
    /// Thirty seconds.
    fn default() -> (t: Self)
        ensures
            t == TimeValueWire::thirty_seconds(),
    {
        TimeValueWire::seconds(30)
    }
}

impl TimeValueWire {
    pub open spec fn thirty_seconds() -> TimeValueWire {
        TimeValueWire { duration: 30, time_unit_ordinal: TIME_UNIT_SECONDS }
    }
}

/// A time value: the duration as a zig-zag long, then the unit ordinal byte.
#[verifier::opaque]
pub open spec fn enc_time_value(t: TimeValueWire) -> Seq<u8> {
    enc_zlong(t.duration).push(t.time_unit_ordinal)
}

#[verifier::opaque]
pub open spec fn parse_time_value(s: Seq<u8>) -> Option<(TimeValueWire, int)> {
    match parse_zlong(s) {
        Some((d, k)) => match parse_byte(s.skip(k)) {
            Some((u, j)) => Some((TimeValueWire { duration: d, time_unit_ordinal: u }, k + j)),
            None => None,
        },
        None => None,
    }
}

/// The parent task id: the node name, then the task number unless the name
/// is empty (an absent number is written as -1).
#[verifier::opaque]
pub open spec fn enc_parent_task_id(node: Seq<char>, id: Option<i64>) -> Seq<u8> {
    enc_string(node) + if node.len() == 0 {
        Seq::<u8>::empty()
    } else {
        enc_i64(
            match id {
                Some(v) => v,
                None => -1i64,
            },
        )
    }
}

#[verifier::opaque]
pub open spec fn parse_parent_task_id(s: Seq<u8>) -> Option<((Seq<char>, Option<i64>), int)> {
    match parse_string(s) {
        Some((node, k)) => if node.len() == 0 {
            Some(((node, None), k))
        } else {
            match parse_i64(s.skip(k)) {
                Some((v, j)) => Some(((node, Some(v)), k + j)),
                None => None,
            }
        },
        None => None,
    }
}

pub fn write_parent_task_id(output: &mut StreamOutput, node: &str, id: Option<i64>)
    ensures
        final(output)@ == old(output)@ + enc_parent_task_id(node@, id),
{
    reveal(enc_parent_task_id);
    output.write_string(node);
    if crate::text::char_count(node) != 0 {
        let v = match id {
            Some(v) => v,
            None => -1,
        };
        output.write_i64(v);
    }
    assert(output@ =~= old(output)@ + enc_parent_task_id(node@, id));
}

pub fn read_parent_task_id(input: &mut StreamInput) -> (r: Result<(String, Option<i64>), TransportActionWireError>)
    ensures
        final(input).data() == old(input).data(),
        old(input).pos() <= final(input).pos() <= final(input).data().len(),
        match parse_parent_task_id(old(input).rest()) {
            Some((v, n)) => r matches Ok(p) && p.0@ == v.0 && p.1 == v.1 && final(input).pos() == old(input).pos() + n,
            None => r is Err,
        },
{
    reveal(parse_parent_task_id);
    let ghost s = old(input).rest();
    let node = lift(input.read_string())?;
    assert(input.rest() =~= s.skip(input.pos() - old(input).pos()));
    if crate::text::char_count(node.as_str()) == 0 {
        Ok((node, None))
    } else {
        let id = lift(input.read_i64())?;
        Ok((node, Some(id)))
    }
}

/// An optional long: a presence flag, then the value.
#[verifier::opaque]
pub open spec fn enc_optional_i64(v: Option<i64>) -> Seq<u8> {
    match v {
        Some(x) => enc_bool(true) + enc_i64(x),
        None => enc_bool(false),
    }
}

#[verifier::opaque]
pub open spec fn parse_optional_i64(s: Seq<u8>) -> Option<(Option<i64>, int)> {
    match parse_bool(s) {
        Some((true, k)) => match parse_i64(s.skip(k)) {
            Some((v, j)) => Some((Some(v), k + j)),
            None => None,
        },
        Some((false, k)) => Some((None, k)),
        None => None,
    }
}

pub fn write_optional_i64(output: &mut StreamOutput, value: Option<i64>)
    ensures
        final(output)@ == old(output)@ + enc_optional_i64(value),
{
    reveal(enc_optional_i64);
    match value {
        Some(v) => {
            output.write_bool(true);
            output.write_i64(v);
        },
        None => output.write_bool(false),
    }
    assert(output@ =~= old(output)@ + enc_optional_i64(value));
}

pub fn read_optional_i64(input: &mut StreamInput) -> (r: Result<Option<i64>, TransportActionWireError>)
    ensures
        final(input).data() == old(input).data(),
        old(input).pos() <= final(input).pos() <= final(input).data().len(),
        match parse_optional_i64(old(input).rest()) {
            Some((v, n)) => r == Ok::<Option<i64>, TransportActionWireError>(v) && final(input).pos() == old(input).pos() + n,
            None => r is Err,
        },
{
    reveal(parse_optional_i64);
    let ghost s = old(input).rest();
    if lift(input.read_bool())? {
        assert(input.rest() =~= s.skip(input.pos() - old(input).pos()));
        Ok(Some(lift(input.read_i64())?))
    } else {
        Ok(None)
    }
}

/// An optional boolean: one byte, 0 for false, 1 for true, 2 for absent.
pub open spec fn enc_optional_bool(v: Option<bool>) -> Seq<u8> {
    match v {
        Some(false) => seq![0u8],
        Some(true) => seq![1u8],
        None => seq![2u8],
    }
}

#[verifier::opaque]
pub open spec fn parse_optional_bool(s: Seq<u8>) -> Option<(Option<bool>, int)> {
    match parse_byte(s) {
        Some((b, k)) => if b == 0 {
            Some((Some(false), k))
        } else if b == 1 {
            Some((Some(true), k))
        } else if b == 2 {
            Some((None, k))
        } else {
            None
        },
        None => None,
    }
}

pub fn write_optional_bool(output: &mut StreamOutput, value: Option<bool>)
    ensures
        final(output)@ == old(output)@ + enc_optional_bool(value),
{
    match value {
        Some(false) => output.write_byte(0),
        Some(true) => output.write_byte(1),
        None => output.write_byte(2),
    }
    assert(output@ =~= old(output)@ + enc_optional_bool(value));
}

pub fn read_optional_bool(input: &mut StreamInput) -> (r: Result<Option<bool>, TransportActionWireError>)
    ensures
        final(input).data() == old(input).data(),
        old(input).pos() <= final(input).pos() <= final(input).data().len(),
        match parse_optional_bool(old(input).rest()) {
            Some((v, n)) => r == Ok::<Option<bool>, TransportActionWireError>(v) && final(input).pos() == old(input).pos() + n,
            None => r is Err,
        },
        parse_byte(old(input).rest()) matches Some((b, _)) && b > 2 ==> is_unsupported(
            r,
            "optional boolean"@,
            "optional boolean must use the OpenSearch 0/1/2 wire encoding"@,
        ),
{
    reveal(parse_optional_bool);
    match lift(input.read_byte())? {
        0 => Ok(Some(false)),
        1 => Ok(Some(true)),
        2 => Ok(None),
        _ => Err(
            TransportActionWireError::UnsupportedWireShape {
                shape: "optional boolean",
                reason: "optional boolean must use the OpenSearch 0/1/2 wire encoding",
            },
        ),
    }
}

/// An optional time value: a presence flag, then the value.
#[verifier::opaque]
pub open spec fn enc_optional_time_value(v: Option<TimeValueWire>) -> Seq<u8> {
    match v {
        Some(t) => enc_bool(true) + enc_time_value(t),
        None => enc_bool(false),
    }
}

#[verifier::opaque]
pub open spec fn parse_optional_time_value(s: Seq<u8>) -> Option<(Option<TimeValueWire>, int)> {
    match parse_bool(s) {
        Some((true, k)) => match parse_time_value(s.skip(k)) {
            Some((v, j)) => Some((Some(v), k + j)),
            None => None,
        },
        Some((false, k)) => Some((None, k)),
        None => None,
    }
}

pub fn write_optional_time_value(output: &mut StreamOutput, value: Option<&TimeValueWire>)
    ensures
        final(output)@ == old(output)@ + enc_optional_time_value(
            match value {
                Some(t) => Some(*t),
                None => None,
            },
        ),
{
    reveal(enc_optional_time_value);
    match value {
        Some(t) => {
            output.write_bool(true);
            t.write(output);
        },
        None => output.write_bool(false),
    }
    assert(output@ =~= old(output)@ + enc_optional_time_value(
        match value {
            Some(t) => Some(*t),
            None => None,
        },
    ));
}

pub fn read_optional_time_value(input: &mut StreamInput) -> (r: Result<Option<TimeValueWire>, TransportActionWireError>)
    ensures
        final(input).data() == old(input).data(),
        old(input).pos() <= final(input).pos() <= final(input).data().len(),
        match parse_optional_time_value(old(input).rest()) {
            Some((v, n)) => r == Ok::<Option<TimeValueWire>, TransportActionWireError>(v) && final(input).pos() == old(input).pos() + n,
            None => r is Err,
        },
{
    reveal(parse_optional_time_value);
    let ghost s = old(input).rest();
    if lift(input.read_bool())? {
        assert(input.rest() =~= s.skip(input.pos() - old(input).pos()));
        Ok(Some(TimeValueWire::read(input)?))
    } else {
        Ok(None)
    }
}

/// Reads a non-negative length.
pub fn read_len(input: &mut StreamInput) -> (r: Result<usize, TransportActionWireError>)
    ensures
        final(input).data() == old(input).data(),
        old(input).pos() <= final(input).pos() <= final(input).data().len(),
        match parse_len(old(input).rest()) {
            Some((v, n)) => r == Ok::<usize, TransportActionWireError>(v as usize) && final(input).pos() == old(input).pos() + n
                && v <= i32::MAX,
            None => r is Err,
        },
{
    lift(input.read_len())
}

/// Succeeds exactly when nothing is left to read.
pub fn require_no_trailing_bytes(input: &StreamInput) -> (r: Result<(), TransportActionWireError>)
    ensures
        input.rest().len() == 0 ==> r is Ok,
        input.rest().len() > 0 ==> r == Err::<(), TransportActionWireError>(
            TransportActionWireError::TrailingBytes(input.rest().len() as usize),
        ),
{
    let remaining = input.remaining();
    if remaining == 0 {
        Ok(())
    } else {
        Err(TransportActionWireError::TrailingBytes(remaining))
    }
}


// ---------------------------------------------------------------------------
// Enum sets: a count, then the ordinal of each member as a variable-length
// integer.
// ---------------------------------------------------------------------------

/// Reason given for an enum ordinal outside the range of its enum.
pub const ENUM_ORDINAL_REASON: &'static str = "enum ordinal is outside the OpenSearch source-derived range";

pub open spec fn enc_enum_items(v: Seq<u8>) -> Seq<u8>
    decreases v.len(),
{
    if v.len() == 0 {
        Seq::<u8>::empty()
    } else {
        enc_enum_items(v.drop_last()) + enc_vint(v.last() as i32)
    }
}

/// An enum set as written: the member count, then each ordinal.
#[verifier::opaque]
pub open spec fn enc_enum_set(v: Seq<u8>) -> Seq<u8> {
    enc_vint(v.len() as i32) + enc_enum_items(v)
}

/// Outcome of reading the members of an enum set.
pub enum EnumItems {
    /// The ordinals read, in order, and the number of bytes they took.
    Read(Seq<u8>, int),
    /// An ordinal lay outside the enum's range.
    OutOfRange,
    /// The bytes did not hold the members.
    Malformed,
}

/// Reads `n` ordinals of an enum with `count` variants, stopping at the first
/// failure.
pub open spec fn parse_enum_items(s: Seq<u8>, n: nat, count: u8) -> EnumItems
    decreases n,
{
    if n == 0 {
        EnumItems::Read(Seq::<u8>::empty(), 0)
    } else {
        match parse_enum_items(s, (n - 1) as nat, count) {
            EnumItems::Read(v, k) => match parse_vint(s.skip(k)) {
                Some((o, m)) => if o < 0 || o >= count {
                    EnumItems::OutOfRange
                } else {
                    EnumItems::Read(v.push(o as u8), k + m)
                },
                None => EnumItems::Malformed,
            },
            other => other,
        }
    }
}

/// `d` with `x` appended unless it already holds it.
pub open spec fn push_new(d: Seq<u8>, x: u8) -> Seq<u8> {
    if d.contains(x) {
        d
    } else {
        d.push(x)
    }
}

/// The members of `v` in order of first occurrence, each once.
pub open spec fn first_occurrences(v: Seq<u8>) -> Seq<u8>
    decreases v.len(),
{
    if v.len() == 0 {
        Seq::<u8>::empty()
    } else {
        push_new(first_occurrences(v.drop_last()), v.last())
    }
}

/// Reads an enum set: the ordinals in order of first occurrence.
#[verifier::opaque]
pub open spec fn parse_enum_set(s: Seq<u8>, count: u8) -> EnumItems {
    match parse_len(s) {
        Some((n, k)) => match parse_enum_items(s.skip(k), n, count) {
            EnumItems::Read(v, m) => EnumItems::Read(first_occurrences(v), k + m),
            other => other,
        },
        None => EnumItems::Malformed,
    }
}

pub fn write_enum_set(output: &mut StreamOutput, ordinals: &[u8])
    ensures
        final(output)@ == old(output)@ + enc_enum_set(ordinals@),
{
    reveal(enc_enum_set);
    output.write_vint(ordinals.len() as i32);
    let ghost mid = output@;
    let mut i: usize = 0;
    while i < ordinals.len()
        invariant
            i <= ordinals@.len(),
            output@ == mid + enc_enum_items(ordinals@.take(i as int)),
        decreases ordinals@.len() - i,
    {
        output.write_vint(ordinals[i] as i32);
        proof {
            let t = ordinals@.take(i + 1);
            assert(t.drop_last() =~= ordinals@.take(i as int));
            assert(t.last() == ordinals@[i as int]);
        }
        i = i + 1;
    }
    assert(ordinals@.take(i as int) =~= ordinals@);
    assert(output@ =~= old(output)@ + enc_enum_set(ordinals@));
}

pub fn contains_u8(v: &Vec<u8>, x: u8) -> (b: bool)
    ensures
        b == v@.contains(x),
{
    let mut i: usize = 0;
    while i < v.len()
        invariant
            i <= v@.len(),
            forall|j: int| 0 <= j < i ==> v@[j] != x,
        decreases v@.len() - i,
    {
        if v[i] == x {
            assert(v@[i as int] == x);
            return true;
        }
        i = i + 1;
    }
    false
}

/// Reads an enum set of an enum with `variant_count` variants; an ordinal out
/// of range is refused with `shape` as the shape.
pub fn read_enum_set(input: &mut StreamInput, variant_count: u8, shape: &'static str) -> (r: Result<Vec<u8>, TransportActionWireError>)
    ensures
        final(input).data() == old(input).data(),
        old(input).pos() <= final(input).pos() <= final(input).data().len(),
        match parse_enum_set(old(input).rest(), variant_count) {
            EnumItems::Read(v, n) => r matches Ok(o) && o@ == v && final(input).pos() == old(input).pos() + n,
            EnumItems::OutOfRange => is_unsupported(r, shape@, ENUM_ORDINAL_REASON@),
            EnumItems::Malformed => r is Err,
        },
{
    reveal(parse_enum_set);
    let ghost s = old(input).rest();
    let len = read_len(input)?;
    let ghost k = input.pos() - old(input).pos();
    let ghost t = s.skip(k);
    assert(input.rest() =~= t);
    let mut ordinals: Vec<u8> = Vec::new();
    let ghost mut raw: Seq<u8> = Seq::empty();
    let mut i: usize = 0;
    while i < len
        invariant
            i <= len,
            input.data() == old(input).data(),
            old(input).pos() + k <= input.pos() <= input.data().len(),
            old(input).pos() <= old(input).data().len(),
            s == old(input).rest(),
            t == s.skip(k),
            0 <= k,
            parse_len(s) == Some((len as nat, k)),
            input.rest() == t.skip(input.pos() - old(input).pos() - k),
            parse_enum_items(t, i as nat, variant_count) == EnumItems::Read(raw, input.pos() - old(input).pos() - k),
            ordinals@ == first_occurrences(raw),
        decreases len - i,
    {
        reveal(parse_enum_set);
        let ghost before = input.pos();
        let ordinal = match input.read_vint() {
            Ok(v) => v,
            Err(e) => {
                proof {
                    assert(parse_enum_items(t, (i + 1) as nat, variant_count) == EnumItems::Malformed);
                    lemma_enum_items_stop_malformed(t, (i + 1) as nat, len as nat, variant_count);
                }
                return Err(TransportActionWireError::Stream(e));
            },
        };
        if ordinal < 0 || ordinal >= variant_count as i32 {
            proof {
                assert(parse_enum_items(t, (i + 1) as nat, variant_count) == EnumItems::OutOfRange);
                lemma_enum_items_stop_out_of_range(t, (i + 1) as nat, len as nat, variant_count);
            }
            return Err(
                TransportActionWireError::UnsupportedWireShape { shape, reason: ENUM_ORDINAL_REASON },
            );
        }
        let o = ordinal as u8;
        proof {
            let m = input.pos() - before;
            assert(t.skip(before - old(input).pos() - k).skip(m) =~= t.skip(input.pos() - old(input).pos() - k));
            assert(raw.push(o).drop_last() =~= raw);
        }
        if !contains_u8(&ordinals, o) {
            ordinals.push(o);
        }
        proof {
            raw = raw.push(o);
        }
        i = i + 1;
    }
    assert(parse_enum_items(t, len as nat, variant_count) == EnumItems::Read(raw, input.pos() - old(input).pos() - k));
    Ok(ordinals)
}

/// Once the members stop on an out-of-range ordinal, reading more of them
/// stops there too.
proof fn lemma_enum_items_stop_out_of_range(s: Seq<u8>, i: nat, n: nat, count: u8)
    requires
        i <= n,
        parse_enum_items(s, i, count) == EnumItems::OutOfRange,
    ensures
        parse_enum_items(s, n, count) == EnumItems::OutOfRange,
    decreases n - i,
{
    if i < n {
        lemma_enum_items_stop_out_of_range(s, i, (n - 1) as nat, count);
    }
}

/// Once the members stop on malformed bytes, reading more of them stops there
/// too.
proof fn lemma_enum_items_stop_malformed(s: Seq<u8>, i: nat, n: nat, count: u8)
    requires
        i <= n,
        parse_enum_items(s, i, count) == EnumItems::Malformed,
    ensures
        parse_enum_items(s, n, count) == EnumItems::Malformed,
    decreases n - i,
{
    if i < n {
        lemma_enum_items_stop_malformed(s, i, (n - 1) as nat, count);
    }
}


/// Every member of `v` is an ordinal of an enum with `count` variants.
#[verifier::opaque]
pub open spec fn ordinals_below(v: Seq<u8>, count: u8) -> bool {
    forall|i: int| 0 <= i < v.len() ==> #[trigger] v[i] < count
}

/// No member of `v` occurs twice.
#[verifier::opaque]
pub open spec fn no_repeats(v: Seq<u8>) -> bool {
    forall|i: int, j: int| 0 <= i < j < v.len() ==> #[trigger] v[i] != #[trigger] v[j]
}

proof fn lemma_enum_items_roundtrip(v: Seq<u8>, rest: Seq<u8>, count: u8)
    requires
        ordinals_below(v, count),
    ensures
        parse_enum_items(enc_enum_items(v) + rest, v.len(), count) == EnumItems::Read(v, enc_enum_items(v).len() as int),
    decreases v.len(),
{
    reveal(ordinals_below);
    if v.len() > 0 {
        let init = v.drop_last();
        let last = v.last();
        assert(v[v.len() - 1] < count);
        assert forall|i: int| 0 <= i < init.len() implies #[trigger] init[i] < count by {
            assert(init[i] == v[i]);
        }
        let r2 = enc_vint(last as i32) + rest;
        assert(enc_enum_items(v) + rest =~= enc_enum_items(init) + r2);
        lemma_enum_items_roundtrip(init, r2, count);
        let k = enc_enum_items(init).len() as int;
        assert((enc_enum_items(v) + rest).skip(k) =~= r2);
        lemma_vint_roundtrip(last as i32, rest);
        assert(((last as i32) as u8) == last);
        assert(init.push(last) =~= v);
    } else {
        assert(v =~= Seq::<u8>::empty());
    }
}

proof fn lemma_first_occurrences_of_distinct(v: Seq<u8>)
    requires
        no_repeats(v),
    ensures
        first_occurrences(v) == v,
    decreases v.len(),
{
    reveal(no_repeats);
    if v.len() > 0 {
        let init = v.drop_last();
        assert forall|i: int, j: int| 0 <= i < j < init.len() implies #[trigger] init[i] != #[trigger] init[j] by {
            assert(init[i] == v[i] && init[j] == v[j]);
        }
        lemma_first_occurrences_of_distinct(init);
        if init.contains(v.last()) {
            let i = choose|i: int| 0 <= i < init.len() && init[i] == v.last();
            assert(v[i] == v[v.len() - 1]);
        }
        assert(init.push(v.last()) =~= v);
    }
}

/// Reading back a written enum set gives its members, when they are in the
/// enum's range and distinct.
pub proof fn lemma_enum_set_roundtrip(v: Seq<u8>, rest: Seq<u8>, count: u8)
    requires
        ordinals_below(v, count),
        no_repeats(v),
        v.len() < 0x8000_0000,
    ensures
        parse_enum_set(enc_enum_set(v) + rest, count) == EnumItems::Read(v, enc_enum_set(v).len() as int),
{
    reveal(ordinals_below);
    reveal(no_repeats);
    reveal(enc_enum_set);
    reveal(parse_enum_set);
    let n = v.len() as i32;
    let s = enc_enum_set(v) + rest;
    assert(s =~= enc_vint(n) + (enc_enum_items(v) + rest));
    lemma_vint_roundtrip(n, enc_enum_items(v) + rest);
    let k = enc_vint(n).len() as int;
    assert(s.skip(k) =~= enc_enum_items(v) + rest);
    lemma_enum_items_roundtrip(v, rest, count);
    lemma_first_occurrences_of_distinct(v);
}

} // verus!
