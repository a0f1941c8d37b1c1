//! The answer to a multi-get: one get answer per requested document.
use vstd::prelude::*;
use crate::action_frames::{frame_response, gate_refusal, response_body, response_frame, response_gate};
use crate::action_wire::{is_unsupported, lift, require_no_trailing_bytes, TransportActionWireError};
use crate::codec::{enc_bool, enc_vint, lemma_vint_roundtrip, parse_bool, parse_len};
use crate::engine_requests::is_missing_field;
use crate::get_response::{
    enc_get_response, get_response_fits, lemma_get_response_roundtrip, parse_get_response, OpenSearchGetResponseView,
    OpenSearchGetResponseWire,
};
use crate::message::TransportMessage;
use crate::stream::{StreamInput, StreamOutput};
use crate::version::Version;
use crate::wire_fields::{lemma_append_assoc, lemma_bool_roundtrip, lemma_skip_append, WireRead};

verus! {

/// One document of a multi-get answer.
#[derive(Clone, Debug, PartialEq, Eq)]
pub struct OpenSearchMultiGetItemResponseWire {
    pub response: OpenSearchGetResponseWire,
}

impl View for OpenSearchMultiGetItemResponseWire {
    type V = OpenSearchGetResponseView;

    open spec fn view(&self) -> OpenSearchGetResponseView {
        self.response@
    }
}

/// The answer to a multi-get.
#[derive(Clone, Debug, PartialEq, Eq)]
pub struct OpenSearchMultiGetResponseWire {
    pub items: Vec<OpenSearchMultiGetItemResponseWire>,
}

/// The get answer of each item.
pub open spec fn mget_response_views(v: Seq<OpenSearchMultiGetItemResponseWire>) -> Seq<OpenSearchGetResponseView> {
    v.map_values(|x: OpenSearchMultiGetItemResponseWire| x@)
}

/// An item: a flag that it is no failure, then its get answer.
pub open spec fn enc_mget_response_item(v: OpenSearchGetResponseView) -> Seq<u8> {
    enc_bool(false) + enc_get_response(v)
}

/// Items one after the other.
pub open spec fn enc_mget_response_items(v: Seq<OpenSearchGetResponseView>) -> Seq<u8>
    decreases v.len(),
{
    if v.len() == 0 {
        seq![]
    } else {
        enc_mget_response_items(v.drop_last()) + enc_mget_response_item(v.last())
    }
}

/// The bytes of a multi-get answer: the item count, then the items.
pub open spec fn enc_multi_get_response(v: Seq<OpenSearchGetResponseView>) -> Seq<u8> {
    enc_vint(v.len() as i32) + enc_mget_response_items(v)
}

/// What a reader makes of one item; failure items are not read.
pub open spec fn parse_mget_response_item(s: Seq<u8>) -> WireRead<OpenSearchGetResponseView> {
    match parse_bool(s) {
        None => WireRead::Malformed,
        Some((failed, k)) => if failed {
            WireRead::Unsupported("multi-get failure item"@, "failure items are not decoded by the multi-get adapter yet"@)
        } else {
            match parse_get_response(s.skip(k)) {
                WireRead::Decoded(v, m) => WireRead::Decoded(v, k + m),
                WireRead::Unsupported(shape, reason) => WireRead::Unsupported(shape, reason),
                WireRead::Malformed => WireRead::Malformed,
            }
        },
    }
}

/// What a reader makes of `n` items one after the other.
pub open spec fn parse_mget_response_items(s: Seq<u8>, n: nat) -> WireRead<Seq<OpenSearchGetResponseView>>
    decreases n,
{
    if n == 0 {
        WireRead::Decoded(seq![], 0)
    } else {
        match parse_mget_response_items(s, (n - 1) as nat) {
            WireRead::Decoded(v, k) => match parse_mget_response_item(s.skip(k)) {
                WireRead::Decoded(x, m) => WireRead::Decoded(v.push(x), k + m),
                WireRead::Unsupported(shape, reason) => WireRead::Unsupported(shape, reason),
                WireRead::Malformed => WireRead::Malformed,
            },
            other => other,
        }
    }
}

/// What a reader makes of the bytes of a multi-get answer.
#[verifier::opaque]
pub open spec fn parse_multi_get_response(s: Seq<u8>) -> WireRead<Seq<OpenSearchGetResponseView>> {
    match parse_len(s) {
        None => WireRead::Malformed,
        Some((n, k)) => match parse_mget_response_items(s.skip(k), n) {
            WireRead::Decoded(v, m) => WireRead::Decoded(v, k + m),
            WireRead::Unsupported(shape, reason) => WireRead::Unsupported(shape, reason),
            WireRead::Malformed => WireRead::Malformed,
        },
    }
}

/// True when a multi-get answer reads back as written.
pub open spec fn multi_get_response_fits(v: Seq<OpenSearchGetResponseView>) -> bool {
    &&& v.len() < 0x8000_0000
    &&& forall|i: int| 0 <= i < v.len() ==> #[trigger] get_response_fits(v[i])
}

/// Whether some item is a found document without its source, which no
/// writer can write.
pub open spec fn multi_get_response_lacks_source(v: Seq<OpenSearchGetResponseView>) -> bool {
    exists|i: int| 0 <= i < v.len() && (#[trigger] v[i]).found && v[i].source is None
}

/// What reading a multi-get answer from the whole of `bytes` gives.
pub open spec fn multi_get_response_read_result(
    bytes: Seq<u8>,
    r: Result<OpenSearchMultiGetResponseWire, TransportActionWireError>,
) -> bool {
    match parse_multi_get_response(bytes) {
        WireRead::Decoded(v, n) => if n < bytes.len() {
            r == Err::<OpenSearchMultiGetResponseWire, TransportActionWireError>(
                TransportActionWireError::TrailingBytes((bytes.len() - n) as usize),
            )
        } else {
            r matches Ok(x) && mget_response_views(x.items@) == v
        },
        WireRead::Unsupported(shape, reason) => is_unsupported(r, shape, reason),
        WireRead::Malformed => r is Err,
    }
}

/// When the items before index `i` read but item `i` does not, no count of
/// items beyond `i` reads either, and the failure is the same.
proof fn lemma_mget_response_items_fail_after(s: Seq<u8>, i: nat, n: nat)
    requires
        i < n,
        parse_mget_response_items(s, (i + 1) as nat) !is Decoded,
    ensures
        parse_mget_response_items(s, n) == parse_mget_response_items(s, (i + 1) as nat),
    decreases n - i,
{
    if n > i + 1 {
        lemma_mget_response_items_fail_after(s, i, (n - 1) as nat);
    }
}

proof fn lemma_mget_response_item_roundtrip(v: OpenSearchGetResponseView, rest: Seq<u8>)
    requires
        get_response_fits(v),
    ensures
        parse_mget_response_item(enc_mget_response_item(v) + rest) == WireRead::Decoded(
            v,
            enc_mget_response_item(v).len() as int,
        ),
{
    lemma_append_assoc(enc_bool(false), enc_get_response(v), rest);
    lemma_bool_roundtrip(false, enc_get_response(v) + rest);
    lemma_skip_append(enc_bool(false), enc_get_response(v) + rest);
    lemma_get_response_roundtrip(v, rest);
}

/// Items written one after the other read back as written.
proof fn lemma_mget_response_items_roundtrip(v: Seq<OpenSearchGetResponseView>, rest: Seq<u8>)
    requires
        forall|i: int| 0 <= i < v.len() ==> #[trigger] get_response_fits(v[i]),
    ensures
        parse_mget_response_items(enc_mget_response_items(v) + rest, v.len()) == WireRead::Decoded(
            v,
            enc_mget_response_items(v).len() as int,
        ),
    decreases v.len(),
{
    if v.len() > 0 {
        let init = v.drop_last();
        let e = enc_mget_response_item(v.last());
        assert forall|i: int| 0 <= i < init.len() implies #[trigger] get_response_fits(init[i]) by {
            assert(init[i] == v[i]);
        }
        lemma_mget_response_items_roundtrip(init, e + rest);
        let s = enc_mget_response_items(v) + rest;
        assert(enc_mget_response_items(v) == enc_mget_response_items(init) + e);
        lemma_append_assoc(enc_mget_response_items(init), e, rest);
        assert(s == enc_mget_response_items(init) + (e + rest));
        assert(get_response_fits(v[v.len() - 1]));
        lemma_mget_response_item_roundtrip(v.last(), rest);
        lemma_skip_append(enc_mget_response_items(init), e + rest);
        let k = enc_mget_response_items(init).len() as int;
        assert(s.skip(k) == e + rest);
        assert(parse_mget_response_items(s, init.len()) == WireRead::Decoded(init, k));
        assert(((v.len() - 1) as nat) == init.len());
        assert(init.push(v.last()) =~= v);
        assert(parse_mget_response_item(s.skip(k)) == WireRead::Decoded(v.last(), e.len() as int));
    } else {
        assert(enc_mget_response_items(v) + rest =~= rest);
        assert(v =~= Seq::<OpenSearchGetResponseView>::empty());
    }
}

/// A multi-get answer reads back as written, whatever follows it.
pub proof fn lemma_multi_get_response_roundtrip(v: Seq<OpenSearchGetResponseView>, rest: Seq<u8>)
    requires
        multi_get_response_fits(v),
    ensures
        parse_multi_get_response(enc_multi_get_response(v) + rest) == WireRead::Decoded(
            v,
            enc_multi_get_response(v).len() as int,
        ),
{
    reveal(parse_multi_get_response);
    let c = enc_vint(v.len() as i32);
    lemma_append_assoc(c, enc_mget_response_items(v), rest);
    lemma_vint_roundtrip(v.len() as i32, enc_mget_response_items(v) + rest);
    lemma_skip_append(c, enc_mget_response_items(v) + rest);
    lemma_mget_response_items_roundtrip(v, rest);
}

/// Reading the whole of a written multi-get answer gives back the items
/// written.
pub proof fn lemma_multi_get_response_read_back(
    v: Seq<OpenSearchGetResponseView>,
    r: Result<OpenSearchMultiGetResponseWire, TransportActionWireError>,
)
    requires
        multi_get_response_fits(v),
        multi_get_response_read_result(enc_multi_get_response(v), r),
    ensures
        r matches Ok(x) && mget_response_views(x.items@) == v,
{
    lemma_multi_get_response_roundtrip(v, Seq::empty());
    assert(enc_multi_get_response(v) + Seq::<u8>::empty() =~= enc_multi_get_response(v));
}

impl OpenSearchMultiGetItemResponseWire {
    /// Reads one item; failure items are refused.
    pub fn read(input: &mut StreamInput) -> (r: Result<Self, TransportActionWireError>)
        ensures
            final(input).data() == old(input).data(),
            old(input).pos() <= final(input).pos() <= final(input).data().len(),
            match parse_mget_response_item(old(input).rest()) {
                WireRead::Decoded(v, n) => r matches Ok(x) && x@ == v && final(input).pos() == old(input).pos() + n,
                WireRead::Unsupported(shape, reason) => is_unsupported(r, shape, reason),
                WireRead::Malformed => r is Err,
            },
    {
        let ghost s = old(input).rest();
        let failed = lift(input.read_bool())?;
        if failed {
            return Err(
                TransportActionWireError::UnsupportedWireShape {
                    shape: "multi-get failure item",
                    reason: "failure items are not decoded by the multi-get adapter yet",
                },
            );
        }
        assert(input.rest() =~= s.skip(1));
        let response = OpenSearchGetResponseWire::read_from_input(input)?;
        Ok(OpenSearchMultiGetItemResponseWire { response })
    }
}

impl OpenSearchMultiGetResponseWire {
    /// Writes the answer; a found document must carry its source.
    pub fn write(&self, output: &mut StreamOutput) -> (r: Result<(), TransportActionWireError>)
        ensures
            multi_get_response_lacks_source(mget_response_views(self.items@)) ==> is_missing_field(r, "source"@),
            !multi_get_response_lacks_source(mget_response_views(self.items@)) ==> (r is Ok && final(output)@
                == old(output)@ + enc_multi_get_response(mget_response_views(self.items@))),
    {
        let ghost views = mget_response_views(self.items@);
        output.write_vint(self.items.len() as i32);
        let ghost start = output@;
        let mut i: usize = 0;
        assert(views.take(0) =~= Seq::<OpenSearchGetResponseView>::empty());
        while i < self.items.len()
            invariant
                i <= self.items@.len(),
                views == mget_response_views(self.items@),
                forall|j: int| 0 <= j < i ==> !((#[trigger] views[j]).found && views[j].source is None),
                start == old(output)@ + enc_vint(self.items@.len() as i32),
                output@ == start + enc_mget_response_items(views.take(i as int)),
            decreases self.items@.len() - i,
        {
            let item = &self.items[i];
            assert(item@ == views[i as int]);
            output.write_bool(false);
            let ghost mid = output@;
            match item.response.write(output) {
                Ok(()) => {},
                Err(e) => {
                    assert(views[i as int].found && views[i as int].source is None);
                    return Err(e);
                },
            }
            proof {
                assert(views.take(i + 1).drop_last() =~= views.take(i as int));
                assert(views.take(i + 1).last() == views[i as int]);
                lemma_append_assoc(
                    start + enc_mget_response_items(views.take(i as int)),
                    enc_bool(false),
                    enc_get_response(views[i as int]),
                );
                lemma_append_assoc(start, enc_mget_response_items(views.take(i as int)), enc_mget_response_item(views[i as int]));
            }
            i = i + 1;
        }
        assert(views.take(i as int) =~= views);
        Ok(())
    }

    /// Reads an answer: the item count, then the items.
    pub fn read_from_input(input: &mut StreamInput) -> (r: Result<Self, TransportActionWireError>)
        ensures
            final(input).data() == old(input).data(),
            old(input).pos() <= final(input).pos() <= final(input).data().len(),
            match parse_multi_get_response(old(input).rest()) {
                WireRead::Decoded(v, n) => r matches Ok(x) && mget_response_views(x.items@) == v && final(input).pos()
                    == old(input).pos() + n,
                WireRead::Unsupported(shape, reason) => is_unsupported(r, shape, reason),
                WireRead::Malformed => r is Err,
            },
    {
        reveal(parse_multi_get_response);
        let ghost s0 = old(input).rest();
        let n = lift(input.read_len())?;
        let ghost k0 = input.pos() - old(input).pos();
        let ghost s = s0.skip(k0);
        assert(input.rest() =~= s);
        let ghost p0 = input.pos();
        let mut items: Vec<OpenSearchMultiGetItemResponseWire> = Vec::new();
        assert(mget_response_views(items@) =~= Seq::<OpenSearchGetResponseView>::empty());
        let mut i: usize = 0;
        while i < n
            invariant
                i <= n,
                input.data() == old(input).data(),
                old(input).pos() <= p0 <= input.pos() <= input.data().len(),
                s == input.data().skip(p0 as int),
                s0 == old(input).rest(),
                parse_len(s0) == Some((n as nat, k0)),
                s == s0.skip(k0),
                p0 == old(input).pos() + k0,
                parse_mget_response_items(s, i as nat) == WireRead::Decoded(mget_response_views(items@), input.pos() - p0),
            decreases n - i,
        {
            reveal(parse_multi_get_response);
            assert(input.rest() =~= s.skip(input.pos() - p0));
            let item = match OpenSearchMultiGetItemResponseWire::read(input) {
                Ok(x) => x,
                Err(e) => {
                    proof {
                        lemma_mget_response_items_fail_after(s, i as nat, n as nat);
                    }
                    return Err(e);
                },
            };
            proof {
                assert(mget_response_views(items@.push(item)) =~= mget_response_views(items@).push(item@));
            }
            items.push(item);
            i = i + 1;
        }
        Ok(OpenSearchMultiGetResponseWire { items })
    }

    /// Reads an answer from the whole of `bytes`.
    pub fn read(bytes: Vec<u8>) -> (r: Result<Self, TransportActionWireError>)
        ensures
            multi_get_response_read_result(bytes@, r),
    {
        let mut input = StreamInput::new(bytes);
        let value = Self::read_from_input(&mut input)?;
        require_no_trailing_bytes(&input)?;
        Ok(value)
    }
}

/// Frames a multi-get answer as the response to request `request_id`.
pub fn build_opensearch_multi_get_response_message(
    request_id: i64,
    version: Version,
    response: &OpenSearchMultiGetResponseWire,
) -> (r: Result<Vec<u8>, TransportActionWireError>)
    ensures
        multi_get_response_lacks_source(mget_response_views(response.items@)) ==> is_missing_field(r, "source"@),
        !multi_get_response_lacks_source(mget_response_views(response.items@)) ==> (r matches Ok(b) && b@
            == response_frame(request_id, version.id, enc_multi_get_response(mget_response_views(response.items@)))),
{
    let mut body = StreamOutput::new();
    response.write(&mut body)?;
    assert(body@ =~= enc_multi_get_response(mget_response_views(response.items@)));
    Ok(frame_response(request_id, version, body.freeze()))
}

/// Reads a multi-get answer from a response message.
pub fn read_opensearch_multi_get_response_message(message: &TransportMessage) -> (r: Result<
    OpenSearchMultiGetResponseWire,
    TransportActionWireError,
>)
    ensures
        gate_refusal(response_gate(message@), message@, "response"@, Seq::empty(), r),
        response_gate(message@) is Pass ==> multi_get_response_read_result(message@.4, r),
{
    let body = response_body(message)?;
    OpenSearchMultiGetResponseWire::read(body)
}

/// The wire order of a multi get response: its fields go on the wire one after the
/// other in the order listed here, and a reader given them in that order
/// reads each back into its own field, whatever follows them.
pub proof fn lemma_multi_get_response_wire_order(v: Seq<OpenSearchGetResponseView>, rest: Seq<u8>)
    requires
        multi_get_response_fits(v),
    ensures
        enc_multi_get_response(v) == (enc_vint(v.len() as i32) + enc_mget_response_items(v)),
        parse_multi_get_response((enc_vint(v.len() as i32) + enc_mget_response_items(v)) + rest) == WireRead::Decoded(
            v,
            (enc_vint(v.len() as i32) + enc_mget_response_items(v)).len() as int,
        ),
{
    assert(enc_multi_get_response(v) =~= (enc_vint(v.len() as i32) + enc_mget_response_items(v)));
    lemma_multi_get_response_roundtrip(v, rest);
}

} // verus!
