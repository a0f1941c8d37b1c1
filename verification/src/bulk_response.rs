//! The answer to a bulk request: one index or delete answer per write, and
//! the time taken; and how it is built from the storage engine's answer.
use vstd::prelude::*;
use crate::action_frames::{frame_response, gate_refusal, response_body, response_frame, response_gate};
use crate::action_wire::{is_unsupported, lift, require_no_trailing_bytes, TransportActionWireError};
use crate::codec::{
    enc_bool, enc_vint, enc_vlong, enc_zlong, lemma_vint_roundtrip, lemma_vlong_roundtrip, lemma_zlong_roundtrip,
    parse_bool, parse_byte, parse_len, parse_vint, parse_vlong, parse_zlong,
};
use crate::document_codecs::{
    enc_opensearch_delete_response, enc_opensearch_index_response, lemma_opensearch_delete_response_roundtrip,
    lemma_opensearch_index_response_roundtrip, opensearch_delete_response_fits, opensearch_index_response_fits,
    parse_opensearch_delete_response, parse_opensearch_index_response, OpenSearchDeleteResponseView,
    OpenSearchIndexResponseView,
};
use crate::document_requests::{
    OpenSearchBulkItemResponseBodyWire, OpenSearchBulkItemResponseWire, OpenSearchBulkResponseWire,
    OpenSearchDeleteResponseWire, OpenSearchIndexResponseWire,
};
use crate::engine_requests::is_missing_field;
use crate::engine_responses::{DocumentMetadata, IndexDocumentResponse, WriteResult};
use crate::message::TransportMessage;
use crate::stream::{StreamInput, StreamOutput};
use crate::version::Version;
use crate::wire_fields::{enc_byte, lemma_append_assoc, lemma_bool_roundtrip, lemma_byte_roundtrip, lemma_skip_append, write_byte_field, WireRead};

verus! {

/// Body kind of an index answer in a bulk answer.
pub const OPENSEARCH_BULK_RESPONSE_INDEX: u8 = 0;
/// Body kind of a delete answer in a bulk answer.
pub const OPENSEARCH_BULK_RESPONSE_DELETE: u8 = 1;
/// Body kind of an item with no answer.
pub const OPENSEARCH_BULK_RESPONSE_NONE: u8 = 2;
/// Body kind of an update answer.
pub const OPENSEARCH_BULK_RESPONSE_UPDATE: u8 = 3;

/// The fields of one answer of a bulk answer.
pub enum BulkItemBodyView {
    Index(OpenSearchIndexResponseView),
    Delete(OpenSearchDeleteResponseView),
}

/// The fields of one item of a bulk answer: its position, its operation
/// type, and its answer.
pub struct BulkItemResponseView {
    pub item_id: i32,
    pub op_type: u8,
    pub body: BulkItemBodyView,
}

/// The fields of a bulk answer.
pub struct BulkResponseView {
    pub items: Seq<BulkItemResponseView>,
    pub took_millis: i64,
    pub ingest_took_millis: i64,
}

impl View for OpenSearchBulkItemResponseWire {
    type V = BulkItemResponseView;

    open spec fn view(&self) -> BulkItemResponseView {
        BulkItemResponseView {
            item_id: self.item_id,
            op_type: self.op_type,
            body: match self.response {
                OpenSearchBulkItemResponseBodyWire::Index(x) => BulkItemBodyView::Index(x@),
                OpenSearchBulkItemResponseBodyWire::Delete(x) => BulkItemBodyView::Delete(x@),
            },
        }
    }
}

/// The answer of each item.
pub open spec fn bulk_response_item_views(v: Seq<OpenSearchBulkItemResponseWire>) -> Seq<BulkItemResponseView> {
    v.map_values(|x: OpenSearchBulkItemResponseWire| x@)
}

impl View for OpenSearchBulkResponseWire {
    type V = BulkResponseView;

    open spec fn view(&self) -> BulkResponseView {
        BulkResponseView {
            items: bulk_response_item_views(self.items@),
            took_millis: self.took_millis,
            ingest_took_millis: self.ingest_took_millis,
        }
    }
}

/// An item's answer: its kind, then the index or delete answer.
pub open spec fn enc_bulk_item_body(b: BulkItemBodyView) -> Seq<u8> {
    match b {
        BulkItemBodyView::Index(x) => enc_byte(OPENSEARCH_BULK_RESPONSE_INDEX) + enc_opensearch_index_response(x),
        BulkItemBodyView::Delete(x) => enc_byte(OPENSEARCH_BULK_RESPONSE_DELETE) + enc_opensearch_delete_response(x),
    }
}

/// An item: its position, its operation type, its answer, then a flag that
/// it is no failure.
#[verifier::opaque]
pub open spec fn enc_bulk_response_item(v: BulkItemResponseView) -> Seq<u8> {
    enc_vint(v.item_id) + (enc_byte(v.op_type) + (enc_bulk_item_body(v.body) + enc_bool(false)))
}

/// What a reader makes of an item's answer: empty, update and unknown
/// kinds are refused.
pub open spec fn parse_bulk_item_body(s: Seq<u8>) -> WireRead<BulkItemBodyView> {
    match parse_byte(s) {
        None => WireRead::Malformed,
        Some((kind, k)) => if kind == OPENSEARCH_BULK_RESPONSE_INDEX {
            match parse_opensearch_index_response(s.skip(k)) {
                WireRead::Decoded(x, m) => WireRead::Decoded(BulkItemBodyView::Index(x), k + m),
                WireRead::Unsupported(shape, reason) => WireRead::Unsupported(shape, reason),
                WireRead::Malformed => WireRead::Malformed,
            }
        } else if kind == OPENSEARCH_BULK_RESPONSE_DELETE {
            match parse_opensearch_delete_response(s.skip(k)) {
                WireRead::Decoded(x, m) => WireRead::Decoded(BulkItemBodyView::Delete(x), k + m),
                WireRead::Unsupported(shape, reason) => WireRead::Unsupported(shape, reason),
                WireRead::Malformed => WireRead::Malformed,
            }
        } else if kind == OPENSEARCH_BULK_RESPONSE_NONE {
            WireRead::Unsupported(
                "bulk response empty item"@,
                "empty bulk item responses are not decoded by the bulk adapter yet"@,
            )
        } else if kind == OPENSEARCH_BULK_RESPONSE_UPDATE {
            WireRead::Unsupported(
                "bulk response update item"@,
                "update bulk item responses are not decoded by the bulk adapter yet"@,
            )
        } else {
            WireRead::Unsupported(
                "bulk response item type"@,
                "bulk item response type is outside the OpenSearch source-derived range"@,
            )
        },
    }
}

/// What a reader makes of one item; failure items are refused.
#[verifier::opaque]
pub open spec fn parse_bulk_response_item(s: Seq<u8>) -> WireRead<BulkItemResponseView> {
    match parse_vint(s) {
        None => WireRead::Malformed,
        Some((item_id, k1)) => match parse_byte(s.skip(k1)) {
            None => WireRead::Malformed,
            Some((op_type, k2)) => match parse_bulk_item_body(s.skip(k1 + k2)) {
                WireRead::Decoded(body, k3) => match parse_bool(s.skip(k1 + k2 + k3)) {
                    None => WireRead::Malformed,
                    Some((failed, k4)) => if failed {
                        WireRead::Unsupported(
                            "bulk response failure item"@,
                            "failure bulk item responses are not decoded by the bulk adapter yet"@,
                        )
                    } else {
                        WireRead::Decoded(BulkItemResponseView { item_id, op_type, body }, k1 + k2 + k3 + k4)
                    },
                },
                WireRead::Unsupported(shape, reason) => WireRead::Unsupported(shape, reason),
                WireRead::Malformed => WireRead::Malformed,
            },
        },
    }
}

/// True when an item reads back as written.
pub open spec fn bulk_response_item_fits(v: BulkItemResponseView) -> bool {
    match v.body {
        BulkItemBodyView::Index(x) => opensearch_index_response_fits(x),
        BulkItemBodyView::Delete(x) => opensearch_delete_response_fits(x),
    }
}

/// Items one after the other.
pub open spec fn enc_bulk_response_items(v: Seq<BulkItemResponseView>) -> Seq<u8>
    decreases v.len(),
{
    if v.len() == 0 {
        seq![]
    } else {
        enc_bulk_response_items(v.drop_last()) + enc_bulk_response_item(v.last())
    }
}

/// What a reader makes of `n` items one after the other.
pub open spec fn parse_bulk_response_items(s: Seq<u8>, n: nat) -> WireRead<Seq<BulkItemResponseView>>
    decreases n,
{
    if n == 0 {
        WireRead::Decoded(seq![], 0)
    } else {
        match parse_bulk_response_items(s, (n - 1) as nat) {
            WireRead::Decoded(v, k) => match parse_bulk_response_item(s.skip(k)) {
                WireRead::Decoded(x, m) => WireRead::Decoded(v.push(x), k + m),
                WireRead::Unsupported(shape, reason) => WireRead::Unsupported(shape, reason),
                WireRead::Malformed => WireRead::Malformed,
            },
            other => other,
        }
    }
}

/// The bytes of a bulk answer: the item count, the items, the time taken
/// and the ingest time.
pub open spec fn enc_bulk_response(v: BulkResponseView) -> Seq<u8> {
    enc_vint(v.items.len() as i32) + (enc_bulk_response_items(v.items) + (enc_vlong(v.took_millis) + enc_zlong(
        v.ingest_took_millis,
    )))
}

/// What a reader makes of the bytes of a bulk answer.
#[verifier::opaque]
pub open spec fn parse_bulk_response(s: Seq<u8>) -> WireRead<BulkResponseView> {
    match parse_len(s) {
        None => WireRead::Malformed,
        Some((n, k1)) => match parse_bulk_response_items(s.skip(k1), n) {
            WireRead::Decoded(items, k2) => match parse_vlong(s.skip(k1 + k2)) {
                None => WireRead::Malformed,
                Some((took_millis, k3)) => match parse_zlong(s.skip(k1 + k2 + k3)) {
                    None => WireRead::Malformed,
                    Some((ingest_took_millis, k4)) => WireRead::Decoded(
                        BulkResponseView { items, took_millis, ingest_took_millis },
                        k1 + k2 + k3 + k4,
                    ),
                },
            },
            WireRead::Unsupported(shape, reason) => WireRead::Unsupported(shape, reason),
            WireRead::Malformed => WireRead::Malformed,
        },
    }
}

/// True when a bulk answer reads back as written.
pub open spec fn bulk_response_fits(v: BulkResponseView) -> bool {
    &&& v.items.len() < 0x8000_0000
    &&& forall|i: int| 0 <= i < v.items.len() ==> #[trigger] bulk_response_item_fits(v.items[i])
}

/// What reading a bulk answer from the whole of `bytes` gives.
pub open spec fn bulk_response_read_result(bytes: Seq<u8>, r: Result<OpenSearchBulkResponseWire, TransportActionWireError>) -> bool {
    match parse_bulk_response(bytes) {
        WireRead::Decoded(v, n) => if n < bytes.len() {
            r == Err::<OpenSearchBulkResponseWire, TransportActionWireError>(
                TransportActionWireError::TrailingBytes((bytes.len() - n) as usize),
            )
        } else {
            r matches Ok(x) && x@ == v
        },
        WireRead::Unsupported(shape, reason) => is_unsupported(r, shape, reason),
        WireRead::Malformed => r is Err,
    }
}

proof fn lemma_bulk_item_body_roundtrip(b: BulkItemBodyView, rest: Seq<u8>)
    requires
        match b {
            BulkItemBodyView::Index(x) => opensearch_index_response_fits(x),
            BulkItemBodyView::Delete(x) => opensearch_delete_response_fits(x),
        },
    ensures
        parse_bulk_item_body(enc_bulk_item_body(b) + rest) == WireRead::Decoded(b, enc_bulk_item_body(b).len() as int),
{
    match b {
        BulkItemBodyView::Index(x) => {
            let t = enc_byte(OPENSEARCH_BULK_RESPONSE_INDEX);
            lemma_append_assoc(t, enc_opensearch_index_response(x), rest);
            lemma_byte_roundtrip(OPENSEARCH_BULK_RESPONSE_INDEX, enc_opensearch_index_response(x) + rest);
            lemma_skip_append(t, enc_opensearch_index_response(x) + rest);
            lemma_opensearch_index_response_roundtrip(x, rest);
        },
        BulkItemBodyView::Delete(x) => {
            let t = enc_byte(OPENSEARCH_BULK_RESPONSE_DELETE);
            lemma_append_assoc(t, enc_opensearch_delete_response(x), rest);
            lemma_byte_roundtrip(OPENSEARCH_BULK_RESPONSE_DELETE, enc_opensearch_delete_response(x) + rest);
            lemma_skip_append(t, enc_opensearch_delete_response(x) + rest);
            lemma_opensearch_delete_response_roundtrip(x, rest);
        },
    }
}

#[verifier::spinoff_prover]
#[verifier::rlimit(100)]
proof fn lemma_bulk_response_item_roundtrip(v: BulkItemResponseView, rest: Seq<u8>)
    requires
        bulk_response_item_fits(v),
    ensures
        parse_bulk_response_item(enc_bulk_response_item(v) + rest) == WireRead::Decoded(
            v,
            enc_bulk_response_item(v).len() as int,
        ),
{
    reveal(enc_bulk_response_item);
    reveal(parse_bulk_response_item);
    let e1 = enc_vint(v.item_id);
    let e2 = enc_byte(v.op_type);
    let e3 = enc_bulk_item_body(v.body);
    let e4 = enc_bool(false);
    let t3 = e4 + rest;
    let t2 = e3 + t3;
    let t1 = e2 + t2;
    let s = enc_bulk_response_item(v) + rest;
    lemma_append_assoc(e3, e4, rest);
    lemma_append_assoc(e2, e3 + e4, rest);
    lemma_append_assoc(e1, e2 + (e3 + e4), rest);
    assert(s == e1 + t1);
    lemma_vint_roundtrip(v.item_id, t1);
    lemma_skip_append(e1, t1);
    lemma_byte_roundtrip(v.op_type, t2);
    assert(s.skip((e1.len() + 1) as int) =~= t2);
    lemma_bulk_item_body_roundtrip(v.body, t3);
    assert(s.skip((e1.len() + 1 + e3.len()) as int) =~= t3);
    lemma_bool_roundtrip(false, rest);
}

proof fn lemma_bulk_response_items_roundtrip(v: Seq<BulkItemResponseView>, rest: Seq<u8>)
    requires
        forall|i: int| 0 <= i < v.len() ==> #[trigger] bulk_response_item_fits(v[i]),
    ensures
        parse_bulk_response_items(enc_bulk_response_items(v) + rest, v.len()) == WireRead::Decoded(
            v,
            enc_bulk_response_items(v).len() as int,
        ),
    decreases v.len(),
{
    if v.len() > 0 {
        let init = v.drop_last();
        let e = enc_bulk_response_item(v.last());
        assert forall|i: int| 0 <= i < init.len() implies #[trigger] bulk_response_item_fits(init[i]) by {
            assert(init[i] == v[i]);
        }
        lemma_bulk_response_items_roundtrip(init, e + rest);
        let s = enc_bulk_response_items(v) + rest;
        assert(enc_bulk_response_items(v) == enc_bulk_response_items(init) + e);
        lemma_append_assoc(enc_bulk_response_items(init), e, rest);
        assert(s == enc_bulk_response_items(init) + (e + rest));
        assert(bulk_response_item_fits(v[v.len() - 1]));
        lemma_bulk_response_item_roundtrip(v.last(), rest);
        lemma_skip_append(enc_bulk_response_items(init), e + rest);
        let k = enc_bulk_response_items(init).len() as int;
        assert(s.skip(k) == e + rest);
        assert(parse_bulk_response_items(s, init.len()) == WireRead::Decoded(init, k));
        assert(((v.len() - 1) as nat) == init.len());
        assert(init.push(v.last()) =~= v);
        assert(parse_bulk_response_item(s.skip(k)) == WireRead::Decoded(v.last(), e.len() as int));
    } else {
        assert(enc_bulk_response_items(v) + rest =~= rest);
        assert(v =~= Seq::<BulkItemResponseView>::empty());
    }
}

/// A bulk answer reads back as written, whatever follows it.
#[verifier::spinoff_prover]
pub proof fn lemma_bulk_response_roundtrip(v: BulkResponseView, rest: Seq<u8>)
    requires
        bulk_response_fits(v),
    ensures
        parse_bulk_response(enc_bulk_response(v) + rest) == WireRead::Decoded(v, enc_bulk_response(v).len() as int),
{
    reveal(parse_bulk_response);
    let e1 = enc_vint(v.items.len() as i32);
    let e2 = enc_bulk_response_items(v.items);
    let e3 = enc_vlong(v.took_millis);
    let e4 = enc_zlong(v.ingest_took_millis);
    let t3 = e4 + rest;
    let t2 = e3 + t3;
    let t1 = e2 + t2;
    let s = enc_bulk_response(v) + rest;
    lemma_append_assoc(e3, e4, rest);
    lemma_append_assoc(e2, e3 + e4, rest);
    lemma_append_assoc(e1, e2 + (e3 + e4), rest);
    assert(s == e1 + t1);
    lemma_vint_roundtrip(v.items.len() as i32, t1);
    lemma_skip_append(e1, t1);
    lemma_bulk_response_items_roundtrip(v.items, t2);
    assert(s.skip((e1.len() + e2.len()) as int) =~= t2);
    lemma_vlong_roundtrip(v.took_millis, t3);
    assert(s.skip((e1.len() + e2.len() + e3.len()) as int) =~= t3);
    lemma_zlong_roundtrip(v.ingest_took_millis, rest);
    assert(s.skip((e1.len() + e2.len() + e3.len() + e4.len()) as int) =~= rest);
}

/// Reading the whole of a written bulk answer gives back the fields written.
pub proof fn lemma_bulk_response_read_back(v: BulkResponseView, r: Result<OpenSearchBulkResponseWire, TransportActionWireError>)
    requires
        bulk_response_fits(v),
        bulk_response_read_result(enc_bulk_response(v), r),
    ensures
        r matches Ok(x) && x@ == v,
{
    lemma_bulk_response_roundtrip(v, Seq::empty());
    assert(enc_bulk_response(v) + Seq::<u8>::empty() =~= enc_bulk_response(v));
}

/// When the items before index `i` read but item `i` does not, no count of
/// items beyond `i` reads either, and the failure is the same.
proof fn lemma_bulk_response_items_fail_after(s: Seq<u8>, i: nat, n: nat)
    requires
        i < n,
        parse_bulk_response_items(s, (i + 1) as nat) !is Decoded,
    ensures
        parse_bulk_response_items(s, n) == parse_bulk_response_items(s, (i + 1) as nat),
    decreases n - i,
{
    if n > i + 1 {
        lemma_bulk_response_items_fail_after(s, i, (n - 1) as nat);
    }
}

impl OpenSearchBulkItemResponseWire {
    /// Writes an item.
    pub fn write(&self, output: &mut StreamOutput)
        ensures
            final(output)@ == old(output)@ + enc_bulk_response_item(self@),
    {
        reveal(enc_bulk_response_item);
        output.write_vint(self.item_id);
        write_byte_field(output, self.op_type);
        match &self.response {
            OpenSearchBulkItemResponseBodyWire::Index(x) => {
                write_byte_field(output, OPENSEARCH_BULK_RESPONSE_INDEX);
                x.write(output);
            },
            OpenSearchBulkItemResponseBodyWire::Delete(x) => {
                write_byte_field(output, OPENSEARCH_BULK_RESPONSE_DELETE);
                x.write(output);
            },
        }
        output.write_bool(false);
        assert(output@ =~= old(output)@ + enc_bulk_response_item(self@));
    }

    /// Reads an item; empty, update, unknown and failure items are refused.
    pub fn read(input: &mut StreamInput) -> (r: Result<Self, TransportActionWireError>)
        ensures
            final(input).data() == old(input).data(),
            old(input).pos() <= final(input).pos() <= final(input).data().len(),
            match parse_bulk_response_item(old(input).rest()) {
                WireRead::Decoded(v, n) => r matches Ok(x) && x@ == v && final(input).pos() == old(input).pos() + n,
                WireRead::Unsupported(shape, reason) => is_unsupported(r, shape, reason),
                WireRead::Malformed => r is Err,
            },
    {
        reveal(parse_bulk_response_item);
        let ghost s = old(input).rest();
        let ghost p0 = old(input).pos();
        let item_id = lift(input.read_vint())?;
        assert(input.rest() =~= s.skip(input.pos() - p0));
        let op_type = lift(input.read_byte())?;
        assert(input.rest() =~= s.skip(input.pos() - p0));
        let ghost pb = input.pos();
        let ghost sb = input.rest();
        let kind = lift(input.read_byte())?;
        assert(input.rest() =~= sb.skip(1));
        let response = if kind == OPENSEARCH_BULK_RESPONSE_INDEX {
            OpenSearchBulkItemResponseBodyWire::Index(OpenSearchIndexResponseWire::read_from_input(input)?)
        } else if kind == OPENSEARCH_BULK_RESPONSE_DELETE {
            OpenSearchBulkItemResponseBodyWire::Delete(OpenSearchDeleteResponseWire::read_from_input(input)?)
        } else if kind == OPENSEARCH_BULK_RESPONSE_NONE {
            return Err(
                TransportActionWireError::UnsupportedWireShape {
                    shape: "bulk response empty item",
                    reason: "empty bulk item responses are not decoded by the bulk adapter yet",
                },
            );
        } else if kind == OPENSEARCH_BULK_RESPONSE_UPDATE {
            return Err(
                TransportActionWireError::UnsupportedWireShape {
                    shape: "bulk response update item",
                    reason: "update bulk item responses are not decoded by the bulk adapter yet",
                },
            );
        } else {
            return Err(
                TransportActionWireError::UnsupportedWireShape {
                    shape: "bulk response item type",
                    reason: "bulk item response type is outside the OpenSearch source-derived range",
                },
            );
        };
        assert(input.rest() =~= s.skip(input.pos() - p0));
        let failed = lift(input.read_bool())?;
        if failed {
            return Err(
                TransportActionWireError::UnsupportedWireShape {
                    shape: "bulk response failure item",
                    reason: "failure bulk item responses are not decoded by the bulk adapter yet",
                },
            );
        }
        Ok(OpenSearchBulkItemResponseWire { item_id, op_type, response })
    }
}

impl OpenSearchBulkResponseWire {
    /// Writes a bulk answer.
    pub fn write(&self, output: &mut StreamOutput)
        ensures
            final(output)@ == old(output)@ + enc_bulk_response(self@),
    {
        let ghost views = bulk_response_item_views(self.items@);
        output.write_vint(self.items.len() as i32);
        let ghost start = output@;
        let mut i: usize = 0;
        assert(views.take(0) =~= Seq::<BulkItemResponseView>::empty());
        while i < self.items.len()
            invariant
                i <= self.items@.len(),
                views == bulk_response_item_views(self.items@),
                start == old(output)@ + enc_vint(self.items@.len() as i32),
                output@ == start + enc_bulk_response_items(views.take(i as int)),
            decreases self.items@.len() - i,
        {
            self.items[i].write(output);
            proof {
                assert(views.take(i + 1).drop_last() =~= views.take(i as int));
                assert(views.take(i + 1).last() == views[i as int]);
                lemma_append_assoc(start, enc_bulk_response_items(views.take(i as int)), enc_bulk_response_item(views[i as int]));
            }
            i = i + 1;
        }
        assert(views.take(i as int) =~= views);
        output.write_vlong(self.took_millis);
        output.write_zlong(self.ingest_took_millis);
        assert(output@ =~= old(output)@ + enc_bulk_response(self@));
    }

    /// Reads a bulk answer.
    pub fn read_from_input(input: &mut StreamInput) -> (r: Result<Self, TransportActionWireError>)
        ensures
            final(input).data() == old(input).data(),
            old(input).pos() <= final(input).pos() <= final(input).data().len(),
            match parse_bulk_response(old(input).rest()) {
                WireRead::Decoded(v, n) => r matches Ok(x) && x@ == v && final(input).pos() == old(input).pos() + n,
                WireRead::Unsupported(shape, reason) => is_unsupported(r, shape, reason),
                WireRead::Malformed => r is Err,
            },
    {
        reveal(parse_bulk_response);
        let ghost s0 = old(input).rest();
        let n = lift(input.read_len())?;
        let ghost k0 = input.pos() - old(input).pos();
        let ghost s = s0.skip(k0);
        assert(input.rest() =~= s);
        let ghost p0 = input.pos();
        let mut items: Vec<OpenSearchBulkItemResponseWire> = Vec::new();
        assert(bulk_response_item_views(items@) =~= Seq::<BulkItemResponseView>::empty());
        let mut i: usize = 0;
        while i < n
            invariant
                i <= n,
                input.data() == old(input).data(),
                old(input).pos() <= p0 <= input.pos() <= input.data().len(),
                s == input.data().skip(p0 as int),
                s0 == old(input).rest(),
                parse_len(s0) == Some((n as nat, k0)),
                s == s0.skip(k0),
                p0 == old(input).pos() + k0,
                parse_bulk_response_items(s, i as nat) == WireRead::Decoded(bulk_response_item_views(items@), input.pos() - p0),
            decreases n - i,
        {
            reveal(parse_bulk_response);
            assert(input.rest() =~= s.skip(input.pos() - p0));
            let item = match OpenSearchBulkItemResponseWire::read(input) {
                Ok(x) => x,
                Err(e) => {
                    proof {
                        lemma_bulk_response_items_fail_after(s, i as nat, n as nat);
                    }
                    return Err(e);
                },
            };
            proof {
                assert(bulk_response_item_views(items@.push(item)) =~= bulk_response_item_views(items@).push(item@));
            }
            items.push(item);
            i = i + 1;
        }
        assert(input.rest() =~= s0.skip(input.pos() - old(input).pos()));
        let took_millis = lift(input.read_vlong())?;
        assert(input.rest() =~= s0.skip(input.pos() - old(input).pos()));
        let ingest_took_millis = lift(input.read_zlong())?;
        Ok(OpenSearchBulkResponseWire { items, took_millis, ingest_took_millis })
    }

    /// Reads a bulk answer from the whole of `bytes`.
    pub fn read(bytes: Vec<u8>) -> (r: Result<Self, TransportActionWireError>)
        ensures
            bulk_response_read_result(bytes@, r),
    {
        let mut input = StreamInput::new(bytes);
        let value = Self::read_from_input(&mut input)?;
        require_no_trailing_bytes(&input)?;
        Ok(value)
    }
}

/// Frames a bulk answer as the response to request `request_id`.
pub fn build_opensearch_bulk_response_message(request_id: i64, version: Version, response: &OpenSearchBulkResponseWire) -> (r:
    Result<Vec<u8>, TransportActionWireError>)
    ensures
        r matches Ok(b) && b@ == response_frame(request_id, version.id, enc_bulk_response(response@)),
{
    let mut body = StreamOutput::new();
    response.write(&mut body);
    assert(body@ =~= enc_bulk_response(response@));
    Ok(frame_response(request_id, version, body.freeze()))
}

/// Reads a bulk answer from a response message.
pub fn read_opensearch_bulk_response_message(message: &TransportMessage) -> (r: Result<
    OpenSearchBulkResponseWire,
    TransportActionWireError,
>)
    ensures
        gate_refusal(response_gate(message@), message@, "response"@, Seq::empty(), r),
        response_gate(message@) is Pass ==> bulk_response_read_result(message@.4, r),
{
    let body = response_body(message)?;
    OpenSearchBulkResponseWire::read(body)
}

/// The wire order of a bulk response: its fields go on the wire one after the
/// other in the order listed here, and a reader given them in that order
/// reads each back into its own field, whatever follows them.
pub proof fn lemma_bulk_response_wire_order(v: BulkResponseView, rest: Seq<u8>)
    requires
        bulk_response_fits(v),
    ensures
        enc_bulk_response(v) == (enc_vint(v.items.len() as i32) + (enc_bulk_response_items(v.items) + (enc_vlong(v.took_millis) + enc_zlong( v.ingest_took_millis, )))),
        parse_bulk_response((enc_vint(v.items.len() as i32) + (enc_bulk_response_items(v.items) + (enc_vlong(v.took_millis) + enc_zlong( v.ingest_took_millis, )))) + rest) == WireRead::Decoded(v, (enc_vint(v.items.len() as i32) + (enc_bulk_response_items(v.items) + (enc_vlong(v.took_millis) + enc_zlong( v.ingest_took_millis, )))).len() as int),
{
    assert(enc_bulk_response(v) =~= (enc_vint(v.items.len() as i32) + (enc_bulk_response_items(v.items) + (enc_vlong(v.took_millis) + enc_zlong( v.ingest_took_millis, )))));
    lemma_bulk_response_roundtrip(v, rest);
}

} // verus!
