//! The answer to a single-document get: the document's identity and
//! versions, and, when it was found, its JSON source.
use vstd::prelude::*;
use crate::action_wire::{is_unsupported, lift, require_no_trailing_bytes, TransportActionWireError};
use crate::codec::{
    enc_bool, enc_i64, enc_string, enc_vint, enc_vlong, enc_zlong, lemma_i64_roundtrip, lemma_string_roundtrip,
    lemma_vint_roundtrip, lemma_vlong_roundtrip, lemma_zlong_roundtrip, parse_bool, parse_i64, parse_string,
    parse_vint, parse_vlong, parse_zlong, string_fits,
};
use crate::engine_requests::is_missing_field;
use crate::document_requests::{OPENSEARCH_NOT_FOUND_VERSION, OPENSEARCH_UNASSIGNED_PRIMARY_TERM, OPENSEARCH_UNASSIGNED_SEQ_NO};
use crate::json_section::{
    enc_json_bytes, is_json_document, lemma_json_bytes_roundtrip, parse_json_bytes, read_json_bytes, write_json_bytes,
};
use crate::action_frames::{frame_response, gate_refusal, response_body, response_frame, response_gate};
use crate::message::TransportMessage;
use crate::stream::{StreamInput, StreamOutput};
use crate::version::Version;
use crate::wire_fields::{lemma_append_assoc, lemma_bool_roundtrip, lemma_skip_append, WireRead};

verus! {

/// The answer to a get. `source` holds the document's JSON text when it was
/// found.
#[derive(Clone, Debug, PartialEq, Eq)]
pub struct OpenSearchGetResponseWire {
    pub index: String,
    pub id: String,
    pub seq_no: i64,
    pub primary_term: i64,
    pub version: i64,
    pub found: bool,
    pub source: Option<Vec<u8>>,
}

/// The fields of a get answer, as its bytes carry them.
pub struct OpenSearchGetResponseView {
    pub index: Seq<char>,
    pub id: Seq<char>,
    pub seq_no: i64,
    pub primary_term: i64,
    pub version: i64,
    pub found: bool,
    pub source: Option<Seq<u8>>,
}

impl View for OpenSearchGetResponseWire {
    type V = OpenSearchGetResponseView;

    open spec fn view(&self) -> OpenSearchGetResponseView {
        OpenSearchGetResponseView {
            index: self.index@,
            id: self.id@,
            seq_no: self.seq_no,
            primary_term: self.primary_term,
            version: self.version,
            found: self.found,
            source: match self.source {
                Some(s) => Some(s@),
                None => None,
            },
        }
    }
}

impl OpenSearchGetResponseWire {
    /// A document that was not found: no sequence number, term or version.
    pub fn not_found(index: String, id: String) -> (r: Self)
        ensures
            r@ == (OpenSearchGetResponseView {
                index: index@,
                id: id@,
                seq_no: OPENSEARCH_UNASSIGNED_SEQ_NO,
                primary_term: OPENSEARCH_UNASSIGNED_PRIMARY_TERM,
                version: OPENSEARCH_NOT_FOUND_VERSION,
                found: false,
                source: None,
            }),
    {
        OpenSearchGetResponseWire {
            index,
            id,
            seq_no: OPENSEARCH_UNASSIGNED_SEQ_NO,
            primary_term: OPENSEARCH_UNASSIGNED_PRIMARY_TERM,
            version: OPENSEARCH_NOT_FOUND_VERSION,
            found: false,
            source: None,
        }
    }
}

/// The identity and versions of a get answer.
pub open spec fn enc_get_response_head(v: OpenSearchGetResponseView) -> Seq<u8> {
    enc_string(v.index) + enc_string(v.id) + enc_zlong(v.seq_no) + enc_vlong(v.primary_term) + enc_i64(v.version)
}

/// The found flag, then, for a found document, its JSON source and two
/// empty field counts. A source kept beside a missing document is not
/// written.
pub open spec fn enc_get_response_source(found: bool, source: Option<Seq<u8>>) -> Seq<u8> {
    if found {
        match source {
            Some(s) => enc_bool(true) + (enc_json_bytes(s) + (enc_vint(0) + enc_vint(0))),
            None => enc_bool(true),
        }
    } else {
        enc_bool(false)
    }
}

/// The bytes of a get answer.
pub open spec fn enc_get_response(v: OpenSearchGetResponseView) -> Seq<u8> {
    enc_get_response_head(v) + enc_get_response_source(v.found, v.source)
}

/// What a reader makes of the found flag and what follows it.
#[verifier::opaque]
pub open spec fn parse_get_response_source(s: Seq<u8>) -> WireRead<(bool, Option<Seq<u8>>)> {
    match parse_bool(s) {
        None => WireRead::Malformed,
        Some((found, k)) => if !found {
            WireRead::Decoded((false, None), k)
        } else {
            match parse_json_bytes(s.skip(k)) {
                None => WireRead::Malformed,
                Some((source, m)) => match parse_vint(s.skip(k + m)) {
                    None => WireRead::Malformed,
                    Some((fields, m1)) => if fields != 0 {
                        WireRead::Unsupported(
                            "get response document fields"@,
                            "document fields are not decoded by the get adapter yet"@,
                        )
                    } else {
                        match parse_vint(s.skip(k + m + m1)) {
                            None => WireRead::Malformed,
                            Some((meta, m2)) => if meta != 0 {
                                WireRead::Unsupported(
                                    "get response metadata fields"@,
                                    "metadata fields are not decoded by the get adapter yet"@,
                                )
                            } else {
                                WireRead::Decoded((true, Some(source)), k + m + m1 + m2)
                            },
                        }
                    },
                },
            }
        },
    }
}

/// What a reader makes of the bytes of a get answer.
#[verifier::opaque]
pub open spec fn parse_get_response(s: Seq<u8>) -> WireRead<OpenSearchGetResponseView> {
    match parse_string(s) {
        None => WireRead::Malformed,
        Some((index, k1)) => match parse_string(s.skip(k1)) {
            None => WireRead::Malformed,
            Some((id, k2)) => match parse_zlong(s.skip(k1 + k2)) {
                None => WireRead::Malformed,
                Some((seq_no, k3)) => match parse_vlong(s.skip(k1 + k2 + k3)) {
                    None => WireRead::Malformed,
                    Some((primary_term, k4)) => match parse_i64(s.skip(k1 + k2 + k3 + k4)) {
                        None => WireRead::Malformed,
                        Some((version, k5)) => match parse_get_response_source(s.skip(k1 + k2 + k3 + k4 + k5)) {
                            WireRead::Decoded((found, source), k6) => WireRead::Decoded(
                                OpenSearchGetResponseView { index, id, seq_no, primary_term, version, found, source },
                                k1 + k2 + k3 + k4 + k5 + k6,
                            ),
                            WireRead::Unsupported(shape, reason) => WireRead::Unsupported(shape, reason),
                            WireRead::Malformed => WireRead::Malformed,
                        },
                    },
                },
            },
        },
    }
}

/// True when a get answer reads back as written: its strings fit, a found
/// document carries a JSON source, and a missing one carries none.
pub open spec fn get_response_fits(v: OpenSearchGetResponseView) -> bool {
    &&& string_fits(v.index)
    &&& string_fits(v.id)
    &&& v.found <==> v.source is Some
    &&& v.source matches Some(s) ==> is_json_document(s) && s.len() < 0x8000_0000
}

/// What reading a get answer from the whole of `bytes` gives.
pub open spec fn get_response_read_result(bytes: Seq<u8>, r: Result<OpenSearchGetResponseWire, TransportActionWireError>) -> bool {
    match parse_get_response(bytes) {
        WireRead::Decoded(v, n) => if n < bytes.len() {
            r == Err::<OpenSearchGetResponseWire, TransportActionWireError>(
                TransportActionWireError::TrailingBytes((bytes.len() - n) as usize),
            )
        } else {
            r matches Ok(x) && x@ == v
        },
        WireRead::Unsupported(shape, reason) => is_unsupported(r, shape, reason),
        WireRead::Malformed => r is Err,
    }
}

proof fn lemma_get_response_source_roundtrip(found: bool, source: Option<Seq<u8>>, rest: Seq<u8>)
    requires
        found <==> source is Some,
        source matches Some(s) ==> is_json_document(s) && s.len() < 0x8000_0000,
    ensures
        parse_get_response_source(enc_get_response_source(found, source) + rest) == WireRead::Decoded(
            (found, source),
            enc_get_response_source(found, source).len() as int,
        ),
{
    reveal(parse_get_response_source);
    match source {
        Some(s) => {
            let tail = enc_vint(0) + (enc_vint(0) + rest);
            let body = enc_json_bytes(s) + (enc_vint(0) + enc_vint(0));
            lemma_append_assoc(enc_bool(true), body, rest);
            lemma_append_assoc(enc_json_bytes(s), enc_vint(0) + enc_vint(0), rest);
            lemma_append_assoc(enc_vint(0), enc_vint(0), rest);
            lemma_bool_roundtrip(true, body + rest);
            lemma_skip_append(enc_bool(true), body + rest);
            lemma_json_bytes_roundtrip(s, tail);
            lemma_skip_append(enc_bool(true) + enc_json_bytes(s), tail);
            assert(enc_bool(true) + (enc_json_bytes(s) + tail) == (enc_bool(true) + enc_json_bytes(s)) + tail) by {
                lemma_append_assoc(enc_bool(true), enc_json_bytes(s), tail);
            }
            lemma_vint_roundtrip(0, enc_vint(0) + rest);
            lemma_skip_append(enc_bool(true) + enc_json_bytes(s) + enc_vint(0), enc_vint(0) + rest);
            assert((enc_bool(true) + enc_json_bytes(s)) + tail == (enc_bool(true) + enc_json_bytes(s) + enc_vint(0))
                + (enc_vint(0) + rest)) by {
                lemma_append_assoc(enc_bool(true) + enc_json_bytes(s), enc_vint(0), enc_vint(0) + rest);
            }
            lemma_vint_roundtrip(0, rest);
        },
        None => {
            lemma_bool_roundtrip(false, rest);
        },
    }
}

/// A get answer reads back as written, whatever follows it.
#[verifier::spinoff_prover]
#[verifier::rlimit(100)]
pub proof fn lemma_get_response_roundtrip(v: OpenSearchGetResponseView, rest: Seq<u8>)
    requires
        get_response_fits(v),
    ensures
        parse_get_response(enc_get_response(v) + rest) == WireRead::Decoded(v, enc_get_response(v).len() as int),
{
    reveal(parse_get_response);
    let e0 = enc_string(v.index);
    let e1 = enc_string(v.id);
    let e2 = enc_zlong(v.seq_no);
    let e3 = enc_vlong(v.primary_term);
    let e4 = enc_i64(v.version);
    let e5 = enc_get_response_source(v.found, v.source);
    let s = enc_get_response(v) + rest;
    let t5 = e5 + rest;
    let t4 = e4 + t5;
    let t3 = e3 + t4;
    let t2 = e2 + t3;
    let t1 = e1 + t2;
    let u0 = e0;
    let u1 = u0 + e1;
    let u2 = u1 + e2;
    let u3 = u2 + e3;
    let u4 = u3 + e4;
    assert(s == u4 + t5) by {
        lemma_append_assoc(u4, e5, rest);
    }
    lemma_append_assoc(u3, e4, t5);
    lemma_append_assoc(u2, e3, t4);
    lemma_append_assoc(u1, e2, t3);
    lemma_append_assoc(u0, e1, t2);
    lemma_string_roundtrip(v.index, t1);
    lemma_skip_append(u0, t1);
    lemma_string_roundtrip(v.id, t2);
    lemma_skip_append(u1, t2);
    lemma_zlong_roundtrip(v.seq_no, t3);
    lemma_skip_append(u2, t3);
    lemma_vlong_roundtrip(v.primary_term, t4);
    lemma_skip_append(u3, t4);
    lemma_i64_roundtrip(v.version, t5);
    lemma_skip_append(u4, t5);
    lemma_get_response_source_roundtrip(v.found, v.source, rest);
}

/// Reading the whole of a written get answer gives back the fields written.
pub proof fn lemma_get_response_read_back(v: OpenSearchGetResponseView, r: Result<OpenSearchGetResponseWire, TransportActionWireError>)
    requires
        get_response_fits(v),
        get_response_read_result(enc_get_response(v), r),
    ensures
        r matches Ok(x) && x@ == v,
{
    lemma_get_response_roundtrip(v, Seq::empty());
    assert(enc_get_response(v) + Seq::<u8>::empty() =~= enc_get_response(v));
}

impl OpenSearchGetResponseWire {
    /// Writes a get answer; a found document must carry its source.
    pub fn write(&self, output: &mut StreamOutput) -> (r: Result<(), TransportActionWireError>)
        ensures
            self.found && self.source is None ==> is_missing_field(r, "source"@),
            !(self.found && self.source is None) ==> r is Ok && final(output)@ == old(output)@ + enc_get_response(self@),
    {
        output.write_string(self.index.as_str());
        output.write_string(self.id.as_str());
        output.write_zlong(self.seq_no);
        output.write_vlong(self.primary_term);
        output.write_i64(self.version);
        let ghost head = output@;
        assert(head =~= old(output)@ + enc_get_response_head(self@));
        output.write_bool(self.found);
        if self.found {
            let source = match &self.source {
                Some(s) => s,
                None => return Err(TransportActionWireError::MissingRequiredField { field: "source" }),
            };
            write_json_bytes(output, source.as_slice());
            output.write_vint(0);
            output.write_vint(0);
        }
        assert(output@ =~= old(output)@ + enc_get_response(self@));
        Ok(())
    }

    /// Reads a get answer.
    pub fn read_from_input(input: &mut StreamInput) -> (r: Result<Self, TransportActionWireError>)
        ensures
            final(input).data() == old(input).data(),
            old(input).pos() <= final(input).pos() <= final(input).data().len(),
            match parse_get_response(old(input).rest()) {
                WireRead::Decoded(v, n) => r matches Ok(x) && x@ == v && final(input).pos() == old(input).pos() + n,
                WireRead::Unsupported(shape, reason) => is_unsupported(r, shape, reason),
                WireRead::Malformed => r is Err,
            },
    {
        reveal(parse_get_response);
        reveal(parse_get_response_source);
        let ghost s = old(input).rest();
        let ghost p0 = old(input).pos();
        let index = lift(input.read_string())?;
        assert(input.rest() =~= s.skip(input.pos() - p0));
        let id = lift(input.read_string())?;
        assert(input.rest() =~= s.skip(input.pos() - p0));
        let seq_no = lift(input.read_zlong())?;
        assert(input.rest() =~= s.skip(input.pos() - p0));
        let primary_term = lift(input.read_vlong())?;
        assert(input.rest() =~= s.skip(input.pos() - p0));
        let version = lift(input.read_i64())?;
        assert(input.rest() =~= s.skip(input.pos() - p0));
        let ghost p5 = input.pos();
        let ghost s5 = input.rest();
        let found = lift(input.read_bool())?;
        assert(input.rest() =~= s5.skip(input.pos() - p5));
        let source = if found {
            let source = read_json_bytes(input)?;
            assert(input.rest() =~= s5.skip(input.pos() - p5));
            let fields = lift(input.read_vint())?;
            if fields != 0 {
                return Err(
                    TransportActionWireError::UnsupportedWireShape {
                        shape: "get response document fields",
                        reason: "document fields are not decoded by the get adapter yet",
                    },
                );
            }
            assert(input.rest() =~= s5.skip(input.pos() - p5));
            let meta = lift(input.read_vint())?;
            if meta != 0 {
                return Err(
                    TransportActionWireError::UnsupportedWireShape {
                        shape: "get response metadata fields",
                        reason: "metadata fields are not decoded by the get adapter yet",
                    },
                );
            }
            Some(source)
        } else {
            None
        };
        Ok(OpenSearchGetResponseWire { index, id, seq_no, primary_term, version, found, source })
    }

    /// Reads a get answer from the whole of `bytes`.
    pub fn read(bytes: Vec<u8>) -> (r: Result<Self, TransportActionWireError>)
        ensures
            get_response_read_result(bytes@, r),
    {
        let mut input = StreamInput::new(bytes);
        let value = Self::read_from_input(&mut input)?;
        require_no_trailing_bytes(&input)?;
        Ok(value)
    }
}

/// Frames a get answer as the response to request `request_id`; a found
/// document must carry its source.
pub fn build_opensearch_get_response_message(
    request_id: i64,
    version: Version,
    response: &OpenSearchGetResponseWire,
) -> (r: Result<Vec<u8>, TransportActionWireError>)
    ensures
        response.found && response.source is None ==> is_missing_field(r, "source"@),
        !(response.found && response.source is None) ==> (r matches Ok(b) && b@ == response_frame(
            request_id,
            version.id,
            enc_get_response(response@),
        )),
{
    let mut body = StreamOutput::new();
    response.write(&mut body)?;
    assert(body@ =~= enc_get_response(response@));
    Ok(frame_response(request_id, version, body.freeze()))
}

/// Reads a get answer from a response message.
pub fn read_opensearch_get_response_message(message: &TransportMessage) -> (r: Result<
    OpenSearchGetResponseWire,
    TransportActionWireError,
>)
    ensures
        gate_refusal(response_gate(message@), message@, "response"@, Seq::empty(), r),
        response_gate(message@) is Pass ==> get_response_read_result(message@.4, r),
{
    let body = response_body(message)?;
    OpenSearchGetResponseWire::read(body)
}

/// The wire order of a get response: its fields go on the wire one after the
/// other in the order listed here, and a reader given them in that order
/// reads each back into its own field, whatever follows them.
pub proof fn lemma_get_response_wire_order(v: OpenSearchGetResponseView, rest: Seq<u8>)
    requires
        get_response_fits(v),
    ensures
        enc_get_response(v) == (enc_get_response_head(v) + enc_get_response_source(v.found, v.source)),
        parse_get_response((enc_get_response_head(v) + enc_get_response_source(v.found, v.source)) + rest) == WireRead::Decoded(v, (enc_get_response_head(v) + enc_get_response_source(v.found, v.source)).len() as int),
{
    assert(enc_get_response(v) =~= (enc_get_response_head(v) + enc_get_response_source(v.found, v.source)));
    lemma_get_response_roundtrip(v, rest);
}

} // verus!
