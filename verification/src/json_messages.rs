//! Messages whose whole body is one JSON section: the internal recovery,
//! replication and shard search actions between nodes of this cluster. The
//! library frames and checks the JSON text; turning it into values is left
//! to the caller.
use vstd::prelude::*;
use crate::action_frames::{
    frame_request, frame_response, gate_refusal, request_body, request_frame, request_gate, response_body,
    response_frame, response_gate,
};
use crate::action_wire::{require_no_trailing_bytes, TransportActionWireError};
use crate::json_section::{
    enc_json_bytes, is_json_document, lemma_json_bytes_roundtrip, parse_json_bytes, read_json_bytes, write_json_bytes,
};
use crate::message::TransportMessage;
use crate::stream::{StreamInput, StreamOutput};
use crate::version::Version;

verus! {

/// What reading a body that is one JSON section gives: its JSON text, the
/// bytes left after it, or an error.
pub open spec fn json_body_read_result(body: Seq<u8>, r: Result<Vec<u8>, TransportActionWireError>) -> bool {
    match parse_json_bytes(body) {
        Some((json, n)) => if n < body.len() {
            r == Err::<Vec<u8>, TransportActionWireError>(TransportActionWireError::TrailingBytes((body.len() - n) as usize))
        } else {
            r matches Ok(b) && b@ == json
        },
        None => r is Err,
    }
}

/// A body written as one JSON section reads back as the JSON text written.
pub proof fn lemma_json_body_read_back(json: Seq<u8>, r: Result<Vec<u8>, TransportActionWireError>)
    requires
        is_json_document(json),
        json.len() < 0x8000_0000,
        json_body_read_result(enc_json_bytes(json), r),
    ensures
        r matches Ok(b) && b@ == json,
{
    lemma_json_bytes_roundtrip(json, Seq::empty());
    assert(enc_json_bytes(json) + Seq::<u8>::empty() =~= enc_json_bytes(json));
}

/// Reads a body that is one JSON section, with nothing after it.
pub fn read_json_body(body: Vec<u8>) -> (r: Result<Vec<u8>, TransportActionWireError>)
    ensures
        json_body_read_result(body@, r),
{
    let mut input = StreamInput::new(body);
    let json = read_json_bytes(&mut input)?;
    require_no_trailing_bytes(&input)?;
    Ok(json)
}

/// Frames the JSON text `json` as request `request_id` for `action`.
pub fn build_steelsearch_json_request_message(request_id: i64, version: Version, action: &str, json: &[u8]) -> (frame:
    Vec<u8>)
    ensures
        frame@ == request_frame(request_id, version.id, action@, enc_json_bytes(json@)),
{
    let mut body = StreamOutput::new();
    write_json_bytes(&mut body, json);
    assert(body@ =~= enc_json_bytes(json@));
    frame_request(request_id, version, action, body.freeze())
}

/// The JSON text of a request message for `action`.
pub fn read_steelsearch_json_request_message(message: &TransportMessage, action: &'static str) -> (r: Result<
    Vec<u8>,
    TransportActionWireError,
>)
    ensures
        gate_refusal(request_gate(message@, action@), message@, "request"@, action@, r),
        request_gate(message@, action@) is Pass ==> json_body_read_result(message@.4, r),
{
    let body = request_body(message, action)?;
    read_json_body(body)
}

/// Frames the JSON text `json` as the response to request `request_id`.
pub fn build_steelsearch_json_response_message(request_id: i64, version: Version, json: &[u8]) -> (frame: Vec<u8>)
    ensures
        frame@ == response_frame(request_id, version.id, enc_json_bytes(json@)),
{
    let mut body = StreamOutput::new();
    write_json_bytes(&mut body, json);
    assert(body@ =~= enc_json_bytes(json@));
    frame_response(request_id, version, body.freeze())
}

/// The JSON text of a response message.
pub fn read_steelsearch_json_response_message(message: &TransportMessage) -> (r: Result<
    Vec<u8>,
    TransportActionWireError,
>)
    ensures
        gate_refusal(response_gate(message@), message@, "response"@, Seq::empty(), r),
        response_gate(message@) is Pass ==> json_body_read_result(message@.4, r),
{
    let body = response_body(message)?;
    read_json_body(body)
}

} // verus!
