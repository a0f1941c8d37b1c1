//! The frames that carry action bodies, and the checks a reader makes of a
//! message before it reads the body.
use vstd::prelude::*;
use vstd::slice::slice_to_vec;
use crate::action_wire::{lift, TransportActionWireError};
use crate::codec::string_fits;
use crate::frame::{announced_size, decode_message_spec, encode_message, lemma_frame_roundtrip, FrameError};
use crate::message::{enc_message, MessageView, TransportMessage};
use crate::status::{TransportStatus, STATUS_COMPRESS, STATUS_REQRES};
use crate::variable_header::{
    enc_request_variable_header, enc_thread_headers, lemma_request_variable_header_roundtrip,
    lemma_thread_headers_roundtrip, parse_request_variable_header, parse_thread_headers, thread_headers_fit,
    RequestVariableHeader, RequestVariableHeaderView, ResponseVariableHeader, ThreadHeadersView,
};
use crate::version::Version;

verus! {

/// No thread headers.
pub open spec fn no_thread_headers() -> ThreadHeadersView {
    (Seq::empty(), Seq::empty())
}

/// The variable header of a request for `action`, with no thread headers and
/// no features.
pub open spec fn plain_request_header(action: Seq<char>) -> RequestVariableHeaderView {
    (no_thread_headers(), Seq::empty(), action)
}

/// The frame of request `request_id` at version `version` for `action`,
/// carrying `body`.
pub open spec fn request_frame(request_id: i64, version: i32, action: Seq<char>, body: Seq<u8>) -> Seq<u8> {
    enc_message((request_id, 0u8, version, enc_request_variable_header(plain_request_header(action)), body))
}

/// The frame of the response to request `request_id` at version `version`,
/// carrying `body`.
pub open spec fn response_frame(request_id: i64, version: i32, body: Seq<u8>) -> Seq<u8> {
    enc_message((request_id, STATUS_REQRES, version, enc_thread_headers(no_thread_headers()), body))
}

/// Frames `body` as request `request_id` for `action`.
pub fn frame_request(request_id: i64, version: Version, action: &str, body: Vec<u8>) -> (bytes: Vec<u8>)
    ensures
        bytes@ == request_frame(request_id, version.id, action@, body@),
{
    let header = RequestVariableHeader::new(action);
    proof {
        assert(header@.0.0 =~= Seq::<(Seq<char>, Seq<char>)>::empty());
        assert(header@.0.1 =~= Seq::<(Seq<char>, Seq<Seq<char>>)>::empty());
        assert(header@.1 =~= Seq::<Seq<char>>::empty());
        assert(header@ == plain_request_header(action@));
    }
    let message = TransportMessage {
        request_id,
        status: TransportStatus::request(),
        version,
        variable_header: header.to_bytes(),
        body,
    };
    encode_message(&message)
}

/// Frames `body` as the response to request `request_id`.
pub fn frame_response(request_id: i64, version: Version, body: Vec<u8>) -> (bytes: Vec<u8>)
    ensures
        bytes@ == response_frame(request_id, version.id, body@),
{
    let header = ResponseVariableHeader::default();
    proof {
        assert(header@.0 =~= Seq::<(Seq<char>, Seq<char>)>::empty());
        assert(header@.1 =~= Seq::<(Seq<char>, Seq<Seq<char>>)>::empty());
        assert(header@ == no_thread_headers());
    }
    let message = TransportMessage {
        request_id,
        status: TransportStatus::response(),
        version,
        variable_header: header.to_bytes(),
        body,
    };
    encode_message(&message)
}

/// What a reader finds when it checks a message before reading its body.
pub enum MessageGate {
    /// The status bits name the other direction.
    WrongStatus,
    /// The variable header cannot be read.
    BadHeader,
    /// The request names another action (the one given).
    WrongAction(Seq<char>),
    /// The body may be read.
    Pass,
}

/// The check of a message read as a request for `action`.
pub open spec fn request_gate(m: MessageView, action: Seq<char>) -> MessageGate {
    if m.1 & STATUS_REQRES != 0 {
        MessageGate::WrongStatus
    } else {
        match parse_request_variable_header(m.3) {
            None => MessageGate::BadHeader,
            Some((h, _)) => if h.2 != action {
                MessageGate::WrongAction(h.2)
            } else {
                MessageGate::Pass
            },
        }
    }
}

/// The check of a message read as a response.
pub open spec fn response_gate(m: MessageView) -> MessageGate {
    if m.1 & STATUS_REQRES == 0 {
        MessageGate::WrongStatus
    } else {
        match parse_thread_headers(m.3) {
            None => MessageGate::BadHeader,
            Some(_) => MessageGate::Pass,
        }
    }
}

/// The error a reader gives for a message that fails its check: the status
/// it expected, or the action it expected.
pub open spec fn gate_refusal<T>(
    g: MessageGate,
    m: MessageView,
    expected_status: Seq<char>,
    action: Seq<char>,
    r: Result<T, TransportActionWireError>,
) -> bool {
    match g {
        MessageGate::WrongStatus => r matches Err(TransportActionWireError::UnexpectedMessageStatus { expected, actual })
            && expected@ == expected_status && actual == m.1,
        MessageGate::BadHeader => r matches Err(TransportActionWireError::Stream(_)),
        MessageGate::WrongAction(a) => r matches Err(TransportActionWireError::UnexpectedAction { expected, actual })
            && expected@ == action && actual@ == a,
        MessageGate::Pass => true,
    }
}

/// The body of `message`, once it is checked as a request for `action`.
pub fn request_body(message: &TransportMessage, action: &'static str) -> (r: Result<Vec<u8>, TransportActionWireError>)
    ensures
        gate_refusal(request_gate(message@, action@), message@, "request"@, action@, r),
        request_gate(message@, action@) is Pass <==> r is Ok,
        r matches Ok(b) ==> b@ == message@.4,
{
    if !message.status.is_request() {
        return Err(
            TransportActionWireError::UnexpectedMessageStatus { expected: "request", actual: message.status.bits() },
        );
    }
    let header = lift(RequestVariableHeader::read(slice_to_vec(message.variable_header.as_slice())))?;
    if !crate::text::str_eq(header.action.as_str(), action) {
        return Err(TransportActionWireError::UnexpectedAction { expected: action, actual: header.action });
    }
    Ok(slice_to_vec(message.body.as_slice()))
}

/// The body of `message`, once it is checked as a response.
pub fn response_body(message: &TransportMessage) -> (r: Result<Vec<u8>, TransportActionWireError>)
    ensures
        gate_refusal(response_gate(message@), message@, "response"@, Seq::empty(), r),
        response_gate(message@) is Pass <==> r is Ok,
        r matches Ok(b) ==> b@ == message@.4,
{
    if !message.status.is_response() {
        return Err(
            TransportActionWireError::UnexpectedMessageStatus { expected: "response", actual: message.status.bits() },
        );
    }
    let _header = lift(ResponseVariableHeader::read(slice_to_vec(message.variable_header.as_slice())))?;
    Ok(slice_to_vec(message.body.as_slice()))
}

/// The message a request frame decodes to.
pub open spec fn request_message(request_id: i64, version: i32, action: Seq<char>, body: Seq<u8>) -> MessageView {
    (request_id, 0u8, version, enc_request_variable_header(plain_request_header(action)), body)
}

/// The message a response frame decodes to.
pub open spec fn response_message(request_id: i64, version: i32, body: Seq<u8>) -> MessageView {
    (request_id, STATUS_REQRES, version, enc_thread_headers(no_thread_headers()), body)
}

/// No thread headers can be written and read back.
proof fn lemma_no_thread_headers_fit()
    ensures
        thread_headers_fit(no_thread_headers()),
{
}

/// A request frame decodes to the request it was built from, whatever
/// follows it; the decoded message passes a reader's check for the same
/// action, and its body is the body framed.
pub proof fn lemma_request_frame_read_back(
    request_id: i64,
    version: i32,
    action: Seq<char>,
    body: Seq<u8>,
    rest: Seq<u8>,
)
    requires
        string_fits(action),
        enc_request_variable_header(plain_request_header(action)).len() + body.len() <= i32::MAX - 17,
    ensures
        ({
            let s = request_frame(request_id, version, action, body) + rest;
            let ms = announced_size(s);
            &&& s.skip(6 + ms) == rest
            &&& decode_message_spec(s.take(6 + ms)) == Ok::<MessageView, FrameError>(
                request_message(request_id, version, action, body),
            )
            &&& request_gate(request_message(request_id, version, action, body), action) is Pass
        }),
{
    let m = request_message(request_id, version, action, body);
    assert(0u8 & STATUS_COMPRESS == 0 && 0u8 & STATUS_REQRES == 0) by (bit_vector);
    lemma_frame_roundtrip(m, rest);
    lemma_no_thread_headers_fit();
    lemma_request_variable_header_roundtrip(plain_request_header(action), Seq::empty());
    assert(enc_request_variable_header(plain_request_header(action)) + Seq::<u8>::empty() =~= m.3);
}

/// A response frame decodes to the response it was built from, whatever
/// follows it; the decoded message passes a reader's check, and its body is
/// the body framed.
pub proof fn lemma_response_frame_read_back(request_id: i64, version: i32, body: Seq<u8>, rest: Seq<u8>)
    requires
        enc_thread_headers(no_thread_headers()).len() + body.len() <= i32::MAX - 17,
    ensures
        ({
            let s = response_frame(request_id, version, body) + rest;
            let ms = announced_size(s);
            &&& s.skip(6 + ms) == rest
            &&& decode_message_spec(s.take(6 + ms)) == Ok::<MessageView, FrameError>(
                response_message(request_id, version, body),
            )
            &&& response_gate(response_message(request_id, version, body)) is Pass
        }),
{
    let m = response_message(request_id, version, body);
    assert(STATUS_REQRES & STATUS_COMPRESS == 0 && STATUS_REQRES & STATUS_REQRES != 0) by (bit_vector);
    lemma_frame_roundtrip(m, rest);
    lemma_no_thread_headers_fit();
    lemma_thread_headers_roundtrip(no_thread_headers(), Seq::empty());
    assert(enc_thread_headers(no_thread_headers()) + Seq::<u8>::empty() =~= m.3);
}

} // verus!
