//! Document actions as messages: the frames that carry their requests and
//! responses, and what a reader makes of a message for one of them.
use vstd::prelude::*;
use crate::action_frames::{frame_request, frame_response, gate_refusal, request_body, request_frame, request_gate, response_body, response_frame, response_gate};
use crate::action_names::{OPENSEARCH_BULK_ACTION_NAME, OPENSEARCH_DELETE_ACTION_NAME, OPENSEARCH_GET_ACTION_NAME, OPENSEARCH_INDEX_ACTION_NAME, OPENSEARCH_MULTI_GET_ACTION_NAME, OPENSEARCH_REFRESH_ACTION_NAME, OPENSEARCH_UPDATE_ACTION_NAME};
use crate::action_wire::{is_unsupported, TransportActionWireError};
use crate::document_codecs::{enc_opensearch_bulk_request, enc_opensearch_delete_request, enc_opensearch_delete_response, enc_opensearch_get_request, enc_opensearch_index_request, enc_opensearch_index_response, enc_opensearch_multi_get_request, enc_opensearch_refresh_request, enc_opensearch_refresh_response, enc_opensearch_update_request, enc_opensearch_update_response, opensearch_bulk_request_read_result, opensearch_bulk_request_write_refusal, opensearch_delete_request_read_result, opensearch_delete_request_write_refusal, opensearch_delete_response_read_result, opensearch_get_request_read_result, opensearch_get_request_write_refusal, opensearch_index_request_read_result, opensearch_index_request_write_refusal, opensearch_index_response_read_result, opensearch_multi_get_request_read_result, opensearch_multi_get_request_write_refusal, opensearch_refresh_request_read_result, opensearch_refresh_response_read_result, opensearch_update_request_read_result, opensearch_update_request_write_refusal, opensearch_update_response_read_result, opensearch_update_response_write_refusal};
use crate::document_requests::{OpenSearchBulkRequestWire, OpenSearchDeleteRequestWire, OpenSearchDeleteResponseWire, OpenSearchGetRequestWire, OpenSearchIndexRequestWire, OpenSearchIndexResponseWire, OpenSearchMultiGetRequestWire, OpenSearchRefreshRequestWire, OpenSearchRefreshResponseWire, OpenSearchUpdateRequestWire, OpenSearchUpdateResponseWire};
use crate::message::TransportMessage;
use crate::stream::StreamOutput;
use crate::version::Version;

verus! {

/// Frames a get request as request `request_id`.
pub fn build_opensearch_get_request_message(
    request_id: i64,
    version: Version,
    request: &OpenSearchGetRequestWire,
) -> (r: Result<Vec<u8>, TransportActionWireError>)
    ensures
        match opensearch_get_request_write_refusal(request@) {
            Some((shape, reason)) => is_unsupported(r, shape, reason),
            None => r matches Ok(b) && b@ == request_frame(request_id, version.id, OPENSEARCH_GET_ACTION_NAME@, enc_opensearch_get_request(request@)),
        },
{
    let mut body = StreamOutput::new();
    request.write(&mut body)?;
    proof {
        assert(body@ =~= enc_opensearch_get_request(request@));
    }
    Ok(frame_request(request_id, version, OPENSEARCH_GET_ACTION_NAME, body.freeze()))
}

/// Reads a get request from a request message for its action.
pub fn read_opensearch_get_request_message(message: &TransportMessage) -> (r: Result<OpenSearchGetRequestWire, TransportActionWireError>)
    ensures
        gate_refusal(request_gate(message@, OPENSEARCH_GET_ACTION_NAME@), message@, "request"@, OPENSEARCH_GET_ACTION_NAME@, r),
        request_gate(message@, OPENSEARCH_GET_ACTION_NAME@) is Pass ==> opensearch_get_request_read_result(message@.4, r),
{
    let body = request_body(message, OPENSEARCH_GET_ACTION_NAME)?;
    OpenSearchGetRequestWire::read(body)
}

/// Frames a delete request as request `request_id`.
pub fn build_opensearch_delete_request_message(
    request_id: i64,
    version: Version,
    request: &OpenSearchDeleteRequestWire,
) -> (r: Result<Vec<u8>, TransportActionWireError>)
    ensures
        match opensearch_delete_request_write_refusal(request@) {
            Some((shape, reason)) => is_unsupported(r, shape, reason),
            None => r matches Ok(b) && b@ == request_frame(request_id, version.id, OPENSEARCH_DELETE_ACTION_NAME@, enc_opensearch_delete_request(request@)),
        },
{
    let mut body = StreamOutput::new();
    request.write(&mut body)?;
    proof {
        assert(body@ =~= enc_opensearch_delete_request(request@));
    }
    Ok(frame_request(request_id, version, OPENSEARCH_DELETE_ACTION_NAME, body.freeze()))
}

/// Reads a delete request from a request message for its action.
pub fn read_opensearch_delete_request_message(message: &TransportMessage) -> (r: Result<OpenSearchDeleteRequestWire, TransportActionWireError>)
    ensures
        gate_refusal(request_gate(message@, OPENSEARCH_DELETE_ACTION_NAME@), message@, "request"@, OPENSEARCH_DELETE_ACTION_NAME@, r),
        request_gate(message@, OPENSEARCH_DELETE_ACTION_NAME@) is Pass ==> opensearch_delete_request_read_result(message@.4, r),
{
    let body = request_body(message, OPENSEARCH_DELETE_ACTION_NAME)?;
    OpenSearchDeleteRequestWire::read(body)
}

/// Frames an index request as request `request_id`.
pub fn build_opensearch_index_request_message(
    request_id: i64,
    version: Version,
    request: &OpenSearchIndexRequestWire,
) -> (r: Result<Vec<u8>, TransportActionWireError>)
    ensures
        match opensearch_index_request_write_refusal(request@) {
            Some((shape, reason)) => is_unsupported(r, shape, reason),
            None => r matches Ok(b) && b@ == request_frame(request_id, version.id, OPENSEARCH_INDEX_ACTION_NAME@, enc_opensearch_index_request(request@)),
        },
{
    let mut body = StreamOutput::new();
    request.write(&mut body)?;
    proof {
        assert(body@ =~= enc_opensearch_index_request(request@));
    }
    Ok(frame_request(request_id, version, OPENSEARCH_INDEX_ACTION_NAME, body.freeze()))
}

/// Reads an index request from a request message for its action.
pub fn read_opensearch_index_request_message(message: &TransportMessage) -> (r: Result<OpenSearchIndexRequestWire, TransportActionWireError>)
    ensures
        gate_refusal(request_gate(message@, OPENSEARCH_INDEX_ACTION_NAME@), message@, "request"@, OPENSEARCH_INDEX_ACTION_NAME@, r),
        request_gate(message@, OPENSEARCH_INDEX_ACTION_NAME@) is Pass ==> opensearch_index_request_read_result(message@.4, r),
{
    let body = request_body(message, OPENSEARCH_INDEX_ACTION_NAME)?;
    OpenSearchIndexRequestWire::read(body)
}

/// Frames an update request as request `request_id`.
pub fn build_opensearch_update_request_message(
    request_id: i64,
    version: Version,
    request: &OpenSearchUpdateRequestWire,
) -> (r: Result<Vec<u8>, TransportActionWireError>)
    ensures
        match opensearch_update_request_write_refusal(request@) {
            Some((shape, reason)) => is_unsupported(r, shape, reason),
            None => r matches Ok(b) && b@ == request_frame(request_id, version.id, OPENSEARCH_UPDATE_ACTION_NAME@, enc_opensearch_update_request(request@)),
        },
{
    let mut body = StreamOutput::new();
    request.write(&mut body)?;
    proof {
        assert(body@ =~= enc_opensearch_update_request(request@));
    }
    Ok(frame_request(request_id, version, OPENSEARCH_UPDATE_ACTION_NAME, body.freeze()))
}

/// Reads an update request from a request message for its action.
pub fn read_opensearch_update_request_message(message: &TransportMessage) -> (r: Result<OpenSearchUpdateRequestWire, TransportActionWireError>)
    ensures
        gate_refusal(request_gate(message@, OPENSEARCH_UPDATE_ACTION_NAME@), message@, "request"@, OPENSEARCH_UPDATE_ACTION_NAME@, r),
        request_gate(message@, OPENSEARCH_UPDATE_ACTION_NAME@) is Pass ==> opensearch_update_request_read_result(message@.4, r),
{
    let body = request_body(message, OPENSEARCH_UPDATE_ACTION_NAME)?;
    OpenSearchUpdateRequestWire::read(body)
}

/// Frames a multi-get request as request `request_id`.
pub fn build_opensearch_multi_get_request_message(
    request_id: i64,
    version: Version,
    request: &OpenSearchMultiGetRequestWire,
) -> (r: Result<Vec<u8>, TransportActionWireError>)
    ensures
        match opensearch_multi_get_request_write_refusal(request@) {
            Some((shape, reason)) => is_unsupported(r, shape, reason),
            None => r matches Ok(b) && b@ == request_frame(request_id, version.id, OPENSEARCH_MULTI_GET_ACTION_NAME@, enc_opensearch_multi_get_request(request@)),
        },
{
    let mut body = StreamOutput::new();
    request.write(&mut body)?;
    proof {
        assert(body@ =~= enc_opensearch_multi_get_request(request@));
    }
    Ok(frame_request(request_id, version, OPENSEARCH_MULTI_GET_ACTION_NAME, body.freeze()))
}

/// Reads a multi-get request from a request message for its action.
pub fn read_opensearch_multi_get_request_message(message: &TransportMessage) -> (r: Result<OpenSearchMultiGetRequestWire, TransportActionWireError>)
    ensures
        gate_refusal(request_gate(message@, OPENSEARCH_MULTI_GET_ACTION_NAME@), message@, "request"@, OPENSEARCH_MULTI_GET_ACTION_NAME@, r),
        request_gate(message@, OPENSEARCH_MULTI_GET_ACTION_NAME@) is Pass ==> opensearch_multi_get_request_read_result(message@.4, r),
{
    let body = request_body(message, OPENSEARCH_MULTI_GET_ACTION_NAME)?;
    OpenSearchMultiGetRequestWire::read(body)
}

/// Frames a bulk request as request `request_id`.
pub fn build_opensearch_bulk_request_message(
    request_id: i64,
    version: Version,
    request: &OpenSearchBulkRequestWire,
) -> (r: Result<Vec<u8>, TransportActionWireError>)
    ensures
        match opensearch_bulk_request_write_refusal(request@) {
            Some((shape, reason)) => is_unsupported(r, shape, reason),
            None => r matches Ok(b) && b@ == request_frame(request_id, version.id, OPENSEARCH_BULK_ACTION_NAME@, enc_opensearch_bulk_request(request@)),
        },
{
    let mut body = StreamOutput::new();
    request.write(&mut body)?;
    proof {
        assert(body@ =~= enc_opensearch_bulk_request(request@));
    }
    Ok(frame_request(request_id, version, OPENSEARCH_BULK_ACTION_NAME, body.freeze()))
}

/// Reads a bulk request from a request message for its action.
pub fn read_opensearch_bulk_request_message(message: &TransportMessage) -> (r: Result<OpenSearchBulkRequestWire, TransportActionWireError>)
    ensures
        gate_refusal(request_gate(message@, OPENSEARCH_BULK_ACTION_NAME@), message@, "request"@, OPENSEARCH_BULK_ACTION_NAME@, r),
        request_gate(message@, OPENSEARCH_BULK_ACTION_NAME@) is Pass ==> opensearch_bulk_request_read_result(message@.4, r),
{
    let body = request_body(message, OPENSEARCH_BULK_ACTION_NAME)?;
    OpenSearchBulkRequestWire::read(body)
}

/// Frames a delete response as the response to request `request_id`.
pub fn build_opensearch_delete_response_message(
    request_id: i64,
    version: Version,
    response: &OpenSearchDeleteResponseWire,
) -> (r: Result<Vec<u8>, TransportActionWireError>)
    ensures
        r matches Ok(b) && b@ == response_frame(request_id, version.id, enc_opensearch_delete_response(response@)),
{
    let mut body = StreamOutput::new();
    response.write(&mut body);
    proof {
        assert(body@ =~= enc_opensearch_delete_response(response@));
    }
    Ok(frame_response(request_id, version, body.freeze()))
}

/// Reads a delete response from a response message.
pub fn read_opensearch_delete_response_message(message: &TransportMessage) -> (r: Result<OpenSearchDeleteResponseWire, TransportActionWireError>)
    ensures
        gate_refusal(response_gate(message@), message@, "response"@, Seq::empty(), r),
        response_gate(message@) is Pass ==> opensearch_delete_response_read_result(message@.4, r),
{
    let body = response_body(message)?;
    OpenSearchDeleteResponseWire::read(body)
}

/// Frames an index response as the response to request `request_id`.
pub fn build_opensearch_index_response_message(
    request_id: i64,
    version: Version,
    response: &OpenSearchIndexResponseWire,
) -> (r: Result<Vec<u8>, TransportActionWireError>)
    ensures
        r matches Ok(b) && b@ == response_frame(request_id, version.id, enc_opensearch_index_response(response@)),
{
    let mut body = StreamOutput::new();
    response.write(&mut body);
    proof {
        assert(body@ =~= enc_opensearch_index_response(response@));
    }
    Ok(frame_response(request_id, version, body.freeze()))
}

/// Reads an index response from a response message.
pub fn read_opensearch_index_response_message(message: &TransportMessage) -> (r: Result<OpenSearchIndexResponseWire, TransportActionWireError>)
    ensures
        gate_refusal(response_gate(message@), message@, "response"@, Seq::empty(), r),
        response_gate(message@) is Pass ==> opensearch_index_response_read_result(message@.4, r),
{
    let body = response_body(message)?;
    OpenSearchIndexResponseWire::read(body)
}

/// Frames an update response as the response to request `request_id`.
pub fn build_opensearch_update_response_message(
    request_id: i64,
    version: Version,
    response: &OpenSearchUpdateResponseWire,
) -> (r: Result<Vec<u8>, TransportActionWireError>)
    ensures
        match opensearch_update_response_write_refusal(response@) {
            Some((shape, reason)) => is_unsupported(r, shape, reason),
            None => r matches Ok(b) && b@ == response_frame(request_id, version.id, enc_opensearch_update_response(response@)),
        },
{
    let mut body = StreamOutput::new();
    response.write(&mut body)?;
    proof {
        assert(body@ =~= enc_opensearch_update_response(response@));
    }
    Ok(frame_response(request_id, version, body.freeze()))
}

/// Reads an update response from a response message.
pub fn read_opensearch_update_response_message(message: &TransportMessage) -> (r: Result<OpenSearchUpdateResponseWire, TransportActionWireError>)
    ensures
        gate_refusal(response_gate(message@), message@, "response"@, Seq::empty(), r),
        response_gate(message@) is Pass ==> opensearch_update_response_read_result(message@.4, r),
{
    let body = response_body(message)?;
    OpenSearchUpdateResponseWire::read(body)
}

/// Frames a refresh request as request `request_id`.
pub fn build_opensearch_refresh_request_message(
    request_id: i64,
    version: Version,
    request: &OpenSearchRefreshRequestWire,
) -> (r: Result<Vec<u8>, TransportActionWireError>)
    ensures
        r matches Ok(b) && b@ == request_frame(request_id, version.id, OPENSEARCH_REFRESH_ACTION_NAME@, enc_opensearch_refresh_request(request@)),
{
    let mut body = StreamOutput::new();
    request.write(&mut body);
    proof {
        assert(body@ =~= enc_opensearch_refresh_request(request@));
    }
    Ok(frame_request(request_id, version, OPENSEARCH_REFRESH_ACTION_NAME, body.freeze()))
}

/// Reads a refresh request from a request message for its action.
pub fn read_opensearch_refresh_request_message(message: &TransportMessage) -> (r: Result<OpenSearchRefreshRequestWire, TransportActionWireError>)
    ensures
        gate_refusal(request_gate(message@, OPENSEARCH_REFRESH_ACTION_NAME@), message@, "request"@, OPENSEARCH_REFRESH_ACTION_NAME@, r),
        request_gate(message@, OPENSEARCH_REFRESH_ACTION_NAME@) is Pass ==> opensearch_refresh_request_read_result(message@.4, r),
{
    let body = request_body(message, OPENSEARCH_REFRESH_ACTION_NAME)?;
    OpenSearchRefreshRequestWire::read(body)
}

/// Frames a refresh response as the response to request `request_id`.
pub fn build_opensearch_refresh_response_message(
    request_id: i64,
    version: Version,
    response: &OpenSearchRefreshResponseWire,
) -> (r: Result<Vec<u8>, TransportActionWireError>)
    ensures
        r matches Ok(b) && b@ == response_frame(request_id, version.id, enc_opensearch_refresh_response(response@)),
{
    let mut body = StreamOutput::new();
    response.write(&mut body);
    proof {
        assert(body@ =~= enc_opensearch_refresh_response(response@));
    }
    Ok(frame_response(request_id, version, body.freeze()))
}

/// Reads a refresh response from a response message.
pub fn read_opensearch_refresh_response_message(message: &TransportMessage) -> (r: Result<OpenSearchRefreshResponseWire, TransportActionWireError>)
    ensures
        gate_refusal(response_gate(message@), message@, "response"@, Seq::empty(), r),
        response_gate(message@) is Pass ==> opensearch_refresh_response_read_result(message@.4, r),
{
    let body = response_body(message)?;
    OpenSearchRefreshResponseWire::read(body)
}

} // verus!

