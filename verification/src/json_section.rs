//! JSON documents carried inside action bodies: the JSON text as a bytes
//! reference, which a reader accepts only when it is one JSON document.
use vstd::prelude::*;
use crate::action_wire::TransportActionWireError;
use crate::codec::{enc_bytes_reference, lemma_bytes_reference_roundtrip, parse_bytes_reference};
use crate::stream::{StreamInput, StreamOutput};

verus! {

#[verifier::external_type_specification]
#[verifier::external_body]
pub struct ExJsonError(serde_json::Error);

/// Whether `serde_json` reads `bytes` as one JSON document.
pub uninterp spec fn is_json_document(bytes: Seq<u8>) -> bool;

/// Calls `serde_json::from_slice` for a `serde_json::Value` on `bytes`,
/// keeping only whether it succeeded: it succeeds exactly on the bytes that
/// `is_json_document` names.
#[verifier::external_body]
fn parse_json_document(bytes: &[u8]) -> (r: Result<(), serde_json::Error>)
    ensures
        r is Ok <==> is_json_document(bytes@),
{
    match serde_json::from_slice::<serde_json::Value>(bytes) {
        Ok(_) => Ok(()),
        Err(e) => Err(e),
    }
}

/// Checks that `bytes` is one JSON document.
pub fn check_json_document(bytes: &[u8]) -> (r: Result<(), TransportActionWireError>)
    ensures
        r is Ok <==> is_json_document(bytes@),
        r is Err ==> r == Err::<(), TransportActionWireError>(TransportActionWireError::JsonDecode),
{
    match parse_json_document(bytes) {
        Ok(()) => Ok(()),
        Err(_) => Err(TransportActionWireError::JsonDecode),
    }
}

/// A JSON section: the JSON text as a bytes reference.
pub open spec fn enc_json_bytes(v: Seq<u8>) -> Seq<u8> {
    enc_bytes_reference(v)
}

/// A JSON section, accepted only when its text is one JSON document.
#[verifier::opaque]
pub open spec fn parse_json_bytes(s: Seq<u8>) -> Option<(Seq<u8>, int)> {
    match parse_bytes_reference(s) {
        Some((b, k)) => if is_json_document(b) {
            Some((b, k))
        } else {
            None
        },
        None => None,
    }
}

/// Writes a JSON section.
pub fn write_json_bytes(output: &mut StreamOutput, json: &[u8])
    ensures
        final(output)@ == old(output)@ + enc_json_bytes(json@),
{
    output.write_bytes_reference(json);
}

/// Reads a JSON section, refusing text that is not one JSON document.
pub fn read_json_bytes(input: &mut StreamInput) -> (r: Result<Vec<u8>, TransportActionWireError>)
    ensures
        final(input).data() == old(input).data(),
        old(input).pos() <= final(input).pos() <= final(input).data().len(),
        match parse_json_bytes(old(input).rest()) {
            Some((v, n)) => r matches Ok(b) && b@ == v && final(input).pos() == old(input).pos() + n,
            None => r is Err,
        },
{
    reveal(parse_json_bytes);
    let bytes = match input.read_bytes_reference() {
        Ok(b) => b,
        Err(e) => return Err(TransportActionWireError::Stream(e)),
    };
    check_json_document(bytes.as_slice())?;
    Ok(bytes)
}

/// A JSON section reads back as written, whatever follows it.
pub proof fn lemma_json_bytes_roundtrip(v: Seq<u8>, rest: Seq<u8>)
    requires
        is_json_document(v),
        v.len() < 0x8000_0000,
    ensures
        parse_json_bytes(enc_json_bytes(v) + rest) == Some((v, enc_json_bytes(v).len() as int)),
{
    reveal(parse_json_bytes);
    lemma_bytes_reference_roundtrip(v, rest);
}

} // verus!
