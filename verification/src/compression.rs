//! Compressed message bodies: a "DFL\0" marker followed by raw DEFLATE data.
use vstd::prelude::*;
use vstd::slice::slice_subrange;

verus! {

/// Marker that starts a compressed body: "DFL" and a zero byte.
pub const DEFLATE_HEADER: [u8; 4] = [68u8, 70u8, 76u8, 0u8];

pub open spec fn deflate_marker() -> Seq<u8> {
    seq![68u8, 70u8, 76u8, 0u8]
}

/// Why a compressed body could not be expanded.
#[derive(Clone, Copy, Debug, PartialEq, Eq, Structural)]
pub enum CompressionError {
    MissingDeflateHeader,
    Inflate,
}

/// True when `bytes` start with the deflate marker.
pub open spec fn starts_with_deflate_marker(bytes: Seq<u8>) -> bool {
    bytes.len() >= 4 && bytes.take(4) == deflate_marker()
}

/// What `flate2` expands a raw DEFLATE stream to: its decompressed bytes, or
/// `None` when the stream is refused.
pub uninterp spec fn raw_inflate(data: Seq<u8>) -> Option<Seq<u8>>;

/// The body that a compressed body expands to.
pub open spec fn decompress_spec(bytes: Seq<u8>) -> Result<Seq<u8>, CompressionError> {
    if !starts_with_deflate_marker(bytes) {
        Err(CompressionError::MissingDeflateHeader)
    } else {
        match raw_inflate(bytes.skip(4)) {
            Some(out) => Ok(out),
            None => Err(CompressionError::Inflate),
        }
    }
}

/// True when `bytes` start with the deflate marker.
pub fn is_deflate_compressed(bytes: &[u8]) -> (r: bool)
    ensures
        r == starts_with_deflate_marker(bytes@),
{
    if bytes.len() < 4 {
        return false;
    }
    let r = bytes[0] == 68u8 && bytes[1] == 70u8 && bytes[2] == 76u8 && bytes[3] == 0u8;
    assert(r == (bytes@.take(4) =~= deflate_marker()));
    r
}

/// Expands a compressed body: checks the marker and inflates what follows.
pub fn decompress_deflate_body(bytes: &[u8]) -> (r: Result<Vec<u8>, CompressionError>)
    ensures
        match decompress_spec(bytes@) {
            Ok(out) => r matches Ok(v) && v@ == out,
            Err(e) => r == Err::<Vec<u8>, CompressionError>(e),
        },
{
    if !is_deflate_compressed(bytes) {
        return Err(CompressionError::MissingDeflateHeader);
    }
    let payload = slice_subrange(bytes, 4, bytes.len());
    assert(payload@ =~= bytes@.skip(4));
    match inflate_raw(payload) {
        Ok(v) => Ok(v),
        Err(_) => Err(CompressionError::Inflate),
    }
}

/// Declares std's I/O error, which `flate2` reports a refused stream with.
#[verifier::external_type_specification]
#[verifier::external_body]
pub struct ExIoError(std::io::Error);

/// Runs `flate2::read::DeflateDecoder` over `data` to the end. The contract
/// claims only that the outcome is a function of `data` (named
/// `raw_inflate`): the bytes it yields on success, and failure exactly when
/// the name says so.
#[verifier::external_body]
fn inflate_raw(data: &[u8]) -> (r: Result<Vec<u8>, std::io::Error>)
    ensures
        r is Ok <==> raw_inflate(data@) is Some,
        r matches Ok(v) ==> raw_inflate(data@) == Some(v@),
{
    let mut decoder = flate2::read::DeflateDecoder::new(data);
    let mut output = Vec::new();
    match std::io::Read::read_to_end(&mut decoder, &mut output) {
        Ok(_) => Ok(output),
        Err(e) => Err(e),
    }
}

} // verus!
