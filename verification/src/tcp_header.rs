//! The fixed-size header that starts every transport message.
use vstd::prelude::*;
use crate::codec::{dec_u32_be, dec_u64_be, enc_i32, enc_i64, lemma_i32_roundtrip, lemma_i64_roundtrip, parse_i32, parse_i64};
use crate::stream::StreamOutput;
use crate::version::Version;

verus! {

/// Size of the "ES" marker.
pub const MARKER_BYTES_SIZE: usize = 2;
/// Size of the message length field.
pub const MESSAGE_LENGTH_SIZE: usize = 4;
/// Size of the request id field.
pub const REQUEST_ID_SIZE: usize = 8;
/// Size of the status field.
pub const STATUS_SIZE: usize = 1;
/// Size of the version id field.
pub const VERSION_ID_SIZE: usize = 4;
/// Size of the variable-header size field.
pub const VARIABLE_HEADER_SIZE: usize = 4;
/// Bytes needed before the message length is known.
pub const BYTES_REQUIRED_FOR_MESSAGE_SIZE: usize = 6;
/// Offset of the version id.
pub const VERSION_POSITION: usize = 15;
/// Offset of the variable-header size.
pub const VARIABLE_HEADER_SIZE_POSITION: usize = 19;
/// Size of the whole fixed header.
pub const HEADER_SIZE: usize = 23;
/// Header bytes counted by the message length besides the content.
pub const HEADER_FIELDS_AFTER_LENGTH: i32 = 17;

/// `x` reduced into the `i32` range modulo 2^32, as two's-complement
/// arithmetic wraps.
pub open spec fn wrap_i32(x: int) -> i32 {
    if x > i32::MAX {
        (x - 0x1_0000_0000) as i32
    } else if x < i32::MIN {
        (x + 0x1_0000_0000) as i32
    } else {
        x as i32
    }
}

/// Two's-complement sum as the header computes it.
pub fn wrapping_add_i32(a: i32, b: i32) -> (r: i32)
    ensures
        r == wrap_i32(a + b),
{
    let m = (a as i64) + (b as i64);
    if m > 0x7fff_ffff {
        (m - 0x1_0000_0000) as i32
    } else if m < -0x8000_0000 {
        (m + 0x1_0000_0000) as i32
    } else {
        m as i32
    }
}

/// Fixed-size OpenSearch TCP transport header: marker bytes, message length,
/// request id, status, version id, and variable-header size.
#[derive(Clone, Debug, PartialEq, Eq, Structural)]
pub struct TcpHeader {
    pub request_id: i64,
    pub status: u8,
    pub version: Version,
    pub content_size: i32,
    pub variable_header_size: i32,
}

/// Why a header could not be decoded.
#[derive(Clone, Copy, Debug, PartialEq, Eq, Structural)]
pub enum TcpHeaderError {
    TooShort { actual: usize, required: usize },
    InvalidPrefix,
}

/// The two marker bytes "ES".
pub open spec fn es_marker() -> Seq<u8> {
    seq![69u8, 83u8]
}

/// The message length field: the content plus the header fields after it.
pub open spec fn message_length_of(h: TcpHeader) -> i32 {
    wrap_i32(h.content_size + 17)
}

/// The encoding of a header.
pub open spec fn enc_tcp_header(h: TcpHeader) -> Seq<u8> {
    es_marker() + enc_i32(message_length_of(h)) + enc_i64(h.request_id) + seq![h.status] + enc_i32(
        h.version.id,
    ) + enc_i32(h.variable_header_size)
}

/// True when `s` starts with the "ES" marker.
pub open spec fn has_es_marker(s: Seq<u8>) -> bool {
    s.len() >= 2 && s[0] == 69u8 && s[1] == 83u8
}

/// The big-endian `i32` at offset `i` of `s`.
pub open spec fn i32_at(s: Seq<u8>, i: int) -> i32 {
    dec_u32_be(s[i], s[i + 1], s[i + 2], s[i + 3]) as i32
}

/// The header decoded from the first `HEADER_SIZE` bytes of `s`.
pub open spec fn parse_tcp_header(s: Seq<u8>) -> Result<TcpHeader, TcpHeaderError> {
    if s.len() < 23 {
        Err(TcpHeaderError::TooShort { actual: s.len() as usize, required: 23 })
    } else if !has_es_marker(s) {
        Err(TcpHeaderError::InvalidPrefix)
    } else {
        Ok(
            TcpHeader {
                request_id: dec_u64_be(s.subrange(6, 14)) as i64,
                status: s[14],
                version: Version { id: i32_at(s, 15) },
                content_size: wrap_i32(i32_at(s, 2) - 17),
                variable_header_size: i32_at(s, 19),
            },
        )
    }
}

/// Reads the big-endian `i32` at offset `i`.
pub fn read_i32_at(s: &[u8], i: usize) -> (v: i32)
    requires
        i + 4 <= s@.len(),
    ensures
        v == i32_at(s@, i as int),
{
    (((s[i] as u32) << 24u32) | ((s[i + 1] as u32) << 16u32) | ((s[i + 2] as u32) << 8u32) | (s[i + 3] as u32)) as i32
}

fn read_i64_at(s: &[u8], i: usize) -> (v: i64)
    requires
        i + 8 <= s@.len(),
    ensures
        v == dec_u64_be(s@.subrange(i as int, i + 8)) as i64,
{
    let hi = ((s[i] as u32) << 24u32) | ((s[i + 1] as u32) << 16u32) | ((s[i + 2] as u32) << 8u32) | (s[i + 3] as u32);
    let lo = ((s[i + 4] as u32) << 24u32) | ((s[i + 5] as u32) << 16u32) | ((s[i + 6] as u32) << 8u32) | (s[i + 7] as u32);
    let ghost t = s@.subrange(i as int, i + 8);
    assert(t[0] == s@[i as int] && t[1] == s@[i + 1] && t[2] == s@[i + 2] && t[3] == s@[i + 3]);
    assert(t[4] == s@[i + 4] && t[5] == s@[i + 5] && t[6] == s@[i + 6] && t[7] == s@[i + 7]);
    (((hi as u64) << 32u64) | (lo as u64)) as i64
}

impl TcpHeader {
    /// Appends the encoded header to `dst`.
    pub fn encode(&self, dst: &mut Vec<u8>)
        ensures
            final(dst)@ == old(dst)@ + enc_tcp_header(*self),
    {
        let mut out = StreamOutput::new();
        out.write_byte(69u8);
        out.write_byte(83u8);
        out.write_i32(wrapping_add_i32(self.content_size, HEADER_FIELDS_AFTER_LENGTH));
        out.write_i64(self.request_id);
        out.write_byte(self.status);
        out.write_i32(self.version.id);
        out.write_i32(self.variable_header_size);
        let mut bytes = out.freeze();
        assert(bytes@ =~= enc_tcp_header(*self));
        dst.append(&mut bytes);
    }

    /// Decodes a header from the start of `src`.
    pub fn decode(src: &[u8]) -> (r: Result<TcpHeader, TcpHeaderError>)
        ensures
            r == parse_tcp_header(src@),
    {
        if src.len() < HEADER_SIZE {
            return Err(TcpHeaderError::TooShort { actual: src.len(), required: HEADER_SIZE });
        }
        if src[0] != 69u8 || src[1] != 83u8 {
            return Err(TcpHeaderError::InvalidPrefix);
        }
        let message_size = read_i32_at(src, 2);
        let request_id = read_i64_at(src, 6);
        let status = src[14];
        let version = Version::from_id(read_i32_at(src, 15));
        let variable_header_size = read_i32_at(src, 19);
        let content_size = wrapping_add_i32(message_size, -HEADER_FIELDS_AFTER_LENGTH);
        Ok(TcpHeader { request_id, status, version, content_size, variable_header_size })
    }
}

/// Decoding reads back every encoded header, whatever follows it.
pub proof fn lemma_tcp_header_roundtrip(h: TcpHeader, rest: Seq<u8>)
    ensures
        parse_tcp_header(enc_tcp_header(h) + rest) == Ok::<TcpHeader, TcpHeaderError>(h),
        enc_tcp_header(h).len() == 23,
{
    reveal(crate::codec::parse_i32);
    reveal(crate::codec::parse_i64);
    reveal(enc_i32);
    reveal(enc_i64);
    let s = enc_tcp_header(h) + rest;
    let ml = message_length_of(h);
    lemma_i32_roundtrip(ml, s.skip(6));
    lemma_i64_roundtrip(h.request_id, s.skip(14));
    lemma_i32_roundtrip(h.version.id, s.skip(19));
    lemma_i32_roundtrip(h.variable_header_size, rest);
    assert(s.skip(2).take(4) =~= enc_i32(ml));
    assert(s.skip(2) =~= enc_i32(ml) + s.skip(6));
    assert(s.skip(6) =~= enc_i64(h.request_id) + s.skip(14));
    assert(s.skip(15) =~= enc_i32(h.version.id) + s.skip(19));
    assert(s.skip(19) =~= enc_i32(h.variable_header_size) + rest);
    assert(parse_i32(s.skip(2)) == Some((ml, 4int)));
    assert(i32_at(s, 2) == ml) by {
        assert(s.skip(2)[0] == s[2] && s.skip(2)[1] == s[3] && s.skip(2)[2] == s[4] && s.skip(2)[3] == s[5]);
    }
    assert(i32_at(s, 15) == h.version.id) by {
        assert(s.skip(15)[0] == s[15] && s.skip(15)[1] == s[16] && s.skip(15)[2] == s[17] && s.skip(15)[3] == s[18]);
    }
    assert(i32_at(s, 19) == h.variable_header_size) by {
        assert(s.skip(19)[0] == s[19] && s.skip(19)[1] == s[20] && s.skip(19)[2] == s[21] && s.skip(19)[3] == s[22]);
    }
    assert(dec_u64_be(s.subrange(6, 14)) as i64 == h.request_id) by {
        let a = s.subrange(6, 14);
        let b = s.skip(6);
        assert(a[0] == b[0] && a[1] == b[1] && a[2] == b[2] && a[3] == b[3] && a[4] == b[4] && a[5] == b[5]
            && a[6] == b[6] && a[7] == b[7]);
        assert(dec_u64_be(a) == dec_u64_be(b));
    }
    assert(s[14] == h.status);
}


/// A header goes on the wire as the "ES" marker, the message length (the
/// content size plus the 17 header bytes after the length field), the request
/// id, the status byte, the version id and the variable-header size, in that
/// order; a reader given them in that order reads each into its own field.
pub proof fn lemma_tcp_header_wire_order(
    request_id: i64,
    status: u8,
    version_id: i32,
    content_size: i32,
    variable_header_size: i32,
    rest: Seq<u8>,
)
    ensures
        ({
            let h = TcpHeader { request_id, status, version: Version { id: version_id }, content_size, variable_header_size };
            let wire = seq![69u8, 83u8] + enc_i32(wrap_i32(content_size + 17)) + enc_i64(request_id) + seq![status]
                + enc_i32(version_id) + enc_i32(variable_header_size);
            &&& enc_tcp_header(h) == wire
            &&& parse_tcp_header(wire + rest) == Ok::<TcpHeader, TcpHeaderError>(h)
        }),
{
    let h = TcpHeader { request_id, status, version: Version { id: version_id }, content_size, variable_header_size };
    let wire = seq![69u8, 83u8] + enc_i32(wrap_i32(content_size + 17)) + enc_i64(request_id) + seq![status] + enc_i32(
        version_id,
    ) + enc_i32(variable_header_size);
    assert(enc_tcp_header(h) =~= wire);
    lemma_tcp_header_roundtrip(h, rest);
}

} // verus!
