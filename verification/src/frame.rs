//! Splitting a byte buffer into transport frames, and encoding messages as
//! frames.
use vstd::prelude::*;
use vstd::slice::slice_subrange;
use vstd::slice::slice_to_vec;
use crate::compression::{decompress_deflate_body, decompress_spec, CompressionError};
use crate::message::{enc_message, header_of, MessageView, TransportMessage};
use crate::status::{TransportStatus, STATUS_COMPRESS};
use crate::tcp_header::{
    has_es_marker, i32_at, parse_tcp_header, read_i32_at, TcpHeader, TcpHeaderError,
    lemma_tcp_header_roundtrip,
};
use crate::version::Version;

verus! {

/// A frame taken off the front of a buffer.
#[derive(Clone, Debug, PartialEq, Eq)]
pub enum DecodedFrame {
    Ping,
    Message(TransportMessage),
}

/// Why the bytes at the front of a buffer are not a valid frame.
#[derive(Clone, Copy, Debug, PartialEq, Eq, Structural)]
pub enum FrameError {
    InvalidPrefix,
    NegativeMessageSize(i32),
    InvalidHeaderSizes { content_size: i32, variable_header_size: i32 },
    Header(TcpHeaderError),
    Compression(CompressionError),
}

/// Encodes a message as one frame.
pub fn encode_message(message: &TransportMessage) -> (bytes: Vec<u8>)
    ensures
        bytes@ == enc_message(message@),
{
    let mut bytes: Vec<u8> = Vec::new();
    message.header().encode(&mut bytes);
    let mut vh = slice_to_vec(message.variable_header.as_slice());
    let mut body = slice_to_vec(message.body.as_slice());
    bytes.append(&mut vh);
    bytes.append(&mut body);
    bytes
}

/// The message length announced by the first six bytes of a buffer.
pub open spec fn announced_size(s: Seq<u8>) -> i32 {
    i32_at(s, 2)
}

/// The message held by a complete frame (header, variable header, body), or
/// why it is refused.
pub open spec fn decode_message_spec(frame: Seq<u8>) -> Result<MessageView, FrameError> {
    match parse_tcp_header(frame) {
        Err(e) => Err(FrameError::Header(e)),
        Ok(h) => if h.variable_header_size < 0 || h.content_size < h.variable_header_size {
            Err(
                FrameError::InvalidHeaderSizes {
                    content_size: h.content_size,
                    variable_header_size: h.variable_header_size,
                },
            )
        } else {
            let ve = 23 + h.variable_header_size;
            let be = 23 + h.content_size;
            let raw = frame.subrange(ve, be);
            let vh = frame.subrange(23, ve);
            if h.status & STATUS_COMPRESS != 0 {
                match decompress_spec(raw) {
                    Ok(b) => Ok((h.request_id, h.status, h.version.id, vh, b)),
                    Err(e) => Err(FrameError::Compression(e)),
                }
            } else {
                Ok((h.request_id, h.status, h.version.id, vh, raw))
            }
        },
    }
}

/// True when the buffer holds a whole frame whose announced length is too
/// small for a header: the case that slicing the header out of it does not
/// survive.
pub open spec fn frame_shorter_than_header(s: Seq<u8>) -> bool {
    s.len() >= 6 && has_es_marker(s) && 0 < announced_size(s) < 17 && s.len() >= 6 + announced_size(s)
}

/// Whether `decode_frame` may be called on `src`: false exactly when a
/// whole frame at its front announces a length too small for a header.
pub fn frame_is_decodable(src: &[u8]) -> (b: bool)
    ensures
        b == !frame_shorter_than_header(src@),
{
    if src.len() < 6 || src[0] != 69u8 || src[1] != 83u8 {
        return true;
    }
    let size = read_i32_at(src, 2);
    if size <= 0 || size >= 17 {
        return true;
    }
    !((src.len() - 6) >= size as usize)
}

/// Takes the next frame off the front of `src`. Returns `Ok(None)` and
/// leaves `src` as it is while the frame is incomplete; removes a ping or a
/// whole message frame once present.
pub fn decode_frame(src: &mut Vec<u8>) -> (r: Result<Option<DecodedFrame>, FrameError>)
    requires
        !frame_shorter_than_header(old(src)@),
    ensures
        ({
            let s = old(src)@;
            let ms = announced_size(s);
            &&& s.len() < 6 ==> r == Ok::<Option<DecodedFrame>, FrameError>(None) && final(src)@ == s
            &&& s.len() >= 6 && !has_es_marker(s) ==> r == Err::<Option<DecodedFrame>, FrameError>(
                FrameError::InvalidPrefix,
            ) && final(src)@ == s
            &&& s.len() >= 6 && has_es_marker(s) && ms == 0 ==> r == Ok::<Option<DecodedFrame>, FrameError>(
                Some(DecodedFrame::Ping),
            ) && final(src)@ == s.skip(6)
            &&& s.len() >= 6 && has_es_marker(s) && ms < 0 ==> r == Err::<Option<DecodedFrame>, FrameError>(
                FrameError::NegativeMessageSize(ms),
            ) && final(src)@ == s
            &&& s.len() >= 6 && has_es_marker(s) && ms > 0 && s.len() < 6 + ms ==> r == Ok::<
                Option<DecodedFrame>,
                FrameError,
            >(None) && final(src)@ == s
            &&& s.len() >= 6 && has_es_marker(s) && ms > 0 && s.len() >= 6 + ms ==> final(src)@ == s.skip(6 + ms)
                && match decode_message_spec(s.take(6 + ms)) {
                Ok(m) => r matches Ok(Some(DecodedFrame::Message(msg))) && msg@ == m,
                Err(e) => r == Err::<Option<DecodedFrame>, FrameError>(e),
            }
        }),
{
    if src.len() < 6 {
        return Ok(None);
    }
    if src[0] != 69u8 || src[1] != 83u8 {
        return Err(FrameError::InvalidPrefix);
    }
    let ms = read_i32_at(src.as_slice(), 2);
    if ms == 0 {
        let mut tail = src.split_off(6);
        std::mem::swap(src, &mut tail);
        return Ok(Some(DecodedFrame::Ping));
    }
    if ms < 0 {
        return Err(FrameError::NegativeMessageSize(ms));
    }
    let frame_len: usize = 6 + (ms as usize);
    if src.len() < frame_len {
        return Ok(None);
    }
    let ghost s = src@;
    let mut frame = src.split_off(frame_len);
    std::mem::swap(src, &mut frame);
    assert(frame@ =~= s.take(6 + ms));
    assert(src@ =~= s.skip(6 + ms));
    let header = match TcpHeader::decode(slice_subrange(frame.as_slice(), 0, 23)) {
        Ok(h) => h,
        Err(e) => {
            assert(frame@.subrange(0, 23) =~= frame@);
            return Err(FrameError::Header(e));
        },
    };
    proof {
        assert(frame@.subrange(0, 23).len() == 23);
        assert(frame@.len() >= 23);
        assert(parse_tcp_header(frame@) == parse_tcp_header(frame@.subrange(0, 23))) by {
            let a = frame@;
            let b = frame@.subrange(0, 23);
            assert(a.subrange(6, 14) =~= b.subrange(6, 14));
            assert(forall|i: int| 0 <= i < 23 ==> a[i] == b[i]);
        }
        assert(i32_at(frame@, 2) == ms);
    }
    if header.variable_header_size < 0 || header.content_size < header.variable_header_size {
        return Err(
            FrameError::InvalidHeaderSizes {
                content_size: header.content_size,
                variable_header_size: header.variable_header_size,
            },
        );
    }
    let variable_end: usize = 23 + (header.variable_header_size as usize);
    let body_end: usize = 23 + (header.content_size as usize);
    assert(body_end == frame@.len());
    let variable_header = slice_to_vec(slice_subrange(frame.as_slice(), 23, variable_end));
    let raw = slice_subrange(frame.as_slice(), variable_end, body_end);
    let status = TransportStatus::from_bits(header.status);
    let body = if status.is_compressed() {
        match decompress_deflate_body(raw) {
            Ok(b) => b,
            Err(e) => return Err(FrameError::Compression(e)),
        }
    } else {
        slice_to_vec(raw)
    };
    Ok(
        Some(
            DecodedFrame::Message(
                TransportMessage {
                    request_id: header.request_id,
                    status,
                    version: Version::from_id(header.version.id()),
                    variable_header,
                    body,
                },
            ),
        ),
    )
}

/// Decoding reads back every encoded uncompressed message whose content fits
/// the header's length field, and leaves whatever followed it.
pub proof fn lemma_frame_roundtrip(m: MessageView, rest: Seq<u8>)
    requires
        m.1 & STATUS_COMPRESS == 0,
        m.3.len() + m.4.len() <= i32::MAX - 17,
    ensures
        ({
            let s = enc_message(m) + rest;
            let ms = announced_size(s);
            &&& s.len() >= 6
            &&& has_es_marker(s)
            &&& ms == 17 + m.3.len() + m.4.len()
            &&& s.len() >= 6 + ms
            &&& !frame_shorter_than_header(s)
            &&& s.skip(6 + ms) == rest
            &&& decode_message_spec(s.take(6 + ms)) == Ok::<MessageView, FrameError>(m)
        }),
{
    let h = header_of(m);
    let n: int = (m.3.len() + m.4.len()) as int;
    let e = crate::tcp_header::enc_tcp_header(h);
    let s = enc_message(m) + rest;
    lemma_tcp_header_roundtrip(h, m.3 + m.4 + rest);
    assert(s =~= e + (m.3 + m.4 + rest));
    assert(h.content_size == n);
    assert(h.variable_header_size == m.3.len());
    let frame = s.take(23 + n);
    assert(frame =~= e + (m.3 + m.4));
    lemma_tcp_header_roundtrip(h, m.3 + m.4);
    assert(parse_tcp_header(s) == parse_tcp_header(frame) ==> true);
    assert(announced_size(s) == crate::tcp_header::i32_at(e + (m.3 + m.4 + rest), 2));
    assert(crate::tcp_header::i32_at(s, 2) == 17 + n) by {
        assert(parse_tcp_header(s) matches Ok(hh) && hh.content_size == h.content_size);
    }
    assert(frame.subrange(23, 23 + m.3.len() as int) =~= m.3);
    assert(frame.subrange(23 + m.3.len() as int, 23 + n) =~= m.4);
    assert(s.skip(23 + n) =~= rest);
}

} // verus!
