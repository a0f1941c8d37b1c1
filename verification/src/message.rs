//! A whole transport message and its encoding as one frame.
use vstd::prelude::*;
use crate::status::TransportStatus;
use crate::tcp_header::{enc_tcp_header, TcpHeader};
use crate::version::Version;

verus! {

/// The six bytes of a ping: the "ES" marker and a zero message length.
pub const PING_FRAME: [u8; 6] = [69u8, 83u8, 0u8, 0u8, 0u8, 0u8];

/// A transport message: header fields, variable header bytes, and body.
#[derive(Clone, Debug, PartialEq, Eq)]
pub struct TransportMessage {
    pub request_id: i64,
    pub status: TransportStatus,
    pub version: Version,
    pub variable_header: Vec<u8>,
    pub body: Vec<u8>,
}

/// The plain values of a message: request id, status bits, version id,
/// variable header, body.
pub type MessageView = (i64, u8, i32, Seq<u8>, Seq<u8>);

impl View for TransportMessage {
    type V = MessageView;

    open spec fn view(&self) -> MessageView {
        (self.request_id, self.status@, self.version.id, self.variable_header@, self.body@)
    }
}

/// A length as the header's 32-bit fields hold it: reduced modulo 2^32 into
/// the `i32` range.
pub open spec fn len_to_i32(n: nat) -> i32 {
    let m = n % 0x1_0000_0000;
    if m >= 0x8000_0000 {
        (m - 0x1_0000_0000) as i32
    } else {
        m as i32
    }
}

/// The header that describes a message.
pub open spec fn header_of(m: MessageView) -> TcpHeader {
    TcpHeader {
        request_id: m.0,
        status: m.1,
        version: Version { id: m.2 },
        content_size: len_to_i32(m.3.len() + m.4.len()),
        variable_header_size: len_to_i32(m.3.len()),
    }
}

/// The frame of a message: its header, variable header, and body.
pub open spec fn enc_message(m: MessageView) -> Seq<u8> {
    enc_tcp_header(header_of(m)) + m.3 + m.4
}

fn usize_to_i32_wrapping(a: usize, b: usize) -> (r: i32)
    ensures
        r == len_to_i32((a + b) as nat),
{
    let x = (a as u64) % 0x1_0000_0000;
    let y = (b as u64) % 0x1_0000_0000;
    let m = (x + y) % 0x1_0000_0000;
    proof {
        vstd::arithmetic::div_mod::lemma_add_mod_noop(a as int, b as int, 0x1_0000_0000);
    }
    if m >= 0x8000_0000 {
        ((m as i64) - 0x1_0000_0000) as i32
    } else {
        m as i32
    }
}

impl TransportMessage {
    /// The header describing this message.
    pub fn header(&self) -> (h: TcpHeader)
        ensures
            h == header_of(self@),
    {
        TcpHeader {
            request_id: self.request_id,
            status: self.status.bits(),
            version: self.version,
            content_size: usize_to_i32_wrapping(self.variable_header.len(), self.body.len()),
            variable_header_size: usize_to_i32_wrapping(self.variable_header.len(), 0),
        }
    }
}

} // verus!
