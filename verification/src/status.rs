//! Status bits carried in every transport message header.
use vstd::prelude::*;

verus! {

/// Bit that marks a message as a response (clear for requests).
pub const STATUS_REQRES: u8 = 1;
/// Bit that marks a response as an error.
pub const STATUS_ERROR: u8 = 2;
/// Bit that marks a compressed message body.
pub const STATUS_COMPRESS: u8 = 4;
/// Bit that marks a handshake message.
pub const STATUS_HANDSHAKE: u8 = 8;

/// Status bits used in OpenSearch transport messages.
#[derive(Clone, Copy, Debug, PartialEq, Eq, Structural)]
pub struct TransportStatus(u8);

impl View for TransportStatus {
    type V = u8;

    closed spec fn view(&self) -> u8 {
        self.0
    }
}

impl TransportStatus {
    /// Wraps raw status bits.
    pub fn from_bits(bits: u8) -> (s: Self)
        ensures
            s@ == bits,
    {
        TransportStatus(bits)
    }

    /// The raw status bits.
    pub fn bits(self) -> (b: u8)
        ensures
            b == self@,
    {
        self.0
    }

    /// A request status: no bit set.
    pub fn request() -> (s: Self)
        ensures
            s@ == 0,
    {
        TransportStatus(0)
    }

    /// A response status: only the response bit set.
    pub fn response() -> (s: Self)
        ensures
            s@ == STATUS_REQRES,
    {
        TransportStatus(STATUS_REQRES)
    }

    /// True when the response bit is clear.
    pub fn is_request(self) -> (b: bool)
        ensures
            b == (self@ & STATUS_REQRES == 0),
    {
        self.0 & STATUS_REQRES == 0
    }

    /// True when the response bit is set.
    pub fn is_response(self) -> (b: bool)
        ensures
            b == (self@ & STATUS_REQRES != 0),
    {
        !self.is_request()
    }

    /// True when the error bit is set.
    pub fn is_error(self) -> (b: bool)
        ensures
            b == (self@ & STATUS_ERROR != 0),
    {
        self.0 & STATUS_ERROR != 0
    }

    /// True when the compression bit is set.
    pub fn is_compressed(self) -> (b: bool)
        ensures
            b == (self@ & STATUS_COMPRESS != 0),
    {
        self.0 & STATUS_COMPRESS != 0
    }

    /// True when the handshake bit is set.
    pub fn is_handshake(self) -> (b: bool)
        ensures
            b == (self@ & STATUS_HANDSHAKE != 0),
    {
        self.0 & STATUS_HANDSHAKE != 0
    }

    /// The same status with the error bit set.
    pub fn with_error(self) -> (s: Self)
        ensures
            s@ == self@ | STATUS_ERROR,
    {
        TransportStatus(self.0 | STATUS_ERROR)
    }

    /// The same status with the compression bit set.
    pub fn with_compress(self) -> (s: Self)
        ensures
            s@ == self@ | STATUS_COMPRESS,
    {
        TransportStatus(self.0 | STATUS_COMPRESS)
    }

    /// The same status with the handshake bit set.
    pub fn with_handshake(self) -> (s: Self)
        ensures
            s@ == self@ | STATUS_HANDSHAKE,
    {
        TransportStatus(self.0 | STATUS_HANDSHAKE)
    }
}

/// Setting one flag keeps every other flag and sets exactly that flag: each
/// `with_*` builder leaves the remaining status queries unchanged.
pub proof fn lemma_status_flags_independent(bits: u8)
    ensures
        (bits | STATUS_ERROR) & STATUS_ERROR != 0,
        (bits | STATUS_ERROR) & STATUS_REQRES == bits & STATUS_REQRES,
        (bits | STATUS_ERROR) & STATUS_COMPRESS == bits & STATUS_COMPRESS,
        (bits | STATUS_ERROR) & STATUS_HANDSHAKE == bits & STATUS_HANDSHAKE,
        (bits | STATUS_COMPRESS) & STATUS_COMPRESS != 0,
        (bits | STATUS_COMPRESS) & STATUS_REQRES == bits & STATUS_REQRES,
        (bits | STATUS_COMPRESS) & STATUS_ERROR == bits & STATUS_ERROR,
        (bits | STATUS_COMPRESS) & STATUS_HANDSHAKE == bits & STATUS_HANDSHAKE,
        (bits | STATUS_HANDSHAKE) & STATUS_HANDSHAKE != 0,
        (bits | STATUS_HANDSHAKE) & STATUS_REQRES == bits & STATUS_REQRES,
        (bits | STATUS_HANDSHAKE) & STATUS_ERROR == bits & STATUS_ERROR,
        (bits | STATUS_HANDSHAKE) & STATUS_COMPRESS == bits & STATUS_COMPRESS,
{
    assert({
        &&& (bits | 2u8) & 2u8 != 0
        &&& (bits | 2u8) & 1u8 == bits & 1u8
        &&& (bits | 2u8) & 4u8 == bits & 4u8
        &&& (bits | 2u8) & 8u8 == bits & 8u8
        &&& (bits | 4u8) & 4u8 != 0
        &&& (bits | 4u8) & 1u8 == bits & 1u8
        &&& (bits | 4u8) & 2u8 == bits & 2u8
        &&& (bits | 4u8) & 8u8 == bits & 8u8
        &&& (bits | 8u8) & 8u8 != 0
        &&& (bits | 8u8) & 1u8 == bits & 1u8
        &&& (bits | 8u8) & 2u8 == bits & 2u8
        &&& (bits | 8u8) & 4u8 == bits & 4u8
    }) by (bit_vector);
}

} // verus!
