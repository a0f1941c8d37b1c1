//! Byte streams in the transport's wire format: an output buffer that
//! values are appended to, and an input cursor that values are read from.
use vstd::prelude::*;
use vstd::utf8::*;
use vstd::slice::slice_subrange;
use vstd::slice::slice_to_vec;
use crate::codec::{
    enc_bool, enc_bytes_reference, enc_i32, enc_i64, enc_optional_string, enc_string,
    enc_string_array, enc_strings, enc_u32_be, enc_u64_be, enc_varint32, enc_varint64, enc_vint,
    enc_zlong, parse_bool, parse_byte, parse_bytes_reference, parse_i32, parse_i64, parse_len,
    parse_optional_string, parse_string, parse_string_array, parse_strings, parse_varint32_at,
    parse_varint64_at, parse_vint, parse_vlong, parse_zlong, enc_vlong, scan_scalars, unzigzag, utf8_width, zigzag,
    dec_u32_be, dec_u64_be,
};
use crate::text::{char_count, utf8_string, utf8_width_of};

verus! {

/// The characters of each string of a vector.
pub open spec fn strings_view(v: Seq<String>) -> Seq<Seq<char>> {
    v.map_values(|s: String| s@)
}

/// Append-only buffer of encoded values.
pub struct StreamOutput {
    buf: Vec<u8>,
}

impl View for StreamOutput {
    type V = Seq<u8>;

    closed spec fn view(&self) -> Seq<u8> {
        self.buf@
    }
}

impl StreamOutput {
    /// An empty buffer.
    pub fn new() -> (o: Self)
        ensures
            o@ == Seq::<u8>::empty(),
    {
        StreamOutput { buf: Vec::new() }
    }

    /// Number of bytes written so far.
    pub fn len(&self) -> (n: usize)
        ensures
            n == self@.len(),
    {
        self.buf.len()
    }

    /// The bytes written so far.
    pub fn freeze(self) -> (b: Vec<u8>)
        ensures
            b@ == self@,
    {
        self.buf
    }

    pub fn write_byte(&mut self, b: u8)
        ensures
            final(self)@ == old(self)@.push(b),
    {
        self.buf.push(b);
    }

    pub fn write_raw_bytes(&mut self, bytes: &[u8])
        ensures
            final(self)@ == old(self)@ + bytes@,
    {
        let mut i: usize = 0;
        while i < bytes.len()
            invariant
                i <= bytes@.len(),
                self@ == old(self)@ + bytes@.take(i as int),
            decreases bytes@.len() - i,
        {
            self.buf.push(bytes[i]);
            assert(bytes@.take(i + 1) =~= bytes@.take(i as int).push(bytes@[i as int]));
            i = i + 1;
        }
        assert(bytes@.take(i as int) =~= bytes@);
    }

    pub fn write_bool(&mut self, b: bool)
        ensures
            final(self)@ == old(self)@ + enc_bool(b),
    {
        self.buf.push(if b { 1u8 } else { 0u8 });
        assert(old(self)@.push(if b { 1u8 } else { 0u8 }) =~= old(self)@ + enc_bool(b));
    }

    fn write_u32_be(&mut self, u: u32)
        ensures
            final(self)@ == old(self)@ + enc_u32_be(u),
    {
        self.buf.push((u >> 24u32) as u8);
        self.buf.push(((u >> 16u32) & 0xffu32) as u8);
        self.buf.push(((u >> 8u32) & 0xffu32) as u8);
        self.buf.push((u & 0xffu32) as u8);
        assert(self@ =~= old(self)@ + enc_u32_be(u));
    }

    pub fn write_i32(&mut self, v: i32)
        ensures
            final(self)@ == old(self)@ + enc_i32(v),
    {
        reveal(enc_i32);
        self.write_u32_be(v as u32);
    }

    pub fn write_i64(&mut self, v: i64)
        ensures
            final(self)@ == old(self)@ + enc_i64(v),
    {
        reveal(enc_i64);
        let u = v as u64;
        self.write_u32_be((u >> 32u64) as u32);
        self.write_u32_be((u & 0xffff_ffffu64) as u32);
        assert(self@ =~= old(self)@ + enc_i64(v));
    }

    /// Writes the 32 bits of `u` as a variable-length integer.
    pub fn write_varint32(&mut self, u: u32)
        ensures
            final(self)@ == old(self)@ + enc_varint32(u),
    {
        let mut x = u;
        while x >= 128
            invariant
                old(self)@ + enc_varint32(u) == self@ + enc_varint32(x),
            decreases x,
        {
            let ghost before = self@;
            self.buf.push((x % 128 + 128) as u8);
            assert(enc_varint32(x) == seq![(x % 128 + 128) as u8] + enc_varint32(x / 128));
            assert(before + enc_varint32(x) =~= self@ + enc_varint32(x / 128));
            x = x / 128;
        }
        let ghost before = self@;
        self.buf.push(x as u8);
        assert(before + enc_varint32(x) =~= self@);
    }

    pub fn write_vint(&mut self, v: i32)
        ensures
            final(self)@ == old(self)@ + enc_vint(v),
    {
        self.write_varint32(v as u32);
    }

    fn write_varint64(&mut self, u: u64)
        ensures
            final(self)@ == old(self)@ + enc_varint64(u),
    {
        let mut x = u;
        while x >= 128
            invariant
                old(self)@ + enc_varint64(u) == self@ + enc_varint64(x),
            decreases x,
        {
            let ghost before = self@;
            self.buf.push((x % 128 + 128) as u8);
            assert(enc_varint64(x) == seq![(x % 128 + 128) as u8] + enc_varint64(x / 128));
            assert(before + enc_varint64(x) =~= self@ + enc_varint64(x / 128));
            x = x / 128;
        }
        let ghost before = self@;
        self.buf.push(x as u8);
        assert(before + enc_varint64(x) =~= self@);
    }

    /// Writes a signed 64-bit value as the variable-length encoding of its bits.
    pub fn write_vlong(&mut self, v: i64)
        ensures
            final(self)@ == old(self)@ + enc_vlong(v),
    {
        reveal(enc_vlong);
        self.write_varint64(v as u64);
    }

    /// Writes a signed 64-bit value zig-zag encoded as a variable-length integer.
    pub fn write_zlong(&mut self, v: i64)
        ensures
            final(self)@ == old(self)@ + enc_zlong(v),
    {
        reveal(enc_zlong);
        let u: u64 = if v >= 0 {
            (v as u64) * 2
        } else {
            ((-(v + 1)) as u64) * 2 + 1
        };
        assert(u == zigzag(v));
        self.write_varint64(u);
    }

    /// Writes a string: its character count, then its UTF-8 bytes.
    pub fn write_string(&mut self, s: &str)
        ensures
            final(self)@ == old(self)@ + enc_string(s@),
    {
        reveal(enc_string);
        let n = char_count(s);
        let bytes = s.as_bytes();
        self.write_varint32(n as u32);
        self.write_raw_bytes(bytes);
        assert(self@ =~= old(self)@ + enc_string(s@));
    }

    pub fn write_optional_string(&mut self, s: Option<&str>)
        ensures
            final(self)@ == old(self)@ + enc_optional_string(
                match s {
                    Some(x) => Some(x@),
                    None => None,
                },
            ),
    {
        reveal(enc_optional_string);
        match s {
            Some(x) => {
                self.write_bool(true);
                self.write_string(x);
                assert(self@ =~= old(self)@ + enc_optional_string(Some(x@)));
            },
            None => {
                self.write_bool(false);
            },
        }
    }

    /// Writes an array of strings: the count, then each string.
    pub fn write_string_array(&mut self, v: &[String])
        ensures
            final(self)@ == old(self)@ + enc_string_array(strings_view(v@)),
    {
        reveal(enc_string_array);
        self.write_varint32(v.len() as u32);
        let ghost mid = self@;
        let mut i: usize = 0;
        while i < v.len()
            invariant
                i <= v@.len(),
                self@ == mid + enc_strings(strings_view(v@.take(i as int))),
            decreases v@.len() - i,
        {
            self.write_string(v[i].as_str());
            proof {
                let t = strings_view(v@.take(i + 1));
                assert(t.drop_last() =~= strings_view(v@.take(i as int)));
                assert(t.last() == v@[i as int]@);
            }
            i = i + 1;
        }
        proof {
            assert(v@.take(i as int) =~= v@);
            assert(strings_view(v@).len() == v@.len());
        }
        assert(self@ =~= old(self)@ + enc_string_array(strings_view(v@)));
    }

    /// Writes a byte array: its length, then its bytes.
    pub fn write_bytes_reference(&mut self, bytes: &[u8])
        ensures
            final(self)@ == old(self)@ + enc_bytes_reference(bytes@),
    {
        self.write_varint32(bytes.len() as u32);
        self.write_raw_bytes(bytes);
        assert(self@ =~= old(self)@ + enc_bytes_reference(bytes@));
    }
}

/// Why a value could not be read from a stream.
#[derive(Clone, Copy, Debug, PartialEq, Eq)]
pub enum StreamInputError {
    UnexpectedEof,
    InvalidBool(u8),
    InvalidVarInt,
    NegativeLength(i32),
    InvalidUtf8,
}

/// The error of a reader that needs a fixed number of bytes and finds fewer.
pub open spec fn eof_failure() -> StreamInputError {
    StreamInputError::UnexpectedEof
}

/// The error for a flag that does not read: the input ends, or its byte is
/// neither 0 nor 1.
pub open spec fn bool_failure(s: Seq<u8>) -> StreamInputError {
    if s.len() == 0 {
        StreamInputError::UnexpectedEof
    } else {
        StreamInputError::InvalidBool(s[0])
    }
}

/// The error for a variable-length 32-bit integer that does not read, from
/// its byte `i` on: the input ends, or the fifth byte has its high bit set.
pub open spec fn varint32_failure(s: Seq<u8>, i: int) -> StreamInputError
    decreases 4 - i,
{
    if i < 0 || i > 4 || i >= s.len() {
        StreamInputError::UnexpectedEof
    } else if i == 4 {
        StreamInputError::InvalidVarInt
    } else {
        varint32_failure(s, i + 1)
    }
}

/// The error for a variable-length 64-bit integer that does not read, from
/// its byte `i` on: the input ends, or the tenth byte is above 1.
pub open spec fn varint64_failure(s: Seq<u8>, i: int) -> StreamInputError
    decreases 9 - i,
{
    if i < 0 || i > 9 || i >= s.len() {
        StreamInputError::UnexpectedEof
    } else if i == 9 {
        StreamInputError::InvalidVarInt
    } else {
        varint64_failure(s, i + 1)
    }
}

/// The error for a length prefix that does not read: its integer does not
/// read, or it is negative.
pub open spec fn len_failure(s: Seq<u8>) -> StreamInputError {
    match parse_vint(s) {
        Some((n, _)) => StreamInputError::NegativeLength(n),
        None => varint32_failure(s, 0),
    }
}

/// The error for `n` UTF-8 scalars that do not scan: the input ends, or a
/// leading byte is not one or its encoding runs past the input.
pub open spec fn scan_failure(s: Seq<u8>, n: nat) -> StreamInputError
    decreases n,
{
    if n == 0 || s.len() == 0 {
        StreamInputError::UnexpectedEof
    } else {
        let w = utf8_width(s[0]);
        if w == 0 || w > s.len() {
            StreamInputError::InvalidUtf8
        } else {
            scan_failure(s.skip(w), (n - 1) as nat)
        }
    }
}

/// The error for a string that does not read.
pub open spec fn string_failure(s: Seq<u8>) -> StreamInputError {
    match parse_vint(s) {
        Some((n, k)) => if n < 0 {
            StreamInputError::NegativeLength(n)
        } else {
            match scan_scalars(s.skip(k), n as nat) {
                Some(_) => StreamInputError::InvalidUtf8,
                None => scan_failure(s.skip(k), n as nat),
            }
        },
        None => varint32_failure(s, 0),
    }
}

/// The error for an optional string that does not read.
pub open spec fn optional_string_failure(s: Seq<u8>) -> StreamInputError {
    match parse_bool(s) {
        Some((_, k)) => string_failure(s.skip(k)),
        None => bool_failure(s),
    }
}

/// The error for `n` strings that do not read: that of the first string that
/// does not.
pub open spec fn strings_failure(s: Seq<u8>, n: nat) -> StreamInputError
    decreases n,
{
    if n == 0 {
        StreamInputError::UnexpectedEof
    } else {
        match parse_strings(s, (n - 1) as nat) {
            Some((_, k)) => string_failure(s.skip(k)),
            None => strings_failure(s, (n - 1) as nat),
        }
    }
}

/// The error for a string array that does not read.
pub open spec fn string_array_failure(s: Seq<u8>) -> StreamInputError {
    match parse_len(s) {
        Some((n, k)) => strings_failure(s.skip(k), n),
        None => len_failure(s),
    }
}

/// The error for a byte array that does not read: its length does not read,
/// or fewer bytes follow than it announces.
pub open spec fn bytes_reference_failure(s: Seq<u8>) -> StreamInputError {
    match parse_len(s) {
        Some(_) => StreamInputError::UnexpectedEof,
        None => len_failure(s),
    }
}

/// Read cursor over a byte buffer.
pub struct StreamInput {
    data: Vec<u8>,
    pos: usize,
}

impl StreamInput {
    #[verifier::type_invariant]
    closed spec fn cursor_in_bounds(self) -> bool {
        self.pos <= self.data@.len()
    }

    /// All bytes of the stream.
    pub closed spec fn data(self) -> Seq<u8> {
        self.data@
    }

    /// Index of the next byte to read.
    pub closed spec fn pos(self) -> nat {
        self.pos as nat
    }

    /// The bytes not yet read.
    pub open spec fn rest(self) -> Seq<u8> {
        self.data().skip(self.pos() as int)
    }

    /// A cursor at the start of `data`.
    pub fn new(data: Vec<u8>) -> (s: Self)
        ensures
            s.data() == data@,
            s.pos() == 0,
            s.rest() == data@,
    {
        let s = StreamInput { data, pos: 0 };
        assert(s.data().skip(0) =~= s.data());
        s
    }

    /// Index of the next byte to read.
    pub fn position(&self) -> (p: usize)
        ensures
            p == self.pos(),
            p <= self.data().len(),
    {
        proof {
            use_type_invariant(self);
        }
        self.pos
    }

    /// Number of bytes not yet read.
    pub fn remaining(&self) -> (n: usize)
        ensures
            n == self.rest().len(),
    {
        proof {
            use_type_invariant(self);
        }
        self.data.len() - self.pos
    }

    fn next_byte(&mut self) -> (r: Option<u8>)
        ensures
            final(self).data() == old(self).data(),
            old(self).pos() < old(self).data().len() ==> r == Some(old(self).data()[old(self).pos() as int])
                && final(self).pos() == old(self).pos() + 1,
            old(self).pos() >= old(self).data().len() ==> r is None && final(self).pos() == old(self).pos(),
            0 <= final(self).pos() <= final(self).data().len(),
            0 <= old(self).pos() <= old(self).data().len(),
    {
        proof {
            use_type_invariant(&*self);
        }
        if self.pos < self.data.len() {
            let b = self.data[self.pos];
            self.pos = self.pos + 1;
            Some(b)
        } else {
            None
        }
    }

    pub fn read_byte(&mut self) -> (r: Result<u8, StreamInputError>)
        ensures
            final(self).data() == old(self).data(),
            old(self).pos() <= final(self).pos() <= final(self).data().len(),
            match parse_byte(old(self).rest()) {
                Some((b, n)) => r == Ok::<u8, StreamInputError>(b) && final(self).pos() == old(self).pos() + n,
                None => r == Err::<u8, StreamInputError>(eof_failure()),
            },
    {
        proof {
            use_type_invariant(&*self);
        }
        match self.next_byte() {
            Some(b) => Ok(b),
            None => Err(StreamInputError::UnexpectedEof),
        }
    }

    pub fn read_bool(&mut self) -> (r: Result<bool, StreamInputError>)
        ensures
            final(self).data() == old(self).data(),
            old(self).pos() <= final(self).pos() <= final(self).data().len(),
            match parse_bool(old(self).rest()) {
                Some((b, n)) => r == Ok::<bool, StreamInputError>(b) && final(self).pos() == old(self).pos() + n,
                None => r == Err::<bool, StreamInputError>(bool_failure(old(self).rest())),
            },
    {
        proof {
            use_type_invariant(&*self);
        }
        match self.next_byte() {
            Some(0) => Ok(false),
            Some(1) => Ok(true),
            Some(b) => Err(StreamInputError::InvalidBool(b)),
            None => Err(StreamInputError::UnexpectedEof),
        }
    }

    pub fn read_i32(&mut self) -> (r: Result<i32, StreamInputError>)
        ensures
            final(self).data() == old(self).data(),
            old(self).pos() <= final(self).pos() <= final(self).data().len(),
            match parse_i32(old(self).rest()) {
                Some((v, n)) => r == Ok::<i32, StreamInputError>(v) && final(self).pos() == old(self).pos() + n,
                None => r == Err::<i32, StreamInputError>(eof_failure()),
            },
    {
        reveal(parse_i32);
        proof {
            use_type_invariant(&*self);
        }
        if self.data.len() - self.pos < 4 {
            return Err(StreamInputError::UnexpectedEof);
        }
        let p = self.pos;
        let u = ((self.data[p] as u32) << 24u32) | ((self.data[p + 1] as u32) << 16u32) | ((
        self.data[p + 2] as u32) << 8u32) | (self.data[p + 3] as u32);
        self.pos = p + 4;
        proof {
            let r = old(self).rest();
            assert(r[0] == self.data@[p as int] && r[1] == self.data@[p + 1] && r[2] == self.data@[p + 2]
                && r[3] == self.data@[p + 3]);
            assert(u == dec_u32_be(r[0], r[1], r[2], r[3]));
        }
        Ok(u as i32)
    }

    pub fn read_i64(&mut self) -> (r: Result<i64, StreamInputError>)
        ensures
            final(self).data() == old(self).data(),
            old(self).pos() <= final(self).pos() <= final(self).data().len(),
            match parse_i64(old(self).rest()) {
                Some((v, n)) => r == Ok::<i64, StreamInputError>(v) && final(self).pos() == old(self).pos() + n,
                None => r == Err::<i64, StreamInputError>(eof_failure()),
            },
    {
        reveal(parse_i64);
        proof {
            use_type_invariant(&*self);
        }
        if self.data.len() - self.pos < 8 {
            return Err(StreamInputError::UnexpectedEof);
        }
        let p = self.pos;
        let hi = ((self.data[p] as u32) << 24u32) | ((self.data[p + 1] as u32) << 16u32) | ((
        self.data[p + 2] as u32) << 8u32) | (self.data[p + 3] as u32);
        let lo = ((self.data[p + 4] as u32) << 24u32) | ((self.data[p + 5] as u32) << 16u32) | ((
        self.data[p + 6] as u32) << 8u32) | (self.data[p + 7] as u32);
        let u = ((hi as u64) << 32u64) | (lo as u64);
        self.pos = p + 8;
        proof {
            let r = old(self).rest();
            assert(r[0] == self.data@[p as int] && r[1] == self.data@[p + 1] && r[2] == self.data@[p + 2]
                && r[3] == self.data@[p + 3]);
            assert(r[4] == self.data@[p + 4] && r[5] == self.data@[p + 5] && r[6] == self.data@[p + 6]
                && r[7] == self.data@[p + 7]);
            assert(u == dec_u64_be(r));
        }
        Ok(u as i64)
    }

    /// Reads a variable-length integer of at most five bytes as 32 unsigned bits.
    pub fn read_varint32(&mut self) -> (r: Result<u32, StreamInputError>)
        ensures
            final(self).data() == old(self).data(),
            old(self).pos() <= final(self).pos() <= final(self).data().len(),
            match parse_varint32_at(old(self).rest(), 0) {
                Some((v, n)) => r == Ok::<u32, StreamInputError>(v as u32) && final(self).pos() == old(self).pos() + n
                    && 0 <= v < 0x1_0000_0000,
                None => r == Err::<u32, StreamInputError>(varint32_failure(old(self).rest(), 0)),
            },
    {
        proof {
            use_type_invariant(&*self);
        }
        let ghost s = old(self).rest();
        proof {
            reveal_with_fuel(parse_varint32_at, 6);
            reveal_with_fuel(varint32_failure, 6);
        }
        let b0 = match self.next_byte() {
            Some(b) => b,
            None => return Err(StreamInputError::UnexpectedEof),
        };
        assert(s[0] == b0);
        if b0 < 128 {
            return Ok(b0 as u32);
        }
        let mut v: u32 = (b0 - 128) as u32;
        let b1 = match self.next_byte() {
            Some(b) => b,
            None => return Err(StreamInputError::UnexpectedEof),
        };
        assert(s[1] == b1);
        if b1 < 128 {
            return Ok(v + (b1 as u32) * 128);
        }
        v = v + ((b1 - 128) as u32) * 128;
        let b2 = match self.next_byte() {
            Some(b) => b,
            None => return Err(StreamInputError::UnexpectedEof),
        };
        assert(s[2] == b2);
        if b2 < 128 {
            return Ok(v + (b2 as u32) * 16384);
        }
        v = v + ((b2 - 128) as u32) * 16384;
        let b3 = match self.next_byte() {
            Some(b) => b,
            None => return Err(StreamInputError::UnexpectedEof),
        };
        assert(s[3] == b3);
        if b3 < 128 {
            return Ok(v + (b3 as u32) * 2097152);
        }
        v = v + ((b3 - 128) as u32) * 2097152;
        let b4 = match self.next_byte() {
            Some(b) => b,
            None => return Err(StreamInputError::UnexpectedEof),
        };
        assert(s[4] == b4);
        if b4 >= 128 {
            return Err(StreamInputError::InvalidVarInt);
        }
        Ok(v + ((b4 % 16) as u32) * 268435456)
    }

    pub fn read_vint(&mut self) -> (r: Result<i32, StreamInputError>)
        ensures
            final(self).data() == old(self).data(),
            old(self).pos() <= final(self).pos() <= final(self).data().len(),
            match parse_vint(old(self).rest()) {
                Some((v, n)) => r == Ok::<i32, StreamInputError>(v) && final(self).pos() == old(self).pos() + n,
                None => r == Err::<i32, StreamInputError>(varint32_failure(old(self).rest(), 0)),
            },
    {
        reveal(parse_vint);
        let u = self.read_varint32()?;
        Ok(u as i32)
    }

    /// Reads a length prefix, refusing a negative one.
    pub fn read_len(&mut self) -> (r: Result<usize, StreamInputError>)
        ensures
            final(self).data() == old(self).data(),
            old(self).pos() <= final(self).pos() <= final(self).data().len(),
            match parse_len(old(self).rest()) {
                Some((v, n)) => r == Ok::<usize, StreamInputError>(v as usize) && final(self).pos() == old(self).pos() + n
                    && v <= i32::MAX,
                None => r == Err::<usize, StreamInputError>(len_failure(old(self).rest())),
            },
    {
        let n = self.read_vint()?;
        if n < 0 {
            return Err(StreamInputError::NegativeLength(n));
        }
        Ok(n as usize)
    }

    fn read_varint64(&mut self) -> (r: Result<u64, StreamInputError>)
        ensures
            final(self).data() == old(self).data(),
            old(self).pos() <= final(self).pos() <= final(self).data().len(),
            match parse_varint64_at(old(self).rest(), 0) {
                Some((v, n)) => r == Ok::<u64, StreamInputError>(v as u64) && final(self).pos() == old(self).pos() + n
                    && 0 <= v < 0x1_0000_0000_0000_0000,
                None => r == Err::<u64, StreamInputError>(varint64_failure(old(self).rest(), 0)),
            },
    {
        proof {
            use_type_invariant(&*self);
        }
        let ghost s = old(self).rest();
        proof {
            reveal_with_fuel(parse_varint64_at, 11);
        }
        let mut v: u64 = 0;
        let mut mult: u64 = 1;
        let mut k: usize = 0;
        while k < 9
            invariant
                k <= 9,
                s == old(self).rest(),
                old(self).pos() <= old(self).data().len(),
                self.data() == old(self).data(),
                self.pos() == old(self).pos() + k,
                mult == crate::codec::pow2_7(k as int),
                v < mult,
                forall|j: int| 0 <= j < k ==> s[j] >= 128,
                k <= s.len(),
                varint64_failure(s, 0) == varint64_failure(s, k as int),
                match parse_varint64_at(s, 0) {
                    Some((val, n)) => match parse_varint64_at(s, k as int) {
                        Some((tail, m)) => val == v + mult * tail && n == m,
                        None => false,
                    },
                    None => parse_varint64_at(s, k as int) is None,
                },
            decreases 9 - k,
        {
            proof {
                reveal_with_fuel(varint64_failure, 2);
            }
            let b = match self.next_byte() {
                Some(b) => b,
                None => return Err(StreamInputError::UnexpectedEof),
            };
            assert(s[k as int] == b);
            proof {
                crate::codec::lemma_pow2_7_bound(k as nat);
            }
            if b < 128 {
                proof {
                    assert(parse_varint64_at(s, k as int) == Some((b as int, k + 1)));
                    assert(v + mult * (b as int) < mult * 128) by (nonlinear_arith)
                        requires v < mult, b < 128;
                }
                return Ok(v + mult * (b as u64));
            }
            proof {
                assert(v + mult * ((b - 128) as int) < mult * 128) by (nonlinear_arith)
                    requires v < mult, b < 256, b >= 128;
                match parse_varint64_at(s, k + 1) {
                    Some((tail, m)) => {
                        assert(mult * ((b - 128) + 128 * tail) == mult * (b - 128) + (mult * 128) * tail)
                            by (nonlinear_arith);
                    },
                    None => {},
                }
            }
            v = v + mult * ((b - 128) as u64);
            mult = mult * 128;
            k = k + 1;
        }
        proof {
            reveal_with_fuel(varint64_failure, 2);
        }
        let b = match self.next_byte() {
            Some(b) => b,
            None => return Err(StreamInputError::UnexpectedEof),
        };
        assert(s[9] == b);
        if b > 1 {
            return Err(StreamInputError::InvalidVarInt);
        }
        proof {
            crate::codec::lemma_pow2_7_bound(8);
        }
        Ok(v + mult * (b as u64))
    }

    /// Reads a signed 64-bit value written as the variable-length encoding of
    /// its bits.
    pub fn read_vlong(&mut self) -> (r: Result<i64, StreamInputError>)
        ensures
            final(self).data() == old(self).data(),
            old(self).pos() <= final(self).pos() <= final(self).data().len(),
            match parse_vlong(old(self).rest()) {
                Some((v, n)) => r == Ok::<i64, StreamInputError>(v) && final(self).pos() == old(self).pos() + n,
                None => r == Err::<i64, StreamInputError>(varint64_failure(old(self).rest(), 0)),
            },
    {
        reveal(parse_vlong);
        let u = self.read_varint64()?;
        Ok(u as i64)
    }

    /// Reads a zig-zag encoded variable-length signed 64-bit integer.
    pub fn read_zlong(&mut self) -> (r: Result<i64, StreamInputError>)
        ensures
            final(self).data() == old(self).data(),
            old(self).pos() <= final(self).pos() <= final(self).data().len(),
            match parse_zlong(old(self).rest()) {
                Some((v, n)) => r == Ok::<i64, StreamInputError>(v) && final(self).pos() == old(self).pos() + n,
                None => r == Err::<i64, StreamInputError>(varint64_failure(old(self).rest(), 0)),
            },
    {
        reveal(parse_zlong);
        let u = self.read_varint64()?;
        let half = u / 2;
        if u % 2 == 0 {
            Ok(half as i64)
        } else {
            Ok(-(half as i64) - 1)
        }
    }

    /// Reads exactly `len` raw bytes.
    pub fn read_bytes(&mut self, len: usize) -> (r: Result<Vec<u8>, StreamInputError>)
        ensures
            final(self).data() == old(self).data(),
            old(self).pos() <= final(self).pos() <= final(self).data().len(),
            len <= old(self).rest().len() ==> (r matches Ok(b) && b@ == old(self).rest().take(len as int)
                && final(self).pos() == old(self).pos() + len),
            len > old(self).rest().len() ==> r == Err::<Vec<u8>, StreamInputError>(StreamInputError::UnexpectedEof),
    {
        proof {
            use_type_invariant(&*self);
        }
        if len > self.data.len() - self.pos {
            return Err(StreamInputError::UnexpectedEof);
        }
        let start = self.pos;
        let out = slice_to_vec(slice_subrange(self.data.as_slice(), start, start + len));
        self.pos = start + len;
        assert(out@ =~= old(self).rest().take(len as int));
        Ok(out)
    }

    /// Reads a string: a character count, then that many UTF-8 characters.
    pub fn read_string(&mut self) -> (r: Result<String, StreamInputError>)
        ensures
            final(self).data() == old(self).data(),
            old(self).pos() <= final(self).pos() <= final(self).data().len(),
            match parse_string(old(self).rest()) {
                Some((v, n)) => r matches Ok(s) && s@ == v && final(self).pos() == old(self).pos() + n,
                None => r == Err::<String, StreamInputError>(string_failure(old(self).rest())),
            },
    {
        reveal(parse_string);
        reveal(parse_vint);
        proof {
            use_type_invariant(&*self);
        }
        let ghost s = old(self).rest();
        let n = self.read_vint()?;
        if n < 0 {
            return Err(StreamInputError::NegativeLength(n));
        }
        proof {
            use_type_invariant(&*self);
        }
        let ghost k = self.pos() - old(self).pos();
        let start = self.pos;
        let mut p = start;
        let mut done: i32 = 0;
        assert(s.skip(k) =~= self.data@.skip(start as int)) by {
            assert(k <= s.len());
        }
        while done < n
            invariant
                0 <= done <= n,
                start <= p <= self.data@.len(),
                old(self).pos() <= start,
                old(self).pos() <= old(self).data().len(),
                parse_vint(s) == Some((n, k)),
                self.data() == old(self).data(),
                self.pos() == start,
                start == old(self).pos() + k,
                s == old(self).rest(),
                scan_failure(s.skip(k), n as nat) == scan_failure(self.data@.skip(p as int), (n - done) as nat),
                scan_scalars(s.skip(k), n as nat) == match scan_scalars(self.data@.skip(p as int), (n - done) as nat) {
                    Some(m) => Some(p - start + m),
                    None => None::<int>,
                },
            decreases n - done,
        {
            reveal(parse_string);
            if p >= self.data.len() {
                proof {
                    let t = self.data@.skip(p as int);
                    assert(t.len() == 0);
                    assert(scan_scalars(t, (n - done) as nat) is None);
                }
                return Err(StreamInputError::UnexpectedEof);
            }
            let w = utf8_width_of(self.data[p]);
            assert(self.data@.skip(p as int)[0] == self.data@[p as int]);
            if w == 0 || w > self.data.len() - p {
                proof {
                    let t = self.data@.skip(p as int);
                    assert(t.len() == self.data@.len() - p);
                    assert(scan_scalars(t, (n - done) as nat) is None);
                }
                return Err(StreamInputError::InvalidUtf8);
            }
            assert(self.data@.skip(p as int).skip(w as int) =~= self.data@.skip(p + w));
            p = p + w;
            done = done + 1;
        }
        let ghost m = p - start;
        assert(s.subrange(k, k + m) =~= self.data@.subrange(start as int, p as int));
        let raw = slice_to_vec(slice_subrange(self.data.as_slice(), start, p));
        match utf8_string(raw) {
            Some(text) => {
                self.pos = p;
                Ok(text)
            },
            None => Err(StreamInputError::InvalidUtf8),
        }
    }

    pub fn read_optional_string(&mut self) -> (r: Result<Option<String>, StreamInputError>)
        ensures
            final(self).data() == old(self).data(),
            old(self).pos() <= final(self).pos() <= final(self).data().len(),
            match parse_optional_string(old(self).rest()) {
                Some((v, n)) => r matches Ok(o) && final(self).pos() == old(self).pos() + n && match v {
                    Some(c) => o matches Some(x) && x@ == c,
                    None => o is None,
                },
                None => r == Err::<Option<String>, StreamInputError>(optional_string_failure(old(self).rest())),
            },
    {
        reveal(parse_optional_string);
        proof {
            use_type_invariant(&*self);
        }
        let ghost s = old(self).rest();
        if self.read_bool()? {
            proof {
                assert(self.rest() =~= s.skip(1));
            }
            let text = self.read_string()?;
            Ok(Some(text))
        } else {
            Ok(None)
        }
    }

    /// Reads `n` consecutive strings.
    pub(crate) fn read_strings(&mut self, n: usize) -> (r: Result<Vec<String>, StreamInputError>)
        ensures
            final(self).data() == old(self).data(),
            old(self).pos() <= final(self).pos() <= final(self).data().len(),
            match parse_strings(old(self).rest(), n as nat) {
                Some((v, m)) => r matches Ok(out) && strings_view(out@) == v && final(self).pos() == old(self).pos() + m,
                None => r == Err::<Vec<String>, StreamInputError>(strings_failure(old(self).rest(), n as nat)),
            },
    {
        proof {
            use_type_invariant(&*self);
        }
        let ghost s = old(self).rest();
        let mut out: Vec<String> = Vec::new();
        let mut i: usize = 0;
        proof {
            use_type_invariant(&*self);
        }
        while i < n
            invariant
                i <= n,
                self.data() == old(self).data(),
                s == old(self).rest(),
                old(self).pos() <= self.pos() <= self.data().len(),
                parse_strings(s, i as nat) == Some((strings_view(out@), self.pos() - old(self).pos())),
            decreases n - i,
        {
            proof {
                use_type_invariant(&*self);
                assert(self.rest() =~= s.skip(self.pos() - old(self).pos()));
            }
            let text = match self.read_string() {
                Ok(t) => t,
                Err(e) => {
                    proof {
                        lemma_parse_strings_fails_after(s, i as nat, n as nat);
                    }
                    return Err(e);
                },
            };
            let ghost before = out@;
            let ghost tv = text@;
            out.push(text);
            proof {
                use_type_invariant(&*self);
                assert(strings_view(out@) =~= strings_view(before).push(tv));
            }
            i = i + 1;
        }
        Ok(out)
    }

    /// Reads a string array: a non-negative count, then that many strings.
    pub fn read_string_array(&mut self) -> (r: Result<Vec<String>, StreamInputError>)
        ensures
            final(self).data() == old(self).data(),
            old(self).pos() <= final(self).pos() <= final(self).data().len(),
            match parse_string_array(old(self).rest()) {
                Some((v, m)) => r matches Ok(out) && strings_view(out@) == v && final(self).pos() == old(self).pos() + m,
                None => r == Err::<Vec<String>, StreamInputError>(string_array_failure(old(self).rest())),
            },
    {
        reveal(parse_string_array);
        proof {
            use_type_invariant(&*self);
        }
        let ghost s = old(self).rest();
        let n = self.read_len()?;
        proof {
            use_type_invariant(&*self);
            assert(self.rest() =~= s.skip(self.pos() - old(self).pos()));
        }
        self.read_strings(n)
    }

    /// Reads a byte array: a non-negative length, then that many bytes.
    pub fn read_bytes_reference(&mut self) -> (r: Result<Vec<u8>, StreamInputError>)
        ensures
            final(self).data() == old(self).data(),
            old(self).pos() <= final(self).pos() <= final(self).data().len(),
            match parse_bytes_reference(old(self).rest()) {
                Some((v, m)) => r matches Ok(out) && out@ == v && final(self).pos() == old(self).pos() + m,
                None => r == Err::<Vec<u8>, StreamInputError>(bytes_reference_failure(old(self).rest())),
            },
    {
        proof {
            use_type_invariant(&*self);
        }
        let ghost s = old(self).rest();
        let n = self.read_len()?;
        proof {
            use_type_invariant(&*self);
            assert(self.rest() =~= s.skip(self.pos() - old(self).pos()));
        }
        let b = self.read_bytes(n)?;
        proof {
            let k = self.pos() - old(self).pos() - n;
            assert(b@ =~= s.subrange(k, k + n));
        }
        Ok(b)
    }
}

/// When the strings before index `i` parse but string `i` does not, no count
/// of strings beyond `i` parses either.
proof fn lemma_parse_strings_fails_after(s: Seq<u8>, i: nat, n: nat)
    requires
        i < n,
        parse_strings(s, i) matches Some((v, k)) && parse_string(s.skip(k)) is None,
    ensures
        parse_strings(s, n) is None,
        parse_strings(s, i) matches Some((_, k)) && strings_failure(s, n) == string_failure(s.skip(k)),
    decreases n - i,
{
    if n > i + 1 {
        lemma_parse_strings_fails_after(s, i, (n - 1) as nat);
    }
}

} // verus!
