//! The byte-level wire format of transport stream values, stated as spec
//! functions: how each value is encoded and how a byte sequence is decoded.
//! A decoder `parse_*` reads from the start of a sequence and yields the value
//! and the number of bytes it consumed, or `None` where the bytes are not a
//! valid encoding.
use vstd::prelude::*;
use vstd::utf8::*;

verus! {

// ---------------------------------------------------------------------------
// Fixed-width values
// ---------------------------------------------------------------------------

/// Boolean: one byte, 1 for true and 0 for false.
pub open spec fn enc_bool(b: bool) -> Seq<u8> {
    seq![if b { 1u8 } else { 0u8 }]
}

pub open spec fn parse_byte(s: Seq<u8>) -> Option<(u8, int)> {
    if s.len() >= 1 {
        Some((s[0], 1))
    } else {
        None
    }
}

/// A boolean is read from one byte that must be 0 or 1.
pub open spec fn parse_bool(s: Seq<u8>) -> Option<(bool, int)> {
    if s.len() >= 1 && (s[0] == 0 || s[0] == 1) {
        Some((s[0] == 1, 1))
    } else {
        None
    }
}

/// Big-endian bytes of a 32-bit value.
pub open spec fn enc_u32_be(u: u32) -> Seq<u8> {
    seq![(u >> 24u32) as u8, ((u >> 16u32) & 0xffu32) as u8, ((u >> 8u32) & 0xffu32) as u8, (u & 0xffu32) as u8]
}

pub open spec fn dec_u32_be(b0: u8, b1: u8, b2: u8, b3: u8) -> u32 {
    ((b0 as u32) << 24u32) | ((b1 as u32) << 16u32) | ((b2 as u32) << 8u32) | (b3 as u32)
}

/// Signed 32-bit integer: four big-endian bytes of its two's complement.
#[verifier::opaque]
pub open spec fn enc_i32(v: i32) -> Seq<u8> {
    enc_u32_be(v as u32)
}

#[verifier::opaque]
pub open spec fn parse_i32(s: Seq<u8>) -> Option<(i32, int)> {
    if s.len() >= 4 {
        Some((dec_u32_be(s[0], s[1], s[2], s[3]) as i32, 4))
    } else {
        None
    }
}

/// Big-endian bytes of a 64-bit value.
pub open spec fn enc_u64_be(u: u64) -> Seq<u8> {
    enc_u32_be((u >> 32u64) as u32) + enc_u32_be((u & 0xffff_ffffu64) as u32)
}

pub open spec fn dec_u64_be(s: Seq<u8>) -> u64
    recommends
        s.len() >= 8,
{
    ((dec_u32_be(s[0], s[1], s[2], s[3]) as u64) << 32u64) | (dec_u32_be(s[4], s[5], s[6], s[7]) as u64)
}

/// Signed 64-bit integer: eight big-endian bytes of its two's complement.
#[verifier::opaque]
pub open spec fn enc_i64(v: i64) -> Seq<u8> {
    enc_u64_be(v as u64)
}

#[verifier::opaque]
pub open spec fn parse_i64(s: Seq<u8>) -> Option<(i64, int)> {
    if s.len() >= 8 {
        Some((dec_u64_be(s) as i64, 8))
    } else {
        None
    }
}

// ---------------------------------------------------------------------------
// Variable-length integers
// ---------------------------------------------------------------------------

/// Seven bits per byte, least significant group first; the high bit of a byte
/// says that another byte follows.
pub open spec fn enc_varint32(u: u32) -> Seq<u8>
    decreases u,
{
    if u < 128 {
        seq![u as u8]
    } else {
        seq![(u % 128 + 128) as u8] + enc_varint32(u / 128)
    }
}

/// The value of the variable-length 32-bit integer whose byte `i` (of at most
/// five) is at `s[i]`, counted from byte `i` on, and the index just past its
/// last byte. The fifth byte must not have its high bit set; of it only the
/// low four bits fit into 32 bits.
pub open spec fn parse_varint32_at(s: Seq<u8>, i: int) -> Option<(int, int)>
    decreases 4 - i,
{
    if i < 0 || i > 4 || i >= s.len() {
        None
    } else if i == 4 {
        if s[4] < 128 {
            Some(((s[4] % 16) as int, 5))
        } else {
            None
        }
    } else if s[i] < 128 {
        Some((s[i] as int, i + 1))
    } else {
        match parse_varint32_at(s, i + 1) {
            Some((rest, n)) => Some(((s[i] - 128) + 128 * rest, n)),
            None => None,
        }
    }
}

proof fn lemma_varint32_at_bounds(s: Seq<u8>, i: int)
    ensures
        parse_varint32_at(s, i) matches Some((_, n)) ==> i < n <= s.len() && n <= 5,
    decreases 4 - i,
{
    if 0 <= i < 4 && i < s.len() && s[i] >= 128 {
        lemma_varint32_at_bounds(s, i + 1);
    }
}

/// A variable-length integer takes one to five bytes of its input.
pub proof fn lemma_vint_bounds(s: Seq<u8>)
    ensures
        parse_vint(s) matches Some((_, n)) ==> 1 <= n <= 5 && n <= s.len(),
        parse_len(s) matches Some((_, n)) ==> 1 <= n <= 5 && n <= s.len(),
{
    reveal(parse_vint);
    lemma_varint32_at_bounds(s, 0);
}

/// Variable-length signed 32-bit integer, encoded through its unsigned bits.
pub open spec fn enc_vint(v: i32) -> Seq<u8> {
    enc_varint32(v as u32)
}

#[verifier::opaque]
pub open spec fn parse_vint(s: Seq<u8>) -> Option<(i32, int)> {
    match parse_varint32_at(s, 0) {
        Some((v, n)) => Some(((v as u32) as i32, n)),
        None => None,
    }
}

pub open spec fn enc_varint64(u: u64) -> Seq<u8>
    decreases u,
{
    if u < 128 {
        seq![u as u8]
    } else {
        seq![(u % 128 + 128) as u8] + enc_varint64(u / 128)
    }
}

/// As `parse_varint32_at` for at most ten bytes; the tenth byte holds the top
/// bit of a 64-bit value and must be 0 or 1.
pub open spec fn parse_varint64_at(s: Seq<u8>, i: int) -> Option<(int, int)>
    decreases 9 - i,
{
    if i < 0 || i > 9 || i >= s.len() {
        None
    } else if i == 9 {
        if s[9] <= 1 {
            Some((s[9] as int, 10))
        } else {
            None
        }
    } else if s[i] < 128 {
        Some((s[i] as int, i + 1))
    } else {
        match parse_varint64_at(s, i + 1) {
            Some((rest, n)) => Some(((s[i] - 128) + 128 * rest, n)),
            None => None,
        }
    }
}

/// Zig-zag mapping of signed to unsigned values: 0, -1, 1, -2, ... map to
/// 0, 1, 2, 3, ...
pub open spec fn zigzag(v: i64) -> u64 {
    if v >= 0 {
        (2 * v) as u64
    } else {
        (-2 * v - 1) as u64
    }
}

pub open spec fn unzigzag(u: u64) -> i64 {
    if u % 2 == 0 {
        (u / 2) as i64
    } else {
        (-((u / 2) as int) - 1) as i64
    }
}

/// Zig-zag encoded variable-length signed 64-bit integer.
#[verifier::opaque]
pub open spec fn enc_zlong(v: i64) -> Seq<u8> {
    enc_varint64(zigzag(v))
}

/// A signed 64-bit value written as the variable-length encoding of its
/// two's complement bits.
#[verifier::opaque]
pub open spec fn enc_vlong(v: i64) -> Seq<u8> {
    enc_varint64(v as u64)
}

#[verifier::opaque]
pub open spec fn parse_vlong(s: Seq<u8>) -> Option<(i64, int)> {
    match parse_varint64_at(s, 0) {
        Some((v, n)) => Some(((v as u64) as i64, n)),
        None => None,
    }
}

#[verifier::opaque]
pub open spec fn parse_zlong(s: Seq<u8>) -> Option<(i64, int)> {
    match parse_varint64_at(s, 0) {
        Some((v, n)) => Some((unzigzag(v as u64), n)),
        None => None,
    }
}

// ---------------------------------------------------------------------------
// Strings and byte arrays
// ---------------------------------------------------------------------------

/// Width of the UTF-8 encoding that starts with leading byte `b`, or 0 when
/// `b` cannot start an encoding.
pub open spec fn utf8_width(b: u8) -> int {
    if is_leading_byte_width_1(b) {
        1
    } else if is_leading_byte_width_2(b) {
        2
    } else if is_leading_byte_width_3(b) {
        3
    } else if is_leading_byte_width_4(b) {
        4
    } else {
        0
    }
}

/// The number of bytes taken by the first `n` UTF-8 scalars of `s`, found from
/// their leading bytes.
pub open spec fn scan_scalars(s: Seq<u8>, n: nat) -> Option<int>
    decreases n,
{
    if n == 0 {
        Some(0)
    } else if s.len() == 0 {
        None
    } else {
        let w = utf8_width(s[0]);
        if w == 0 || w > s.len() {
            None
        } else {
            match scan_scalars(s.skip(w), (n - 1) as nat) {
                Some(m) => Some(w + m),
                None => None,
            }
        }
    }
}

/// String: its character count as a variable-length integer, then its UTF-8
/// bytes.
#[verifier::opaque]
pub open spec fn enc_string(s: Seq<char>) -> Seq<u8> {
    enc_varint32(s.len() as u32) + encode_utf8(s)
}

#[verifier::opaque]
pub open spec fn parse_string(s: Seq<u8>) -> Option<(Seq<char>, int)> {
    match parse_vint(s) {
        Some((n, k)) => if n < 0 {
            None
        } else {
            match scan_scalars(s.skip(k), n as nat) {
                Some(m) => if valid_utf8(s.subrange(k, k + m)) {
                    Some((decode_utf8(s.subrange(k, k + m)), k + m))
                } else {
                    None
                },
                None => None,
            }
        },
        None => None,
    }
}

/// Optional string: a presence flag, then the string when present.
#[verifier::opaque]
pub open spec fn enc_optional_string(o: Option<Seq<char>>) -> Seq<u8> {
    match o {
        Some(s) => enc_bool(true) + enc_string(s),
        None => enc_bool(false),
    }
}

#[verifier::opaque]
pub open spec fn parse_optional_string(s: Seq<u8>) -> Option<(Option<Seq<char>>, int)> {
    match parse_bool(s) {
        Some((true, k)) => match parse_string(s.skip(k)) {
            Some((v, m)) => Some((Some(v), k + m)),
            None => None,
        },
        Some((false, k)) => Some((None, k)),
        None => None,
    }
}

/// The concatenated encodings of a sequence of strings.
pub open spec fn enc_strings(v: Seq<Seq<char>>) -> Seq<u8>
    decreases v.len(),
{
    if v.len() == 0 {
        seq![]
    } else {
        enc_strings(v.drop_last()) + enc_string(v.last())
    }
}

/// Decodes `n` consecutive strings.
pub open spec fn parse_strings(s: Seq<u8>, n: nat) -> Option<(Seq<Seq<char>>, int)>
    decreases n,
{
    if n == 0 {
        Some((seq![], 0))
    } else {
        match parse_strings(s, (n - 1) as nat) {
            Some((v, k)) => match parse_string(s.skip(k)) {
                Some((x, m)) => Some((v.push(x), k + m)),
                None => None,
            },
            None => None,
        }
    }
}

/// String array: the element count, then each string.
#[verifier::opaque]
pub open spec fn enc_string_array(v: Seq<Seq<char>>) -> Seq<u8> {
    enc_varint32(v.len() as u32) + enc_strings(v)
}

/// A length prefix: a variable-length integer that must not be negative.
pub open spec fn parse_len(s: Seq<u8>) -> Option<(nat, int)> {
    match parse_vint(s) {
        Some((n, k)) => if n < 0 {
            None
        } else {
            Some((n as nat, k))
        },
        None => None,
    }
}

#[verifier::opaque]
pub open spec fn parse_string_array(s: Seq<u8>) -> Option<(Seq<Seq<char>>, int)> {
    match parse_len(s) {
        Some((n, k)) => match parse_strings(s.skip(k), n) {
            Some((v, m)) => Some((v, k + m)),
            None => None,
        },
        None => None,
    }
}

/// Bytes reference: the byte count, then the bytes.
pub open spec fn enc_bytes_reference(b: Seq<u8>) -> Seq<u8> {
    enc_varint32(b.len() as u32) + b
}

pub open spec fn parse_bytes_reference(s: Seq<u8>) -> Option<(Seq<u8>, int)> {
    match parse_len(s) {
        Some((n, k)) => if k + n <= s.len() {
            Some((s.subrange(k, k + n), k + n))
        } else {
            None
        },
        None => None,
    }
}

// ---------------------------------------------------------------------------
// Lemmas: each decoder reads back what the matching encoder wrote, whatever
// bytes follow.
// ---------------------------------------------------------------------------

pub proof fn lemma_u32_be_roundtrip(u: u32)
    ensures
        dec_u32_be(enc_u32_be(u)[0], enc_u32_be(u)[1], enc_u32_be(u)[2], enc_u32_be(u)[3]) == u,
{
    assert(((((u >> 24u32) as u8) as u32) << 24u32) | (((((u >> 16u32) & 0xffu32) as u8) as u32) << 16u32)
        | (((((u >> 8u32) & 0xffu32) as u8) as u32) << 8u32) | (((u & 0xffu32) as u8) as u32) == u)
        by (bit_vector);
}

pub proof fn lemma_i32_roundtrip(v: i32, rest: Seq<u8>)
    ensures
        parse_i32(enc_i32(v) + rest) == Some((v, 4int)),
        enc_i32(v).len() == 4,
{
    reveal(enc_i32);
    reveal(parse_i32);
    lemma_u32_be_roundtrip(v as u32);
    let s = enc_i32(v) + rest;
    assert(s[0] == enc_i32(v)[0] && s[1] == enc_i32(v)[1] && s[2] == enc_i32(v)[2] && s[3] == enc_i32(v)[3]);
    assert((v as u32) as i32 == v) by (bit_vector);
}

#[verifier::spinoff_prover]
pub proof fn lemma_i64_roundtrip(v: i64, rest: Seq<u8>)
    ensures
        parse_i64(enc_i64(v) + rest) == Some((v, 8int)),
        enc_i64(v).len() == 8,
{
    reveal(enc_i64);
    reveal(parse_i64);
    let u = v as u64;
    let hi = (u >> 32u64) as u32;
    let lo = (u & 0xffff_ffffu64) as u32;
    lemma_u32_be_roundtrip(hi);
    lemma_u32_be_roundtrip(lo);
    let s = enc_i64(v) + rest;
    assert(s[0] == enc_u32_be(hi)[0] && s[1] == enc_u32_be(hi)[1] && s[2] == enc_u32_be(hi)[2]
        && s[3] == enc_u32_be(hi)[3]);
    assert(s[4] == enc_u32_be(lo)[0] && s[5] == enc_u32_be(lo)[1] && s[6] == enc_u32_be(lo)[2]
        && s[7] == enc_u32_be(lo)[3]);
    assert(dec_u64_be(s) == u) by {
        assert((((((u >> 32u64) as u32) as u64) << 32u64) | (((u & 0xffff_ffffu64) as u32) as u64)) == u)
            by (bit_vector);
    }
    assert((v as u64) as i64 == v) by (bit_vector);
}

/// The encoding of `u` read from position `i` of a sequence, where the first
/// `i` bytes are arbitrary and `u` fits in the bits that remain.
proof fn lemma_varint32_at(prefix: Seq<u8>, u: u32, rest: Seq<u8>)
    requires
        prefix.len() <= 4,
        prefix.len() == 4 ==> u < 16,
        prefix.len() == 3 ==> u < 0x800,
        prefix.len() == 2 ==> u < 0x40000,
        prefix.len() == 1 ==> u < 0x2000000,
    ensures
        parse_varint32_at(prefix + enc_varint32(u) + rest, prefix.len() as int) == Some(
            (u as int, (prefix.len() + enc_varint32(u).len()) as int),
        ),
    decreases u,
{
    let i = prefix.len() as int;
    let s = prefix + enc_varint32(u) + rest;
    assert(s[i] == enc_varint32(u)[0]);
    if u < 128 {
        assert(enc_varint32(u).len() == 1);
    } else {
        let b = (u % 128 + 128) as u8;
        let tail = enc_varint32(u / 128);
        let p2 = prefix.push(b);
        assert(s =~= p2 + tail + rest);
        lemma_varint32_at(p2, u / 128, rest);
    }
}

pub proof fn lemma_varint32_roundtrip(u: u32, rest: Seq<u8>)
    ensures
        parse_varint32_at(enc_varint32(u) + rest, 0) == Some((u as int, enc_varint32(u).len() as int)),
        1 <= enc_varint32(u).len() <= 5,
{
    let e: Seq<u8> = seq![];
    assert(e + enc_varint32(u) + rest =~= enc_varint32(u) + rest);
    lemma_varint32_at(e, u, rest);
    lemma_varint32_len(u);
}

pub proof fn lemma_varint32_len(u: u32)
    ensures
        1 <= enc_varint32(u).len() <= 5,
        u < 128 ==> enc_varint32(u).len() == 1,
{
    reveal_with_fuel(enc_varint32, 6);
    if u >= 128 {
        let u1 = u / 128;
        if u1 >= 128 {
            let u2 = u1 / 128;
            if u2 >= 128 {
                let u3 = u2 / 128;
                if u3 >= 128 {
                    let u4 = u3 / 128;
                    assert(u4 < 128);
                }
            }
        }
    }
}

pub proof fn lemma_vint_roundtrip(v: i32, rest: Seq<u8>)
    ensures
        parse_vint(enc_vint(v) + rest) == Some((v, enc_vint(v).len() as int)),
        1 <= enc_vint(v).len() <= 5,
{
    reveal(parse_vint);
    lemma_varint32_roundtrip(v as u32, rest);
    assert(((v as u32) as u32) as i32 == v) by (bit_vector);
}

proof fn lemma_varint64_at(prefix: Seq<u8>, u: u64, rest: Seq<u8>)
    requires
        prefix.len() <= 9,
        u < pow2_7(9 - prefix.len()) * 2,
    ensures
        parse_varint64_at(prefix + enc_varint64(u) + rest, prefix.len() as int) == Some(
            (u as int, (prefix.len() + enc_varint64(u).len()) as int),
        ),
    decreases u,
{
    let i = prefix.len() as int;
    let s = prefix + enc_varint64(u) + rest;
    assert(s[i] == enc_varint64(u)[0]);
    if i == 9 {
        assert(pow2_7(0) == 1);
        assert(u < 2);
    } else if u < 128 {
    } else {
        let b = (u % 128 + 128) as u8;
        let tail = enc_varint64(u / 128);
        let p2 = prefix.push(b);
        assert(s =~= p2 + tail + rest);
        lemma_pow2_7_step((8 - i) as nat);
        lemma_varint64_at(p2, u / 128, rest);
    }
}

/// 128 to the power `k`.
pub open spec fn pow2_7(k: int) -> int
    decreases k,
{
    if k <= 0 {
        1
    } else {
        128 * pow2_7(k - 1)
    }
}

pub proof fn lemma_pow2_7_bound(k: nat)
    requires
        k <= 8,
    ensures
        1 <= pow2_7(k as int) <= 0x100_0000_0000_0000,
        pow2_7((k + 1) as int) == 128 * pow2_7(k as int),
        pow2_7(9) == 0x8000_0000_0000_0000,
{
    reveal_with_fuel(pow2_7, 10);
}

proof fn lemma_pow2_7_step(k: nat)
    ensures
        pow2_7((k + 1) as int) == 128 * pow2_7(k as int),
{
}

pub proof fn lemma_varint64_roundtrip(u: u64, rest: Seq<u8>)
    ensures
        parse_varint64_at(enc_varint64(u) + rest, 0) == Some((u as int, enc_varint64(u).len() as int)),
{
    let e: Seq<u8> = seq![];
    assert(e + enc_varint64(u) + rest =~= enc_varint64(u) + rest);
    reveal_with_fuel(pow2_7, 10);
    assert(pow2_7(9) * 2 == 0x1_0000_0000_0000_0000);
    lemma_varint64_at(e, u, rest);
}

pub proof fn lemma_zlong_roundtrip(v: i64, rest: Seq<u8>)
    ensures
        parse_zlong(enc_zlong(v) + rest) == Some((v, enc_zlong(v).len() as int)),
{
    reveal(enc_zlong);
    reveal(parse_zlong);
    lemma_varint64_roundtrip(zigzag(v), rest);
}

/// The leading bytes of the UTF-8 encoding of `chars` mark out exactly
/// `chars.len()` scalars spanning the whole encoding.
pub proof fn lemma_scan_encoded(chars: Seq<char>, rest: Seq<u8>)
    ensures
        scan_scalars(encode_utf8(chars) + rest, chars.len()) == Some(encode_utf8(chars).len() as int),
    decreases chars.len(),
{
    let e = encode_utf8(chars);
    let s = e + rest;
    if chars.len() > 0 {
        encode_utf8_first_scalar(chars);
        let w = encode_scalar(chars[0] as u32).len() as int;
        let tail = chars.drop_first();
        assert(e == encode_scalar(chars[0] as u32) + encode_utf8(tail));
        assert(s[0] == e[0]);
        assert(utf8_width(s[0]) == w);
        assert(s.skip(w) =~= encode_utf8(tail) + rest);
        lemma_scan_encoded(tail, rest);
    }
}

/// The string codec reads back every string of fewer than 2^31 characters.
pub proof fn lemma_string_roundtrip(c: Seq<char>, rest: Seq<u8>)
    requires
        c.len() < 0x8000_0000,
    ensures
        parse_string(enc_string(c) + rest) == Some((c, enc_string(c).len() as int)),
{
    reveal(enc_string);
    reveal(parse_vint);
    reveal(parse_string);
    let n = c.len() as u32;
    let e = encode_utf8(c);
    let s = enc_string(c) + rest;
    assert(s =~= enc_varint32(n) + (e + rest));
    lemma_varint32_roundtrip(n, e + rest);
    assert((n as u32) as i32 == c.len()) by {
        assert(n < 0x8000_0000u32 ==> (n as i32) == n) by (bit_vector);
    }
    let k = enc_varint32(n).len() as int;
    assert(s.skip(k) =~= e + rest);
    lemma_scan_encoded(c, rest);
    assert(s.subrange(k, k + e.len()) =~= e);
    encode_utf8_valid_utf8(c);
    encode_utf8_decode_utf8(c);
}

/// Strings that fit the codec: fewer than 2^31 characters.
pub open spec fn string_fits(c: Seq<char>) -> bool {
    c.len() < 0x8000_0000
}

pub open spec fn strings_fit(v: Seq<Seq<char>>) -> bool {
    forall|i: int| 0 <= i < v.len() ==> #[trigger] string_fits(v[i])
}

pub proof fn lemma_strings_roundtrip(v: Seq<Seq<char>>, rest: Seq<u8>)
    requires
        strings_fit(v),
    ensures
        parse_strings(enc_strings(v) + rest, v.len()) == Some((v, enc_strings(v).len() as int)),
    decreases v.len(),
{
    if v.len() > 0 {
        let init = v.drop_last();
        let last = v.last();
        assert(string_fits(v[v.len() - 1]));
        assert forall|i: int| 0 <= i < init.len() implies #[trigger] string_fits(init[i]) by {
            assert(init[i] == v[i]);
        }
        let r2 = enc_string(last) + rest;
        assert(enc_strings(v) + rest =~= enc_strings(init) + r2);
        lemma_strings_roundtrip(init, r2);
        let k = enc_strings(init).len() as int;
        assert((enc_strings(v) + rest).skip(k) =~= r2);
        lemma_string_roundtrip(last, rest);
        assert(init.push(last) =~= v);
    }
}

pub proof fn lemma_string_array_roundtrip(v: Seq<Seq<char>>, rest: Seq<u8>)
    requires
        strings_fit(v),
        v.len() < 0x8000_0000,
    ensures
        parse_string_array(enc_string_array(v) + rest) == Some((v, enc_string_array(v).len() as int)),
{
    reveal(enc_string_array);
    reveal(parse_string_array);
    reveal(parse_vint);
    reveal(parse_string);
    let n = v.len() as u32;
    let s = enc_string_array(v) + rest;
    assert(s =~= enc_varint32(n) + (enc_strings(v) + rest));
    lemma_varint32_roundtrip(n, enc_strings(v) + rest);
    assert(n < 0x8000_0000u32 ==> (n as i32) == n) by (bit_vector);
    let k = enc_varint32(n).len() as int;
    assert(s.skip(k) =~= enc_strings(v) + rest);
    lemma_strings_roundtrip(v, rest);
}

pub proof fn lemma_optional_string_roundtrip(o: Option<Seq<char>>, rest: Seq<u8>)
    requires
        o matches Some(c) ==> string_fits(c),
    ensures
        parse_optional_string(enc_optional_string(o) + rest) == Some((o, enc_optional_string(o).len() as int)),
{
    reveal(enc_optional_string);
    reveal(parse_optional_string);
    let s = enc_optional_string(o) + rest;
    match o {
        Some(c) => {
            assert(s.skip(1) =~= enc_string(c) + rest);
            lemma_string_roundtrip(c, rest);
        },
        None => {},
    }
}

pub proof fn lemma_bytes_reference_roundtrip(b: Seq<u8>, rest: Seq<u8>)
    requires
        b.len() < 0x8000_0000,
    ensures
        parse_bytes_reference(enc_bytes_reference(b) + rest) == Some((b, enc_bytes_reference(b).len() as int)),
{
    reveal(parse_vint);
    let n = b.len() as u32;
    let s = enc_bytes_reference(b) + rest;
    assert(s =~= enc_varint32(n) + (b + rest));
    lemma_varint32_roundtrip(n, b + rest);
    assert(n < 0x8000_0000u32 ==> (n as i32) == n) by (bit_vector);
    let k = enc_varint32(n).len() as int;
    assert(s.subrange(k, k + b.len()) =~= b);
}

/// A variable-length long reads back as written.
pub proof fn lemma_vlong_roundtrip(v: i64, rest: Seq<u8>)
    ensures
        parse_vlong(enc_vlong(v) + rest) == Some((v, enc_vlong(v).len() as int)),
{
    reveal(enc_vlong);
    reveal(parse_vlong);
    lemma_varint64_roundtrip(v as u64, rest);
    assert(((v as u64) as int) as u64 == v as u64);
    assert((v as u64) as i64 == v) by (bit_vector);
}

} // verus!
