//! String maps on the wire: a count, then each key followed by its value,
//! in the map's key order. Reading inserts the entries in wire order, so a
//! repeated key keeps its first place and its last value.
use vstd::prelude::*;
use crate::codec::{
    enc_string, enc_string_array, enc_varint32, lemma_string_array_roundtrip, lemma_string_roundtrip,
    lemma_varint32_roundtrip, parse_len, parse_string, parse_string_array, string_fits, strings_fit,
};
use crate::smap::{
    lemma_map_of_sorted_pairs, lemma_set_of_sorted_items, map_of_pairs, set_of_items, sorted_keys,
    sorted_set, StringMap, StringSet,
};
use crate::stream::{len_failure, string_failure, strings_view, StreamInput, StreamInputError, StreamOutput};

verus! {

/// Concatenated key and value encodings of string-to-string entries.
pub open spec fn enc_string_pairs(s: Seq<(Seq<char>, Seq<char>)>) -> Seq<u8>
    decreases s.len(),
{
    if s.len() == 0 {
        seq![]
    } else {
        enc_string_pairs(s.drop_last()) + enc_string(s.last().0) + enc_string(s.last().1)
    }
}

/// A string-to-string map: its entry count, then its entries.
#[verifier::opaque]
pub open spec fn enc_string_map(s: Seq<(Seq<char>, Seq<char>)>) -> Seq<u8> {
    enc_varint32(s.len() as u32) + enc_string_pairs(s)
}

/// Decodes `n` key/value string pairs.
pub open spec fn parse_string_pairs(s: Seq<u8>, n: nat) -> Option<(Seq<(Seq<char>, Seq<char>)>, int)>
    decreases n,
{
    if n == 0 {
        Some((seq![], 0))
    } else {
        match parse_string_pairs(s, (n - 1) as nat) {
            Some((v, k)) => match parse_string(s.skip(k)) {
                Some((key, m1)) => match parse_string(s.skip(k + m1)) {
                    Some((val, m2)) => Some((v.push((key, val)), k + m1 + m2)),
                    None => None,
                },
                None => None,
            },
            None => None,
        }
    }
}

/// The error for `n` key-value pairs that do not read: that of the first
/// string that does not.
pub open spec fn string_pairs_failure(s: Seq<u8>, n: nat) -> StreamInputError
    decreases n,
{
    if n == 0 {
        StreamInputError::UnexpectedEof
    } else {
        match parse_string_pairs(s, (n - 1) as nat) {
            Some((_, k)) => match parse_string(s.skip(k)) {
                Some((_, m1)) => string_failure(s.skip(k + m1)),
                None => string_failure(s.skip(k)),
            },
            None => string_pairs_failure(s, (n - 1) as nat),
        }
    }
}

/// The error for a string-to-string map that does not read.
pub open spec fn string_map_failure(s: Seq<u8>) -> StreamInputError {
    match parse_len(s) {
        Some((n, k)) => string_pairs_failure(s.skip(k), n),
        None => len_failure(s),
    }
}

/// The map decoded from a string-to-string map encoding.
#[verifier::opaque]
pub open spec fn parse_string_map(s: Seq<u8>) -> Option<(Seq<(Seq<char>, Seq<char>)>, int)> {
    match parse_len(s) {
        Some((n, k)) => match parse_string_pairs(s.skip(k), n) {
            Some((pairs, m)) => Some((map_of_pairs(pairs), k + m)),
            None => None,
        },
        None => None,
    }
}

/// Concatenated entries of a string-to-string-set map.
pub open spec fn enc_set_pairs(s: Seq<(Seq<char>, Seq<Seq<char>>)>) -> Seq<u8>
    decreases s.len(),
{
    if s.len() == 0 {
        seq![]
    } else {
        enc_set_pairs(s.drop_last()) + enc_string(s.last().0) + enc_string_array(s.last().1)
    }
}

/// A string-to-string-set map: its entry count, then each key and its set as
/// a string array.
pub open spec fn enc_string_set_map(s: Seq<(Seq<char>, Seq<Seq<char>>)>) -> Seq<u8> {
    enc_varint32(s.len() as u32) + enc_set_pairs(s)
}

/// Decodes `n` entries of a string-to-string-set map; each value set is built
/// from its array by insertion.
pub open spec fn parse_set_pairs(s: Seq<u8>, n: nat) -> Option<(Seq<(Seq<char>, Seq<Seq<char>>)>, int)>
    decreases n,
{
    if n == 0 {
        Some((seq![], 0))
    } else {
        match parse_set_pairs(s, (n - 1) as nat) {
            Some((v, k)) => match parse_string(s.skip(k)) {
                Some((key, m1)) => match parse_string_array(s.skip(k + m1)) {
                    Some((items, m2)) => Some((v.push((key, set_of_items(items))), k + m1 + m2)),
                    None => None,
                },
                None => None,
            },
            None => None,
        }
    }
}

#[verifier::opaque]
pub open spec fn parse_string_set_map(s: Seq<u8>) -> Option<(Seq<(Seq<char>, Seq<Seq<char>>)>, int)> {
    match parse_len(s) {
        Some((n, k)) => match parse_set_pairs(s.skip(k), n) {
            Some((pairs, m)) => Some((map_of_pairs(pairs), k + m)),
            None => None,
        },
        None => None,
    }
}

impl StreamOutput {
    /// Writes a string-to-string map in key order.
    pub fn write_string_map(&mut self, m: &StringMap<String>)
        ensures
            final(self)@ == old(self)@ + enc_string_map(m@),
    {
        reveal(enc_string_map);
        self.write_varint32(m.len() as u32);
        let ghost mid = self@;
        let mut i: usize = 0;
        while i < m.len()
            invariant
                i <= m@.len(),
                self@ == mid + enc_string_pairs(m@.take(i as int)),
            decreases m@.len() - i,
        {
            let (k, v) = m.entry(i);
            self.write_string(k.as_str());
            self.write_string(v.as_str());
            proof {
                let t = m@.take(i + 1);
                assert(t.drop_last() =~= m@.take(i as int));
            }
            i = i + 1;
        }
        assert(m@.take(i as int) =~= m@);
        assert(self@ =~= old(self)@ + enc_string_map(m@));
    }

    /// Writes a string-to-string-set map in key order, each set in order.
    pub fn write_string_set_map(&mut self, m: &StringMap<StringSet>)
        ensures
            final(self)@ == old(self)@ + enc_string_set_map(m@),
    {
        self.write_varint32(m.len() as u32);
        let ghost mid = self@;
        let mut i: usize = 0;
        while i < m.len()
            invariant
                i <= m@.len(),
                self@ == mid + enc_set_pairs(m@.take(i as int)),
            decreases m@.len() - i,
        {
            let (k, v) = m.entry(i);
            self.write_string(k.as_str());
            self.write_string_array(v.items().as_slice());
            proof {
                let t = m@.take(i + 1);
                assert(t.drop_last() =~= m@.take(i as int));
            }
            i = i + 1;
        }
        assert(m@.take(i as int) =~= m@);
        assert(self@ =~= old(self)@ + enc_string_set_map(m@));
    }
}

/// The set holding the strings of `v`, inserted in order.
pub fn set_from_strings(v: &Vec<String>) -> (s: StringSet)
    ensures
        s@ == set_of_items(strings_view(v@)),
{
    let mut s = StringSet::new();
    let mut i: usize = 0;
    while i < v.len()
        invariant
            i <= v@.len(),
            s@ == set_of_items(strings_view(v@.take(i as int))),
        decreases v@.len() - i,
    {
        s.insert(v[i].clone());
        proof {
            let t = strings_view(v@.take(i + 1));
            assert(t.drop_last() =~= strings_view(v@.take(i as int)));
        }
        i = i + 1;
    }
    assert(v@.take(i as int) =~= v@);
    s
}

proof fn lemma_pairs_fail_after(s: Seq<u8>, i: nat, n: nat)
    requires
        i < n,
        parse_string_pairs(s, i) is Some,
        parse_string_pairs(s, (i + 1) as nat) is None,
    ensures
        parse_string_pairs(s, n) is None,
        string_pairs_failure(s, n) == string_pairs_failure(s, (i + 1) as nat),
    decreases n - i,
{
    if n > i + 1 {
        lemma_pairs_fail_after(s, i, (n - 1) as nat);
    }
}

proof fn lemma_set_pairs_fail_after(s: Seq<u8>, i: nat, n: nat)
    requires
        i < n,
        parse_set_pairs(s, i) is Some,
        parse_set_pairs(s, (i + 1) as nat) is None,
    ensures
        parse_set_pairs(s, n) is None,
    decreases n - i,
{
    if n > i + 1 {
        lemma_set_pairs_fail_after(s, i, (n - 1) as nat);
    }
}

impl StreamInput {
    /// Reads a string-to-string map, inserting the entries in wire order.
    pub fn read_string_map(&mut self) -> (r: Result<StringMap<String>, StreamInputError>)
        ensures
            final(self).data() == old(self).data(),
            old(self).pos() <= final(self).pos() <= final(self).data().len(),
            match parse_string_map(old(self).rest()) {
                Some((v, m)) => r matches Ok(out) && out@ == v && final(self).pos() == old(self).pos() + m,
                None => r == Err::<StringMap<String>, StreamInputError>(string_map_failure(old(self).rest())),
            },
    {
        reveal(parse_string_map);
        let ghost s0 = old(self).rest();
        let n = self.read_len()?;
        let ghost k0 = self.pos() - old(self).pos();
        let ghost s = s0.skip(k0);
        assert(self.rest() =~= s);
        let ghost p0 = self.pos();
        let mut out: StringMap<String> = StringMap::new();
        let ghost mut pairs: Seq<(Seq<char>, Seq<char>)> = seq![];
        let mut i: usize = 0;
        while i < n
            invariant
                i <= n,
                self.data() == old(self).data(),
                old(self).pos() <= p0 <= self.pos() <= self.data().len(),
                s == self.data().skip(p0 as int),
                s0 == old(self).rest(),
                parse_len(s0) == Some((n as nat, k0)),
                s == s0.skip(k0),
                p0 == old(self).pos() + k0,
                parse_string_pairs(s, i as nat) == Some((pairs, self.pos() - p0)),
                out@ == map_of_pairs(pairs),
            decreases n - i,
        {
            reveal(parse_string_map);
            assert(self.rest() =~= s.skip(self.pos() - p0));
            let key = match self.read_string() {
                Ok(t) => t,
                Err(e) => {
                    proof {
                        lemma_pairs_fail_after(s, i as nat, n as nat);
                    }
                    return Err(e);
                },
            };
            assert(self.rest() =~= s.skip(self.pos() - p0));
            let val = match self.read_string() {
                Ok(t) => t,
                Err(e) => {
                    proof {
                        lemma_pairs_fail_after(s, i as nat, n as nat);
                    }
                    return Err(e);
                },
            };
            proof {
                let prev = pairs;
                pairs = pairs.push((key@, val@));
                assert(pairs.drop_last() =~= prev);
            }
            out.insert(key, val);
            i = i + 1;
        }
        Ok(out)
    }

    /// Reads a string-to-string-set map, inserting the entries in wire order.
    pub fn read_string_set_map(&mut self) -> (r: Result<StringMap<StringSet>, StreamInputError>)
        ensures
            final(self).data() == old(self).data(),
            old(self).pos() <= final(self).pos() <= final(self).data().len(),
            match parse_string_set_map(old(self).rest()) {
                Some((v, m)) => r matches Ok(out) && out@ == v && final(self).pos() == old(self).pos() + m,
                None => r is Err,
            },
    {
        reveal(parse_string_set_map);
        let ghost s0 = old(self).rest();
        let n = self.read_len()?;
        let ghost k0 = self.pos() - old(self).pos();
        let ghost s = s0.skip(k0);
        assert(self.rest() =~= s);
        let ghost p0 = self.pos();
        let mut out: StringMap<StringSet> = StringMap::new();
        let ghost mut pairs: Seq<(Seq<char>, Seq<Seq<char>>)> = seq![];
        let mut i: usize = 0;
        while i < n
            invariant
                i <= n,
                self.data() == old(self).data(),
                old(self).pos() <= p0 <= self.pos() <= self.data().len(),
                s == self.data().skip(p0 as int),
                s0 == old(self).rest(),
                parse_len(s0) == Some((n as nat, k0)),
                s == s0.skip(k0),
                p0 == old(self).pos() + k0,
                parse_set_pairs(s, i as nat) == Some((pairs, self.pos() - p0)),
                out@ == map_of_pairs(pairs),
            decreases n - i,
        {
            reveal(parse_string_set_map);
            assert(self.rest() =~= s.skip(self.pos() - p0));
            let key = match self.read_string() {
                Ok(t) => t,
                Err(e) => {
                    proof {
                        lemma_set_pairs_fail_after(s, i as nat, n as nat);
                    }
                    return Err(e);
                },
            };
            assert(self.rest() =~= s.skip(self.pos() - p0));
            let items = match self.read_string_array() {
                Ok(t) => t,
                Err(e) => {
                    proof {
                        lemma_set_pairs_fail_after(s, i as nat, n as nat);
                    }
                    return Err(e);
                },
            };
            let set = set_from_strings(&items);
            proof {
                let prev = pairs;
                pairs = pairs.push((key@, set@));
                assert(pairs.drop_last() =~= prev);
            }
            out.insert(key, set);
            i = i + 1;
        }
        Ok(out)
    }
}

/// Every key and value of a map fits the string codec.
pub open spec fn pairs_fit(s: Seq<(Seq<char>, Seq<char>)>) -> bool {
    forall|i: int| 0 <= i < s.len() ==> string_fits(#[trigger] s[i].0) && string_fits(s[i].1)
}

proof fn lemma_string_pairs_roundtrip(p: Seq<(Seq<char>, Seq<char>)>, rest: Seq<u8>)
    requires
        pairs_fit(p),
    ensures
        parse_string_pairs(enc_string_pairs(p) + rest, p.len()) == Some((p, enc_string_pairs(p).len() as int)),
    decreases p.len(),
{
    if p.len() > 0 {
        let init = p.drop_last();
        let last = p.last();
        assert(string_fits(p[p.len() - 1].0));
        assert(pairs_fit(init)) by {
            assert forall|i: int| 0 <= i < init.len() implies string_fits(#[trigger] init[i].0) && string_fits(
                init[i].1,
            ) by {
                assert(init[i] == p[i]);
            }
        }
        let r2 = enc_string(last.0) + enc_string(last.1) + rest;
        assert(enc_string_pairs(p) + rest =~= enc_string_pairs(init) + r2);
        lemma_string_pairs_roundtrip(init, r2);
        let k = enc_string_pairs(init).len() as int;
        let all = enc_string_pairs(p) + rest;
        assert(all.skip(k) =~= enc_string(last.0) + (enc_string(last.1) + rest));
        lemma_string_roundtrip(last.0, enc_string(last.1) + rest);
        let m1 = enc_string(last.0).len() as int;
        assert(all.skip(k + m1) =~= enc_string(last.1) + rest);
        lemma_string_roundtrip(last.1, rest);
        assert(init.push(last) =~= p);
    }
}

/// Reading back a written string-to-string map yields the same entries.
pub proof fn lemma_string_map_roundtrip(m: Seq<(Seq<char>, Seq<char>)>, rest: Seq<u8>)
    requires
        sorted_keys(m),
        pairs_fit(m),
        m.len() < 0x8000_0000,
    ensures
        parse_string_map(enc_string_map(m) + rest) == Some((m, enc_string_map(m).len() as int)),
{
    reveal(parse_string_map);
    reveal(enc_string_map);
    reveal(crate::codec::parse_vint);
    let n = m.len() as u32;
    let s = enc_string_map(m) + rest;
    assert(s =~= enc_varint32(n) + (enc_string_pairs(m) + rest));
    lemma_varint32_roundtrip(n, enc_string_pairs(m) + rest);
    assert(n < 0x8000_0000u32 ==> (n as i32) == n) by (bit_vector);
    let k = enc_varint32(n).len() as int;
    assert(s.skip(k) =~= enc_string_pairs(m) + rest);
    lemma_string_pairs_roundtrip(m, rest);
    lemma_map_of_sorted_pairs(m);
}

/// Every key of a set map, and every string of its sets, fits the codec.
pub open spec fn set_pairs_fit(s: Seq<(Seq<char>, Seq<Seq<char>>)>) -> bool {
    forall|i: int|
        0 <= i < s.len() ==> string_fits(#[trigger] s[i].0) && strings_fit(s[i].1) && s[i].1.len()
            < 0x8000_0000 && sorted_set(s[i].1)
}

proof fn lemma_set_pairs_roundtrip(p: Seq<(Seq<char>, Seq<Seq<char>>)>, rest: Seq<u8>)
    requires
        set_pairs_fit(p),
    ensures
        parse_set_pairs(enc_set_pairs(p) + rest, p.len()) == Some((p, enc_set_pairs(p).len() as int)),
    decreases p.len(),
{
    if p.len() > 0 {
        let init = p.drop_last();
        let last = p.last();
        assert(string_fits(p[p.len() - 1].0));
        assert(set_pairs_fit(init)) by {
            assert forall|i: int| 0 <= i < init.len() implies string_fits(#[trigger] init[i].0) && strings_fit(
                init[i].1,
            ) && init[i].1.len() < 0x8000_0000 && sorted_set(init[i].1) by {
                assert(init[i] == p[i]);
            }
        }
        let r2 = enc_string(last.0) + enc_string_array(last.1) + rest;
        assert(enc_set_pairs(p) + rest =~= enc_set_pairs(init) + r2);
        lemma_set_pairs_roundtrip(init, r2);
        let k = enc_set_pairs(init).len() as int;
        let all = enc_set_pairs(p) + rest;
        assert(all.skip(k) =~= enc_string(last.0) + (enc_string_array(last.1) + rest));
        lemma_string_roundtrip(last.0, enc_string_array(last.1) + rest);
        let m1 = enc_string(last.0).len() as int;
        assert(all.skip(k + m1) =~= enc_string_array(last.1) + rest);
        lemma_string_array_roundtrip(last.1, rest);
        lemma_set_of_sorted_items(last.1);
        assert(init.push(last) =~= p);
    }
}

/// Reading back a written string-to-string-set map yields the same entries.
pub proof fn lemma_string_set_map_roundtrip(m: Seq<(Seq<char>, Seq<Seq<char>>)>, rest: Seq<u8>)
    requires
        sorted_keys(m),
        set_pairs_fit(m),
        m.len() < 0x8000_0000,
    ensures
        parse_string_set_map(enc_string_set_map(m) + rest) == Some((m, enc_string_set_map(m).len() as int)),
{
    reveal(parse_string_set_map);
    reveal(crate::codec::parse_vint);
    let n = m.len() as u32;
    let s = enc_string_set_map(m) + rest;
    assert(s =~= enc_varint32(n) + (enc_set_pairs(m) + rest));
    lemma_varint32_roundtrip(n, enc_set_pairs(m) + rest);
    assert(n < 0x8000_0000u32 ==> (n as i32) == n) by (bit_vector);
    let k = enc_varint32(n).len() as int;
    assert(s.skip(k) =~= enc_set_pairs(m) + rest);
    lemma_set_pairs_roundtrip(m, rest);
    lemma_map_of_sorted_pairs(m);
}


/// A map entry goes on the wire as its key, then its value: a one-entry map is
/// the count 1, the key and the value, and a reader given those reads the
/// entry with that key and that value, whatever follows.
pub proof fn lemma_string_map_entry_wire_order(key: Seq<char>, value: Seq<char>, rest: Seq<u8>)
    requires
        string_fits(key),
        string_fits(value),
    ensures
        ({
            let wire = enc_varint32(1) + enc_string(key) + enc_string(value);
            &&& enc_string_map(seq![(key, value)]) == wire
            &&& parse_string_map(wire + rest) == Some((seq![(key, value)], wire.len() as int))
        }),
{
    let m = seq![(key, value)];
    let wire = enc_varint32(1) + enc_string(key) + enc_string(value);
    reveal(enc_string_map);
    assert(m.drop_last() =~= Seq::<(Seq<char>, Seq<char>)>::empty());
    assert(enc_string_pairs(m.drop_last()) == Seq::<u8>::empty());
    assert(enc_string_pairs(m) =~= enc_string(key) + enc_string(value));
    assert(enc_string_map(m) =~= wire);
    assert(pairs_fit(m));
    assert(sorted_keys(m));
    lemma_string_map_roundtrip(m, rest);
}

/// A response-header entry goes on the wire as its key, then its values as a
/// string array: a one-entry map is the count 1, the key and the values, and a
/// reader given those reads the entry with that key and those values.
pub proof fn lemma_string_set_map_entry_wire_order(key: Seq<char>, values: Seq<Seq<char>>, rest: Seq<u8>)
    requires
        string_fits(key),
        strings_fit(values),
        values.len() < 0x8000_0000,
        sorted_set(values),
    ensures
        ({
            let wire = enc_varint32(1) + enc_string(key) + enc_string_array(values);
            &&& enc_string_set_map(seq![(key, values)]) == wire
            &&& parse_string_set_map(wire + rest) == Some((seq![(key, values)], wire.len() as int))
        }),
{
    let m = seq![(key, values)];
    let wire = enc_varint32(1) + enc_string(key) + enc_string_array(values);
    assert(m.drop_last() =~= Seq::<(Seq<char>, Seq<Seq<char>>)>::empty());
    assert(enc_set_pairs(m.drop_last()) == Seq::<u8>::empty());
    assert(enc_set_pairs(m) =~= enc_string(key) + enc_string_array(values));
    assert(enc_string_set_map(m) =~= wire);
    assert(set_pairs_fit(m));
    assert(sorted_keys(m));
    lemma_string_set_map_roundtrip(m, rest);
}

} // verus!
