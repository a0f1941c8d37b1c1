//! Maps and sets keyed by strings, kept in ascending byte order of their
//! keys with no key twice: the order in which they are written to the wire.
use vstd::prelude::*;
use vstd::utf8::*;
use crate::text::str_eq;

verus! {

/// Lexicographic order of byte sequences.
pub open spec fn bytes_lt(a: Seq<u8>, b: Seq<u8>) -> bool
    decreases a.len(),
{
    if a.len() == 0 {
        b.len() > 0
    } else if b.len() == 0 {
        false
    } else if a[0] < b[0] {
        true
    } else if a[0] > b[0] {
        false
    } else {
        bytes_lt(a.drop_first(), b.drop_first())
    }
}

/// Order of strings: the byte order of their UTF-8 encodings.
pub open spec fn key_lt(a: Seq<char>, b: Seq<char>) -> bool {
    bytes_lt(encode_utf8(a), encode_utf8(b))
}

pub proof fn lemma_bytes_lt_irreflexive(a: Seq<u8>)
    ensures
        !bytes_lt(a, a),
    decreases a.len(),
{
    if a.len() > 0 {
        lemma_bytes_lt_irreflexive(a.drop_first());
    }
}

pub proof fn lemma_bytes_lt_transitive(a: Seq<u8>, b: Seq<u8>, c: Seq<u8>)
    requires
        bytes_lt(a, b),
        bytes_lt(b, c),
    ensures
        bytes_lt(a, c),
    decreases a.len(),
{
    if a.len() > 0 && b.len() > 0 && c.len() > 0 && a[0] == b[0] && b[0] == c[0] {
        lemma_bytes_lt_transitive(a.drop_first(), b.drop_first(), c.drop_first());
    }
}

pub proof fn lemma_bytes_lt_total(a: Seq<u8>, b: Seq<u8>)
    ensures
        a == b || bytes_lt(a, b) || bytes_lt(b, a),
        !(bytes_lt(a, b) && bytes_lt(b, a)),
    decreases a.len(),
{
    if a.len() > 0 && b.len() > 0 {
        lemma_bytes_lt_total(a.drop_first(), b.drop_first());
        if a[0] == b[0] && a.drop_first() == b.drop_first() {
            assert(a =~= seq![a[0]] + a.drop_first());
            assert(b =~= seq![b[0]] + b.drop_first());
        }
    } else if a.len() == 0 && b.len() == 0 {
        assert(a =~= b);
    }
}

pub proof fn lemma_key_order(a: Seq<char>, b: Seq<char>, c: Seq<char>)
    ensures
        !key_lt(a, a),
        a == b || key_lt(a, b) || key_lt(b, a),
        !(key_lt(a, b) && key_lt(b, a)),
        key_lt(a, b) && key_lt(b, c) ==> key_lt(a, c),
{
    lemma_bytes_lt_irreflexive(encode_utf8(a));
    lemma_bytes_lt_total(encode_utf8(a), encode_utf8(b));
    if encode_utf8(a) == encode_utf8(b) {
        encode_utf8_decode_utf8(a);
        encode_utf8_decode_utf8(b);
    }
    if key_lt(a, b) && key_lt(b, c) {
        lemma_bytes_lt_transitive(encode_utf8(a), encode_utf8(b), encode_utf8(c));
    }
}

/// Byte order of two slices: negative, zero or positive as `a` sorts before,
/// equal to, or after `b`.
pub fn compare_bytes(a: &[u8], b: &[u8]) -> (r: i8)
    ensures
        r < 0 <==> bytes_lt(a@, b@),
        r == 0 <==> a@ == b@,
        r > 0 <==> bytes_lt(b@, a@),
{
    let mut i: usize = 0;
    proof {
        lemma_bytes_lt_total(a@, b@);
        assert(a@.skip(0) =~= a@);
        assert(b@.skip(0) =~= b@);
    }
    while i < a.len() && i < b.len()
        invariant
            i <= a@.len(),
            i <= b@.len(),
            a@.take(i as int) == b@.take(i as int),
            bytes_lt(a@, b@) == bytes_lt(a@.skip(i as int), b@.skip(i as int)),
            bytes_lt(b@, a@) == bytes_lt(b@.skip(i as int), a@.skip(i as int)),
        decreases a@.len() - i,
    {
        if a[i] < b[i] {
            return -1;
        }
        if a[i] > b[i] {
            return 1;
        }
        proof {
            assert(a@.skip(i as int).drop_first() =~= a@.skip(i + 1));
            assert(b@.skip(i as int).drop_first() =~= b@.skip(i + 1));
            assert(a@.take(i + 1) =~= a@.take(i as int).push(a@[i as int]));
            assert(b@.take(i + 1) =~= b@.take(i as int).push(b@[i as int]));
        }
        i = i + 1;
    }
    proof {
        lemma_bytes_lt_total(a@, b@);
    }
    if a.len() == b.len() {
        assert(a@ =~= a@.take(i as int));
        assert(b@ =~= b@.take(i as int));
        0
    } else if a.len() < b.len() {
        -1
    } else {
        1
    }
}

/// Order of two strings: negative, zero or positive.
pub fn compare_str(a: &str, b: &str) -> (r: i8)
    ensures
        r < 0 <==> key_lt(a@, b@),
        r == 0 <==> a@ == b@,
        r > 0 <==> key_lt(b@, a@),
{
    let r = compare_bytes(a.as_bytes(), b.as_bytes());
    proof {
        lemma_key_order(a@, b@, b@);
        if r == 0 {
            encode_utf8_decode_utf8(a@);
            encode_utf8_decode_utf8(b@);
        }
    }
    r
}

/// Entries in strictly ascending order of their keys.
pub open spec fn sorted_keys<V>(s: Seq<(Seq<char>, V)>) -> bool {
    forall|i: int, j: int| 0 <= i < j < s.len() ==> key_lt(#[trigger] s[i].0, #[trigger] s[j].0)
}

/// The entries after inserting key `k` with value `v`: a present key keeps
/// its place and takes the new value; a new key goes where its order puts it.
pub open spec fn map_insert<V>(s: Seq<(Seq<char>, V)>, k: Seq<char>, v: V) -> Seq<(Seq<char>, V)>
    decreases s.len(),
{
    if s.len() == 0 {
        seq![(k, v)]
    } else if s[0].0 == k {
        seq![(k, v)] + s.drop_first()
    } else if key_lt(k, s[0].0) {
        seq![(k, v)] + s
    } else {
        seq![s[0]] + map_insert(s.drop_first(), k, v)
    }
}

/// The entries built by inserting `pairs` in order into an empty map.
pub open spec fn map_of_pairs<V>(pairs: Seq<(Seq<char>, V)>) -> Seq<(Seq<char>, V)>
    decreases pairs.len(),
{
    if pairs.len() == 0 {
        seq![]
    } else {
        map_insert(map_of_pairs(pairs.drop_last()), pairs.last().0, pairs.last().1)
    }
}

/// Every key after an insertion is a key before it or the inserted key, so a
/// key that sorts before all of those sorts before all keys after it.
proof fn lemma_insert_lower_bound<V>(s: Seq<(Seq<char>, V)>, k: Seq<char>, v: V, lo: Seq<char>)
    requires
        key_lt(lo, k),
        forall|i: int| 0 <= i < s.len() ==> key_lt(lo, #[trigger] s[i].0),
    ensures
        forall|j: int| 0 <= j < map_insert(s, k, v).len() ==> key_lt(lo, #[trigger] map_insert(s, k, v)[j].0),
    decreases s.len(),
{
    if s.len() > 0 && s[0].0 != k && !key_lt(k, s[0].0) {
        let t = s.drop_first();
        assert forall|i: int| 0 <= i < t.len() implies key_lt(lo, #[trigger] t[i].0) by {
            assert(t[i] == s[i + 1]);
        }
        lemma_insert_lower_bound(t, k, v, lo);
        let r = map_insert(s, k, v);
        assert forall|j: int| 0 <= j < r.len() implies key_lt(lo, #[trigger] r[j].0) by {
            if j > 0 {
                assert(r[j] == map_insert(t, k, v)[j - 1]);
            }
        }
    }
}

pub proof fn lemma_insert_sorted<V>(s: Seq<(Seq<char>, V)>, k: Seq<char>, v: V)
    requires
        sorted_keys(s),
    ensures
        sorted_keys(map_insert(s, k, v)),
    decreases s.len(),
{
    let r = map_insert(s, k, v);
    if s.len() == 0 {
    } else if s[0].0 == k {
        assert forall|i: int, j: int| 0 <= i < j < r.len() implies key_lt(#[trigger] r[i].0, #[trigger] r[j].0) by {
            assert(r[i].0 == s[i].0);
            assert(r[j].0 == s[j].0);
        }
    } else if key_lt(k, s[0].0) {
        assert forall|i: int, j: int| 0 <= i < j < r.len() implies key_lt(#[trigger] r[i].0, #[trigger] r[j].0) by {
            if i == 0 {
                if j > 1 {
                    lemma_key_order(k, s[0].0, s[j - 1].0);
                }
            } else {
                assert(r[i] == s[i - 1] && r[j] == s[j - 1]);
            }
        }
    } else {
        let t = s.drop_first();
        assert(sorted_keys(t)) by {
            assert forall|i: int, j: int| 0 <= i < j < t.len() implies key_lt(#[trigger] t[i].0, #[trigger] t[j].0) by {
                assert(t[i] == s[i + 1] && t[j] == s[j + 1]);
            }
        }
        lemma_insert_sorted(t, k, v);
        lemma_key_order(s[0].0, k, k);
        assert forall|i: int| 0 <= i < t.len() implies key_lt(s[0].0, #[trigger] t[i].0) by {
            assert(t[i] == s[i + 1]);
        }
        lemma_insert_lower_bound(t, k, v, s[0].0);
        let ti = map_insert(t, k, v);
        assert forall|i: int, j: int| 0 <= i < j < r.len() implies key_lt(#[trigger] r[i].0, #[trigger] r[j].0) by {
            if i == 0 {
                assert(r[j] == ti[j - 1]);
            } else {
                assert(r[i] == ti[i - 1] && r[j] == ti[j - 1]);
            }
        }
    }
}

/// Inserting a key that sorts after every key present appends it.
proof fn lemma_insert_greatest<V>(s: Seq<(Seq<char>, V)>, k: Seq<char>, v: V)
    requires
        forall|i: int| 0 <= i < s.len() ==> key_lt(#[trigger] s[i].0, k),
    ensures
        map_insert(s, k, v) == s.push((k, v)),
    decreases s.len(),
{
    if s.len() > 0 {
        lemma_key_order(s[0].0, k, k);
        let t = s.drop_first();
        assert forall|i: int| 0 <= i < t.len() implies key_lt(#[trigger] t[i].0, k) by {
            assert(t[i] == s[i + 1]);
        }
        lemma_insert_greatest(t, k, v);
        assert(seq![s[0]] + t.push((k, v)) =~= s.push((k, v)));
    }
}

/// Inserting sorted entries one after the other rebuilds them.
pub proof fn lemma_map_of_sorted_pairs<V>(p: Seq<(Seq<char>, V)>)
    requires
        sorted_keys(p),
    ensures
        map_of_pairs(p) == p,
    decreases p.len(),
{
    if p.len() > 0 {
        let init = p.drop_last();
        assert(sorted_keys(init)) by {
            assert forall|i: int, j: int| 0 <= i < j < init.len() implies key_lt(#[trigger] init[i].0, #[trigger] init[j].0) by {
                assert(init[i] == p[i] && init[j] == p[j]);
            }
        }
        lemma_map_of_sorted_pairs(init);
        assert forall|i: int| 0 <= i < init.len() implies key_lt(#[trigger] init[i].0, p.last().0) by {
            assert(init[i] == p[i]);
        }
        lemma_insert_greatest(init, p.last().0, p.last().1);
        assert(init.push(p.last()) =~= p);
    }
}

/// Insertion past a prefix of smaller keys leaves that prefix in place.
proof fn lemma_insert_skip_prefix<V>(s: Seq<(Seq<char>, V)>, k: Seq<char>, v: V, i: int)
    requires
        0 <= i <= s.len(),
        forall|j: int| 0 <= j < i ==> key_lt(#[trigger] s[j].0, k),
    ensures
        map_insert(s, k, v) == s.take(i) + map_insert(s.skip(i), k, v),
    decreases i,
{
    if i > 0 {
        lemma_key_order(s[0].0, k, k);
        let t = s.drop_first();
        assert forall|j: int| 0 <= j < i - 1 implies key_lt(#[trigger] t[j].0, k) by {
            assert(t[j] == s[j + 1]);
        }
        lemma_insert_skip_prefix(t, k, v, i - 1);
        assert(t.skip(i - 1) =~= s.skip(i));
        assert(seq![s[0]] + (t.take(i - 1) + map_insert(s.skip(i), k, v)) =~= s.take(i) + map_insert(s.skip(i), k, v));
    } else {
        assert(s.skip(0) =~= s);
        assert(s.take(0) + map_insert(s, k, v) =~= map_insert(s, k, v));
    }
}

/// The characters of each key with the view of each value.
pub open spec fn entries_view<V: View>(e: Seq<(String, V)>) -> Seq<(Seq<char>, V::V)> {
    e.map_values(|x: (String, V)| (x.0@, x.1@))
}

/// A map from strings to values, iterated in ascending key order.
#[derive(Debug, PartialEq, Eq)]
pub struct StringMap<V: View> {
    entries: Vec<(String, V)>,
}

impl<V: View> View for StringMap<V> {
    type V = Seq<(Seq<char>, V::V)>;

    closed spec fn view(&self) -> Seq<(Seq<char>, V::V)> {
        entries_view(self.entries@)
    }
}

impl<V: View> StringMap<V> {
    #[verifier::type_invariant]
    closed spec fn keys_ascending(self) -> bool {
        sorted_keys(entries_view(self.entries@))
    }

    /// An empty map.
    pub fn new() -> (m: Self)
        ensures
            m@ == Seq::<(Seq<char>, V::V)>::empty(),
    {
        let m = StringMap { entries: Vec::new() };
        assert(m@ =~= Seq::<(Seq<char>, V::V)>::empty());
        m
    }

    /// Number of entries.
    pub fn len(&self) -> (n: usize)
        ensures
            n == self@.len(),
    {
        self.entries.len()
    }

    /// True when the map has no entry.
    pub fn is_empty(&self) -> (b: bool)
        ensures
            b == (self@.len() == 0),
    {
        self.entries.len() == 0
    }

    /// Entry `i` in key order.
    pub fn entry(&self, i: usize) -> (e: (&String, &V))
        requires
            i < self@.len(),
        ensures
            e.0@ == self@[i as int].0,
            e.1@ == self@[i as int].1,
    {
        let p = &self.entries[i];
        (&p.0, &p.1)
    }

    /// The entries are in strictly ascending key order.
    pub fn lemma_sorted(&self)
        ensures
            sorted_keys(self@),
    {
        proof {
            use_type_invariant(self);
        }
    }

    /// The value under `key`, if any.
    pub fn get(&self, key: &str) -> (r: Option<&V>)
        ensures
            match r {
                Some(v) => exists|i: int| 0 <= i < self@.len() && self@[i].0 == key@ && self@[i].1 == v@,
                None => forall|i: int| 0 <= i < self@.len() ==> self@[i].0 != key@,
            },
    {
        let mut i: usize = 0;
        while i < self.entries.len()
            invariant
                i <= self@.len(),
                self@.len() == self.entries@.len(),
                forall|j: int| 0 <= j < i ==> self@[j].0 != key@,
            decreases self@.len() - i,
        {
            if str_eq(self.entries[i].0.as_str(), key) {
                assert(self@[i as int].0 == key@);
                return Some(&self.entries[i].1);
            }
            i = i + 1;
        }
        None
    }

    /// The map holding `pairs`, a later pair replacing the value of an
    /// earlier one with the same key.
    pub fn from_pairs(pairs: Vec<(String, V)>) -> (m: Self)
        ensures
            m@ == map_of_pairs(entries_view(pairs@)),
    {
        let mut m = StringMap::new();
        let mut rest = pairs;
        let ghost all = entries_view(rest@);
        proof {
            assert(all.take(0) =~= Seq::<(Seq<char>, V::V)>::empty());
        }
        let n = rest.len();
        let mut i: usize = 0;
        while i < n
            invariant
                m@ == map_of_pairs(all.take(i as int)),
                i + rest@.len() == n,
                n == all.len(),
                forall|j: int| 0 <= j < rest@.len() ==> (#[trigger] rest@[j]).0@ == all[i + j].0 && rest@[j].1@ == all[i + j].1,
            decreases n - i,
        {
            assert(rest@[0].0@ == all[i as int].0);
            let ghost before = rest@;
            let (k, v) = rest.remove(0);
            proof {
                assert(all.take(i + 1).drop_last() =~= all.take(i as int));
                assert forall|j: int| 0 <= j < rest@.len() implies (#[trigger] rest@[j]).0@ == all[i + 1 + j].0 && rest@[j].1@ == all[i + 1 + j].1 by {
                    assert(rest@[j] == before[j + 1]);
                }
            }
            m.insert(k, v);
            i = i + 1;
        }
        proof {
            assert(all.take(i as int) =~= all);
        }
        m
    }

    /// Inserts `k` with value `v`, replacing the value of a present key.
    pub fn insert(&mut self, k: String, v: V)
        ensures
            final(self)@ == map_insert(old(self)@, k@, v@),
    {
        proof {
            use_type_invariant(&*self);
        }
        let ghost s = self@;
        let ghost kv = k@;
        let ghost vv = v@;
        let mut entries: Vec<(String, V)> = Vec::new();
        std::mem::swap(&mut entries, &mut self.entries);
        assert(entries_view(entries@) == s);
        let mut i: usize = 0;
        while i < entries.len()
            invariant
                entries_view(entries@) == s,
                s == old(self)@,
                sorted_keys(s),
                i <= s.len(),
                kv == k@,
                vv == v@,
                forall|j: int| 0 <= j < i ==> key_lt(#[trigger] s[j].0, kv),
            decreases s.len() - i,
        {
            let c = compare_str(entries[i].0.as_str(), k.as_str());
            if c == 0 || c > 0 {
                proof {
                    lemma_insert_skip_prefix(s, kv, vv, i as int);
                    assert(s.skip(i as int)[0] == s[i as int]);
                    lemma_key_order(kv, s[i as int].0, s[i as int].0);
                    lemma_insert_sorted(s, kv, vv);
                }
                if c == 0 {
                    entries.set(i, (k, v));
                } else {
                    entries.insert(i, (k, v));
                }
                assert(entries_view(entries@) =~= s.take(i as int) + map_insert(s.skip(i as int), kv, vv));
                self.entries = entries;
                return;
            }
            i = i + 1;
        }
        proof {
            lemma_insert_greatest(s, kv, vv);
            lemma_insert_sorted(s, kv, vv);
        }
        entries.push((k, v));
        assert(entries_view(entries@) =~= s.push((kv, vv)));
        self.entries = entries;
    }
}

/// The keys of a set after inserting `k`: unchanged when present, else `k`
/// where its order puts it.
pub open spec fn set_insert(s: Seq<Seq<char>>, k: Seq<char>) -> Seq<Seq<char>>
    decreases s.len(),
{
    if s.len() == 0 {
        seq![k]
    } else if s[0] == k {
        s
    } else if key_lt(k, s[0]) {
        seq![k] + s
    } else {
        seq![s[0]] + set_insert(s.drop_first(), k)
    }
}

/// Keys in strictly ascending order.
pub open spec fn sorted_set(s: Seq<Seq<char>>) -> bool {
    forall|i: int, j: int| 0 <= i < j < s.len() ==> key_lt(#[trigger] s[i], #[trigger] s[j])
}

/// The set built by inserting `items` in order into an empty set.
pub open spec fn set_of_items(items: Seq<Seq<char>>) -> Seq<Seq<char>>
    decreases items.len(),
{
    if items.len() == 0 {
        seq![]
    } else {
        set_insert(set_of_items(items.drop_last()), items.last())
    }
}

/// A set insertion is the map insertion of the key with a unit value.
pub open spec fn as_unit_entries(s: Seq<Seq<char>>) -> Seq<(Seq<char>, ())> {
    s.map_values(|k: Seq<char>| (k, ()))
}

proof fn lemma_set_insert_is_map_insert(s: Seq<Seq<char>>, k: Seq<char>)
    ensures
        as_unit_entries(set_insert(s, k)) == map_insert(as_unit_entries(s), k, ()),
    decreases s.len(),
{
    let u = as_unit_entries(s);
    if s.len() == 0 {
        assert(as_unit_entries(set_insert(s, k)) =~= map_insert(u, k, ()));
    } else if s[0] == k {
        assert(u[0].0 == k);
        assert(seq![(k, ())] + u.drop_first() =~= u);
    } else if key_lt(k, s[0]) {
        assert(as_unit_entries(set_insert(s, k)) =~= map_insert(u, k, ()));
    } else {
        lemma_set_insert_is_map_insert(s.drop_first(), k);
        assert(u.drop_first() =~= as_unit_entries(s.drop_first()));
        assert(as_unit_entries(set_insert(s, k)) =~= map_insert(u, k, ()));
    }
}

proof fn lemma_sorted_set_entries(s: Seq<Seq<char>>)
    ensures
        sorted_set(s) <==> sorted_keys(as_unit_entries(s)),
{
    let u = as_unit_entries(s);
    assert(u.len() == s.len());
    if sorted_set(s) {
        assert forall|i: int, j: int| 0 <= i < j < u.len() implies key_lt(#[trigger] u[i].0, #[trigger] u[j].0) by {
            assert(u[i].0 == s[i] && u[j].0 == s[j]);
        }
    }
    if sorted_keys(u) {
        assert forall|i: int, j: int| 0 <= i < j < s.len() implies key_lt(#[trigger] s[i], #[trigger] s[j]) by {
            assert(u[i].0 == s[i] && u[j].0 == s[j]);
        }
    }
}

pub proof fn lemma_set_insert_sorted(s: Seq<Seq<char>>, k: Seq<char>)
    requires
        sorted_set(s),
    ensures
        sorted_set(set_insert(s, k)),
{
    lemma_sorted_set_entries(s);
    lemma_set_insert_is_map_insert(s, k);
    lemma_insert_sorted(as_unit_entries(s), k, ());
    lemma_sorted_set_entries(set_insert(s, k));
}

/// Inserting sorted keys one after the other rebuilds them.
pub proof fn lemma_set_of_sorted_items(p: Seq<Seq<char>>)
    requires
        sorted_set(p),
    ensures
        set_of_items(p) == p,
    decreases p.len(),
{
    if p.len() > 0 {
        let init = p.drop_last();
        assert(sorted_set(init)) by {
            assert forall|i: int, j: int| 0 <= i < j < init.len() implies key_lt(#[trigger] init[i], #[trigger] init[j]) by {
                assert(init[i] == p[i] && init[j] == p[j]);
            }
        }
        lemma_set_of_sorted_items(init);
        let u = as_unit_entries(init);
        assert forall|i: int| 0 <= i < u.len() implies key_lt(#[trigger] u[i].0, p.last()) by {
            assert(u[i].0 == p[i]);
        }
        lemma_insert_greatest(u, p.last(), ());
        lemma_set_insert_is_map_insert(init, p.last());
        assert(as_unit_entries(set_insert(init, p.last())) =~= as_unit_entries(p));
        lemma_unit_entries_injective(set_insert(init, p.last()), p);
    }
}

proof fn lemma_unit_entries_injective(a: Seq<Seq<char>>, b: Seq<Seq<char>>)
    requires
        as_unit_entries(a) == as_unit_entries(b),
    ensures
        a == b,
{
    let ua = as_unit_entries(a);
    let ub = as_unit_entries(b);
    assert(a.len() == ua.len() && b.len() == ub.len());
    assert forall|i: int| 0 <= i < a.len() implies a[i] == b[i] by {
        assert(ua[i].0 == a[i]);
        assert(ub[i].0 == b[i]);
    }
    assert(a =~= b);
}

/// The characters of each string.
pub open spec fn set_view(v: Seq<String>) -> Seq<Seq<char>> {
    v.map_values(|s: String| s@)
}

/// A set of strings, iterated in ascending order.
#[derive(Debug, PartialEq, Eq)]
pub struct StringSet {
    items: Vec<String>,
}

impl View for StringSet {
    type V = Seq<Seq<char>>;

    closed spec fn view(&self) -> Seq<Seq<char>> {
        set_view(self.items@)
    }
}

impl StringSet {
    #[verifier::type_invariant]
    closed spec fn items_ascending(self) -> bool {
        sorted_set(set_view(self.items@))
    }

    /// An empty set.
    pub fn new() -> (s: Self)
        ensures
            s@ == Seq::<Seq<char>>::empty(),
    {
        let s = StringSet { items: Vec::new() };
        assert(s@ =~= Seq::<Seq<char>>::empty());
        s
    }

    pub fn len(&self) -> (n: usize)
        ensures
            n == self@.len(),
    {
        self.items.len()
    }

    /// The strings in ascending order.
    pub fn items(&self) -> (v: &Vec<String>)
        ensures
            set_view(v@) == self@,
    {
        &self.items
    }

    /// The items are in strictly ascending order.
    pub fn lemma_sorted(&self)
        ensures
            sorted_set(self@),
    {
        proof {
            use_type_invariant(self);
        }
    }

    /// Adds `k` unless present.
    pub fn insert(&mut self, k: String)
        ensures
            final(self)@ == set_insert(old(self)@, k@),
    {
        proof {
            use_type_invariant(&*self);
        }
        let ghost s = self@;
        let ghost kv = k@;
        let mut items: Vec<String> = Vec::new();
        std::mem::swap(&mut items, &mut self.items);
        assert(set_view(items@) == s);
        let mut i: usize = 0;
        while i < items.len()
            invariant
                set_view(items@) == s,
                s == old(self)@,
                sorted_set(s),
                i <= s.len(),
                kv == k@,
                forall|j: int| 0 <= j < i ==> key_lt(#[trigger] s[j], kv),
            decreases s.len() - i,
        {
            let c = compare_str(items[i].as_str(), k.as_str());
            if c == 0 {
                proof {
                    lemma_set_insert_skip_prefix(s, kv, i as int);
                    assert(s.skip(i as int)[0] == s[i as int]);
                    assert(s.take(i as int) + s.skip(i as int) =~= s);
                }
                self.items = items;
                return;
            }
            if c > 0 {
                proof {
                    lemma_set_insert_skip_prefix(s, kv, i as int);
                    assert(s.skip(i as int)[0] == s[i as int]);
                    lemma_key_order(kv, s[i as int], s[i as int]);
                    lemma_set_insert_sorted(s, kv);
                }
                items.insert(i, k);
                assert(set_view(items@) =~= s.take(i as int) + set_insert(s.skip(i as int), kv));
                self.items = items;
                return;
            }
            i = i + 1;
        }
        proof {
            lemma_set_insert_skip_prefix(s, kv, i as int);
            assert(s.skip(i as int) =~= Seq::<Seq<char>>::empty());
            lemma_set_insert_sorted(s, kv);
        }
        items.push(k);
        assert(set_view(items@) =~= s.push(kv));
        self.items = items;
    }
}

proof fn lemma_set_insert_skip_prefix(s: Seq<Seq<char>>, k: Seq<char>, i: int)
    requires
        0 <= i <= s.len(),
        forall|j: int| 0 <= j < i ==> key_lt(#[trigger] s[j], k),
    ensures
        set_insert(s, k) == s.take(i) + set_insert(s.skip(i), k),
    decreases i,
{
    if i > 0 {
        lemma_key_order(s[0], k, k);
        let t = s.drop_first();
        assert forall|j: int| 0 <= j < i - 1 implies key_lt(#[trigger] t[j], k) by {
            assert(t[j] == s[j + 1]);
        }
        lemma_set_insert_skip_prefix(t, k, i - 1);
        assert(t.skip(i - 1) =~= s.skip(i));
        assert(seq![s[0]] + (t.take(i - 1) + set_insert(s.skip(i), k)) =~= s.take(i) + set_insert(s.skip(i), k));
    } else {
        assert(s.skip(0) =~= s);
        assert(s.take(0) + set_insert(s, k) =~= set_insert(s, k));
    }
}

} // verus!
