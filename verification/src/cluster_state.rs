//! The answer to a cluster state request: the cluster's identity, the state's
//! version, and its sections, each a named JSON document.
use vstd::prelude::*;
use crate::action_wire::{lift, require_no_trailing_bytes, TransportActionWireError};
use crate::codec::{
    enc_i64, enc_string, enc_vint, lemma_i64_roundtrip, lemma_string_roundtrip, lemma_vint_roundtrip, parse_i64,
    parse_len, parse_string, string_fits,
};
use crate::json_section::{
    enc_json_bytes, is_json_document, lemma_json_bytes_roundtrip, parse_json_bytes, read_json_bytes, write_json_bytes,
};
use crate::smap::{lemma_map_of_sorted_pairs, map_of_pairs, sorted_keys, StringMap};
use crate::stream::{StreamInput, StreamOutput};
use crate::wire_fields::{lemma_append_assoc, lemma_skip_append};

verus! {

/// Named JSON sections one after the other: each name, then its JSON text.
pub open spec fn enc_json_section_pairs(s: Seq<(Seq<char>, Seq<u8>)>) -> Seq<u8>
    decreases s.len(),
{
    if s.len() == 0 {
        seq![]
    } else {
        enc_json_section_pairs(s.drop_last()) + (enc_string(s.last().0) + enc_json_bytes(s.last().1))
    }
}

/// A map of named JSON sections: its entry count, then its entries in key
/// order.
#[verifier::opaque]
pub open spec fn enc_json_section_map(s: Seq<(Seq<char>, Seq<u8>)>) -> Seq<u8> {
    enc_vint(s.len() as i32) + enc_json_section_pairs(s)
}

/// Decodes `n` named JSON sections; a section that is not one JSON document
/// is refused.
pub open spec fn parse_json_section_pairs(s: Seq<u8>, n: nat) -> Option<(Seq<(Seq<char>, Seq<u8>)>, int)>
    decreases n,
{
    if n == 0 {
        Some((seq![], 0))
    } else {
        match parse_json_section_pairs(s, (n - 1) as nat) {
            Some((v, k)) => match parse_string(s.skip(k)) {
                Some((key, m1)) => match parse_json_bytes(s.skip(k + m1)) {
                    Some((val, m2)) => Some((v.push((key, val)), k + m1 + m2)),
                    None => None,
                },
                None => None,
            },
            None => None,
        }
    }
}

/// The map decoded from a JSON section map: the sections inserted in wire
/// order, so a repeated name keeps its first place and its last document.
#[verifier::opaque]
pub open spec fn parse_json_section_map(s: Seq<u8>) -> Option<(Seq<(Seq<char>, Seq<u8>)>, int)> {
    match parse_len(s) {
        Some((n, k)) => match parse_json_section_pairs(s.skip(k), n) {
            Some((pairs, m)) => Some((map_of_pairs(pairs), k + m)),
            None => None,
        },
        None => None,
    }
}

/// Every section name fits the string codec and every section is one JSON
/// document that fits a bytes reference.
pub open spec fn json_sections_fit(s: Seq<(Seq<char>, Seq<u8>)>) -> bool {
    forall|i: int|
        0 <= i < s.len() ==> string_fits(#[trigger] s[i].0) && is_json_document(s[i].1) && s[i].1.len()
            < 0x8000_0000
}

proof fn lemma_json_section_pairs_fail_after(s: Seq<u8>, i: nat, n: nat)
    requires
        i < n,
        parse_json_section_pairs(s, i) is Some,
        parse_json_section_pairs(s, (i + 1) as nat) is None,
    ensures
        parse_json_section_pairs(s, n) is None,
    decreases n - i,
{
    if n > i + 1 {
        lemma_json_section_pairs_fail_after(s, i, (n - 1) as nat);
    }
}

proof fn lemma_json_section_pairs_roundtrip(p: Seq<(Seq<char>, Seq<u8>)>, rest: Seq<u8>)
    requires
        json_sections_fit(p),
    ensures
        parse_json_section_pairs(enc_json_section_pairs(p) + rest, p.len()) == Some(
            (p, enc_json_section_pairs(p).len() as int),
        ),
    decreases p.len(),
{
    if p.len() > 0 {
        let init = p.drop_last();
        let last = p.last();
        assert(string_fits(p[p.len() - 1].0));
        assert(json_sections_fit(init)) by {
            assert forall|i: int| 0 <= i < init.len() implies string_fits(#[trigger] init[i].0) && is_json_document(
                init[i].1,
            ) && init[i].1.len() < 0x8000_0000 by {
                assert(init[i] == p[i]);
            }
        }
        let e = enc_string(last.0) + enc_json_bytes(last.1);
        let r2 = e + rest;
        lemma_append_assoc(enc_json_section_pairs(init), e, rest);
        lemma_json_section_pairs_roundtrip(init, r2);
        let k = enc_json_section_pairs(init).len() as int;
        let all = enc_json_section_pairs(p) + rest;
        lemma_skip_append(enc_json_section_pairs(init), r2);
        lemma_append_assoc(enc_string(last.0), enc_json_bytes(last.1), rest);
        lemma_string_roundtrip(last.0, enc_json_bytes(last.1) + rest);
        let m1 = enc_string(last.0).len() as int;
        assert(all.skip(k + m1) =~= enc_json_bytes(last.1) + rest);
        lemma_json_bytes_roundtrip(last.1, rest);
        assert(init.push(last) =~= p);
    } else {
        assert(enc_json_section_pairs(p) + rest =~= rest);
        assert(p =~= Seq::<(Seq<char>, Seq<u8>)>::empty());
    }
}

/// A written JSON section map reads back as the same sections.
pub proof fn lemma_json_section_map_roundtrip(m: Seq<(Seq<char>, Seq<u8>)>, rest: Seq<u8>)
    requires
        sorted_keys(m),
        json_sections_fit(m),
        m.len() < 0x8000_0000,
    ensures
        parse_json_section_map(enc_json_section_map(m) + rest) == Some((m, enc_json_section_map(m).len() as int)),
{
    reveal(parse_json_section_map);
    reveal(enc_json_section_map);
    let c = enc_vint(m.len() as i32);
    lemma_append_assoc(c, enc_json_section_pairs(m), rest);
    lemma_vint_roundtrip(m.len() as i32, enc_json_section_pairs(m) + rest);
    lemma_skip_append(c, enc_json_section_pairs(m) + rest);
    lemma_json_section_pairs_roundtrip(m, rest);
    lemma_map_of_sorted_pairs(m);
}

/// Writes a map of named JSON sections in name order.
pub fn write_json_section_map(output: &mut StreamOutput, m: &StringMap<Vec<u8>>)
    ensures
        final(output)@ == old(output)@ + enc_json_section_map(m@),
{
    reveal(enc_json_section_map);
    output.write_vint(m.len() as i32);
    let ghost mid = output@;
    let mut i: usize = 0;
    while i < m.len()
        invariant
            i <= m@.len(),
            output@ == mid + enc_json_section_pairs(m@.take(i as int)),
        decreases m@.len() - i,
    {
        let (k, v) = m.entry(i);
        output.write_string(k.as_str());
        write_json_bytes(output, v.as_slice());
        proof {
            let t = m@.take(i + 1);
            assert(t.drop_last() =~= m@.take(i as int));
            assert(t.last() == m@[i as int]);
        }
        assert(output@ =~= mid + enc_json_section_pairs(m@.take(i + 1)));
        i = i + 1;
    }
    assert(m@.take(i as int) =~= m@);
    assert(output@ =~= old(output)@ + enc_json_section_map(m@));
}

/// Reads a map of named JSON sections, inserting them in wire order.
pub fn read_json_section_map(input: &mut StreamInput) -> (r: Result<StringMap<Vec<u8>>, TransportActionWireError>)
    ensures
        final(input).data() == old(input).data(),
        old(input).pos() <= final(input).pos() <= final(input).data().len(),
        match parse_json_section_map(old(input).rest()) {
            Some((v, n)) => r matches Ok(out) && out@ == v && final(input).pos() == old(input).pos() + n,
            None => r is Err,
        },
{
    reveal(parse_json_section_map);
    let ghost s0 = old(input).rest();
    let n = lift(input.read_len())?;
    let ghost k0 = input.pos() - old(input).pos();
    let ghost s = s0.skip(k0);
    assert(input.rest() =~= s);
    let ghost p0 = input.pos();
    let mut out: StringMap<Vec<u8>> = StringMap::new();
    let ghost mut pairs: Seq<(Seq<char>, Seq<u8>)> = seq![];
    let mut i: usize = 0;
    while i < n
        invariant
            i <= n,
            input.data() == old(input).data(),
            old(input).pos() <= p0 <= input.pos() <= input.data().len(),
            s == input.data().skip(p0 as int),
            s0 == old(input).rest(),
            parse_len(s0) == Some((n as nat, k0)),
            s == s0.skip(k0),
            p0 == old(input).pos() + k0,
            parse_json_section_pairs(s, i as nat) == Some((pairs, input.pos() - p0)),
            out@ == map_of_pairs(pairs),
        decreases n - i,
    {
        reveal(parse_json_section_map);
        assert(input.rest() =~= s.skip(input.pos() - p0));
        let key = match input.read_string() {
            Ok(t) => t,
            Err(e) => {
                proof {
                    lemma_json_section_pairs_fail_after(s, i as nat, n as nat);
                }
                return Err(TransportActionWireError::Stream(e));
            },
        };
        assert(input.rest() =~= s.skip(input.pos() - p0));
        let val = match read_json_bytes(input) {
            Ok(b) => b,
            Err(e) => {
                proof {
                    lemma_json_section_pairs_fail_after(s, i as nat, n as nat);
                }
                return Err(e);
            },
        };
        proof {
            let prev = pairs;
            pairs = pairs.push((key@, val@));
            assert(pairs.drop_last() =~= prev);
        }
        out.insert(key, val);
        i = i + 1;
    }
    Ok(out)
}

/// The answer to a cluster state request. Each section holds its JSON text.
#[derive(Debug, PartialEq, Eq)]
pub struct ClusterStateResponseWire {
    pub cluster_name: String,
    pub cluster_uuid: String,
    pub state_uuid: String,
    pub version: i64,
    pub sections: StringMap<Vec<u8>>,
}

/// The fields of a cluster state answer, as its bytes carry them.
pub struct ClusterStateResponseView {
    pub cluster_name: Seq<char>,
    pub cluster_uuid: Seq<char>,
    pub state_uuid: Seq<char>,
    pub version: i64,
    pub sections: Seq<(Seq<char>, Seq<u8>)>,
}

impl View for ClusterStateResponseWire {
    type V = ClusterStateResponseView;

    open spec fn view(&self) -> ClusterStateResponseView {
        ClusterStateResponseView {
            cluster_name: self.cluster_name@,
            cluster_uuid: self.cluster_uuid@,
            state_uuid: self.state_uuid@,
            version: self.version,
            sections: self.sections@,
        }
    }
}

/// The bytes of a cluster state answer.
pub open spec fn enc_cluster_state_response(v: ClusterStateResponseView) -> Seq<u8> {
    enc_string(v.cluster_name) + (enc_string(v.cluster_uuid) + (enc_string(v.state_uuid) + (enc_i64(v.version)
        + enc_json_section_map(v.sections))))
}

/// What a reader makes of the bytes of a cluster state answer.
#[verifier::opaque]
pub open spec fn parse_cluster_state_response(s: Seq<u8>) -> Option<(ClusterStateResponseView, int)> {
    match parse_string(s) {
        None => None,
        Some((cluster_name, k1)) => match parse_string(s.skip(k1)) {
            None => None,
            Some((cluster_uuid, k2)) => match parse_string(s.skip(k1 + k2)) {
                None => None,
                Some((state_uuid, k3)) => match parse_i64(s.skip(k1 + k2 + k3)) {
                    None => None,
                    Some((version, k4)) => match parse_json_section_map(s.skip(k1 + k2 + k3 + k4)) {
                        None => None,
                        Some((sections, k5)) => Some(
                            (
                                ClusterStateResponseView { cluster_name, cluster_uuid, state_uuid, version, sections },
                                k1 + k2 + k3 + k4 + k5,
                            ),
                        ),
                    },
                },
            },
        },
    }
}

/// True when a cluster state answer reads back as written.
pub open spec fn cluster_state_response_fits(v: ClusterStateResponseView) -> bool {
    &&& string_fits(v.cluster_name)
    &&& string_fits(v.cluster_uuid)
    &&& string_fits(v.state_uuid)
    &&& sorted_keys(v.sections)
    &&& json_sections_fit(v.sections)
    &&& v.sections.len() < 0x8000_0000
}

/// What reading a cluster state answer from the whole of `bytes` gives.
pub open spec fn cluster_state_response_read_result(
    bytes: Seq<u8>,
    r: Result<ClusterStateResponseWire, TransportActionWireError>,
) -> bool {
    match parse_cluster_state_response(bytes) {
        Some((v, n)) => if n < bytes.len() {
            r == Err::<ClusterStateResponseWire, TransportActionWireError>(
                TransportActionWireError::TrailingBytes((bytes.len() - n) as usize),
            )
        } else {
            r matches Ok(x) && x@ == v
        },
        None => r is Err,
    }
}

/// A cluster state answer reads back as written, whatever follows it.
#[verifier::spinoff_prover]
pub proof fn lemma_cluster_state_response_roundtrip(v: ClusterStateResponseView, rest: Seq<u8>)
    requires
        cluster_state_response_fits(v),
    ensures
        parse_cluster_state_response(enc_cluster_state_response(v) + rest) == Some(
            (v, enc_cluster_state_response(v).len() as int),
        ),
{
    reveal(parse_cluster_state_response);
    let e0 = enc_string(v.cluster_name);
    let e1 = enc_string(v.cluster_uuid);
    let e2 = enc_string(v.state_uuid);
    let e3 = enc_i64(v.version);
    let e4 = enc_json_section_map(v.sections);
    let t4 = e4 + rest;
    let t3 = e3 + t4;
    let t2 = e2 + t3;
    let t1 = e1 + t2;
    let s = enc_cluster_state_response(v) + rest;
    lemma_append_assoc(e3, e4, rest);
    lemma_append_assoc(e2, e3 + e4, rest);
    lemma_append_assoc(e1, e2 + (e3 + e4), rest);
    lemma_append_assoc(e0, e1 + (e2 + (e3 + e4)), rest);
    assert(s == e0 + t1);
    lemma_string_roundtrip(v.cluster_name, t1);
    lemma_skip_append(e0, t1);
    assert(s.skip(e0.len() as int) == t1);
    lemma_string_roundtrip(v.cluster_uuid, t2);
    lemma_skip_append(e1, t2);
    assert(s.skip((e0.len() + e1.len()) as int) =~= t2);
    lemma_string_roundtrip(v.state_uuid, t3);
    assert(s.skip((e0.len() + e1.len() + e2.len()) as int) =~= t3);
    lemma_i64_roundtrip(v.version, t4);
    assert(s.skip((e0.len() + e1.len() + e2.len() + e3.len()) as int) =~= t4);
    lemma_json_section_map_roundtrip(v.sections, rest);
}

/// Reading the whole of a written cluster state answer gives back the
/// fields written.
pub proof fn lemma_cluster_state_response_read_back(
    v: ClusterStateResponseView,
    r: Result<ClusterStateResponseWire, TransportActionWireError>,
)
    requires
        cluster_state_response_fits(v),
        cluster_state_response_read_result(enc_cluster_state_response(v), r),
    ensures
        r matches Ok(x) && x@ == v,
{
    lemma_cluster_state_response_roundtrip(v, Seq::empty());
    assert(enc_cluster_state_response(v) + Seq::<u8>::empty() =~= enc_cluster_state_response(v));
}

impl ClusterStateResponseWire {
    /// Writes a cluster state answer; every section is written as the JSON
    /// text it holds, so writing always succeeds.
    pub fn write(&self, output: &mut StreamOutput) -> (r: Result<(), TransportActionWireError>)
        ensures
            r is Ok,
            final(output)@ == old(output)@ + enc_cluster_state_response(self@),
    {
        output.write_string(self.cluster_name.as_str());
        output.write_string(self.cluster_uuid.as_str());
        output.write_string(self.state_uuid.as_str());
        output.write_i64(self.version);
        write_json_section_map(output, &self.sections);
        assert(output@ =~= old(output)@ + enc_cluster_state_response(self@));
        Ok(())
    }

    /// Reads a cluster state answer from the whole of `bytes`; each section
    /// must be one JSON document.
    pub fn read(bytes: Vec<u8>) -> (r: Result<Self, TransportActionWireError>)
        ensures
            cluster_state_response_read_result(bytes@, r),
    {
        reveal(parse_cluster_state_response);
        let mut input = StreamInput::new(bytes);
        let ghost s = input.rest();
        let cluster_name = lift(input.read_string())?;
        assert(input.rest() =~= s.skip(input.pos() as int));
        let cluster_uuid = lift(input.read_string())?;
        assert(input.rest() =~= s.skip(input.pos() as int));
        let state_uuid = lift(input.read_string())?;
        assert(input.rest() =~= s.skip(input.pos() as int));
        let version = lift(input.read_i64())?;
        assert(input.rest() =~= s.skip(input.pos() as int));
        let sections = read_json_section_map(&mut input)?;
        require_no_trailing_bytes(&input)?;
        Ok(ClusterStateResponseWire { cluster_name, cluster_uuid, state_uuid, version, sections })
    }
}

/// The wire order of a cluster state response: its fields go on the wire one after the
/// other in the order listed here, and a reader given them in that order
/// reads each back into its own field, whatever follows them.
pub proof fn lemma_cluster_state_response_wire_order(v: ClusterStateResponseView, rest: Seq<u8>)
    requires
        cluster_state_response_fits(v),
    ensures
        enc_cluster_state_response(v) == (enc_string(v.cluster_name) + (enc_string(v.cluster_uuid) + (enc_string(v.state_uuid) + (enc_i64(v.version) + enc_json_section_map(v.sections))))),
        parse_cluster_state_response((enc_string(v.cluster_name) + (enc_string(v.cluster_uuid) + (enc_string(v.state_uuid) + (enc_i64(v.version) + enc_json_section_map(v.sections))))) + rest) == Some(
            (v, (enc_string(v.cluster_name) + (enc_string(v.cluster_uuid) + (enc_string(v.state_uuid) + (enc_i64(v.version) + enc_json_section_map(v.sections))))).len() as int),
        ),
{
    assert(enc_cluster_state_response(v) =~= (enc_string(v.cluster_name) + (enc_string(v.cluster_uuid) + (enc_string(v.state_uuid) + (enc_i64(v.version) + enc_json_section_map(v.sections))))));
    lemma_cluster_state_response_roundtrip(v, rest);
}

} // verus!
