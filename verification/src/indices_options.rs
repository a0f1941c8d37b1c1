//! Index resolution options: which indices a request may name or expand to,
//! carried on the wire as two enum sets.
use vstd::prelude::*;
use crate::action_wire::{
    contains_u8, enc_enum_set, lemma_enum_set_roundtrip, no_repeats, ordinals_below, parse_enum_set,
    read_enum_set, write_enum_set, EnumItems, TransportActionWireError,
};
use crate::stream::{StreamInput, StreamOutput};

verus! {

/// The option flags and wildcard states of an indices request.
#[derive(Clone, Copy, Debug, PartialEq, Eq, Structural)]
pub struct OpenSearchIndicesOptionsWire {
    pub ignore_unavailable: bool,
    pub ignore_aliases: bool,
    pub allow_no_indices: bool,
    pub forbid_aliases_to_multiple_indices: bool,
    pub forbid_closed_indices: bool,
    pub ignore_throttled: bool,
    pub expand_open: bool,
    pub expand_closed: bool,
    pub expand_hidden: bool,
}

/// Options whose flags are all clear but `allow_no_indices` and
/// `expand_open`, with the given `ignore_unavailable`,
/// `forbid_closed_indices`, `expand_closed` and `expand_hidden`.
pub open spec fn options_with(
    ignore_unavailable: bool,
    forbid_closed_indices: bool,
    expand_closed: bool,
    expand_hidden: bool,
) -> OpenSearchIndicesOptionsWire {
    OpenSearchIndicesOptionsWire {
        ignore_unavailable,
        ignore_aliases: false,
        allow_no_indices: true,
        forbid_aliases_to_multiple_indices: false,
        forbid_closed_indices,
        ignore_throttled: false,
        expand_open: true,
        expand_closed,
        expand_hidden,
    }
}

pub open spec fn strict_expand_open_forbid_closed_spec() -> OpenSearchIndicesOptionsWire {
    options_with(false, true, false, false)
}

pub open spec fn strict_expand_open_spec() -> OpenSearchIndicesOptionsWire {
    options_with(false, false, false, false)
}

pub open spec fn strict_expand_hidden_spec() -> OpenSearchIndicesOptionsWire {
    options_with(false, false, false, true)
}

pub open spec fn expand_open_closed_allow_no_indices_spec() -> OpenSearchIndicesOptionsWire {
    options_with(false, false, true, false)
}

pub open spec fn lenient_expand_open_spec() -> OpenSearchIndicesOptionsWire {
    options_with(true, false, false, false)
}

/// `v`, then `k` if `flag` is set.
pub open spec fn push_if(v: Seq<u8>, flag: bool, k: u8) -> Seq<u8> {
    if flag {
        v.push(k)
    } else {
        v
    }
}

/// The ordinals of the set option flags, in ordinal order.
pub open spec fn option_ordinals_spec(o: OpenSearchIndicesOptionsWire) -> Seq<u8> {
    push_if(
        push_if(
            push_if(
                push_if(push_if(push_if(Seq::<u8>::empty(), o.ignore_unavailable, 0), o.ignore_aliases, 1), o.allow_no_indices, 2),
                o.forbid_aliases_to_multiple_indices,
                3,
            ),
            o.forbid_closed_indices,
            4,
        ),
        o.ignore_throttled,
        5,
    )
}

/// The ordinals of the set wildcard states, in ordinal order.
pub open spec fn wildcard_state_ordinals_spec(o: OpenSearchIndicesOptionsWire) -> Seq<u8> {
    push_if(push_if(push_if(Seq::<u8>::empty(), o.expand_open, 0), o.expand_closed, 1), o.expand_hidden, 2)
}

/// The options whose option ordinals are `options` and whose wildcard state
/// ordinals are `states`.
pub open spec fn options_from_ordinals(options: Seq<u8>, states: Seq<u8>) -> OpenSearchIndicesOptionsWire {
    OpenSearchIndicesOptionsWire {
        ignore_unavailable: options.contains(0),
        ignore_aliases: options.contains(1),
        allow_no_indices: options.contains(2),
        forbid_aliases_to_multiple_indices: options.contains(3),
        forbid_closed_indices: options.contains(4),
        ignore_throttled: options.contains(5),
        expand_open: states.contains(0),
        expand_closed: states.contains(1),
        expand_hidden: states.contains(2),
    }
}

/// Indices options on the wire: the option set, then the wildcard state set.
#[verifier::opaque]
pub open spec fn enc_indices_options(o: OpenSearchIndicesOptionsWire) -> Seq<u8> {
    enc_enum_set(option_ordinals_spec(o)) + enc_enum_set(wildcard_state_ordinals_spec(o))
}

#[verifier::opaque]
pub open spec fn parse_indices_options(s: Seq<u8>) -> Option<(OpenSearchIndicesOptionsWire, int)> {
    match parse_enum_set(s, 6) {
        EnumItems::Read(options, k) => match parse_enum_set(s.skip(k), 3) {
            EnumItems::Read(states, m) => Some((options_from_ordinals(options, states), k + m)),
            _ => None,
        },
        _ => None,
    }
}

impl OpenSearchIndicesOptionsWire {
    /// Strict resolution of open indices, closed indices forbidden.
    pub fn strict_expand_open_forbid_closed() -> (o: Self)
        ensures
            o == strict_expand_open_forbid_closed_spec(),
    {
        Self::with(false, true, false, false)
    }

    /// Strict resolution of open indices.
    pub fn strict_expand_open() -> (o: Self)
        ensures
            o == strict_expand_open_spec(),
    {
        Self::with(false, false, false, false)
    }

    /// Strict resolution of open and hidden indices.
    pub fn strict_expand_hidden() -> (o: Self)
        ensures
            o == strict_expand_hidden_spec(),
    {
        Self::with(false, false, false, true)
    }

    /// Resolution of open and closed indices, allowing none to match.
    pub fn expand_open_closed_allow_no_indices() -> (o: Self)
        ensures
            o == expand_open_closed_allow_no_indices_spec(),
    {
        Self::with(false, false, true, false)
    }

    /// Lenient resolution of open indices: unavailable ones are ignored.
    pub fn lenient_expand_open() -> (o: Self)
        ensures
            o == lenient_expand_open_spec(),
    {
        Self::with(true, false, false, false)
    }

    fn with(ignore_unavailable: bool, forbid_closed_indices: bool, expand_closed: bool, expand_hidden: bool) -> (o: Self)
        ensures
            o == options_with(ignore_unavailable, forbid_closed_indices, expand_closed, expand_hidden),
    {
        OpenSearchIndicesOptionsWire {
            ignore_unavailable,
            ignore_aliases: false,
            allow_no_indices: true,
            forbid_aliases_to_multiple_indices: false,
            forbid_closed_indices,
            ignore_throttled: false,
            expand_open: true,
            expand_closed,
            expand_hidden,
        }
    }

    /// The ordinals of the set option flags.
    pub fn option_ordinals(&self) -> (v: Vec<u8>)
        ensures
            v@ == option_ordinals_spec(*self),
    {
        let mut values: Vec<u8> = Vec::new();
        if self.ignore_unavailable {
            values.push(0);
        }
        if self.ignore_aliases {
            values.push(1);
        }
        if self.allow_no_indices {
            values.push(2);
        }
        if self.forbid_aliases_to_multiple_indices {
            values.push(3);
        }
        if self.forbid_closed_indices {
            values.push(4);
        }
        if self.ignore_throttled {
            values.push(5);
        }
        values
    }

    /// The ordinals of the set wildcard states.
    pub fn wildcard_state_ordinals(&self) -> (v: Vec<u8>)
        ensures
            v@ == wildcard_state_ordinals_spec(*self),
    {
        let mut values: Vec<u8> = Vec::new();
        if self.expand_open {
            values.push(0);
        }
        if self.expand_closed {
            values.push(1);
        }
        if self.expand_hidden {
            values.push(2);
        }
        values
    }

    pub fn write(&self, output: &mut StreamOutput)
        ensures
            final(output)@ == old(output)@ + enc_indices_options(*self),
    {
        reveal(enc_indices_options);
        write_enum_set(output, self.option_ordinals().as_slice());
        write_enum_set(output, self.wildcard_state_ordinals().as_slice());
        assert(output@ =~= old(output)@ + enc_indices_options(*self));
    }

    pub fn read(input: &mut StreamInput) -> (r: Result<Self, TransportActionWireError>)
        ensures
            final(input).data() == old(input).data(),
            old(input).pos() <= final(input).pos() <= final(input).data().len(),
            match parse_indices_options(old(input).rest()) {
                Some((o, n)) => r == Ok::<Self, TransportActionWireError>(o) && final(input).pos() == old(input).pos() + n,
                None => r is Err,
            },
    {
        reveal(parse_indices_options);
        let ghost s = old(input).rest();
        let options = read_enum_set(input, 6, "indices options")?;
        assert(input.rest() =~= s.skip(input.pos() - old(input).pos()));
        let states = read_enum_set(input, 3, "indices wildcard states")?;
        Ok(OpenSearchIndicesOptionsWire {
            ignore_unavailable: contains_u8(&options, 0),
            ignore_aliases: contains_u8(&options, 1),
            allow_no_indices: contains_u8(&options, 2),
            forbid_aliases_to_multiple_indices: contains_u8(&options, 3),
            forbid_closed_indices: contains_u8(&options, 4),
            ignore_throttled: contains_u8(&options, 5),
            expand_open: contains_u8(&states, 0),
            expand_closed: contains_u8(&states, 1),
            expand_hidden: contains_u8(&states, 2),
        })
    }
}

/// Each member of `v` is below the next, and all are below `k`.
pub open spec fn increasing_below(v: Seq<u8>, k: int) -> bool {
    &&& forall|i: int, j: int| 0 <= i < j < v.len() ==> #[trigger] v[i] < #[trigger] v[j]
    &&& forall|i: int| 0 <= i < v.len() ==> #[trigger] v[i] < k
}

proof fn lemma_push_if_step(v: Seq<u8>, flag: bool, k: u8)
    requires
        increasing_below(v, k as int),
    ensures
        increasing_below(push_if(v, flag, k), k + 1),
        forall|x: u8| #[trigger] push_if(v, flag, k).contains(x) <==> v.contains(x) || (flag && x == k),
{
    assert forall|x: u8| #[trigger] push_if(v, flag, k).contains(x) <==> v.contains(x) || (flag && x == k) by {
        if flag {
            let w = v.push(k);
            if w.contains(x) {
                let i = choose|i: int| 0 <= i < w.len() && w[i] == x;
                if i < v.len() {
                    assert(v[i] == x);
                }
            }
            if v.contains(x) {
                let i = choose|i: int| 0 <= i < v.len() && v[i] == x;
                assert(w[i] == x);
            }
            if x == k {
                assert(w[v.len() as int] == k);
            }
        }
    }
}

proof fn lemma_option_ordinals(o: OpenSearchIndicesOptionsWire)
    ensures
        ordinals_below(option_ordinals_spec(o), 6),
        no_repeats(option_ordinals_spec(o)),
        forall|x: u8| #[trigger] option_ordinals_spec(o).contains(x) <==> (x == 0 && o.ignore_unavailable) || (x == 1
            && o.ignore_aliases) || (x == 2 && o.allow_no_indices) || (x == 3 && o.forbid_aliases_to_multiple_indices) || (
        x == 4 && o.forbid_closed_indices) || (x == 5 && o.ignore_throttled),
{
    reveal(ordinals_below);
    reveal(no_repeats);
    let e = Seq::<u8>::empty();
    let a0 = push_if(e, o.ignore_unavailable, 0);
    let a1 = push_if(a0, o.ignore_aliases, 1);
    let a2 = push_if(a1, o.allow_no_indices, 2);
    let a3 = push_if(a2, o.forbid_aliases_to_multiple_indices, 3);
    let a4 = push_if(a3, o.forbid_closed_indices, 4);
    let a5 = push_if(a4, o.ignore_throttled, 5);
    lemma_push_if_step(e, o.ignore_unavailable, 0);
    lemma_push_if_step(a0, o.ignore_aliases, 1);
    lemma_push_if_step(a1, o.allow_no_indices, 2);
    lemma_push_if_step(a2, o.forbid_aliases_to_multiple_indices, 3);
    lemma_push_if_step(a3, o.forbid_closed_indices, 4);
    lemma_push_if_step(a4, o.ignore_throttled, 5);
    assert(a5 == option_ordinals_spec(o));
    assert forall|i: int, j: int| 0 <= i < j < a5.len() implies #[trigger] a5[i] != #[trigger] a5[j] by {
        assert(a5[i] < a5[j]);
    }
}

proof fn lemma_wildcard_state_ordinals(o: OpenSearchIndicesOptionsWire)
    ensures
        ordinals_below(wildcard_state_ordinals_spec(o), 3),
        no_repeats(wildcard_state_ordinals_spec(o)),
        forall|x: u8| #[trigger] wildcard_state_ordinals_spec(o).contains(x) <==> (x == 0 && o.expand_open) || (x == 1
            && o.expand_closed) || (x == 2 && o.expand_hidden),
{
    reveal(ordinals_below);
    reveal(no_repeats);
    let e = Seq::<u8>::empty();
    let b0 = push_if(e, o.expand_open, 0);
    let b1 = push_if(b0, o.expand_closed, 1);
    let b2 = push_if(b1, o.expand_hidden, 2);
    lemma_push_if_step(e, o.expand_open, 0);
    lemma_push_if_step(b0, o.expand_closed, 1);
    lemma_push_if_step(b1, o.expand_hidden, 2);
    assert(b2 == wildcard_state_ordinals_spec(o));
    assert forall|i: int, j: int| 0 <= i < j < b2.len() implies #[trigger] b2[i] != #[trigger] b2[j] by {
        assert(b2[i] < b2[j]);
    }
}

/// Reading back written indices options gives the same options.
#[verifier::spinoff_prover]
#[verifier::rlimit(60)]
pub proof fn lemma_indices_options_roundtrip(o: OpenSearchIndicesOptionsWire, rest: Seq<u8>)
    ensures
        parse_indices_options(enc_indices_options(o) + rest) == Some((o, enc_indices_options(o).len() as int)),
{
    reveal(enc_indices_options);
    reveal(parse_indices_options);
    let a = option_ordinals_spec(o);
    let b = wildcard_state_ordinals_spec(o);
    lemma_option_ordinals(o);
    lemma_wildcard_state_ordinals(o);
    let s = enc_indices_options(o) + rest;
    assert(s =~= enc_enum_set(a) + (enc_enum_set(b) + rest));
    lemma_enum_set_roundtrip(a, enc_enum_set(b) + rest, 6);
    let k = enc_enum_set(a).len() as int;
    assert(s.skip(k) =~= enc_enum_set(b) + rest);
    lemma_enum_set_roundtrip(b, rest, 3);
    assert(a.contains(0) == o.ignore_unavailable);
    assert(a.contains(1) == o.ignore_aliases);
    assert(a.contains(2) == o.allow_no_indices);
    assert(a.contains(3) == o.forbid_aliases_to_multiple_indices);
    assert(a.contains(4) == o.forbid_closed_indices);
    assert(a.contains(5) == o.ignore_throttled);
    assert(b.contains(0) == o.expand_open);
    assert(b.contains(1) == o.expand_closed);
    assert(b.contains(2) == o.expand_hidden);
}

} // verus!
