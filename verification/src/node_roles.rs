//! The roles a discovery node announces, kept as a set in ascending order
//! with no role twice.
use vstd::prelude::*;
use crate::smap::{compare_str, key_lt, lemma_key_order};

verus! {

/// A role a node takes in the cluster.
#[derive(Clone, Debug, PartialEq, Eq)]
pub struct DiscoveryNodeRole {
    pub name: String,
    pub abbreviation: String,
    pub can_contain_data: bool,
}

/// The plain values of a role: name, abbreviation, whether it holds data.
pub type RoleView = (Seq<char>, Seq<char>, bool);

impl View for DiscoveryNodeRole {
    type V = RoleView;

    open spec fn view(&self) -> RoleView {
        (self.name@, self.abbreviation@, self.can_contain_data)
    }
}

/// The order of roles: by name, then by abbreviation, then a role that holds
/// no data before one that does.
pub open spec fn role_lt(a: RoleView, b: RoleView) -> bool {
    ||| key_lt(a.0, b.0)
    ||| a.0 == b.0 && key_lt(a.1, b.1)
    ||| a.0 == b.0 && a.1 == b.1 && !a.2 && b.2
}

/// The role order is a strict total order.
pub proof fn lemma_role_order(a: RoleView, b: RoleView, c: RoleView)
    ensures
        !role_lt(a, a),
        a == b || role_lt(a, b) || role_lt(b, a),
        !(role_lt(a, b) && role_lt(b, a)),
        role_lt(a, b) && role_lt(b, c) ==> role_lt(a, c),
{
    lemma_key_order(a.0, b.0, c.0);
    lemma_key_order(a.1, b.1, c.1);
    lemma_key_order(b.0, c.0, a.0);
    lemma_key_order(b.1, c.1, a.1);
}

/// Roles in strictly ascending order.
pub open spec fn sorted_roles(s: Seq<RoleView>) -> bool {
    forall|i: int, j: int| 0 <= i < j < s.len() ==> role_lt(#[trigger] s[i], #[trigger] s[j])
}

/// The roles after inserting `r`: unchanged when present, else `r` where its
/// order puts it.
pub open spec fn role_insert(s: Seq<RoleView>, r: RoleView) -> Seq<RoleView>
    decreases s.len(),
{
    if s.len() == 0 {
        seq![r]
    } else if s[0] == r {
        s
    } else if role_lt(r, s[0]) {
        seq![r] + s
    } else {
        seq![s[0]] + role_insert(s.drop_first(), r)
    }
}

/// The set built by inserting `items` in order into an empty set.
pub open spec fn role_set_of(items: Seq<RoleView>) -> Seq<RoleView>
    decreases items.len(),
{
    if items.len() == 0 {
        seq![]
    } else {
        role_insert(role_set_of(items.drop_last()), items.last())
    }
}

/// Every role after an insertion was there before or is the inserted one.
proof fn lemma_role_insert_lower_bound(s: Seq<RoleView>, r: RoleView, lo: RoleView)
    requires
        role_lt(lo, r),
        forall|i: int| 0 <= i < s.len() ==> role_lt(lo, #[trigger] s[i]),
    ensures
        forall|j: int| 0 <= j < role_insert(s, r).len() ==> role_lt(lo, #[trigger] role_insert(s, r)[j]),
    decreases s.len(),
{
    if s.len() > 0 && s[0] != r && !role_lt(r, s[0]) {
        let t = s.drop_first();
        assert forall|i: int| 0 <= i < t.len() implies role_lt(lo, #[trigger] t[i]) by {
            assert(t[i] == s[i + 1]);
        }
        lemma_role_insert_lower_bound(t, r, lo);
        let x = role_insert(s, r);
        assert forall|j: int| 0 <= j < x.len() implies role_lt(lo, #[trigger] x[j]) by {
            if j > 0 {
                assert(x[j] == role_insert(t, r)[j - 1]);
            }
        }
    }
}

/// Insertion keeps the roles in strictly ascending order.
pub proof fn lemma_role_insert_sorted(s: Seq<RoleView>, r: RoleView)
    requires
        sorted_roles(s),
    ensures
        sorted_roles(role_insert(s, r)),
    decreases s.len(),
{
    let x = role_insert(s, r);
    if s.len() == 0 {
    } else if s[0] == r {
    } else if role_lt(r, s[0]) {
        assert forall|i: int, j: int| 0 <= i < j < x.len() implies role_lt(#[trigger] x[i], #[trigger] x[j]) by {
            if i == 0 {
                if j > 1 {
                    lemma_role_order(r, s[0], s[j - 1]);
                }
            } else {
                assert(x[i] == s[i - 1] && x[j] == s[j - 1]);
            }
        }
    } else {
        let t = s.drop_first();
        assert(sorted_roles(t)) by {
            assert forall|i: int, j: int| 0 <= i < j < t.len() implies role_lt(#[trigger] t[i], #[trigger] t[j]) by {
                assert(t[i] == s[i + 1] && t[j] == s[j + 1]);
            }
        }
        lemma_role_insert_sorted(t, r);
        lemma_role_order(s[0], r, r);
        assert forall|i: int| 0 <= i < t.len() implies role_lt(s[0], #[trigger] t[i]) by {
            assert(t[i] == s[i + 1]);
        }
        lemma_role_insert_lower_bound(t, r, s[0]);
        let ti = role_insert(t, r);
        assert forall|i: int, j: int| 0 <= i < j < x.len() implies role_lt(#[trigger] x[i], #[trigger] x[j]) by {
            if i == 0 {
                assert(x[j] == ti[j - 1]);
            } else {
                assert(x[i] == ti[i - 1] && x[j] == ti[j - 1]);
            }
        }
    }
}

/// Insertion past a prefix of smaller roles leaves that prefix in place.
proof fn lemma_role_insert_skip_prefix(s: Seq<RoleView>, r: RoleView, i: int)
    requires
        0 <= i <= s.len(),
        forall|j: int| 0 <= j < i ==> role_lt(#[trigger] s[j], r),
    ensures
        role_insert(s, r) == s.take(i) + role_insert(s.skip(i), r),
    decreases i,
{
    if i > 0 {
        lemma_role_order(s[0], r, r);
        let t = s.drop_first();
        assert forall|j: int| 0 <= j < i - 1 implies role_lt(#[trigger] t[j], r) by {
            assert(t[j] == s[j + 1]);
        }
        lemma_role_insert_skip_prefix(t, r, i - 1);
        assert(t.skip(i - 1) =~= s.skip(i));
        assert(seq![s[0]] + (t.take(i - 1) + role_insert(s.skip(i), r)) =~= s.take(i) + role_insert(s.skip(i), r));
    } else {
        assert(s.skip(0) =~= s);
        assert(s.take(0) + role_insert(s, r) =~= role_insert(s, r));
    }
}

/// Negative, zero or positive as `a` sorts before, equal to, or after `b`.
pub fn compare_roles(a: &DiscoveryNodeRole, b: &DiscoveryNodeRole) -> (c: i8)
    ensures
        c < 0 <==> role_lt(a@, b@),
        c == 0 <==> a@ == b@,
        c > 0 <==> role_lt(b@, a@),
{
    proof {
        lemma_role_order(a@, b@, b@);
        lemma_key_order(a@.0, b@.0, b@.0);
        lemma_key_order(a@.1, b@.1, b@.1);
    }
    let by_name = compare_str(a.name.as_str(), b.name.as_str());
    if by_name != 0 {
        return by_name;
    }
    let by_abbreviation = compare_str(a.abbreviation.as_str(), b.abbreviation.as_str());
    if by_abbreviation != 0 {
        return by_abbreviation;
    }
    if a.can_contain_data == b.can_contain_data {
        0
    } else if b.can_contain_data {
        -1
    } else {
        1
    }
}

/// The plain values of each role.
pub open spec fn roles_view(v: Seq<DiscoveryNodeRole>) -> Seq<RoleView> {
    v.map_values(|r: DiscoveryNodeRole| r@)
}

/// A set of roles, iterated in ascending order.
#[derive(Debug, PartialEq, Eq)]
pub struct DiscoveryNodeRoles {
    items: Vec<DiscoveryNodeRole>,
}

impl View for DiscoveryNodeRoles {
    type V = Seq<RoleView>;

    closed spec fn view(&self) -> Seq<RoleView> {
        roles_view(self.items@)
    }
}

impl DiscoveryNodeRoles {
    #[verifier::type_invariant]
    closed spec fn roles_ascending(self) -> bool {
        sorted_roles(roles_view(self.items@))
    }

    /// No roles.
    pub fn new() -> (s: Self)
        ensures
            s@ == Seq::<RoleView>::empty(),
    {
        let s = DiscoveryNodeRoles { items: Vec::new() };
        assert(s@ =~= Seq::<RoleView>::empty());
        s
    }

    pub fn len(&self) -> (n: usize)
        ensures
            n == self@.len(),
    {
        self.items.len()
    }

    /// The roles in ascending order.
    pub fn items(&self) -> (v: &Vec<DiscoveryNodeRole>)
        ensures
            roles_view(v@) == self@,
    {
        &self.items
    }

    /// The roles are in strictly ascending order, so none occurs twice.
    pub fn lemma_sorted(&self)
        ensures
            sorted_roles(self@),
    {
        proof {
            use_type_invariant(self);
        }
    }

    /// Adds `r` unless an equal role is present.
    pub fn insert(&mut self, r: DiscoveryNodeRole)
        ensures
            final(self)@ == role_insert(old(self)@, r@),
    {
        proof {
            use_type_invariant(&*self);
        }
        let ghost s = self@;
        let ghost rv = r@;
        let mut items: Vec<DiscoveryNodeRole> = Vec::new();
        std::mem::swap(&mut items, &mut self.items);
        assert(roles_view(items@) == s);
        let mut i: usize = 0;
        while i < items.len()
            invariant
                roles_view(items@) == s,
                s == old(self)@,
                sorted_roles(s),
                i <= s.len(),
                rv == r@,
                forall|j: int| 0 <= j < i ==> role_lt(#[trigger] s[j], rv),
            decreases s.len() - i,
        {
            let c = compare_roles(&items[i], &r);
            assert(items@[i as int]@ == s[i as int]);
            if c == 0 {
                proof {
                    lemma_role_insert_skip_prefix(s, rv, i as int);
                    assert(s.skip(i as int)[0] == s[i as int]);
                    assert(s.take(i as int) + s.skip(i as int) =~= s);
                }
                self.items = items;
                return;
            }
            if c > 0 {
                proof {
                    lemma_role_insert_skip_prefix(s, rv, i as int);
                    assert(s.skip(i as int)[0] == s[i as int]);
                    lemma_role_order(rv, s[i as int], s[i as int]);
                    lemma_role_insert_sorted(s, rv);
                }
                items.insert(i, r);
                assert(roles_view(items@) =~= s.take(i as int) + role_insert(s.skip(i as int), rv));
                self.items = items;
                return;
            }
            i = i + 1;
        }
        proof {
            lemma_role_insert_skip_prefix(s, rv, i as int);
            assert(s.skip(i as int) =~= Seq::<RoleView>::empty());
            lemma_role_insert_sorted(s, rv);
        }
        items.push(r);
        assert(roles_view(items@) =~= s.push(rv));
        self.items = items;
    }
}

} // verus!
