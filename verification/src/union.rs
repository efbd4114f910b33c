//! Joining types into a union.
//!
//! The join flattens unions one level, drops `Never` (which adds nothing to a union), and
//! keeps each member once, in the order in which it first appears.

use vstd::prelude::*;
use crate::types::{Type, TypeList};

verus! {

/// What a type contributes to a union: a union its members, `Never` nothing, anything
/// else itself.
pub open spec fn union_members(t: Type) -> Seq<Type> {
    match t {
        Type::Union(l) => l.seq(),
        Type::Never => Seq::empty(),
        _ => seq![t],
    }
}

/// The members that the types in `ts` contribute, in order.
pub open spec fn flatten_members(ts: Seq<Type>) -> Seq<Type>
    decreases ts.len(),
{
    if ts.len() == 0 {
        Seq::empty()
    } else {
        flatten_members(ts.drop_last()) + union_members(ts.last())
    }
}

/// `d` with `x` added at the end unless it already holds it.
pub open spec fn add_unique(d: Seq<Type>, x: Type) -> Seq<Type> {
    if d.contains(x) {
        d
    } else {
        d.push(x)
    }
}

/// The types of `s`, each kept at its first occurrence only.
pub open spec fn dedup(s: Seq<Type>) -> Seq<Type>
    decreases s.len(),
{
    if s.len() == 0 {
        Seq::empty()
    } else {
        add_unique(dedup(s.drop_last()), s.last())
    }
}

/// The union of the types in `ts`.
pub open spec fn spec_unions(ts: Seq<Type>) -> Type {
    let m = dedup(flatten_members(ts));
    if m.len() == 0 {
        Type::Never
    } else if m.len() == 1 {
        m[0]
    } else {
        Type::Union(TypeList::from_seq(m))
    }
}

pub proof fn lemma_dedup_push(s: Seq<Type>, x: Type)
    ensures
        dedup(s.push(x)) == add_unique(dedup(s), x),
{
    assert(s.push(x).drop_last() =~= s);
}

pub proof fn lemma_flatten_push(s: Seq<Type>, x: Type)
    ensures
        flatten_members(s.push(x)) == flatten_members(s) + union_members(x),
{
    assert(s.push(x).drop_last() =~= s);
}

/// Adds `x` to `members` unless it is already there.
fn push_unique(members: &mut Vec<Type>, x: Type)
    ensures
        final(members)@ == add_unique(old(members)@, x),
{
    let mut i: usize = 0;
    while i < members.len()
        invariant
            i <= members@.len(),
            forall|k: int| 0 <= k < i ==> members@[k] != x,
        decreases members.len() - i,
    {
        if members[i].same_as(&x) {
            assert(members@.contains(x));
            return;
        }
        i += 1;
    }
    assert(!members@.contains(x));
    members.push(x);
}

/// The union of the types in `ts`: `Never` when they contribute nothing, the single member
/// when they contribute one, and otherwise a union of the members in order of first
/// appearance.
pub fn unions(ts: Vec<Type>) -> (r: Type)
    ensures
        r == spec_unions(ts@),
{
    let mut members: Vec<Type> = Vec::new();
    let mut i: usize = 0;
    while i < ts.len()
        invariant
            i <= ts@.len(),
            members@ == dedup(flatten_members(ts@.take(i as int))),
        decreases ts.len() - i,
    {
        proof {
            assert(ts@.take(i + 1) =~= ts@.take(i as int).push(ts@[i as int]));
            lemma_flatten_push(ts@.take(i as int), ts@[i as int]);
        }
        let ghost base = flatten_members(ts@.take(i as int));
        match &ts[i] {
            Type::Union(l) => {
                let v = l.to_vec();
                let mut j: usize = 0;
                while j < v.len()
                    invariant
                        j <= v@.len(),
                        v@ == union_members(ts@[i as int]),
                        members@ == dedup(base + v@.take(j as int)),
                    decreases v.len() - j,
                {
                    proof {
                        assert(base + v@.take(j + 1) =~= (base + v@.take(j as int)).push(v@[j as int]));
                        lemma_dedup_push(base + v@.take(j as int), v@[j as int]);
                    }
                    push_unique(&mut members, v[j].deep_clone());
                    j += 1;
                }
                assert(v@.take(j as int) =~= v@);
            },
            Type::Never => {
                assert(base + union_members(ts@[i as int]) =~= base);
            },
            t => {
                proof {
                    assert(union_members(ts@[i as int]) == seq![ts@[i as int]]);
                    assert(base + seq![ts@[i as int]] =~= base.push(ts@[i as int]));
                    lemma_dedup_push(base, ts@[i as int]);
                }
                push_unique(&mut members, t.deep_clone());
            },
        }
        i += 1;
    }
    assert(ts@.take(i as int) =~= ts@);
    if members.len() == 0 {
        Type::Never
    } else if members.len() == 1 {
        members.pop().unwrap()
    } else {
        let ghost m = members@;
        let l = TypeList::from_vec(members);
        proof {
            TypeList::lemma_from_seq(m);
            TypeList::lemma_seq_injective(l, TypeList::from_seq(m));
        }
        Type::Union(l)
    }
}

/// The union of two types.
pub fn union(a: Type, b: Type) -> (r: Type)
    ensures
        r == spec_unions(seq![a, b]),
{
    let mut v: Vec<Type> = Vec::new();
    v.push(a);
    v.push(b);
    assert(v@ =~= seq![a, b]);
    unions(v)
}

} // verus!
