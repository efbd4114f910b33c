//! The insertion-ordered maps and sets of `starlark_map` that the solver keeps its bookkeeping
//! in: maps from identifiers to type parameters, sets of identifiers, and sets of type
//! parameters (by their keys).

use vstd::prelude::*;
use starlark_map::small_map::SmallMap;
use starlark_map::small_set::SmallSet;
use crate::types::{Quantified, QuantifiedIdentity, QuantifiedKind, QuantifiedOrigin};

verus! {

/// `starlark_map::small_map::SmallMap`, a map that keeps its entries in insertion order.
#[verifier::external_type_specification]
#[verifier::external_body]
#[verifier::reject_recursive_types(K)]
#[verifier::reject_recursive_types(V)]
pub struct ExSmallMap<K, V>(SmallMap<K, V>);

/// The entries of a map, in the order in which their keys were first inserted.
pub uninterp spec fn small_map_entries(m: SmallMap<u64, Quantified>) -> Seq<(u64, Quantified)>;

/// The position of the first entry of `entries` with key `k`, or -1 if there is none.
pub open spec fn entry_index(entries: Seq<(u64, Quantified)>, k: u64) -> int
    decreases entries.len(),
{
    if entries.len() == 0 {
        -1
    } else {
        let i = entry_index(entries.drop_last(), k);
        if i >= 0 {
            i
        } else if entries.last().0 == k {
            entries.len() - 1
        } else {
            -1
        }
    }
}

/// The value that `entries` hold for key `k`.
pub open spec fn entry_lookup(entries: Seq<(u64, Quantified)>, k: u64) -> Option<Quantified> {
    let i = entry_index(entries, k);
    if i >= 0 {
        Some(entries[i].1)
    } else {
        None
    }
}

/// `entries` after inserting `v` under `k`: an existing entry for `k` keeps its place and
/// takes the new value; otherwise the entry goes at the end.
pub open spec fn entries_insert(entries: Seq<(u64, Quantified)>, k: u64, v: Quantified) -> Seq<(u64, Quantified)> {
    let i = entry_index(entries, k);
    if i >= 0 {
        entries.update(i, (k, v))
    } else {
        entries.push((k, v))
    }
}

/// `entries` without the entry for `k`, the others keeping their order.
pub open spec fn entries_remove(entries: Seq<(u64, Quantified)>, k: u64) -> Seq<(u64, Quantified)> {
    let i = entry_index(entries, k);
    if i >= 0 {
        entries.remove(i)
    } else {
        entries
    }
}

pub proof fn lemma_entry_index_bounds(entries: Seq<(u64, Quantified)>, k: u64)
    ensures
        -1 <= entry_index(entries, k) < entries.len(),
        entry_index(entries, k) >= 0 ==> entries[entry_index(entries, k)].0 == k,
        entry_index(entries, k) < 0 ==> forall|j: int| 0 <= j < entries.len() ==> entries[j].0 != k,
        entry_index(entries, k) >= 0 ==> forall|j: int| 0 <= j < entry_index(entries, k) ==> entries[j].0 != k,
    decreases entries.len(),
{
    if entries.len() > 0 {
        let d = entries.drop_last();
        lemma_entry_index_bounds(d, k);
        assert forall|j: int| 0 <= j < d.len() implies d[j] == entries[j] by {}
    }
}

/// `SmallMap::new`: an empty map.
#[verifier::external_body]
pub(crate) fn small_map_new() -> (r: SmallMap<u64, Quantified>)
    ensures
        small_map_entries(r) == Seq::<(u64, Quantified)>::empty(),
{
    SmallMap::new()
}

/// `SmallMap::get`: the value held for `k`, if any.
#[verifier::external_body]
pub(crate) fn small_map_get(m: &SmallMap<u64, Quantified>, k: u64) -> (r: Option<Quantified>)
    ensures
        r == entry_lookup(small_map_entries(*m), k),
{
    m.get(&k).copied()
}

/// `SmallMap::insert`: an existing entry for `k` takes `v` in its place, otherwise `(k, v)`
/// is appended; returns the value that was replaced.
#[verifier::external_body]
pub(crate) fn small_map_insert(m: &mut SmallMap<u64, Quantified>, k: u64, v: Quantified) -> (r: Option<Quantified>)
    ensures
        small_map_entries(*final(m)) == entries_insert(small_map_entries(*old(m)), k, v),
        r == entry_lookup(small_map_entries(*old(m)), k),
{
    m.insert(k, v)
}

/// `SmallMap::shift_remove`: removes the entry for `k`, keeping the order of the others;
/// returns its value.
#[verifier::external_body]
pub(crate) fn small_map_shift_remove(m: &mut SmallMap<u64, Quantified>, k: u64) -> (r: Option<Quantified>)
    ensures
        small_map_entries(*final(m)) == entries_remove(small_map_entries(*old(m)), k),
        r == entry_lookup(small_map_entries(*old(m)), k),
{
    m.shift_remove(&k)
}

/// `SmallMap::iter`: the entries, in order.
#[verifier::external_body]
pub(crate) fn small_map_to_vec(m: &SmallMap<u64, Quantified>) -> (r: Vec<(u64, Quantified)>)
    ensures
        r@ == small_map_entries(*m),
{
    m.iter().map(|(k, v)| (*k, *v)).collect()
}


/// `starlark_map::small_set::SmallSet`, a set that keeps its elements in insertion order.
#[verifier::external_type_specification]
#[verifier::external_body]
#[verifier::reject_recursive_types(T)]
pub struct ExSmallSet<T>(SmallSet<T>);

/// The elements of a set, in the order in which they were first inserted.
pub uninterp spec fn small_set_elems(s: SmallSet<u64>) -> Seq<u64>;

/// `elems` after inserting `x`: appended unless already there.
pub open spec fn elems_insert<A>(elems: Seq<A>, x: A) -> Seq<A> {
    if elems.contains(x) {
        elems
    } else {
        elems.push(x)
    }
}

/// Whether an element differs from `x`.
pub open spec fn differs_from(x: u64) -> spec_fn(u64) -> bool {
    |y: u64| y != x
}

/// `elems` without `x`, the others keeping their order.
pub open spec fn elems_remove(elems: Seq<u64>, x: u64) -> Seq<u64> {
    elems.filter(differs_from(x))
}

/// `SmallSet::new`: an empty set.
#[verifier::external_body]
pub(crate) fn small_set_new() -> (r: SmallSet<u64>)
    ensures
        small_set_elems(r) == Seq::<u64>::empty(),
{
    SmallSet::new()
}

/// `SmallSet::insert`: adds `x` at the end unless it is there; returns whether it was added.
#[verifier::external_body]
pub(crate) fn small_set_insert(s: &mut SmallSet<u64>, x: u64) -> (r: bool)
    ensures
        small_set_elems(*final(s)) == elems_insert(small_set_elems(*old(s)), x),
        r == !small_set_elems(*old(s)).contains(x),
{
    s.insert(x)
}

/// `SmallSet::contains`.
#[verifier::external_body]
pub(crate) fn small_set_contains(s: &SmallSet<u64>, x: u64) -> (r: bool)
    ensures
        r == small_set_elems(*s).contains(x),
{
    s.contains(&x)
}

/// `SmallSet::iter`: the elements, in order.
#[verifier::external_body]
pub(crate) fn small_set_to_vec(s: &SmallSet<u64>) -> (r: Vec<u64>)
    ensures
        r@ == small_set_elems(*s),
{
    s.iter().copied().collect()
}

/// `SmallSet::shift_remove`: removes `x`, keeping the order of the others; returns whether
/// it was there.
#[verifier::external_body]
pub(crate) fn small_set_shift_remove(s: &mut SmallSet<u64>, x: u64) -> (r: bool)
    ensures
        small_set_elems(*final(s)) == elems_remove(small_set_elems(*old(s)), x),
        r == small_set_elems(*old(s)).contains(x),
{
    s.shift_remove(&x)
}

/// A type parameter as a tuple of integers, by which a set tells parameters apart: the
/// fields of its identity, its name and its kind, each enum by the number of its variant.
pub type QuantifiedKey = (u64, u32, u32, u32, u8, u64, u8);

pub open spec fn origin_number(o: QuantifiedOrigin) -> u8 {
    match o {
        QuantifiedOrigin::ScopedLegacy => 0,
        QuantifiedOrigin::Scoped => 1,
    }
}

pub open spec fn kind_number(k: QuantifiedKind) -> u8 {
    match k {
        QuantifiedKind::TypeVar => 0,
        QuantifiedKind::ParamSpec => 1,
        QuantifiedKind::TypeVarTuple => 2,
        QuantifiedKind::IntVar => 3,
    }
}

/// The key of `q`.
pub open spec fn spec_quantified_key(q: Quantified) -> QuantifiedKey {
    (
        q.identity.module,
        q.identity.anchor_start,
        q.identity.anchor_end,
        q.identity.ordinal,
        origin_number(q.identity.origin),
        q.name,
        kind_number(q.kind),
    )
}

/// Two parameters have the same key only if they are the same parameter.
pub proof fn lemma_quantified_key_injective(a: Quantified, b: Quantified)
    ensures
        spec_quantified_key(a) == spec_quantified_key(b) <==> a == b,
{
    if spec_quantified_key(a) == spec_quantified_key(b) {
        assert(a.identity.origin == b.identity.origin);
        assert(a.kind == b.kind);
        assert(a.identity == b.identity);
    }
}

pub fn quantified_key(q: &Quantified) -> (r: QuantifiedKey)
    ensures
        r == spec_quantified_key(*q),
{
    let origin: u8 = match q.identity.origin {
        QuantifiedOrigin::ScopedLegacy => 0,
        QuantifiedOrigin::Scoped => 1,
    };
    let kind: u8 = match q.kind {
        QuantifiedKind::TypeVar => 0,
        QuantifiedKind::ParamSpec => 1,
        QuantifiedKind::TypeVarTuple => 2,
        QuantifiedKind::IntVar => 3,
    };
    (q.identity.module, q.identity.anchor_start, q.identity.anchor_end, q.identity.ordinal, origin, q.name, kind)
}

/// The elements of a set of type parameter keys, in the order in which they were first
/// inserted.
pub uninterp spec fn small_key_set_elems(s: SmallSet<(u64, u32, u32, u32, u8, u64, u8)>) -> Seq<(u64, u32, u32, u32, u8, u64, u8)>;

/// `SmallSet::new`, for type parameter keys: an empty set.
#[verifier::external_body]
pub(crate) fn small_key_set_new() -> (r: SmallSet<QuantifiedKey>)
    ensures
        small_key_set_elems(r) == Seq::<QuantifiedKey>::empty(),
{
    SmallSet::new()
}

/// `SmallSet::insert`, for type parameter keys: adds `x` at the end unless it is there;
/// returns whether it was added.
#[verifier::external_body]
pub(crate) fn small_key_set_insert(s: &mut SmallSet<QuantifiedKey>, x: QuantifiedKey) -> (r: bool)
    ensures
        small_key_set_elems(*final(s)) == elems_insert(small_key_set_elems(*old(s)), x),
        r == !small_key_set_elems(*old(s)).contains(x),
{
    s.insert(x)
}

/// `SmallSet::contains`, for type parameter keys.
#[verifier::external_body]
pub(crate) fn small_key_set_contains(s: &SmallSet<QuantifiedKey>, x: QuantifiedKey) -> (r: bool)
    ensures
        r == small_key_set_elems(*s).contains(x),
{
    s.contains(&x)
}

/// `SmallSet::iter`, for type parameter keys: the elements, in order.
#[verifier::external_body]
pub(crate) fn small_key_set_to_vec(s: &SmallSet<QuantifiedKey>) -> (r: Vec<QuantifiedKey>)
    ensures
        r@ == small_key_set_elems(*s),
{
    s.iter().copied().collect()
}

} // verus!
