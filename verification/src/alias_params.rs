//! The type parameters of a type alias: collected from the legacy type variables that its
//! body mentions, or from a `TypeAliasType(..., type_params=(...))` call.

use vstd::prelude::*;
use starlark_map::small_map::SmallMap;
use crate::errors::TextRange;
use crate::small_map::{
    entries_insert, entry_lookup, lemma_entry_index_bounds, small_map_entries, small_map_get,
    small_map_insert,
};
use crate::tparams::Scope;
use crate::types::{
    ClassType, Quantified, QuantifiedIdentity, QuantifiedKind, QuantifiedOrigin, Tuple, Type,
    TypeList, TypeVar,
};

verus! {

/// The type variables met so far while walking an alias body, by identity, one map per kind,
/// and the parameters created for them, with where each was declared.
pub struct CollectState {
    pub type_vars: Scope,
    pub type_var_tuples: Scope,
    pub param_specs: Scope,
    pub found: Seq<(u32, Quantified)>,
}

/// The parameter that binds the legacy variable `v` of kind `kind` in the alias anchored at
/// `anchor` of module `module`.
pub open spec fn alias_param(module: u64, anchor: TextRange, v: TypeVar, kind: QuantifiedKind) -> Quantified {
    Quantified {
        identity: QuantifiedIdentity {
            module,
            anchor_start: anchor.start,
            anchor_end: anchor.end,
            ordinal: v.decl_start,
            origin: QuantifiedOrigin::ScopedLegacy,
        },
        name: v.name,
        kind,
    }
}

/// Binding the variable `v` of kind `kind` in `scope`: the parameter already made for it, or
/// a new one, which is recorded in `scope` and in `found`.
pub open spec fn collect_var(
    scope: Scope,
    found: Seq<(u32, Quantified)>,
    module: u64,
    anchor: TextRange,
    v: TypeVar,
    kind: QuantifiedKind,
) -> (Quantified, Scope, Seq<(u32, Quantified)>) {
    match entry_lookup(scope, v.id) {
        Some(q) => (q, scope, found),
        None => {
            let q = alias_param(module, anchor, v, kind);
            (q, entries_insert(scope, v.id, q), found.push((v.decl_start, q)))
        },
    }
}

/// Walking `t`: each legacy type variable is replaced with the parameter that binds it.
/// Unions, class type arguments, callables, tuples, `Unpack`, `type[...]` and `Annotated`
/// are walked into; other types are left as they are.
pub open spec fn collect(t: Type, st: CollectState, module: u64, anchor: TextRange) -> (Type, CollectState)
    decreases t,
{
    match t {
        Type::Union(l) => {
            let (l2, st2) = collect_list(l, st, module, anchor);
            (Type::Union(l2), st2)
        },
        Type::ClassType(c) => {
            let (l2, st2) = collect_list(c.targs, st, module, anchor);
            (Type::ClassType(ClassType { class: c.class, targs: l2 }), st2)
        },
        Type::Callable(ps, r) => {
            let (ps2, st1) = collect_list(ps, st, module, anchor);
            let (r2, st2) = collect(*r, st1, module, anchor);
            (Type::Callable(ps2, Box::new(r2)), st2)
        },
        Type::Tuple(Tuple::Concrete(l)) => {
            let (l2, st2) = collect_list(l, st, module, anchor);
            (Type::Tuple(Tuple::Concrete(l2)), st2)
        },
        Type::Tuple(Tuple::Unbounded(b)) => {
            let (b2, st2) = collect(*b, st, module, anchor);
            (Type::Tuple(Tuple::Unbounded(Box::new(b2))), st2)
        },
        Type::Tuple(Tuple::Unpacked(p, m, s)) => {
            let (p2, st1) = collect_list(p, st, module, anchor);
            let (m2, st2) = collect(*m, st1, module, anchor);
            let (s2, st3) = collect_list(s, st2, module, anchor);
            (Type::Tuple(Tuple::Unpacked(p2, Box::new(m2), s2)), st3)
        },
        Type::TypeVar(v) => {
            let (q, sc, found) = collect_var(st.type_vars, st.found, module, anchor, v, QuantifiedKind::TypeVar);
            (Type::Quantified(q), CollectState { type_vars: sc, found, ..st })
        },
        Type::TypeVarTuple(v) => {
            let (q, sc, found) = collect_var(
                st.type_var_tuples,
                st.found,
                module,
                anchor,
                v,
                QuantifiedKind::TypeVarTuple,
            );
            (Type::Quantified(q), CollectState { type_var_tuples: sc, found, ..st })
        },
        Type::ParamSpec(v) => {
            let (q, sc, found) = collect_var(st.param_specs, st.found, module, anchor, v, QuantifiedKind::ParamSpec);
            (Type::Quantified(q), CollectState { param_specs: sc, found, ..st })
        },
        Type::Unpack(b) => {
            let (b2, st2) = collect(*b, st, module, anchor);
            (Type::Unpack(Box::new(b2)), st2)
        },
        Type::TypeOf(b) => {
            let (b2, st2) = collect(*b, st, module, anchor);
            (Type::TypeOf(Box::new(b2)), st2)
        },
        Type::Annotated(b) => {
            let (b2, st2) = collect(*b, st, module, anchor);
            (Type::Annotated(Box::new(b2)), st2)
        },
        _ => (t, st),
    }
}

pub open spec fn collect_list(l: TypeList, st: CollectState, module: u64, anchor: TextRange) -> (TypeList, CollectState)
    decreases l,
{
    match l {
        TypeList::Nil => (TypeList::Nil, st),
        TypeList::Cons(h, t) => {
            let (h2, st1) = collect(*h, st, module, anchor);
            let (t2, st2) = collect_list(*t, st1, module, anchor);
            (TypeList::Cons(Box::new(h2), Box::new(t2)), st2)
        },
    }
}

/// The exec counterpart of [`CollectState`].
pub struct TParamCollector {
    pub type_vars: SmallMap<u64, Quantified>,
    pub type_var_tuples: SmallMap<u64, Quantified>,
    pub param_specs: SmallMap<u64, Quantified>,
    pub found: Vec<(u32, Quantified)>,
}

impl TParamCollector {
    pub open spec fn state(&self) -> CollectState {
        CollectState {
            type_vars: small_map_entries(self.type_vars),
            type_var_tuples: small_map_entries(self.type_var_tuples),
            param_specs: small_map_entries(self.param_specs),
            found: self.found@,
        }
    }
}

fn collect_one(
    map: &mut SmallMap<u64, Quantified>,
    found: &mut Vec<(u32, Quantified)>,
    module: u64,
    anchor: TextRange,
    v: TypeVar,
    kind: QuantifiedKind,
) -> (r: Quantified)
    ensures
        ({
            let (q, sc, f) = collect_var(small_map_entries(*old(map)), old(found)@, module, anchor, v, kind);
            &&& r == q
            &&& small_map_entries(*final(map)) == sc
            &&& final(found)@ == f
        }),
{
    match small_map_get(map, v.id) {
        Some(q) => q,
        None => {
            // The anchor tells apart two aliases that use the same module-level TypeVar; the
            // ordinal is where the TypeVar is declared, unique within the module.
            let q = Quantified {
                identity: QuantifiedIdentity {
                    module,
                    anchor_start: anchor.start,
                    anchor_end: anchor.end,
                    ordinal: v.decl_start,
                    origin: QuantifiedOrigin::ScopedLegacy,
                },
                name: v.name,
                kind,
            };
            small_map_insert(map, v.id, q);
            found.push((v.decl_start, q));
            q
        },
    }
}

/// Walks `ty`, replacing each legacy TypeVar, ParamSpec and TypeVarTuple with the bound
/// type parameter for it, and recording newly met parameters in `st.found`.
pub fn tvars_to_tparams_for_type_alias(
    ty: Type,
    module: u64,
    alias_anchor: TextRange,
    st: &mut TParamCollector,
) -> (r: Type)
    ensures
        (r, final(st).state()) == collect(ty, old(st).state(), module, alias_anchor),
    decreases ty,
{
    match ty {
        Type::Union(l) => Type::Union(collect_members(l, module, alias_anchor, st)),
        Type::ClassType(c) => Type::ClassType(
            ClassType { class: c.class, targs: collect_members(c.targs, module, alias_anchor, st) },
        ),
        Type::Callable(ps, r) => {
            let ps2 = collect_members(ps, module, alias_anchor, st);
            let r2 = tvars_to_tparams_for_type_alias(*r, module, alias_anchor, st);
            Type::Callable(ps2, Box::new(r2))
        },
        Type::Tuple(Tuple::Concrete(l)) => Type::Tuple(Tuple::Concrete(collect_members(l, module, alias_anchor, st))),
        Type::Tuple(Tuple::Unbounded(b)) => Type::Tuple(
            Tuple::Unbounded(Box::new(tvars_to_tparams_for_type_alias(*b, module, alias_anchor, st))),
        ),
        Type::Tuple(Tuple::Unpacked(p, m, s)) => {
            let p2 = collect_members(p, module, alias_anchor, st);
            let m2 = tvars_to_tparams_for_type_alias(*m, module, alias_anchor, st);
            let s2 = collect_members(s, module, alias_anchor, st);
            Type::Tuple(Tuple::Unpacked(p2, Box::new(m2), s2))
        },
        Type::TypeVar(v) => Type::Quantified(
            collect_one(&mut st.type_vars, &mut st.found, module, alias_anchor, v, QuantifiedKind::TypeVar),
        ),
        Type::TypeVarTuple(v) => Type::Quantified(
            collect_one(
                &mut st.type_var_tuples,
                &mut st.found,
                module,
                alias_anchor,
                v,
                QuantifiedKind::TypeVarTuple,
            ),
        ),
        Type::ParamSpec(v) => Type::Quantified(
            collect_one(&mut st.param_specs, &mut st.found, module, alias_anchor, v, QuantifiedKind::ParamSpec),
        ),
        Type::Unpack(b) => Type::Unpack(Box::new(tvars_to_tparams_for_type_alias(*b, module, alias_anchor, st))),
        Type::TypeOf(b) => Type::TypeOf(Box::new(tvars_to_tparams_for_type_alias(*b, module, alias_anchor, st))),
        Type::Annotated(b) => Type::Annotated(
            Box::new(tvars_to_tparams_for_type_alias(*b, module, alias_anchor, st)),
        ),
        other => other,
    }
}

fn collect_members(l: TypeList, module: u64, alias_anchor: TextRange, st: &mut TParamCollector) -> (r: TypeList)
    ensures
        (r, final(st).state()) == collect_list(l, old(st).state(), module, alias_anchor),
    decreases l,
{
    match l {
        TypeList::Nil => TypeList::Nil,
        TypeList::Cons(h, t) => {
            let h2 = tvars_to_tparams_for_type_alias(*h, module, alias_anchor, st);
            let t2 = collect_members(*t, module, alias_anchor, st);
            TypeList::Cons(Box::new(h2), Box::new(t2))
        },
    }
}


/// Two aliases at different places that use the same type variable get distinct
/// parameters for it; within one alias, variables declared at different places do too.
pub proof fn law_alias_params_distinct(module: u64, a1: TextRange, a2: TextRange, v1: TypeVar, v2: TypeVar, kind: QuantifiedKind)
    ensures
        a1 != a2 ==> alias_param(module, a1, v1, kind) != alias_param(module, a2, v1, kind),
        v1.decl_start != v2.decl_start ==> alias_param(module, a1, v1, kind) != alias_param(module, a1, v2, kind),
{
    if a1 != a2 {
        assert(a1.start != a2.start || a1.end != a2.end);
        assert(alias_param(module, a1, v1, kind).identity != alias_param(module, a2, v1, kind).identity);
    }
    if v1.decl_start != v2.decl_start {
        assert(alias_param(module, a1, v1, kind).identity.ordinal != alias_param(module, a1, v2, kind).identity.ordinal);
    }
}

/// `q` is a parameter of the alias anchored at `anchor` of module `module`.
pub open spec fn anchored_at(q: Quantified, module: u64, anchor: TextRange) -> bool {
    &&& q.identity.module == module
    &&& q.identity.anchor_start == anchor.start
    &&& q.identity.anchor_end == anchor.end
    &&& q.identity.origin == QuantifiedOrigin::ScopedLegacy
}

/// Every parameter in `scope` is anchored at `anchor`.
pub open spec fn scope_anchored(scope: Scope, module: u64, anchor: TextRange) -> bool {
    forall|i: int| 0 <= i < scope.len() ==> anchored_at(#[trigger] scope[i].1, module, anchor)
}

/// Every parameter that `st` holds, in its maps and in what it found, is anchored at
/// `anchor`.
pub open spec fn state_anchored(st: CollectState, module: u64, anchor: TextRange) -> bool {
    &&& scope_anchored(st.type_vars, module, anchor)
    &&& scope_anchored(st.type_var_tuples, module, anchor)
    &&& scope_anchored(st.param_specs, module, anchor)
    &&& forall|i: int| 0 <= i < st.found.len() ==> anchored_at(#[trigger] st.found[i].1, module, anchor)
}

/// The state a walk over an alias body starts from: nothing met yet.
pub open spec fn empty_collect_state() -> CollectState {
    CollectState { type_vars: Seq::empty(), type_var_tuples: Seq::empty(), param_specs: Seq::empty(), found: Seq::empty() }
}

proof fn lemma_collect_var_anchored(
    scope: Scope,
    found: Seq<(u32, Quantified)>,
    module: u64,
    anchor: TextRange,
    v: TypeVar,
    kind: QuantifiedKind,
)
    requires
        scope_anchored(scope, module, anchor),
        forall|i: int| 0 <= i < found.len() ==> anchored_at(#[trigger] found[i].1, module, anchor),
    ensures
        ({
            let (q, sc, f) = collect_var(scope, found, module, anchor, v, kind);
            &&& anchored_at(q, module, anchor)
            &&& scope_anchored(sc, module, anchor)
            &&& forall|i: int| 0 <= i < f.len() ==> anchored_at(#[trigger] f[i].1, module, anchor)
        }),
{
    lemma_entry_index_bounds(scope, v.id);
    let (q, sc, f) = collect_var(scope, found, module, anchor, v, kind);
    if entry_lookup(scope, v.id) is None {
        assert forall|i: int| 0 <= i < sc.len() implies anchored_at(#[trigger] sc[i].1, module, anchor) by {
            if i < scope.len() {
                assert(sc[i] == scope[i]);
            }
        }
        assert forall|i: int| 0 <= i < f.len() implies anchored_at(#[trigger] f[i].1, module, anchor) by {
            if i < found.len() {
                assert(f[i] == found[i]);
            }
        }
    }
}

proof fn lemma_collect_anchored(t: Type, st: CollectState, module: u64, anchor: TextRange)
    requires
        state_anchored(st, module, anchor),
    ensures
        state_anchored(collect(t, st, module, anchor).1, module, anchor),
    decreases t,
{
    match t {
        Type::Union(l) => lemma_collect_list_anchored(l, st, module, anchor),
        Type::ClassType(c) => lemma_collect_list_anchored(c.targs, st, module, anchor),
        Type::Callable(ps, r) => {
            lemma_collect_list_anchored(ps, st, module, anchor);
            lemma_collect_anchored(*r, collect_list(ps, st, module, anchor).1, module, anchor);
        },
        Type::Tuple(Tuple::Concrete(l)) => lemma_collect_list_anchored(l, st, module, anchor),
        Type::Tuple(Tuple::Unbounded(b)) => lemma_collect_anchored(*b, st, module, anchor),
        Type::Tuple(Tuple::Unpacked(p, m, s)) => {
            lemma_collect_list_anchored(p, st, module, anchor);
            let st1 = collect_list(p, st, module, anchor).1;
            lemma_collect_anchored(*m, st1, module, anchor);
            lemma_collect_list_anchored(s, collect(*m, st1, module, anchor).1, module, anchor);
        },
        Type::TypeVar(v) => lemma_collect_var_anchored(st.type_vars, st.found, module, anchor, v, QuantifiedKind::TypeVar),
        Type::TypeVarTuple(v) => lemma_collect_var_anchored(
            st.type_var_tuples,
            st.found,
            module,
            anchor,
            v,
            QuantifiedKind::TypeVarTuple,
        ),
        Type::ParamSpec(v) => lemma_collect_var_anchored(st.param_specs, st.found, module, anchor, v, QuantifiedKind::ParamSpec),
        Type::Unpack(b) => lemma_collect_anchored(*b, st, module, anchor),
        Type::TypeOf(b) => lemma_collect_anchored(*b, st, module, anchor),
        Type::Annotated(b) => lemma_collect_anchored(*b, st, module, anchor),
        _ => {},
    }
}

proof fn lemma_collect_list_anchored(l: TypeList, st: CollectState, module: u64, anchor: TextRange)
    requires
        state_anchored(st, module, anchor),
    ensures
        state_anchored(collect_list(l, st, module, anchor).1, module, anchor),
    decreases l,
{
    match l {
        TypeList::Nil => {},
        TypeList::Cons(h, t) => {
            lemma_collect_anchored(*h, st, module, anchor);
            lemma_collect_list_anchored(*t, collect(*h, st, module, anchor).1, module, anchor);
        },
    }
}

/// Walking one alias body twice, for aliases at two different places, gives parameters
/// that the two never share: every parameter a walk from nothing makes carries its alias's
/// place. (For the same place the two walks are one and the same, `collect` being a
/// function of its arguments.)
pub proof fn law_aliases_at_different_places_share_no_parameter(ty: Type, module: u64, a1: TextRange, a2: TextRange)
    requires
        a1 != a2,
    ensures
        ({
            let st1 = collect(ty, empty_collect_state(), module, a1).1;
            let st2 = collect(ty, empty_collect_state(), module, a2).1;
            &&& state_anchored(st1, module, a1)
            &&& state_anchored(st2, module, a2)
            &&& forall|i: int, j: int|
                0 <= i < st1.found.len() && 0 <= j < st2.found.len() ==> #[trigger] st1.found[i].1 != #[trigger] st2.found[j].1
        }),
{
    lemma_collect_anchored(ty, empty_collect_state(), module, a1);
    lemma_collect_anchored(ty, empty_collect_state(), module, a2);
    let st1 = collect(ty, empty_collect_state(), module, a1).1;
    let st2 = collect(ty, empty_collect_state(), module, a2).1;
    assert forall|i: int, j: int| 0 <= i < st1.found.len() && 0 <= j < st2.found.len() implies #[trigger] st1.found[i].1 != #[trigger] st2.found[j].1 by {
        assert(anchored_at(st1.found[i].1, module, a1));
        assert(anchored_at(st2.found[j].1, module, a2));
        assert(a1.start != a2.start || a1.end != a2.end);
    }
}

} // verus!
