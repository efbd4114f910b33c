//! Type parameter lists: checking their defaults and order.

use vstd::prelude::*;
use starlark_map::small_map::SmallMap;
use crate::errors::{ErrorCollector, ErrorKind, ErrorMsg, NameList, TextRange, TypeError};
use crate::small_map::{
    entries_insert, entry_lookup, small_map_entries, small_map_get, small_map_insert,
    small_map_new,
};
use crate::types::{list_any, type_any, AnyStyle, ClassType, Quantified, QuantifiedKind, Tuple, Type, TypeList, TypePred};

verus! {

/// What declares a type parameter list.
#[derive(Clone, Copy, PartialEq, Eq, Structural, Debug)]
pub enum TParamsSource {
    Class,
    Function,
    TypeAlias,
}

/// A type parameter with its default, if it has one.
#[derive(Debug, PartialEq)]
pub struct TParam {
    pub quantified: Quantified,
    pub default: Option<Type>,
}

/// A validated type parameter list.
pub struct TParams {
    pub tparams: Vec<TParam>,
}

/// The bindings of a scope, as entries from a name to the parameter it denotes.
pub type Scope = Seq<(u64, Quantified)>;

/// The type that stands for a type variable of kind `kind` that is not in scope.
pub open spec fn gradual_type(kind: QuantifiedKind) -> Type {
    match kind {
        QuantifiedKind::ParamSpec => Type::Ellipsis,
        QuantifiedKind::TypeVarTuple => Type::Unpack(
            Box::new(Type::Tuple(Tuple::Unbounded(Box::new(Type::Any(AnyStyle::Implicit))))),
        ),
        QuantifiedKind::IntVar => Type::gradual_size(),
        QuantifiedKind::TypeVar => Type::Any(AnyStyle::Implicit),
    }
}

pub fn gradual_type_for(kind: QuantifiedKind) -> (r: Type)
    ensures
        r == gradual_type(kind),
{
    match kind {
        QuantifiedKind::ParamSpec => Type::Ellipsis,
        QuantifiedKind::TypeVarTuple => Type::Unpack(
            Box::new(Type::Tuple(Tuple::Unbounded(Box::new(Type::Any(AnyStyle::Implicit))))),
        ),
        QuantifiedKind::IntVar => Type::Int(crate::types::Dim::Gradual),
        QuantifiedKind::TypeVar => Type::Any(AnyStyle::Implicit),
    }
}

/// The name and kind of a legacy type variable node.
pub open spec fn legacy_var(t: Type) -> Option<(u64, QuantifiedKind)> {
    match t {
        Type::TypeVar(v) => Some((v.name, QuantifiedKind::TypeVar)),
        Type::TypeVarTuple(v) => Some((v.name, QuantifiedKind::TypeVarTuple)),
        Type::ParamSpec(v) => Some((v.name, QuantifiedKind::ParamSpec)),
        _ => None,
    }
}

/// `t` with each legacy type variable replaced by the parameter that `scope` binds to its
/// name, or by the gradual type of its kind when none is bound.
pub open spec fn bind_scope(t: Type, scope: Scope) -> Type
    decreases t,
{
    match legacy_var(t) {
        Some((name, kind)) => match entry_lookup(scope, name) {
            Some(q) => Type::Quantified(q),
            None => gradual_type(kind),
        },
        None => match t {
            Type::ClassType(c) => Type::ClassType(ClassType { class: c.class, targs: bind_scope_list(c.targs, scope) }),
            Type::SelfType(c) => Type::SelfType(ClassType { class: c.class, targs: bind_scope_list(c.targs, scope) }),
            Type::TypeOf(b) => Type::TypeOf(Box::new(bind_scope(*b, scope))),
            Type::Union(l) => Type::Union(bind_scope_list(l, scope)),
            Type::Tuple(Tuple::Concrete(l)) => Type::Tuple(Tuple::Concrete(bind_scope_list(l, scope))),
            Type::Tuple(Tuple::Unbounded(b)) => Type::Tuple(Tuple::Unbounded(Box::new(bind_scope(*b, scope)))),
            Type::Tuple(Tuple::Unpacked(p, m, s)) => Type::Tuple(
                Tuple::Unpacked(
                    bind_scope_list(p, scope),
                    Box::new(bind_scope(*m, scope)),
                    bind_scope_list(s, scope),
                ),
            ),
            Type::Callable(ps, r) => Type::Callable(bind_scope_list(ps, scope), Box::new(bind_scope(*r, scope))),
            Type::Unpack(b) => Type::Unpack(Box::new(bind_scope(*b, scope))),
            Type::Annotated(b) => Type::Annotated(Box::new(bind_scope(*b, scope))),
            Type::TypeForm(b) => Type::TypeForm(Box::new(bind_scope(*b, scope))),
            Type::Forall(ps, b) => Type::Forall(ps, Box::new(bind_scope(*b, scope))),
            _ => t,
        },
    }
}

pub open spec fn bind_scope_list(l: TypeList, scope: Scope) -> TypeList
    decreases l,
{
    match l {
        TypeList::Nil => TypeList::Nil,
        TypeList::Cons(h, t) => TypeList::Cons(Box::new(bind_scope(*h, scope)), Box::new(bind_scope_list(*t, scope))),
    }
}

/// The names of the legacy type variables in `t` that `scope` does not bind, in order.
pub open spec fn unbound_names(t: Type, scope: Scope) -> Seq<u64>
    decreases t,
{
    match legacy_var(t) {
        Some((name, _)) => if entry_lookup(scope, name) is Some {
            Seq::empty()
        } else {
            seq![name]
        },
        None => match t {
            Type::ClassType(c) => unbound_names_list(c.targs, scope),
            Type::SelfType(c) => unbound_names_list(c.targs, scope),
            Type::TypeOf(b) => unbound_names(*b, scope),
            Type::Union(l) => unbound_names_list(l, scope),
            Type::Tuple(Tuple::Concrete(l)) => unbound_names_list(l, scope),
            Type::Tuple(Tuple::Unbounded(b)) => unbound_names(*b, scope),
            Type::Tuple(Tuple::Unpacked(p, m, s)) => unbound_names_list(p, scope) + unbound_names(*m, scope)
                + unbound_names_list(s, scope),
            Type::Callable(ps, r) => unbound_names_list(ps, scope) + unbound_names(*r, scope),
            Type::Unpack(b) => unbound_names(*b, scope),
            Type::Annotated(b) => unbound_names(*b, scope),
            Type::TypeForm(b) => unbound_names(*b, scope),
            Type::Forall(_, b) => unbound_names(*b, scope),
            _ => Seq::empty(),
        },
    }
}

pub open spec fn unbound_names_list(l: TypeList, scope: Scope) -> Seq<u64>
    decreases l,
{
    match l {
        TypeList::Nil => Seq::empty(),
        TypeList::Cons(h, t) => unbound_names(*h, scope) + unbound_names_list(*t, scope),
    }
}

/// Binds the legacy type variables of `t` in `seen`, appending to `out` the names of those
/// that `seen` does not bind.
fn bind_default(t: Type, seen: &SmallMap<u64, Quantified>, out: &mut Vec<u64>) -> (r: Type)
    ensures
        r == bind_scope(t, small_map_entries(*seen)),
        final(out)@ == old(out)@ + unbound_names(t, small_map_entries(*seen)),
    decreases t,
{
    let ghost scope = small_map_entries(*seen);
    let var = match &t {
        Type::TypeVar(v) => Some((v.name, QuantifiedKind::TypeVar)),
        Type::TypeVarTuple(v) => Some((v.name, QuantifiedKind::TypeVarTuple)),
        Type::ParamSpec(v) => Some((v.name, QuantifiedKind::ParamSpec)),
        _ => None,
    };
    if let Some((name, kind)) = var {
        match small_map_get(seen, name) {
            Some(q) => {
                assert(out@ =~= old(out)@ + unbound_names(t, scope));
                return Type::Quantified(q);
            },
            None => {
                out.push(name);
                assert(out@ =~= old(out)@ + unbound_names(t, scope));
                return gradual_type_for(kind);
            },
        }
    }
    match t {
        Type::ClassType(c) => Type::ClassType(ClassType { class: c.class, targs: bind_default_list(c.targs, seen, out) }),
        Type::SelfType(c) => Type::SelfType(ClassType { class: c.class, targs: bind_default_list(c.targs, seen, out) }),
        Type::TypeOf(b) => Type::TypeOf(Box::new(bind_default(*b, seen, out))),
        Type::Union(l) => Type::Union(bind_default_list(l, seen, out)),
        Type::Tuple(Tuple::Concrete(l)) => Type::Tuple(Tuple::Concrete(bind_default_list(l, seen, out))),
        Type::Tuple(Tuple::Unbounded(b)) => Type::Tuple(Tuple::Unbounded(Box::new(bind_default(*b, seen, out)))),
        Type::Tuple(Tuple::Unpacked(p, m, s)) => {
            let p2 = bind_default_list(p, seen, out);
            let m2 = bind_default(*m, seen, out);
            let s2 = bind_default_list(s, seen, out);
            assert(out@ =~= old(out)@ + unbound_names(t, scope));
            Type::Tuple(Tuple::Unpacked(p2, Box::new(m2), s2))
        },
        Type::Callable(ps, r) => {
            let ps2 = bind_default_list(ps, seen, out);
            let r2 = bind_default(*r, seen, out);
            assert(out@ =~= old(out)@ + unbound_names(t, scope));
            Type::Callable(ps2, Box::new(r2))
        },
        Type::Unpack(b) => Type::Unpack(Box::new(bind_default(*b, seen, out))),
        Type::Annotated(b) => Type::Annotated(Box::new(bind_default(*b, seen, out))),
        Type::TypeForm(b) => Type::TypeForm(Box::new(bind_default(*b, seen, out))),
        Type::Forall(ps, b) => Type::Forall(ps, Box::new(bind_default(*b, seen, out))),
        other => {
            assert(out@ =~= old(out)@ + unbound_names(other, scope));
            other
        },
    }
}

fn bind_default_list(l: TypeList, seen: &SmallMap<u64, Quantified>, out: &mut Vec<u64>) -> (r: TypeList)
    ensures
        r == bind_scope_list(l, small_map_entries(*seen)),
        final(out)@ == old(out)@ + unbound_names_list(l, small_map_entries(*seen)),
    decreases l,
{
    match l {
        TypeList::Nil => {
            assert(out@ =~= old(out)@ + unbound_names_list(l, small_map_entries(*seen)));
            TypeList::Nil
        },
        TypeList::Cons(h, t) => {
            let h2 = bind_default(*h, seen, out);
            let t2 = bind_default_list(*t, seen, out);
            assert(out@ =~= old(out)@ + unbound_names_list(l, small_map_entries(*seen)));
            TypeList::Cons(Box::new(h2), Box::new(t2))
        },
    }
}


/// What checking a type parameter list has found and built so far.
pub struct ValidateState {
    pub errors: Seq<TypeError>,
    /// The parameters seen so far, by name.
    pub seen: Scope,
    /// The name of the last TypeVarTuple seen.
    pub tvt: Option<u64>,
    pub tvt_count: nat,
    pub last: Option<TParam>,
    /// The parameters with their defaults bound.
    pub out: Seq<TParam>,
}

pub open spec fn validate_start() -> ValidateState {
    ValidateState {
        errors: Seq::empty(),
        seen: Seq::empty(),
        tvt: None,
        tvt_count: 0,
        last: None,
        out: Seq::empty(),
    }
}

/// Checking one more parameter `tp`; errors are reported at `range`.
pub open spec fn validate_step(st: ValidateState, tp: TParam, range: TextRange) -> ValidateState {
    let q = tp.quantified;
    let e_order = match st.last {
        Some(prev) => if prev.default is Some && tp.default is None {
            seq![
                TypeError {
                    kind: ErrorKind::InvalidTypeVar,
                    range,
                    msg: ErrorMsg::DefaultOrder(q.name, prev.quantified.name),
                },
            ]
        } else {
            Seq::empty()
        },
        None => Seq::empty(),
    };
    let default = match tp.default {
        Some(d) => Some(bind_scope(d, st.seen)),
        None => None,
    };
    let e_scope = match tp.default {
        Some(d) => if unbound_names(d, st.seen).len() > 0 {
            seq![
                TypeError {
                    kind: ErrorKind::InvalidTypeVar,
                    range,
                    msg: ErrorMsg::OutOfScopeDefault(q.name, NameList::from_seq(unbound_names(d, st.seen))),
                },
            ]
        } else {
            Seq::empty()
        },
        None => Seq::empty(),
    };
    let e_tvt = if tp.default is Some && q.kind == QuantifiedKind::TypeVar && st.tvt is Some {
        seq![
            TypeError {
                kind: ErrorKind::InvalidTypeVar,
                range,
                msg: ErrorMsg::TypeVarDefaultAfterTypeVarTuple(q.name, st.tvt->0),
            },
        ]
    } else {
        Seq::empty()
    };
    let is_tvt = q.kind == QuantifiedKind::TypeVarTuple;
    let tp2 = TParam { quantified: q, default };
    ValidateState {
        errors: st.errors + e_order + e_scope + e_tvt,
        seen: entries_insert(st.seen, q.name, q),
        tvt: if is_tvt { Some(q.name) } else { st.tvt },
        tvt_count: if is_tvt { st.tvt_count + 1 } else { st.tvt_count },
        last: Some(tp2),
        out: st.out.push(tp2),
    }
}

/// Checking the parameters `tps` in order.
pub open spec fn validate_run(tps: Seq<TParam>, range: TextRange) -> ValidateState
    decreases tps.len(),
{
    if tps.len() == 0 {
        validate_start()
    } else {
        validate_step(validate_run(tps.drop_last(), range), tps.last(), range)
    }
}

/// All errors of checking the parameter list `tps` declared by `source`.
pub open spec fn validated_tparams_errors(tps: Seq<TParam>, range: TextRange, source: TParamsSource) -> Seq<TypeError> {
    let st = validate_run(tps, range);
    st.errors + if st.tvt_count > 1 && (source is Class || source is TypeAlias) {
        seq![
            TypeError {
                kind: ErrorKind::InvalidTypeVarTuple,
                range,
                msg: ErrorMsg::MultipleTypeVarTuples(source),
            },
        ]
    } else {
        Seq::empty()
    }
}

impl TParam {
    pub fn deep_clone(&self) -> (r: TParam)
        ensures
            r == *self,
    {
        TParam {
            quantified: self.quantified,
            default: match &self.default {
                Some(d) => Some(d.deep_clone()),
                None => None,
            },
        }
    }
}

/// Validates `tparams` and returns them validated: a parameter without a default may not
/// follow one with a default; a default may refer only to earlier parameters (references to
/// others are replaced with gradual fallbacks); a TypeVar with a default may not follow a
/// TypeVarTuple; and a class or alias may have at most one TypeVarTuple. Errors are reported
/// at `range`.
pub fn validated_tparams(
    range: TextRange,
    tparams: Vec<TParam>,
    source: TParamsSource,
    errors: &mut ErrorCollector,
) -> (r: TParams)
    ensures
        r.tparams@ == validate_run(tparams@, range).out,
        final(errors)@ == old(errors)@ + validated_tparams_errors(tparams@, range, source),
{
    let mut seen = small_map_new();
    let mut last: Option<(u64, bool)> = None;
    let mut typevartuple: Option<u64> = None;
    let mut typevartuple_count: usize = 0;
    let mut out: Vec<TParam> = Vec::new();
    let mut i: usize = 0;
    while i < tparams.len()
        invariant
            i <= tparams@.len(),
            ({
                let st = validate_run(tparams@.take(i as int), range);
                &&& errors@ == old(errors)@ + st.errors
                &&& small_map_entries(seen) == st.seen
                &&& typevartuple == st.tvt
                &&& typevartuple_count == st.tvt_count
                &&& typevartuple_count <= i
                &&& out@ == st.out
                &&& match st.last {
                    Some(p) => last == Some((p.quantified.name, p.default is Some)),
                    None => last is None,
                }
            }),
        decreases tparams.len() - i,
    {
        proof {
            assert(tparams@.take(i + 1).drop_last() =~= tparams@.take(i as int));
        }
        let ghost st = validate_run(tparams@.take(i as int), range);
        let ghost e0 = errors@;
        let tparam = &tparams[i];
        let q = tparam.quantified;
        if let Some((prev_name, prev_has_default)) = last {
            if prev_has_default && tparam.default.is_none() {
                errors.error(ErrorKind::InvalidTypeVar, range, ErrorMsg::DefaultOrder(q.name, prev_name));
            }
        }
        let ghost e1 = errors@;
        let default = match &tparam.default {
            Some(d) => {
                let mut out_of_scope_names: Vec<u64> = Vec::new();
                let bound = bind_default(d.deep_clone(), &seen, &mut out_of_scope_names);
                if out_of_scope_names.len() > 0 {
                    errors.error(
                        ErrorKind::InvalidTypeVar,
                        range,
                        ErrorMsg::OutOfScopeDefault(q.name, NameList::from_names(&out_of_scope_names)),
                    );
                }
                if matches!(q.kind, QuantifiedKind::TypeVar) {
                    if let Some(tvt) = typevartuple {
                        errors.error(
                            ErrorKind::InvalidTypeVar,
                            range,
                            ErrorMsg::TypeVarDefaultAfterTypeVarTuple(q.name, tvt),
                        );
                    }
                }
                Some(bound)
            },
            None => None,
        };
        let has_default = default.is_some();
        small_map_insert(&mut seen, q.name, q);
        if matches!(q.kind, QuantifiedKind::TypeVarTuple) {
            typevartuple = Some(q.name);
            typevartuple_count += 1;
        }
        out.push(TParam { quantified: q, default });
        last = Some((q.name, has_default));
        proof {
            let st2 = validate_step(st, tparams@[i as int], range);
            assert(errors@ =~= old(errors)@ + st2.errors);
            assert(out@ =~= st2.out);
        }
        i += 1;
    }
    assert(tparams@.take(i as int) =~= tparams@);
    if typevartuple_count > 1 && matches!(source, TParamsSource::Class | TParamsSource::TypeAlias) {
        errors.error(ErrorKind::InvalidTypeVarTuple, range, ErrorMsg::MultipleTypeVarTuples(source));
    }
    assert(errors@ =~= old(errors)@ + validated_tparams_errors(tparams@, range, source));
    TParams { tparams: out }
}


/// Binding in a scope leaves no legacy type variable: each is bound or made gradual.
pub proof fn lemma_bind_scope_legacy_free(t: Type, scope: Scope)
    ensures
        !type_any(bind_scope(t, scope), TypePred::LegacyVariable),
    decreases t,
{
    match legacy_var(t) {
        Some(_) => {
            let any = Type::Any(AnyStyle::Implicit);
            let unbounded = Type::Tuple(Tuple::Unbounded(Box::new(any)));
            assert(!type_any(any, TypePred::LegacyVariable));
            assert(!type_any(unbounded, TypePred::LegacyVariable));
            assert(!type_any(Type::Unpack(Box::new(unbounded)), TypePred::LegacyVariable));
        },
        None => match t {
            Type::ClassType(c) => lemma_bind_scope_list_legacy_free(c.targs, scope),
            Type::SelfType(c) => lemma_bind_scope_list_legacy_free(c.targs, scope),
            Type::TypeOf(b) => lemma_bind_scope_legacy_free(*b, scope),
            Type::Union(l) => lemma_bind_scope_list_legacy_free(l, scope),
            Type::Tuple(Tuple::Concrete(l)) => lemma_bind_scope_list_legacy_free(l, scope),
            Type::Tuple(Tuple::Unbounded(b)) => lemma_bind_scope_legacy_free(*b, scope),
            Type::Tuple(Tuple::Unpacked(p, m, s)) => {
                lemma_bind_scope_list_legacy_free(p, scope);
                lemma_bind_scope_legacy_free(*m, scope);
                lemma_bind_scope_list_legacy_free(s, scope);
            },
            Type::Callable(ps, r) => {
                lemma_bind_scope_list_legacy_free(ps, scope);
                lemma_bind_scope_legacy_free(*r, scope);
            },
            Type::Unpack(b) => lemma_bind_scope_legacy_free(*b, scope),
            Type::Annotated(b) => lemma_bind_scope_legacy_free(*b, scope),
            Type::TypeForm(b) => lemma_bind_scope_legacy_free(*b, scope),
            Type::Forall(_, b) => lemma_bind_scope_legacy_free(*b, scope),
            _ => {},
        },
    }
}

pub proof fn lemma_bind_scope_list_legacy_free(l: TypeList, scope: Scope)
    ensures
        !list_any(bind_scope_list(l, scope), TypePred::LegacyVariable),
    decreases l,
{
    match l {
        TypeList::Nil => {},
        TypeList::Cons(h, t) => {
            lemma_bind_scope_legacy_free(*h, scope);
            lemma_bind_scope_list_legacy_free(*t, scope);
        },
    }
}

proof fn lemma_validate_run_shape(tps: Seq<TParam>, range: TextRange)
    ensures
        validate_run(tps, range).out.len() == tps.len(),
        forall|i: int| 0 <= i < tps.len() ==> {
            let o = #[trigger] validate_run(tps, range).out[i];
            &&& o.quantified == tps[i].quantified
            &&& (o.default is Some <==> tps[i].default is Some)
            &&& (o.default matches Some(d) ==> !type_any(d, TypePred::LegacyVariable))
        },
    decreases tps.len(),
{
    if tps.len() > 0 {
        lemma_validate_run_shape(tps.drop_last(), range);
        let st = validate_run(tps.drop_last(), range);
        match tps.last().default {
            Some(d) => lemma_bind_scope_legacy_free(d, st.seen),
            None => {},
        }
    }
}

/// Validating a type parameter list keeps its parameters, in order, each with a default
/// exactly when it had one; and no default refers to a legacy type variable any more (a
/// reference to an earlier parameter is bound to it, any other becomes gradual).
pub proof fn law_validated_tparams_keeps_params(tps: Seq<TParam>, range: TextRange)
    ensures
        validate_run(tps, range).out.len() == tps.len(),
        forall|i: int| 0 <= i < tps.len() ==> (#[trigger] validate_run(tps, range).out[i]).quantified == tps[i].quantified,
        forall|i: int| 0 <= i < tps.len() ==> ((#[trigger] validate_run(tps, range).out[i]).default is Some <==> tps[i].default is Some),
        forall|i: int| 0 <= i < tps.len() ==> ((#[trigger] validate_run(tps, range).out[i]).default matches Some(d) ==> !type_any(d, TypePred::LegacyVariable)),
{
    lemma_validate_run_shape(tps, range);
}

} // verus!
