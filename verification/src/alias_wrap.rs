//! Wrapping a solved type alias with its type parameters: the alias's body is expanded,
//! checked for cyclic self-references, its parameters found (declared, collected or
//! scoped), and the parameter list validated.

use vstd::prelude::*;
use starlark_map::small_map::SmallMap;
use starlark_map::small_set::SmallSet;
use crate::alias::TypeAlias;
use crate::alias_decl::{
    create_legacy_type_params, spec_create_legacy_type_params, DeclState, DeclaredParam,
    LegacyParamKey,
};
use crate::alias_expand::{
    collect_quantifieds, quantifieds_of, refs_in_table, sort_by_start, sort_params_by_start,
};
use crate::alias_params::{collect, CollectState, TParamCollector};
use crate::errors::{ErrorCollector, ErrorKind, ErrorMsg, TextRange, TypeError};
use crate::small_map::{
    elems_insert, lemma_quantified_key_injective, quantified_key, small_key_set_contains,
    small_key_set_elems, small_key_set_insert, small_key_set_new, small_key_set_to_vec,
    small_map_new, small_set_elems, small_set_insert, small_set_new, spec_quantified_key,
    QuantifiedKey,
};
use crate::solver::AnswersSolver;
use crate::tparams::{validate_run, validated_tparams, validated_tparams_errors, TParam, TParams, TParamsSource};
use crate::tvar_default::{
    matrix_view, spec_constraint_items, spec_default_for_bound_check, spec_validate_type_var_default,
    RestrictionCheck, TypeVarRestriction,
};
use crate::types::{AliasRef, AnyStyle, Quantified, QuantifiedIdentity, QuantifiedKind, Type};
use crate::untype::one_error;

verus! {

broadcast use vstd::std_specs::vec::axiom_vec_index_decreases;

/// A PEP 695 type parameter, with its parts solved: its bound; its constraints (as types)
/// and where they stand; its default (as a type) and where it stands; where the default is
/// a type variable, that variable's restriction; and the solver's verdicts on the default:
/// whether [`spec_default_for_bound_check`] is assignable to the bound, and, for each item
/// of [`spec_constraint_items`], whether each constraint is consistent with it.
pub struct TypeParameterDecl {
    pub name: u64,
    pub kind: QuantifiedKind,
    pub identity: QuantifiedIdentity,
    pub bound: Option<Type>,
    pub constraints: Option<(Vec<Type>, TextRange)>,
    pub default: Option<(Type, TextRange)>,
    pub default_restriction: Option<TypeVarRestriction>,
    pub bound_assignable: bool,
    pub constraints_consistent: Vec<Vec<bool>>,
}

/// Where the type parameters of an alias come from.
pub enum TypeAliasParams {
    /// `TypeAliasType(..., type_params=(...))`: the declared parameters, and the keys of the
    /// legacy parameters that the value uses.
    TypeAliasType { declared_params: Vec<DeclaredParam>, legacy_params: Vec<LegacyParamKey> },
    /// A legacy alias: the keys of its legacy parameters when the binder could find them,
    /// otherwise none (they are collected from the value).
    Legacy(Option<Vec<LegacyParamKey>>),
    /// `type X[...] = ...`: the declared parameters, if there is a list.
    Scoped(Option<Vec<TypeParameterDecl>>),
}

/// The type a solved alias stands for: an error, or the alias under its parameters.
#[derive(Debug, PartialEq)]
pub enum WrappedAlias {
    Error,
    Forall { alias: TypeAlias, tparams: Vec<TParam> },
}

/// A reference to a type alias under the parameters it takes.
pub struct AliasRefForall {
    pub alias: AliasRef,
    pub tparams: Vec<TParam>,
}

/// The mathematical value of a [`WrappedAlias`].
pub enum WrappedAliasView {
    Error,
    Forall { alias: TypeAlias, tparams: Seq<TParam> },
}

impl View for WrappedAlias {
    type V = WrappedAliasView;

    open spec fn view(&self) -> WrappedAliasView {
        match self {
            WrappedAlias::Error => WrappedAliasView::Error,
            WrappedAlias::Forall { alias, tparams } => WrappedAliasView::Forall { alias: *alias, tparams: tparams@ },
        }
    }
}

/// What the solver's verdict on the default is checked against.
pub open spec fn restriction_check(tp: TypeParameterDecl) -> RestrictionCheck {
    if tp.kind == QuantifiedKind::IntVar {
        RestrictionCheck::Unrestricted
    } else if tp.bound is Some {
        RestrictionCheck::Bound { assignable: tp.bound_assignable }
    } else if tp.constraints matches Some((cs, _)) && cs@.len() >= 2 {
        RestrictionCheck::Constraints
    } else {
        RestrictionCheck::Unrestricted
    }
}

/// The parameter a PEP 695 type parameter gives, and its errors: fewer than two
/// constraints are reported (and taken as no restriction), and the default is checked.
pub open spec fn spec_quantified_from_type_parameter(tp: TypeParameterDecl) -> (TParam, Seq<TypeError>) {
    let e1 = match tp.constraints {
        Some((cs, r)) => if tp.kind != QuantifiedKind::IntVar && tp.bound is None && cs@.len() < 2 {
            one_error(ErrorKind::InvalidTypeVar, r, ErrorMsg::TooFewConstraints(tp.name, cs@.len() as usize))
        } else {
            Seq::empty()
        },
        None => Seq::empty(),
    };
    let (default, e2) = match tp.default {
        Some((d, r)) => {
            let (t, e) = spec_validate_type_var_default(
                tp.name,
                tp.kind,
                d,
                r,
                restriction_check(tp),
                tp.default_restriction,
                matrix_view(tp.constraints_consistent@),
            );
            (Some(t), e)
        },
        None => (None, Seq::empty()),
    };
    (TParam { quantified: Quantified { identity: tp.identity, name: tp.name, kind: tp.kind }, default }, e1 + e2)
}

/// The parameters of a PEP 695 parameter list, in order, with their errors.
pub open spec fn spec_scoped_params(tps: Seq<TypeParameterDecl>) -> (Seq<TParam>, Seq<TypeError>)
    decreases tps.len(),
{
    if tps.len() == 0 {
        (Seq::empty(), Seq::empty())
    } else {
        let (ps, es) = spec_scoped_params(tps.drop_last());
        let (p, e) = spec_quantified_from_type_parameter(tps.last());
        (ps.push(p), es + e)
    }
}

/// A parameter with no default.
pub open spec fn plain_tparam(q: Quantified) -> TParam {
    TParam { quantified: q, default: None }
}

/// The bound parameters in `qs` that are none of `own`'s, each once, in order of first
/// mention.
/// A sequence of parameters holds `q` exactly when its keys hold `q`'s key.
proof fn lemma_key_contains(qs: Seq<Quantified>, q: Quantified)
    ensures
        qs.map_values(|p: Quantified| spec_quantified_key(p)).contains(spec_quantified_key(q)) <==> qs.contains(q),
{
    let ks = qs.map_values(|p: Quantified| spec_quantified_key(p));
    if ks.contains(spec_quantified_key(q)) {
        let i = choose|i: int| 0 <= i < ks.len() && ks[i] == spec_quantified_key(q);
        lemma_quantified_key_injective(qs[i], q);
        assert(qs[i] == q);
    }
    if qs.contains(q) {
        let i = choose|i: int| 0 <= i < qs.len() && qs[i] == q;
        assert(ks[i] == spec_quantified_key(q));
    }
}

pub open spec fn out_of_scope(qs: Seq<Quantified>, own: Seq<Quantified>) -> Seq<Quantified>
    decreases qs.len(),
{
    if qs.len() == 0 {
        Seq::empty()
    } else {
        let rest = out_of_scope(qs.drop_last(), own);
        let q = qs.last();
        if own.contains(q) || rest.contains(q) {
            rest
        } else {
            rest.push(q)
        }
    }
}

/// `names` with each of `more` added, in order.
pub open spec fn insert_all(names: Seq<u64>, more: Seq<u64>) -> Seq<u64>
    decreases more.len(),
{
    if more.len() == 0 {
        names
    } else {
        elems_insert(insert_all(names, more.drop_last()), more.last())
    }
}

/// The empty collection state.
pub open spec fn empty_collect() -> CollectState {
    CollectState { type_vars: Seq::empty(), type_var_tuples: Seq::empty(), param_specs: Seq::empty(), found: Seq::empty() }
}

/// The empty declaration state.
pub open spec fn empty_decl() -> DeclState {
    DeclState { type_vars: Seq::empty(), type_var_tuples: Seq::empty(), param_specs: Seq::empty(), params: Seq::empty(), errors: Seq::empty() }
}

impl AnswersSolver {
    /// The parameters of an alias anchored at `range` with body `body`, before validation:
    /// with the body (where legacy variables were collected into parameters) and the errors.
    pub open spec fn spec_alias_params(self, name: u64, body: Type, params: TypeAliasParams, range: TextRange) -> (Seq<TParam>, Type, Seq<TypeError>) {
        match params {
            TypeAliasParams::TypeAliasType { declared_params, legacy_params } => {
                let (ps, st) = self.spec_alias_type_params(
                    empty_decl(),
                    declared_params@,
                    spec_create_legacy_type_params(legacy_params@),
                    range,
                );
                (ps.map_values(|q: Quantified| plain_tparam(q)), body, st.errors)
            },
            TypeAliasParams::Legacy(Some(keys)) => (
                spec_create_legacy_type_params(keys@).map_values(|q: Quantified| plain_tparam(q)),
                body,
                Seq::empty(),
            ),
            TypeAliasParams::Legacy(None) => {
                let (b, st) = collect(body, empty_collect(), self.module, range);
                (sort_by_start(st.found).map_values(|e: (u32, Quantified)| plain_tparam(e.1)), b, Seq::empty())
            },
            TypeAliasParams::Scoped(decls) => {
                let (b, st) = collect(body, empty_collect(), self.module, range);
                let e1 = if st.found.len() > 0 {
                    one_error(ErrorKind::InvalidTypeVar, range, ErrorMsg::UndeclaredTypeParams(name))
                } else {
                    Seq::empty()
                };
                let (ps, e2) = match decls {
                    Some(d) => spec_scoped_params(d@),
                    None => (Seq::empty(), Seq::empty()),
                };
                (ps, b, e1 + e2)
            },
        }
    }

    /// The alias `name` (`ta`), wrapped under its parameters, with the errors: an alias in
    /// error stays an error; the body's references to the module's aliases are expanded
    /// (for an alias defined at binding time, `current_index`); a cyclic self-reference is
    /// reported and gives an error; the parameters are found as
    /// [`Self::spec_alias_params`] says; a legacy alias may not mention a parameter that is
    /// not its own; and the parameter list is validated.
    pub open spec fn spec_wrap_type_alias(self, name: u64, ta: TypeAlias, params: TypeAliasParams, current_index: Option<u64>, range: TextRange) -> (WrappedAliasView, Seq<TypeError>) {
        if ta.ty == Type::any_error() {
            (WrappedAliasView::Error, Seq::empty())
        } else {
            let (ty1, recs) = match current_index {
                Some(i) => self.spec_expand_type_alias_refs(ta.ty, i),
                None => (ta.ty, Seq::empty()),
            };
            let names = insert_all(seq![name], recs);
            let ta1 = TypeAlias { ty: ty1, ..ta };
            if self.spec_has_cyclic_reference(names, ta1) {
                (WrappedAliasView::Error, one_error(ErrorKind::InvalidTypeAlias, range, ErrorMsg::CyclicSelfReference(name)))
            } else {
                let (tps, body, e1) = self.spec_alias_params(name, ty1, params, range);
                let e2 = if params is Legacy {
                    out_of_scope(quantifieds_of(body), tps.map_values(|p: TParam| p.quantified)).map_values(
                        |q: Quantified| TypeError { kind: ErrorKind::InvalidTypeVar, range, msg: ErrorMsg::TypeVarNotInScope(q.name) },
                    )
                } else {
                    Seq::empty()
                };
                (
                    WrappedAliasView::Forall { alias: TypeAlias { ty: body, ..ta }, tparams: validate_run(tps, range).out },
                    e1 + e2 + validated_tparams_errors(tps, range, TParamsSource::TypeAlias),
                )
            }
        }
    }
}

impl AnswersSolver {
/// The parameter a PEP 695 type parameter gives; see
/// [`spec_quantified_from_type_parameter`].
pub fn quantified_from_type_parameter(&self, tp: &TypeParameterDecl, errors: &mut ErrorCollector) -> (r: TParam)
    ensures
        r == spec_quantified_from_type_parameter(*tp).0,
        final(errors)@ == old(errors)@ + spec_quantified_from_type_parameter(*tp).1,
{
    let check = if matches!(tp.kind, QuantifiedKind::IntVar) {
        RestrictionCheck::Unrestricted
    } else if tp.bound.is_some() {
        RestrictionCheck::Bound { assignable: tp.bound_assignable }
    } else {
        match &tp.constraints {
            Some((cs, r)) => {
                if cs.len() < 2 {
                    errors.error(ErrorKind::InvalidTypeVar, *r, ErrorMsg::TooFewConstraints(tp.name, cs.len()));
                    RestrictionCheck::Unrestricted
                } else {
                    RestrictionCheck::Constraints
                }
            },
            None => RestrictionCheck::Unrestricted,
        }
    };
    assert(check == restriction_check(*tp));
    let ghost e1 = errors@;
    let default = match &tp.default {
        Some((d, r)) => Some(self.validate_type_var_default(
            tp.name,
            tp.kind,
            d,
            *r,
            &check,
            &tp.default_restriction,
            &tp.constraints_consistent,
            errors,
        )),
        None => None,
    };
    proof {
        let (p, e) = spec_quantified_from_type_parameter(*tp);
        if tp.default is None {
            assert(errors@ =~= old(errors)@ + e);
        } else {
            assert(errors@ =~= old(errors)@ + e);
        }
    }
    TParam { quantified: Quantified { identity: tp.identity, name: tp.name, kind: tp.kind }, default }
}

    /// The parameters of a PEP 695 parameter list, if there is one; see
    /// [`spec_scoped_params`].
    pub fn scoped_type_params(&self, x: Option<&Vec<TypeParameterDecl>>, errors: &mut ErrorCollector) -> (r: Vec<TParam>)
        ensures
            r@ == match x {
                Some(d) => spec_scoped_params(d@).0,
                None => Seq::empty(),
            },
            final(errors)@ == old(errors)@ + match x {
                Some(d) => spec_scoped_params(d@).1,
                None => Seq::empty(),
            },
    {
        let mut params: Vec<TParam> = Vec::new();
        match x {
            None => {
                assert(old(errors)@ + Seq::<TypeError>::empty() =~= old(errors)@);
            },
            Some(d) => {
                let mut i: usize = 0;
                assert(old(errors)@ + Seq::<TypeError>::empty() =~= old(errors)@);
                while i < d.len()
                    invariant
                        i <= d@.len(),
                        params@ == spec_scoped_params(d@.take(i as int)).0,
                        errors@ == old(errors)@ + spec_scoped_params(d@.take(i as int)).1,
                    decreases d.len() - i,
                {
                    assert(d@.take(i + 1).drop_last() =~= d@.take(i as int));
                    let ghost before = errors@;
                    let p = self.quantified_from_type_parameter(&d[i], errors);
                    params.push(p);
                    i += 1;
                    assert(errors@ =~= old(errors)@ + spec_scoped_params(d@.take(i as int)).1);
                }
                assert(d@.take(i as int) =~= d@);
            },
        }
        params
    }

    /// Collects the legacy variables of `body` into parameters, in source order.
    fn collect_in_order(&self, body: Type, range: TextRange) -> (r: (Vec<TParam>, Type))
        ensures
            ({
                let (b, st) = collect(body, empty_collect(), self.module, range);
                &&& r.0@ == sort_by_start(st.found).map_values(|e: (u32, Quantified)| plain_tparam(e.1))
                &&& r.1 == b
            }),
    {
        let mut st = TParamCollector {
            type_vars: small_map_new(),
            type_var_tuples: small_map_new(),
            param_specs: small_map_new(),
            found: Vec::new(),
        };
        assert(st.state() =~= empty_collect());
        let b = crate::alias_params::tvars_to_tparams_for_type_alias(body, self.module, range, &mut st);
        let sorted = sort_params_by_start(&st.found);
        let mut out: Vec<TParam> = Vec::new();
        let mut i: usize = 0;
        while i < sorted.len()
            invariant
                i <= sorted@.len(),
                out@ == sorted@.take(i as int).map_values(|e: (u32, Quantified)| plain_tparam(e.1)),
            decreases sorted.len() - i,
        {
            out.push(TParam { quantified: sorted[i].1, default: None });
            i += 1;
            assert(out@ =~= sorted@.take(i as int).map_values(|e: (u32, Quantified)| plain_tparam(e.1)));
        }
        assert(sorted@.take(i as int) =~= sorted@);
        (out, b)
    }

    /// The parameters of an alias before validation; see [`Self::spec_alias_params`].
    fn alias_params(&self, name: u64, body: Type, params: &TypeAliasParams, range: TextRange, errors: &mut ErrorCollector) -> (r: (Vec<TParam>, Type))
        ensures
            ({
                let (tps, b, e) = self.spec_alias_params(name, body, *params, range);
                &&& r.0@ == tps
                &&& r.1 == b
                &&& final(errors)@ == old(errors)@ + e
            }),
    {
        match params {
            TypeAliasParams::TypeAliasType { declared_params, legacy_params } => {
                let mut a: SmallMap<u64, Quantified> = small_map_new();
                let mut b: SmallMap<u64, Quantified> = small_map_new();
                let mut c: SmallMap<u64, Quantified> = small_map_new();
                let ghost st0 = DeclState {
                    type_vars: crate::small_map::small_map_entries(a),
                    type_var_tuples: crate::small_map::small_map_entries(b),
                    param_specs: crate::small_map::small_map_entries(c),
                    params: Seq::empty(),
                    errors: Seq::empty(),
                };
                assert(st0 == empty_decl());
                let ps = self.tvars_to_tparams_for_type_alias_type(declared_params, legacy_params, &mut a, &mut b, &mut c, range, errors);
                let mut out: Vec<TParam> = Vec::new();
                let mut i: usize = 0;
                while i < ps.len()
                    invariant
                        i <= ps@.len(),
                        out@ == ps@.take(i as int).map_values(|q: Quantified| plain_tparam(q)),
                    decreases ps.len() - i,
                {
                    out.push(TParam { quantified: ps[i], default: None });
                    i += 1;
                    assert(out@ =~= ps@.take(i as int).map_values(|q: Quantified| plain_tparam(q)));
                }
                assert(ps@.take(i as int) =~= ps@);
                (out, body)
            },
            TypeAliasParams::Legacy(Some(keys)) => {
                let qs = create_legacy_type_params(keys);
                let mut out: Vec<TParam> = Vec::new();
                let mut i: usize = 0;
                while i < qs.len()
                    invariant
                        i <= qs@.len(),
                        out@ == qs@.take(i as int).map_values(|q: Quantified| plain_tparam(q)),
                    decreases qs.len() - i,
                {
                    out.push(TParam { quantified: qs[i], default: None });
                    i += 1;
                    assert(out@ =~= qs@.take(i as int).map_values(|q: Quantified| plain_tparam(q)));
                }
                assert(qs@.take(i as int) =~= qs@);
                assert(old(errors)@ + Seq::<TypeError>::empty() =~= old(errors)@);
                (out, body)
            },
            TypeAliasParams::Legacy(None) => {
                assert(old(errors)@ + Seq::<TypeError>::empty() =~= old(errors)@);
                self.collect_in_order(body, range)
            },
            TypeAliasParams::Scoped(decls) => {
                let ghost st = collect(body, empty_collect(), self.module, range).1;
                let (extra, b) = self.collect_in_order(body, range);
                proof {
                    crate::alias_expand::law_collected_params_in_source_order(st.found);
                }
                if extra.len() > 0 {
                    errors.error(ErrorKind::InvalidTypeVar, range, ErrorMsg::UndeclaredTypeParams(name));
                } else {
                    assert(old(errors)@ + Seq::<TypeError>::empty() =~= old(errors)@);
                }
                let ghost e1 = errors@;
                let ps = match decls {
                    Some(d) => self.scoped_type_params(Some(d), errors),
                    None => self.scoped_type_params(None, errors),
                };
                assert(errors@ =~= old(errors)@ + self.spec_alias_params(name, body, *params, range).2);
                (ps, b)
            },
        }
    }

    /// Reports each bound parameter that `body` mentions and that is none of `own`'s, once,
    /// in order of first mention.
    fn report_out_of_scope(&self, body: &Type, own: &Vec<TParam>, range: TextRange, errors: &mut ErrorCollector)
        ensures
            final(errors)@ == old(errors)@ + out_of_scope(quantifieds_of(*body), own@.map_values(|p: TParam| p.quantified)).map_values(
                |q: Quantified| TypeError { kind: ErrorKind::InvalidTypeVar, range, msg: ErrorMsg::TypeVarNotInScope(q.name) },
            ),
    {
        let ghost own_qs = own@.map_values(|p: TParam| p.quantified);
        let mut own_set = small_key_set_new();
        let mut k: usize = 0;
        while k < own.len()
            invariant
                k <= own@.len(),
                own_qs == own@.map_values(|p: TParam| p.quantified),
                forall|x: QuantifiedKey| #[trigger] small_key_set_elems(own_set).contains(x) <==> own_qs.take(k as int).map_values(|q: Quantified| spec_quantified_key(q)).contains(x),
            decreases own.len() - k,
        {
            let key = quantified_key(&own[k].quantified);
            let ghost before = small_key_set_elems(own_set);
            small_key_set_insert(&mut own_set, key);
            proof {
                let f = |q: Quantified| spec_quantified_key(q);
                assert(own_qs.take(k + 1).map_values(f) =~= own_qs.take(k as int).map_values(f).push(key));
                assert forall|x: QuantifiedKey| #[trigger] small_key_set_elems(own_set).contains(x) <==> own_qs.take(k + 1).map_values(f).contains(x) by {
                    vstd::seq_lib::lemma_seq_contains_after_push(before, key, x);
                    vstd::seq_lib::lemma_seq_contains_after_push(own_qs.take(k as int).map_values(f), key, x);
                }
            }
            k += 1;
        }
        proof {
            assert(own_qs.take(k as int) =~= own_qs);
        }
        let mut qs: Vec<Quantified> = Vec::new();
        collect_quantifieds(body, &mut qs);
        assert(qs@ =~= quantifieds_of(*body));
        let mut found = small_key_set_new();
        let mut i: usize = 0;
        while i < qs.len()
            invariant
                i <= qs@.len(),
                own_qs == own@.map_values(|p: TParam| p.quantified),
                forall|x: QuantifiedKey| #[trigger] small_key_set_elems(own_set).contains(x) <==> own_qs.map_values(|q: Quantified| spec_quantified_key(q)).contains(x),
                small_key_set_elems(found) == out_of_scope(qs@.take(i as int), own_qs).map_values(|q: Quantified| spec_quantified_key(q)),
            decreases qs.len() - i,
        {
            let q = qs[i];
            let key = quantified_key(&q);
            let ghost f = |q: Quantified| spec_quantified_key(q);
            let ghost rest = out_of_scope(qs@.take(i as int), own_qs);
            proof {
                assert(qs@.take(i + 1).drop_last() =~= qs@.take(i as int));
                lemma_key_contains(own_qs, q);
                lemma_key_contains(rest, q);
            }
            if !small_key_set_contains(&own_set, key) {
                small_key_set_insert(&mut found, key);
            }
            proof {
                assert(rest.push(q).map_values(f) =~= rest.map_values(f).push(key));
            }
            i += 1;
        }
        assert(qs@.take(i as int) =~= qs@);
        let keys = small_key_set_to_vec(&found);
        let ghost out = out_of_scope(qs@, own_qs);
        let mut m: usize = 0;
        let ghost e0 = errors@;
        while m < keys.len()
            invariant
                m <= keys@.len(),
                keys@ == out.map_values(|q: Quantified| spec_quantified_key(q)),
                errors@ == e0 + out.take(m as int).map_values(
                    |q: Quantified| TypeError { kind: ErrorKind::InvalidTypeVar, range, msg: ErrorMsg::TypeVarNotInScope(q.name) },
                ),
            decreases keys.len() - m,
        {
            assert(keys@[m as int].5 == out[m as int].name);
            errors.error(ErrorKind::InvalidTypeVar, range, ErrorMsg::TypeVarNotInScope(keys[m].5));
            m += 1;
            assert(errors@ =~= e0 + out.take(m as int).map_values(
                |q: Quantified| TypeError { kind: ErrorKind::InvalidTypeVar, range, msg: ErrorMsg::TypeVarNotInScope(q.name) },
            ));
        }
        assert(out.take(m as int) =~= out);
    }

    /// The alias `name` wrapped under its parameters; see [`Self::spec_wrap_type_alias`].
    pub fn wrap_type_alias(
        &self,
        name: u64,
        ta: TypeAlias,
        params: &TypeAliasParams,
        current_index: Option<u64>,
        range: TextRange,
        errors: &mut ErrorCollector,
    ) -> (r: WrappedAlias)
        requires
            current_index is Some ==> self.alias_table_closed() && refs_in_table(ta.ty, self.module, self.type_aliases@.len()),
        ensures
            r@ == self.spec_wrap_type_alias(name, ta, *params, current_index, range).0,
            final(errors)@ == old(errors)@ + self.spec_wrap_type_alias(name, ta, *params, current_index, range).1,
    {
        let ghost spec = self.spec_wrap_type_alias(name, ta, *params, current_index, range);
        if ta.ty.is_error() {
            assert(old(errors)@ + Seq::<TypeError>::empty() =~= old(errors)@);
            return WrappedAlias::Error;
        }
        let TypeAlias { name: alias_name, ty, style } = ta;
        let mut cyclic_names: SmallSet<u64> = small_set_new();
        small_set_insert(&mut cyclic_names, name);
        assert(small_set_elems(cyclic_names) =~= seq![name]);
        let ty1 = match current_index {
            Some(index) => {
                let (t, recursive_refs) = self.expand_type_alias_refs(ty, index);
                let recs = crate::small_map::small_set_to_vec(&recursive_refs);
                let mut i: usize = 0;
                while i < recs.len()
                    invariant
                        i <= recs@.len(),
                        small_set_elems(cyclic_names) == insert_all(seq![name], recs@.take(i as int)),
                    decreases recs.len() - i,
                {
                    assert(recs@.take(i + 1).drop_last() =~= recs@.take(i as int));
                    small_set_insert(&mut cyclic_names, recs[i]);
                    i += 1;
                }
                assert(recs@.take(i as int) =~= recs@);
                t
            },
            None => {
                assert(small_set_elems(cyclic_names) == insert_all(seq![name], Seq::<u64>::empty()));
                ty
            },
        };
        let ta1 = TypeAlias { name: alias_name, ty: ty1, style };
        if self.type_alias_has_cyclic_reference(&cyclic_names, &ta1) {
            errors.error(ErrorKind::InvalidTypeAlias, range, ErrorMsg::CyclicSelfReference(name));
            return WrappedAlias::Error;
        }
        let TypeAlias { name: alias_name, ty: ty1, style } = ta1;
        let (tps, body) = self.alias_params(name, ty1, params, range, errors);
        let ghost e1 = errors@;
        if matches!(params, TypeAliasParams::Legacy(_)) {
            self.report_out_of_scope(&body, &tps, range, errors);
        } else {
            assert(errors@ + Seq::<TypeError>::empty() =~= errors@);
        }
        let ghost e2 = errors@;
        let ghost tps_view = tps@;
        let validated = validated_tparams(range, tps, TParamsSource::TypeAlias, errors);
        assert(errors@ =~= old(errors)@ + spec.1);
        WrappedAlias::Forall { alias: TypeAlias { name: alias_name, ty: body, style }, tparams: validated.tparams }
    }

    /// The parameters of a recursive reference to an alias anchored at `anchor`: found from
    /// the alias's own parameter sources as for [`Self::wrap_type_alias`] (a legacy alias
    /// whose parameters the binder could not find has none here), and validated; nothing is
    /// reported, as wrapping the alias reports it.
    pub fn create_type_alias_params_recursive(&self, tparams: &TypeAliasParams, anchor: TextRange) -> (r: TParams)
        ensures
            r.tparams@ == validate_run(self.spec_recursive_params(*tparams, anchor), anchor).out,
    {
        let mut swallowed = ErrorCollector::new();
        let params = match tparams {
            TypeAliasParams::Legacy(None) => Vec::new(),
            TypeAliasParams::Scoped(decls) => match decls {
                Some(d) => self.scoped_type_params(Some(d), &mut swallowed),
                None => self.scoped_type_params(None, &mut swallowed),
            },
            _ => self.alias_params(0, Type::Any(AnyStyle::Implicit), tparams, anchor, &mut swallowed).0,
        };
        validated_tparams(anchor, params, TParamsSource::TypeAlias, &mut swallowed)
    }

    /// What a reference to the alias `name` from inside its own definition stands for: a
    /// reference to the alias with index `index` of this module, under the parameters that
    /// [`Self::create_type_alias_params_recursive`] gives for the alias anchored at `anchor`.
    pub fn binding_to_type_alias_ref(&self, name: u64, index: u64, tparams: &TypeAliasParams, anchor: TextRange) -> (r: AliasRefForall)
        ensures
            r.alias == (AliasRef { name, module: self.module, index }),
            r.tparams@ == validate_run(self.spec_recursive_params(*tparams, anchor), anchor).out,
    {
        let ps = self.create_type_alias_params_recursive(tparams, anchor);
        AliasRefForall { alias: AliasRef { name, module: self.module, index }, tparams: ps.tparams }
    }

    /// The parameters a recursive reference to an alias sees, before validation.
    pub open spec fn spec_recursive_params(self, tparams: TypeAliasParams, anchor: TextRange) -> Seq<TParam> {
        match tparams {
            TypeAliasParams::Legacy(None) => Seq::empty(),
            TypeAliasParams::Scoped(Some(d)) => spec_scoped_params(d@).0,
            TypeAliasParams::Scoped(None) => Seq::empty(),
            _ => self.spec_alias_params(0, Type::Any(AnyStyle::Implicit), tparams, anchor).0,
        }
    }
}


/// An alias whose (expanded) body refers to itself cyclically is wrapped as an error, with
/// exactly one error reported, at the alias; an alias already in error stays one, with none.
pub proof fn law_cyclic_alias_is_one_error(solver: AnswersSolver, name: u64, ta: TypeAlias, params: TypeAliasParams, current_index: Option<u64>, range: TextRange)
    ensures
        ta.ty == Type::any_error() ==> solver.spec_wrap_type_alias(name, ta, params, current_index, range) == (WrappedAliasView::Error, Seq::<TypeError>::empty()),
        ({
            let (ty1, recs) = match current_index {
                Some(i) => solver.spec_expand_type_alias_refs(ta.ty, i),
                None => (ta.ty, Seq::empty()),
            };
            ta.ty != Type::any_error() && solver.spec_has_cyclic_reference(insert_all(seq![name], recs), TypeAlias { ty: ty1, ..ta })
        }) ==> solver.spec_wrap_type_alias(name, ta, params, current_index, range) == (
            WrappedAliasView::Error,
            one_error(ErrorKind::InvalidTypeAlias, range, ErrorMsg::CyclicSelfReference(name)),
        ),
{
}

} // verus!
