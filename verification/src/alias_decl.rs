//! The type parameters that a `TypeAliasType(..., type_params=(...))` call declares, checked
//! against the legacy type variables that the alias's value uses.

use vstd::prelude::*;
use starlark_map::small_map::SmallMap;
use crate::alias_params::alias_param;
use crate::errors::{ErrorCollector, ErrorKind, ErrorMsg, TextRange, TypeError};
use crate::small_map::{
    entries_insert, entries_remove, entry_lookup, lemma_entry_index_bounds, small_map_entries,
    small_map_get, small_map_insert, small_map_new, small_map_shift_remove, small_map_to_vec,
};
use crate::solver::AnswersSolver;
use crate::tparams::Scope;
use crate::type_form::UntypeContext;
use crate::types::{AnyStyle, Quantified, QuantifiedKind, Type, TypeVar};
use crate::untype::one_error;

verus! {

/// One entry of the `type_params` tuple: where it stands, and the type of the value it
/// evaluated to.
pub struct DeclaredParam {
    pub range: TextRange,
    pub value: Type,
}

/// A legacy type parameter key of an alias, as solved: a key that turned out to name a type
/// alias definition (and was left unsolved, as solving it would recurse into the alias), a
/// type parameter, or something that is no type parameter.
#[derive(Debug, PartialEq)]
pub enum LegacyParamKey {
    AliasDefinition,
    Parameter(Quantified),
    NotParameter,
}

/// The type parameters among the solved keys, in order.
pub open spec fn spec_create_legacy_type_params(keys: Seq<LegacyParamKey>) -> Seq<Quantified>
    decreases keys.len(),
{
    if keys.len() == 0 {
        Seq::empty()
    } else {
        let rest = spec_create_legacy_type_params(keys.drop_last());
        match keys.last() {
            LegacyParamKey::Parameter(q) => rest.push(q),
            _ => rest,
        }
    }
}

/// The type parameters among the solved keys, in order.
pub fn create_legacy_type_params(keys: &Vec<LegacyParamKey>) -> (r: Vec<Quantified>)
    ensures
        r@ == spec_create_legacy_type_params(keys@),
{
    let mut out: Vec<Quantified> = Vec::new();
    let mut i: usize = 0;
    while i < keys.len()
        invariant
            i <= keys@.len(),
            out@ == spec_create_legacy_type_params(keys@.take(i as int)),
        decreases keys.len() - i,
    {
        assert(keys@.take(i + 1).drop_last() =~= keys@.take(i as int));
        match &keys[i] {
            LegacyParamKey::Parameter(q) => out.push(*q),
            _ => {},
        }
        i += 1;
    }
    assert(keys@.take(i as int) =~= keys@);
    out
}

/// The state of walking the declared parameters: the variables met so far, one map per
/// kind, the parameters made for them in order, and the errors reported.
pub struct DeclState {
    pub type_vars: Scope,
    pub type_var_tuples: Scope,
    pub param_specs: Scope,
    pub params: Seq<Quantified>,
    pub errors: Seq<TypeError>,
}

/// Declaring the variable `v` of kind `kind` at `range` in `scope`: a variable declared
/// twice is reported; otherwise its parameter is recorded and appended.
pub open spec fn declare_var(scope: Scope, params: Seq<Quantified>, module: u64, anchor: TextRange, v: TypeVar, kind: QuantifiedKind, range: TextRange) -> (Scope, Seq<Quantified>, Seq<TypeError>) {
    match entry_lookup(scope, v.id) {
        Some(_) => (scope, params, one_error(ErrorKind::InvalidTypeAlias, range, ErrorMsg::DuplicateTypeVariable(v.name))),
        None => {
            let q = alias_param(module, anchor, v, kind);
            (entries_insert(scope, v.id, q), params.push(q), Seq::empty())
        },
    }
}

/// The parameters used by the alias, keyed by name; a later one of the same name takes the
/// earlier one's place.
pub open spec fn legacy_by_name(ps: Seq<Quantified>) -> Scope
    decreases ps.len(),
{
    if ps.len() == 0 {
        Seq::empty()
    } else {
        entries_insert(legacy_by_name(ps.drop_last()), ps.last().name, ps.last())
    }
}

/// Each declared parameter replaced with the used parameter of its name, if there is one,
/// which is then taken out of `legacy`; with what is left of `legacy`.
pub open spec fn reconcile(params: Seq<Quantified>, legacy: Scope) -> (Seq<Quantified>, Scope)
    decreases params.len(),
{
    if params.len() == 0 {
        (Seq::empty(), legacy)
    } else {
        let p = params[0];
        let (p2, l2) = match entry_lookup(legacy, p.name) {
            Some(q) => (q, entries_remove(legacy, p.name)),
            None => (p, legacy),
        };
        let (rest, l3) = reconcile(params.drop_first(), l2);
        (seq![p2] + rest, l3)
    }
}

/// An error at `range` for each used parameter that was not declared, in order.
pub open spec fn out_of_scope_errors(left: Scope, range: TextRange) -> Seq<TypeError> {
    left.map_values(
        |e: (u64, Quantified)|
            TypeError { kind: ErrorKind::InvalidTypeAlias, range, msg: ErrorMsg::OutOfScopeTypeVariable(e.1.name) },
    )
}

impl AnswersSolver {
    /// One declared parameter: its value is untyped as a generic base (a value that is no
    /// type is reported and skipped, as is an error type); a TypeVar, TypeVarTuple or
    /// ParamSpec is declared; anything else is reported.
    pub open spec fn declare_step(self, st: DeclState, d: DeclaredParam, anchor: TextRange) -> DeclState {
        let (u, e) = self.spec_untype_opt(d.value, d.range, UntypeContext::GenericBase);
        let (ty, e1) = match u {
            Some(t) => (t, e),
            None => (Type::any_error(), e + one_error(ErrorKind::NotAType, d.range, ErrorMsg::ExpectedTypeForm(d.value))),
        };
        let errs = st.errors + e1;
        match ty {
            Type::Any(AnyStyle::Error) => DeclState { errors: errs, ..st },
            Type::TypeVar(v) => {
                let (sc, ps, e2) = declare_var(st.type_vars, st.params, self.module, anchor, v, QuantifiedKind::TypeVar, d.range);
                DeclState { type_vars: sc, params: ps, errors: errs + e2, ..st }
            },
            Type::TypeVarTuple(v) => {
                let (sc, ps, e2) = declare_var(st.type_var_tuples, st.params, self.module, anchor, v, QuantifiedKind::TypeVarTuple, d.range);
                DeclState { type_var_tuples: sc, params: ps, errors: errs + e2, ..st }
            },
            Type::ParamSpec(v) => {
                let (sc, ps, e2) = declare_var(st.param_specs, st.params, self.module, anchor, v, QuantifiedKind::ParamSpec, d.range);
                DeclState { param_specs: sc, params: ps, errors: errs + e2, ..st }
            },
            _ => DeclState {
                errors: errs + one_error(ErrorKind::InvalidTypeAlias, d.range, ErrorMsg::ExpectedTypeVariable(ty)),
                ..st
            },
        }
    }

    /// The declared parameters walked in order.
    pub open spec fn declare_run(self, st: DeclState, ds: Seq<DeclaredParam>, anchor: TextRange) -> DeclState
        decreases ds.len(),
    {
        if ds.len() == 0 {
            st
        } else {
            self.declare_step(self.declare_run(st, ds.drop_last(), anchor), ds.last(), anchor)
        }
    }

    /// The parameters of the alias anchored at `anchor`, from its declared parameters `ds`
    /// and the parameters its value uses (`legacy`), starting from the variables already
    /// met in `st`: each declared parameter that is used is the used one; a used parameter
    /// that is not declared is reported as out of scope. Also the variables met, and the
    /// errors.
    pub open spec fn spec_alias_type_params(self, st: DeclState, ds: Seq<DeclaredParam>, legacy: Seq<Quantified>, anchor: TextRange) -> (Seq<Quantified>, DeclState) {
        let run = self.declare_run(st, ds, anchor);
        let (ps, left) = reconcile(run.params, legacy_by_name(legacy));
        (ps, DeclState { errors: run.errors + out_of_scope_errors(left, anchor), ..run })
    }
}

proof fn lemma_reconcile_skip(params: Seq<Quantified>, i: int, legacy: Scope)
    requires
        0 <= i < params.len(),
    ensures
        reconcile(params.skip(i), legacy) == ({
            let p = params[i];
            let (p2, l2) = match entry_lookup(legacy, p.name) {
                Some(q) => (q, entries_remove(legacy, p.name)),
                None => (p, legacy),
            };
            let (rest, l3) = reconcile(params.skip(i + 1), l2);
            (seq![p2] + rest, l3)
        }),
{
    assert(params.skip(i).drop_first() =~= params.skip(i + 1));
}

/// Declares the variable `v` of kind `kind` in `map`, as [`declare_var`] does.
fn declare_one(
    map: &mut SmallMap<u64, Quantified>,
    params: &mut Vec<Quantified>,
    module: u64,
    anchor: TextRange,
    v: TypeVar,
    kind: QuantifiedKind,
    range: TextRange,
    errors: &mut ErrorCollector,
)
    ensures
        ({
            let (sc, ps, e) = declare_var(small_map_entries(*old(map)), old(params)@, module, anchor, v, kind, range);
            &&& small_map_entries(*final(map)) == sc
            &&& final(params)@ == ps
            &&& final(errors)@ == old(errors)@ + e
        }),
{
    match small_map_get(map, v.id) {
        Some(_) => {
            errors.error(ErrorKind::InvalidTypeAlias, range, ErrorMsg::DuplicateTypeVariable(v.name));
        },
        None => {
            let q = Quantified {
                identity: crate::types::QuantifiedIdentity {
                    module,
                    anchor_start: anchor.start,
                    anchor_end: anchor.end,
                    ordinal: v.decl_start,
                    origin: crate::types::QuantifiedOrigin::ScopedLegacy,
                },
                name: v.name,
                kind,
            };
            small_map_insert(map, v.id, q);
            params.push(q);
            assert(old(errors)@ + Seq::<TypeError>::empty() =~= old(errors)@);
        },
    }
}

impl AnswersSolver {
    /// The parameters declared by `TypeAliasType(..., type_params=(...))` for the alias
    /// anchored at `range`; see [`Self::spec_alias_type_params`]. `legacy_keys` are the keys
    /// of the parameters that the alias's value uses; the three maps hold the variables met
    /// so far.
    pub fn tvars_to_tparams_for_type_alias_type(
        &self,
        exprs: &Vec<DeclaredParam>,
        legacy_keys: &Vec<LegacyParamKey>,
        seen_type_vars: &mut SmallMap<u64, Quantified>,
        seen_type_var_tuples: &mut SmallMap<u64, Quantified>,
        seen_param_specs: &mut SmallMap<u64, Quantified>,
        range: TextRange,
        errors: &mut ErrorCollector,
    ) -> (r: Vec<Quantified>)
        ensures
            ({
                let st0 = DeclState {
                    type_vars: small_map_entries(*old(seen_type_vars)),
                    type_var_tuples: small_map_entries(*old(seen_type_var_tuples)),
                    param_specs: small_map_entries(*old(seen_param_specs)),
                    params: Seq::empty(),
                    errors: Seq::empty(),
                };
                let (ps, st) = self.spec_alias_type_params(st0, exprs@, spec_create_legacy_type_params(legacy_keys@), range);
                &&& r@ == ps
                &&& small_map_entries(*final(seen_type_vars)) == st.type_vars
                &&& small_map_entries(*final(seen_type_var_tuples)) == st.type_var_tuples
                &&& small_map_entries(*final(seen_param_specs)) == st.param_specs
                &&& final(errors)@ == old(errors)@ + st.errors
            }),
    {
        let ghost st0 = DeclState {
            type_vars: small_map_entries(*seen_type_vars),
            type_var_tuples: small_map_entries(*seen_type_var_tuples),
            param_specs: small_map_entries(*seen_param_specs),
            params: Seq::empty(),
            errors: Seq::empty(),
        };
        let mut tparams: Vec<Quantified> = Vec::new();
        let mut i: usize = 0;
        while i < exprs.len()
            invariant
                i <= exprs@.len(),
                ({
                    let st = self.declare_run(st0, exprs@.take(i as int), range);
                    &&& small_map_entries(*seen_type_vars) == st.type_vars
                    &&& small_map_entries(*seen_type_var_tuples) == st.type_var_tuples
                    &&& small_map_entries(*seen_param_specs) == st.param_specs
                    &&& tparams@ == st.params
                    &&& errors@ == old(errors)@ + st.errors
                }),
            decreases exprs.len() - i,
        {
            let ghost prev = self.declare_run(st0, exprs@.take(i as int), range);
            let ghost e_before = errors@;
            let d = &exprs[i];
            assert(exprs@.take(i + 1).drop_last() =~= exprs@.take(i as int));
            let untyped = self.untype_opt_with_context(d.value.deep_clone(), d.range, errors, UntypeContext::GenericBase);
            let ty = match untyped {
                Some(t) => t,
                None => {
                    errors.error(ErrorKind::NotAType, d.range, ErrorMsg::ExpectedTypeForm(d.value.deep_clone()));
                    Type::Any(AnyStyle::Error)
                },
            };
            let ghost e_mid = errors@;
            match ty {
                Type::Any(AnyStyle::Error) => {},
                Type::TypeVar(v) => {
                    declare_one(seen_type_vars, &mut tparams, self.module, range, v, QuantifiedKind::TypeVar, d.range, errors);
                },
                Type::TypeVarTuple(v) => {
                    declare_one(seen_type_var_tuples, &mut tparams, self.module, range, v, QuantifiedKind::TypeVarTuple, d.range, errors);
                },
                Type::ParamSpec(v) => {
                    declare_one(seen_param_specs, &mut tparams, self.module, range, v, QuantifiedKind::ParamSpec, d.range, errors);
                },
                other => {
                    errors.error(ErrorKind::InvalidTypeAlias, d.range, ErrorMsg::ExpectedTypeVariable(other));
                },
            }
            proof {
                let next = self.declare_run(st0, exprs@.take(i + 1), range);
                assert(next == self.declare_step(prev, exprs@[i as int], range));
                assert(errors@ =~= old(errors)@ + next.errors);
            }
            i += 1;
        }
        assert(exprs@.take(i as int) =~= exprs@);
        let ghost run = self.declare_run(st0, exprs@, range);
        // The parameters the value uses, by name.
        let legacy_params = create_legacy_type_params(legacy_keys);
        let mut legacy = small_map_new();
        let mut j: usize = 0;
        while j < legacy_params.len()
            invariant
                j <= legacy_params@.len(),
                small_map_entries(legacy) == legacy_by_name(legacy_params@.take(j as int)),
            decreases legacy_params.len() - j,
        {
            let p = legacy_params[j];
            assert(legacy_params@.take(j + 1).drop_last() =~= legacy_params@.take(j as int));
            small_map_insert(&mut legacy, p.name, p);
            j += 1;
        }
        assert(legacy_params@.take(j as int) =~= legacy_params@);
        let ghost legacy0 = small_map_entries(legacy);
        // A declared parameter that the value uses is the used one.
        let mut out: Vec<Quantified> = Vec::new();
        let mut k: usize = 0;
        proof {
            assert(run.params.skip(0) =~= run.params);
            let (rest, left) = reconcile(run.params, legacy0);
            assert(out@ + rest =~= rest);
        }
        while k < tparams.len()
            invariant
                k <= tparams@.len(),
                tparams@ == run.params,
                reconcile(run.params, legacy0) == ({
                    let (rest, left) = reconcile(run.params.skip(k as int), small_map_entries(legacy));
                    (out@ + rest, left)
                }),
            decreases tparams.len() - k,
        {
            let p = tparams[k];
            proof {
                lemma_reconcile_skip(run.params, k as int, small_map_entries(legacy));
            }
            let ghost before = small_map_entries(legacy);
            let replaced = small_map_shift_remove(&mut legacy, p.name);
            match replaced {
                Some(q) => out.push(q),
                None => {
                    proof {
                        lemma_entry_index_bounds(before, p.name);
                    }
                    assert(small_map_entries(legacy) == before);
                    out.push(p);
                },
            }
            k += 1;
        }
        proof {
            assert(run.params.skip(k as int) =~= Seq::<Quantified>::empty());
            assert(out@ + Seq::<Quantified>::empty() =~= out@);
        }
        // A used parameter that was not declared is out of scope.
        let left = small_map_to_vec(&legacy);
        let ghost e_before = errors@;
        let mut m: usize = 0;
        while m < left.len()
            invariant
                m <= left@.len(),
                errors@ == e_before + out_of_scope_errors(left@.take(m as int), range),
            decreases left.len() - m,
        {
            errors.error(ErrorKind::InvalidTypeAlias, range, ErrorMsg::OutOfScopeTypeVariable(left[m].1.name));
            m += 1;
            assert(out_of_scope_errors(left@.take(m as int), range) =~= out_of_scope_errors(left@.take(m - 1), range).push(
                TypeError { kind: ErrorKind::InvalidTypeAlias, range, msg: ErrorMsg::OutOfScopeTypeVariable(left@[m - 1].1.name) },
            ));
        }
        assert(left@.take(m as int) =~= left@);
        assert(errors@ =~= old(errors)@ + (run.errors + out_of_scope_errors(left@, range)));
        out
    }
}


/// What a name that may be a legacy type parameter turned out to be: a parameter of the
/// scope, or something else, with its type.
#[derive(Debug, PartialEq)]
pub enum LegacyTypeParameterLookup {
    Parameter(Quantified),
    NotParameter(Type),
}

/// The parameter that a legacy type variable `v` of kind `kind` is in the scope whose first
/// use of it is at `scope_anchor`: each scope gets its own parameter, even for a variable
/// that several scopes share.
pub open spec fn scope_param(module: u64, scope_anchor: TextRange, v: TypeVar, kind: QuantifiedKind) -> Quantified {
    Quantified {
        identity: crate::types::QuantifiedIdentity {
            module,
            anchor_start: scope_anchor.start,
            anchor_end: scope_anchor.end,
            ordinal: 0,
            origin: crate::types::QuantifiedOrigin::ScopedLegacy,
        },
        name: v.name,
        kind,
    }
}

impl AnswersSolver {
    /// What a name whose value has type `value` is in the scope anchored at `scope_anchor`:
    /// a TypeVar, TypeVarTuple or ParamSpec is a parameter of the scope; anything else is
    /// not a parameter.
    pub open spec fn spec_solve_legacy_tparam(self, value: Type, scope_anchor: TextRange) -> LegacyTypeParameterLookup {
        match value {
            Type::TypeVar(v) => LegacyTypeParameterLookup::Parameter(scope_param(self.module, scope_anchor, v, QuantifiedKind::TypeVar)),
            Type::TypeVarTuple(v) => LegacyTypeParameterLookup::Parameter(scope_param(self.module, scope_anchor, v, QuantifiedKind::TypeVarTuple)),
            Type::ParamSpec(v) => LegacyTypeParameterLookup::Parameter(scope_param(self.module, scope_anchor, v, QuantifiedKind::ParamSpec)),
            _ => LegacyTypeParameterLookup::NotParameter(value),
        }
    }

    /// What a name that may be a legacy type parameter is; see
    /// [`Self::spec_solve_legacy_tparam`].
    pub fn solve_legacy_tparam(&self, value: &Type, scope_anchor: TextRange) -> (r: LegacyTypeParameterLookup)
        ensures
            r == self.spec_solve_legacy_tparam(*value, scope_anchor),
    {
        let identity = crate::types::QuantifiedIdentity {
            module: self.module,
            anchor_start: scope_anchor.start,
            anchor_end: scope_anchor.end,
            ordinal: 0,
            origin: crate::types::QuantifiedOrigin::ScopedLegacy,
        };
        match value {
            Type::TypeVar(v) => LegacyTypeParameterLookup::Parameter(Quantified { identity, name: v.name, kind: QuantifiedKind::TypeVar }),
            Type::TypeVarTuple(v) => LegacyTypeParameterLookup::Parameter(
                Quantified { identity, name: v.name, kind: QuantifiedKind::TypeVarTuple },
            ),
            Type::ParamSpec(v) => LegacyTypeParameterLookup::Parameter(Quantified { identity, name: v.name, kind: QuantifiedKind::ParamSpec }),
            _ => LegacyTypeParameterLookup::NotParameter(value.deep_clone()),
        }
    }
}


/// Two scopes whose first uses of the same type variable are at different places get
/// different parameters for it, though they share its declaration.
pub proof fn law_legacy_params_distinct_per_scope(solver: AnswersSolver, value: Type, a1: TextRange, a2: TextRange)
    requires
        a1 != a2,
        value is TypeVar || value is TypeVarTuple || value is ParamSpec,
    ensures
        solver.spec_solve_legacy_tparam(value, a1) != solver.spec_solve_legacy_tparam(value, a2),
        solver.spec_solve_legacy_tparam(value, a1) is Parameter,
{
    let p1 = solver.spec_solve_legacy_tparam(value, a1);
    let p2 = solver.spec_solve_legacy_tparam(value, a2);
    assert(a1.start != a2.start || a1.end != a2.end);
    assert(p1->Parameter_0.identity != p2->Parameter_0.identity);
}

/// Where a type parameter that is out of scope was found.
pub enum OuterTypeParameterSource {
    /// A type parameter (PEP 695) of an enclosing class, by name.
    TypeParameter(u64),
    /// A legacy type variable, with the type its lookup gives.
    PossibleLegacyTParam(Type),
}

impl AnswersSolver {
    /// The value a name that may be a legacy type variable has in a scope: the value of the
    /// scope's parameter for it, where it is one, with an error where the scope also has a
    /// type parameter list, and one where it shadows an enclosing scope's parameter; or the
    /// name's own type.
    pub open spec fn spec_possible_legacy_tparam(
        self,
        lookup: LegacyTypeParameterLookup,
        name: u64,
        range: TextRange,
        has_scoped_tparams: bool,
        shadows_enclosing: bool,
    ) -> (Type, Seq<TypeError>) {
        match lookup {
            LegacyTypeParameterLookup::Parameter(q) => (
                Type::TypeOf(Box::new(Type::Quantified(q))),
                (if has_scoped_tparams {
                    one_error(ErrorKind::InvalidTypeVar, range, ErrorMsg::TypeParamNotInList(name))
                } else {
                    Seq::empty()
                }) + (if shadows_enclosing {
                    one_error(ErrorKind::InvalidTypeVar, range, ErrorMsg::TypeParamShadowsEnclosing(name))
                } else {
                    Seq::empty()
                }),
            ),
            LegacyTypeParameterLookup::NotParameter(t) => (t, Seq::empty()),
        }
    }

    /// The value a name that may be a legacy type variable has; see
    /// [`Self::spec_possible_legacy_tparam`].
    pub fn binding_to_type_possible_legacy_tparam(
        &self,
        lookup: &LegacyTypeParameterLookup,
        name: u64,
        range: TextRange,
        has_scoped_tparams: bool,
        shadows_enclosing: bool,
        errors: &mut ErrorCollector,
    ) -> (r: Type)
        ensures
            r == self.spec_possible_legacy_tparam(*lookup, name, range, has_scoped_tparams, shadows_enclosing).0,
            final(errors)@ == old(errors)@ + self.spec_possible_legacy_tparam(
                *lookup,
                name,
                range,
                has_scoped_tparams,
                shadows_enclosing,
            ).1,
    {
        match lookup {
            LegacyTypeParameterLookup::Parameter(q) => {
                if has_scoped_tparams {
                    errors.error(ErrorKind::InvalidTypeVar, range, ErrorMsg::TypeParamNotInList(name));
                }
                if shadows_enclosing {
                    errors.error(ErrorKind::InvalidTypeVar, range, ErrorMsg::TypeParamShadowsEnclosing(name));
                }
                assert(errors@ =~= old(errors)@ + self.spec_possible_legacy_tparam(
                    *lookup,
                    name,
                    range,
                    has_scoped_tparams,
                    shadows_enclosing,
                ).1);
                Type::TypeOf(Box::new(Type::Quantified(*q)))
            },
            LegacyTypeParameterLookup::NotParameter(t) => {
                assert(old(errors)@ + Seq::<TypeError>::empty() =~= old(errors)@);
                t.deep_clone()
            },
        }
    }

    /// A type parameter used out of its scope: a legacy type variable keeps what its lookup
    /// gives (the lists of type parameters report it); any other is reported at `range` and
    /// gives the error type.
    pub open spec fn spec_outer_class_type_parameter(self, source: OuterTypeParameterSource, range: TextRange) -> (Type, Seq<TypeError>) {
        match source {
            OuterTypeParameterSource::TypeParameter(name) => (
                Type::any_error(),
                one_error(ErrorKind::InvalidTypeVar, range, ErrorMsg::TypeVarNotInScope(name)),
            ),
            OuterTypeParameterSource::PossibleLegacyTParam(t) => (t, Seq::empty()),
        }
    }

    /// A type parameter used out of its scope; see [`Self::spec_outer_class_type_parameter`].
    pub fn binding_to_type_outer_class_type_parameter(&self, source: &OuterTypeParameterSource, range: TextRange, errors: &mut ErrorCollector) -> (r: Type)
        ensures
            r == self.spec_outer_class_type_parameter(*source, range).0,
            final(errors)@ == old(errors)@ + self.spec_outer_class_type_parameter(*source, range).1,
    {
        match source {
            OuterTypeParameterSource::TypeParameter(name) => {
                errors.error(ErrorKind::InvalidTypeVar, range, ErrorMsg::TypeVarNotInScope(*name));
                Type::Any(AnyStyle::Error)
            },
            OuterTypeParameterSource::PossibleLegacyTParam(t) => {
                assert(old(errors)@ + Seq::<TypeError>::empty() =~= old(errors)@);
                t.deep_clone()
            },
        }
    }
}

} // verus!
