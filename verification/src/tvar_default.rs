//! Checking the default of a type parameter against its restriction and its kind.

use vstd::prelude::*;
use crate::errors::{ErrorCollector, ErrorKind, ErrorMsg, TextRange, TypeError};
use crate::solver::AnswersSolver;
use crate::types::{AnyStyle, ClassType, QuantifiedKind, Type, TypeList};
use crate::union::{spec_unions, unions};
use crate::untype::one_error;

verus! {

/// The restriction of a type parameter, as its default is checked against it: unrestricted;
/// a bound, with the solver's verdict on whether [`spec_default_for_bound_check`] is
/// assignable to it; constraints (the solver's verdicts on them are handed in apart); or a
/// shape flag (a restriction of the tensor-shape layer), with the default as that layer
/// validated it, which reports its own errors.
#[derive(Debug, PartialEq)]
pub enum RestrictionCheck {
    Unrestricted,
    Bound { assignable: bool },
    Constraints,
    Flag { validated: Type },
}

/// The restriction of a type variable that is itself the default of another.
pub enum TypeVarRestriction {
    Unrestricted,
    Bound(Type),
    Constraints(Vec<Type>),
    /// A shape flag, with the upper bound it gives.
    Flag(Type),
}

/// Whether a default is a type variable (a legacy `TypeVar` or a bound one).
pub open spec fn is_type_var_default(default: Type) -> bool {
    default is TypeVar || (default matches Type::Quantified(q) && q.kind == QuantifiedKind::TypeVar)
}

/// What is checked against a bound: for a default that is a type variable, its own upper
/// bound (its bound, the union of its constraints, or `object`); otherwise the default.
/// (A type variable whose restriction is not given is checked as itself.)
pub open spec fn spec_default_for_bound_check(default: Type, restriction: Option<TypeVarRestriction>, object: u64) -> Type {
    if is_type_var_default(default) {
        match restriction {
            Some(TypeVarRestriction::Unrestricted) => Type::ClassType(ClassType { class: object, targs: TypeList::Nil }),
            Some(TypeVarRestriction::Bound(b)) => b,
            Some(TypeVarRestriction::Constraints(cs)) => spec_unions(cs@),
            Some(TypeVarRestriction::Flag(b)) => b,
            None => default,
        }
    } else {
        default
    }
}

/// What must each match one of the constraints: for a default that is a constrained type
/// variable, each of its constraints; for any other type variable, nothing can (none);
/// otherwise the default.
pub open spec fn spec_constraint_items(default: Type, restriction: Option<TypeVarRestriction>) -> Option<Seq<Type>> {
    if is_type_var_default(default) {
        match restriction {
            Some(TypeVarRestriction::Constraints(cs)) => Some(cs@),
            Some(_) => None,
            None => Some(seq![default]),
        }
    } else {
        Some(seq![default])
    }
}

/// Whether the constraints are met, given for each item of [`spec_constraint_items`] the
/// solver's verdicts on whether each constraint is consistent with it: every item matches
/// some constraint.
pub open spec fn constraints_met(items: Option<Seq<Type>>, consistent: Seq<Seq<bool>>) -> bool {
    match items {
        None => false,
        Some(its) => its.len() <= consistent.len() && forall|j: int| 0 <= j < its.len() ==> #[trigger] consistent[j].contains(true),
    }
}

/// The verdicts, row by row, as sequences.
pub open spec fn matrix_view(m: Seq<Vec<bool>>) -> Seq<Seq<bool>> {
    m.map_values(|row: Vec<bool>| row@)
}

/// The kind of error reported for a bad default of a parameter of kind `kind`.
pub open spec fn spec_quantified_error(kind: QuantifiedKind) -> ErrorKind {
    match kind {
        QuantifiedKind::TypeVar | QuantifiedKind::IntVar => ErrorKind::InvalidTypeVar,
        QuantifiedKind::ParamSpec => ErrorKind::InvalidParamSpec,
        QuantifiedKind::TypeVarTuple => ErrorKind::InvalidTypeVarTuple,
    }
}

pub fn quantified_error(kind: QuantifiedKind) -> (r: ErrorKind)
    ensures
        r == spec_quantified_error(kind),
{
    match kind {
        QuantifiedKind::TypeVar | QuantifiedKind::IntVar => ErrorKind::InvalidTypeVar,
        QuantifiedKind::ParamSpec => ErrorKind::InvalidParamSpec,
        QuantifiedKind::TypeVarTuple => ErrorKind::InvalidTypeVarTuple,
    }
}

/// The default of the parameter `name` of kind `kind`, checked at `range`: an error type is
/// kept; under a shape flag the default is what the shape layer validated; a default that
/// breaks the restriction (PEP 696: a type variable default through its own upper bound,
/// and against constraints only if it is constrained itself, each of its constraints
/// matching one) is reported and becomes an error `Any`; then
/// a ParamSpec's default must be a parameter list (`...` or a ParamSpec), a TypeVarTuple's
/// an unpacked tuple or TypeVarTuple (which it becomes, unpacked), and a TypeVar's neither
/// of those.
pub open spec fn spec_validate_type_var_default(
    name: u64,
    kind: QuantifiedKind,
    default: Type,
    range: TextRange,
    restriction: RestrictionCheck,
    default_restriction: Option<TypeVarRestriction>,
    consistent: Seq<Seq<bool>>,
) -> (Type, Seq<TypeError>) {
    if default == Type::Any(AnyStyle::Error) {
        (default, Seq::empty())
    } else if restriction is Flag {
        (restriction->validated, Seq::empty())
    } else if restriction == (RestrictionCheck::Bound { assignable: false }) {
        (Type::any_error(), one_error(spec_quantified_error(kind), range, ErrorMsg::DefaultNotAssignableToBound(name, default)))
    } else if restriction is Constraints && !constraints_met(spec_constraint_items(default, default_restriction), consistent) {
        (Type::any_error(), one_error(spec_quantified_error(kind), range, ErrorMsg::DefaultNotInConstraints(name, default)))
    } else {
        match kind {
            QuantifiedKind::ParamSpec => if default.spec_is_kind_param_spec() {
                (default, Seq::empty())
            } else {
                (Type::any_error(), one_error(ErrorKind::InvalidParamSpec, range, ErrorMsg::ParamSpecDefault(default)))
            },
            QuantifiedKind::TypeVarTuple => match default {
                Type::Unpack(inner) if (*inner) is Tuple || (*inner).spec_is_kind_type_var_tuple() => (*inner, Seq::empty()),
                _ => (Type::any_error(), one_error(ErrorKind::InvalidTypeVarTuple, range, ErrorMsg::TypeVarTupleDefault(default))),
            },
            _ => if default.spec_is_kind_param_spec() || default.spec_is_kind_type_var_tuple() {
                (Type::any_error(), one_error(ErrorKind::InvalidTypeVar, range, ErrorMsg::TypeVarDefaultKind(kind, default)))
            } else {
                (default, Seq::empty())
            },
        }
    }
}

/// A copy of `v`.
fn clone_type_vec(v: &Vec<Type>) -> (r: Vec<Type>)
    ensures
        r@ == v@,
{
    let mut r: Vec<Type> = Vec::new();
    let mut i: usize = 0;
    while i < v.len()
        invariant
            i <= v@.len(),
            r@ == v@.take(i as int),
        decreases v.len() - i,
    {
        r.push(v[i].deep_clone());
        i += 1;
        assert(r@ =~= v@.take(i as int));
    }
    assert(v@.take(i as int) =~= v@);
    r
}

/// Whether `row` holds a `true`.
fn any_true(row: &Vec<bool>) -> (r: bool)
    ensures
        r == row@.contains(true),
{
    let mut i: usize = 0;
    while i < row.len()
        invariant
            i <= row@.len(),
            forall|k: int| 0 <= k < i ==> !row@[k],
        decreases row.len() - i,
    {
        if row[i] {
            assert(row@[i as int]);
            return true;
        }
        i += 1;
    }
    false
}

impl AnswersSolver {
    /// Whether the constraints are met; see [`constraints_met`].
    fn constraints_are_met(&self, default: &Type, default_restriction: &Option<TypeVarRestriction>, consistent: &Vec<Vec<bool>>) -> (r: bool)
        ensures
            r == constraints_met(spec_constraint_items(*default, *default_restriction), matrix_view(consistent@)),
    {
        let items = self.constraint_items(default, default_restriction);
        let n = match &items {
            Some(v) => v.len(),
            None => return false,
        };
        let ghost its = spec_constraint_items(*default, *default_restriction).unwrap();
        let ghost m = matrix_view(consistent@);
        assert(its.len() == n);
        assert(m.len() == consistent@.len());
        let mut j: usize = 0;
        while j < n
            invariant
                j <= n,
                n == its.len(),
                spec_constraint_items(*default, *default_restriction) == Some(its),
                m == matrix_view(consistent@),
                m.len() == consistent@.len(),
                j <= m.len(),
                forall|k: int| 0 <= k < j ==> #[trigger] m[k].contains(true),
            decreases n - j,
        {
            if j >= consistent.len() {
                assert(!constraints_met(Some(its), m));
                return false;
            }
            assert(m[j as int] == consistent@[j as int]@);
            if !any_true(&consistent[j]) {
                assert(!m[j as int].contains(true));
                assert(!constraints_met(Some(its), m));
                return false;
            }
            j += 1;
        }
        assert(constraints_met(Some(its), m));
        true
    }

    /// What the default is checked against a bound as; see [`spec_default_for_bound_check`].
    pub fn default_for_bound_check(&self, default: &Type, default_restriction: &Option<TypeVarRestriction>) -> (r: Type)
        ensures
            r == spec_default_for_bound_check(*default, *default_restriction, self.stdlib.object),
    {
        let is_tv = match default {
            Type::TypeVar(_) => true,
            Type::Quantified(q) => matches!(q.kind, QuantifiedKind::TypeVar),
            _ => false,
        };
        if !is_tv {
            return default.deep_clone();
        }
        match default_restriction {
            Some(TypeVarRestriction::Unrestricted) => Type::ClassType(ClassType { class: self.stdlib.object, targs: TypeList::Nil }),
            Some(TypeVarRestriction::Bound(b)) => b.deep_clone(),
            Some(TypeVarRestriction::Constraints(cs)) => unions(clone_type_vec(cs)),
            Some(TypeVarRestriction::Flag(b)) => b.deep_clone(),
            None => default.deep_clone(),
        }
    }

    /// What must each match one of the constraints; see [`spec_constraint_items`].
    pub fn constraint_items(&self, default: &Type, default_restriction: &Option<TypeVarRestriction>) -> (r: Option<Vec<Type>>)
        ensures
            match r {
                Some(v) => spec_constraint_items(*default, *default_restriction) == Some(v@),
                None => spec_constraint_items(*default, *default_restriction) is None,
            },
    {
        let is_tv = match default {
            Type::TypeVar(_) => true,
            Type::Quantified(q) => matches!(q.kind, QuantifiedKind::TypeVar),
            _ => false,
        };
        let mut one: Vec<Type> = Vec::new();
        one.push(default.deep_clone());
        assert(one@ =~= seq![*default]);
        if !is_tv {
            return Some(one);
        }
        match default_restriction {
            Some(TypeVarRestriction::Constraints(cs)) => Some(clone_type_vec(cs)),
            Some(_) => None,
            None => Some(one),
        }
    }

    /// Checks the default of the type parameter `name`; see
    /// [`spec_validate_type_var_default`]. For constraints, `consistent` holds, for each item
    /// of [`spec_constraint_items`], the solver's verdict on whether each constraint is
    /// consistent with it.
    pub fn validate_type_var_default(
        &self,
        name: u64,
        kind: QuantifiedKind,
        default: &Type,
        range: TextRange,
        restriction: &RestrictionCheck,
        default_restriction: &Option<TypeVarRestriction>,
        consistent: &Vec<Vec<bool>>,
        errors: &mut ErrorCollector,
    ) -> (r: Type)
        ensures
            r == spec_validate_type_var_default(name, kind, *default, range, *restriction, *default_restriction, matrix_view(consistent@)).0,
            final(errors)@ == old(errors)@ + spec_validate_type_var_default(name, kind, *default, range, *restriction, *default_restriction, matrix_view(consistent@)).1,
    {
        if default.is_error() {
            assert(old(errors)@ + Seq::<TypeError>::empty() =~= old(errors)@);
            return default.deep_clone();
        }
        match restriction {
            RestrictionCheck::Flag { validated } => {
                assert(old(errors)@ + Seq::<TypeError>::empty() =~= old(errors)@);
                return validated.deep_clone();
            },
            RestrictionCheck::Bound { assignable } => {
                if !*assignable {
                    errors.error(quantified_error(kind), range, ErrorMsg::DefaultNotAssignableToBound(name, default.deep_clone()));
                    return Type::Any(AnyStyle::Error);
                }
            },
            RestrictionCheck::Constraints => {
                if !self.constraints_are_met(default, default_restriction, consistent) {
                    errors.error(quantified_error(kind), range, ErrorMsg::DefaultNotInConstraints(name, default.deep_clone()));
                    return Type::Any(AnyStyle::Error);
                }
            },
            RestrictionCheck::Unrestricted => {},
        }
        match kind {
            QuantifiedKind::ParamSpec => {
                if default.is_kind_param_spec() {
                    assert(old(errors)@ + Seq::<TypeError>::empty() =~= old(errors)@);
                    default.deep_clone()
                } else {
                    errors.error(ErrorKind::InvalidParamSpec, range, ErrorMsg::ParamSpecDefault(default.deep_clone()));
                    Type::Any(AnyStyle::Error)
                }
            },
            QuantifiedKind::TypeVarTuple => {
                match default {
                    Type::Unpack(inner) if matches!(&**inner, Type::Tuple(_)) || inner.is_kind_type_var_tuple() => {
                        assert(old(errors)@ + Seq::<TypeError>::empty() =~= old(errors)@);
                        inner.deep_clone()
                    },
                    _ => {
                        errors.error(ErrorKind::InvalidTypeVarTuple, range, ErrorMsg::TypeVarTupleDefault(default.deep_clone()));
                        Type::Any(AnyStyle::Error)
                    },
                }
            },
            QuantifiedKind::TypeVar | QuantifiedKind::IntVar => {
                if default.is_kind_param_spec() || default.is_kind_type_var_tuple() {
                    errors.error(ErrorKind::InvalidTypeVar, range, ErrorMsg::TypeVarDefaultKind(kind, default.deep_clone()));
                    Type::Any(AnyStyle::Error)
                } else {
                    assert(old(errors)@ + Seq::<TypeError>::empty() =~= old(errors)@);
                    default.deep_clone()
                }
            },
        }
    }
}


/// PEP 696: a type variable that is bounded or unrestricted is never a valid default of a
/// constrained type variable, whatever the solver finds of its consistency; the default is
/// reported and becomes an error.
pub proof fn law_constrained_parameter_needs_constrained_type_variable_default(
    name: u64,
    kind: QuantifiedKind,
    default: Type,
    range: TextRange,
    default_restriction: Option<TypeVarRestriction>,
    consistent: Seq<Seq<bool>>,
)
    requires
        default != Type::Any(AnyStyle::Error),
        is_type_var_default(default),
        default_restriction is Some,
        !(default_restriction matches Some(TypeVarRestriction::Constraints(_))),
    ensures
        spec_validate_type_var_default(name, kind, default, range, RestrictionCheck::Constraints, default_restriction, consistent)
            == (Type::any_error(), one_error(spec_quantified_error(kind), range, ErrorMsg::DefaultNotInConstraints(name, default))),
{
}

/// PEP 696: a type variable default is checked against a bound through its own upper bound:
/// its bound, the union of its constraints, or `object`; any other default as itself.
pub proof fn law_type_variable_default_checked_through_its_upper_bound(default: Type, b: Type, cs: Vec<Type>, object: u64)
    ensures
        is_type_var_default(default) ==> spec_default_for_bound_check(default, Some(TypeVarRestriction::Bound(b)), object) == b,
        is_type_var_default(default) ==> spec_default_for_bound_check(default, Some(TypeVarRestriction::Constraints(cs)), object)
            == spec_unions(cs@),
        is_type_var_default(default) ==> spec_default_for_bound_check(default, Some(TypeVarRestriction::Unrestricted), object)
            == Type::ClassType(ClassType { class: object, targs: TypeList::Nil }),
        !is_type_var_default(default) ==> spec_default_for_bound_check(default, Some(TypeVarRestriction::Bound(b)), object) == default,
{
}

} // verus!
