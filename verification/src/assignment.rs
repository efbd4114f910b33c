//! The type an assignment to a name gives the name.

use vstd::prelude::*;
use crate::errors::{ErrorCollector, ErrorKind, ErrorMsg, TextRange, TypeError};
use crate::function_types::spec_finalize_param;
use crate::solver::AnswersSolver;
use crate::alias_decl::LegacyParamKey;
use crate::alias_wrap::{TypeAliasParams, WrappedAlias, WrappedAliasView};
use crate::alias::TypeAliasStyle;
use crate::function_types::{may_be_implicit_type_alias, spec_check_type_form};
use crate::legacy_scoping::{wrap_callable_legacy_typevars, wrap_callables};
use crate::type_alias::{spec_final_reassignment_errors, AnnotationStyle, AnnotationWithTarget};
use crate::types::{AnyStyle, SpecialForm, Type};
use crate::untype::one_error;

verus! {

/// What an attrs field specifier call (`attr.ib(...)`, `field(...)`) in the value checks
/// against the declared type: the default value, or the factory's return.
pub struct AttrsFieldCheck {
    /// The type checked.
    pub got: Type,
    /// The solver's verdict on whether `got` is assignable to the declared type.
    pub assignable: bool,
    pub range: TextRange,
}

/// An assignment `name = value`, as the solver sees it.
pub struct NameAssign {
    pub name: u64,
    /// The name's annotation, and how it reaches this assignment.
    pub annotation: Option<(AnnotationStyle, AnnotationWithTarget)>,
    /// For a rebinding, in the same scope, of a name a `class` statement bound: the class's
    /// type, and the solver's verdict on whether the value is assignable to it.
    pub receiver: Option<(Type, bool)>,
    /// The value's type, as the expression checker gives it (with the declared type, or the
    /// class's, as the hint it checks against).
    pub value: Type,
    /// Whether the value is the literal `...`.
    pub value_is_ellipsis: bool,
    /// For a value that calls an attrs field specifier: what it checks against the declared
    /// type, if anything (nothing where a converter takes the value, or where there is
    /// neither a default nor a factory).
    pub attrs_field: Option<Option<AttrsFieldCheck>>,
}

/// The binding of an assignment to a name: the assignment, where its value stands, and
/// what else decides its answer: where the assignment is, whether the name is
/// `TYPE_CHECKING` (or the checker's own such constant) and the solver's verdict on whether
/// the type is assignable to `bool`, whether the value is a bare name or attribute, the
/// value's syntax problem as a type expression (if any), and the keys of its legacy type
/// parameters where the binder found them.
pub struct NameAssignBinding {
    pub assign: NameAssign,
    pub range: TextRange,
    pub is_in_function_scope: bool,
    pub is_class_body_assignment: bool,
    pub is_type_checking_constant: bool,
    pub bool_assignable: bool,
    pub value_is_name: bool,
    pub syntax_problem: Option<u64>,
    pub legacy_tparams: Option<Vec<LegacyParamKey>>,
}

/// What an assignment binds its name to: a type, or an implicit type alias.
pub enum NameAssignResult {
    Value(Type),
    Alias(WrappedAlias),
}

/// The mathematical value of a [`NameAssignResult`].
pub enum NameAssignResultView {
    Value(Type),
    Alias(WrappedAliasView),
}

impl View for NameAssignResult {
    type V = NameAssignResultView;

    open spec fn view(&self) -> NameAssignResultView {
        match self {
            NameAssignResult::Value(t) => NameAssignResultView::Value(*t),
            NameAssignResult::Alias(a) => NameAssignResultView::Alias(a@),
        }
    }
}

impl AnswersSolver {
    /// The annotation an assignment is checked against (none for a rebound class name).
    pub open spec fn assign_annotation(x: NameAssign) -> Option<(AnnotationStyle, AnnotationWithTarget)> {
        if x.receiver is Some {
            None
        } else {
            x.annotation
        }
    }

    /// Whether an assignment's value becomes an implicit type alias: a value that may be a
    /// type alias, that is neither a bare special form nor pinned by an annotation or a class
    /// it rebinds, outside a function, and valid as a type expression.
    pub open spec fn becomes_implicit_alias(x: NameAssignBinding, ty: Type) -> bool {
        &&& !(x.value_is_name && (ty matches Type::TypeOf(inner) && *inner is SpecialForm))
        &&& x.assign.annotation is None && x.assign.receiver is None
        &&& spec_check_type_form(ty, false)
        &&& !x.is_in_function_scope
        &&& x.syntax_problem is None
    }

    /// What an assignment binds its name to, and its errors: those of
    /// [`Self::spec_name_assign_infer`]; an unannotated name outside a class body given an
    /// implicit `Any` is reported; a module-level `TYPE_CHECKING` constant of a type not
    /// assignable to `bool` is reported, outside a stub; a reassigned `Final` is reported.
    /// The value becomes an implicit type alias where [`Self::becomes_implicit_alias`] says
    /// so; else, for an annotated name, its type with the type variables of its callables
    /// made parameters; else its type.
    pub open spec fn spec_binding_to_type_name_assign(self, x: NameAssignBinding) -> (NameAssignResultView, Seq<TypeError>) {
        let (ty, e1) = self.spec_name_assign_infer(x.assign);
        let e2 = if x.assign.annotation is None && x.assign.receiver is None && !x.is_class_body_assignment && ty
            == Type::Any(AnyStyle::Implicit) {
            one_error(ErrorKind::UnknownVariableType, x.range, ErrorMsg::UnknownVariableType(x.assign.name))
        } else {
            Seq::empty()
        };
        let e3 = if !x.is_in_function_scope && !x.is_class_body_assignment && x.is_type_checking_constant
            && !self.is_interface && !x.bool_assignable {
            one_error(ErrorKind::InvalidTypeCheckingConstant, x.range, ErrorMsg::TypeCheckingConstantNotBool(x.assign.name, ty))
        } else {
            Seq::empty()
        };
        let e4 = match Self::assign_annotation(x.assign) {
            Some((AnnotationStyle::Forwarded, a)) => spec_final_reassignment_errors(a.annotation@, a.target, x.range),
            _ => Seq::empty(),
        };
        if Self::becomes_implicit_alias(x, ty) {
            let (ta, e5) = self.spec_as_type_alias(x.assign.name, TypeAliasStyle::LegacyImplicit, ty, x.range, x.syntax_problem);
            let (w, e6) = self.spec_wrap_type_alias(x.assign.name, ta, TypeAliasParams::Legacy(x.legacy_tparams), None, x.range);
            (NameAssignResultView::Alias(w), e1 + e2 + e3 + e4 + e5 + e6)
        } else if Self::assign_annotation(x.assign) is Some {
            (NameAssignResultView::Value(wrap_callables(ty, self.module)), e1 + e2 + e3 + e4)
        } else {
            (NameAssignResultView::Value(ty), e1 + e2 + e3 + e4)
        }
    }

    /// What an assignment binds its name to; see [`Self::spec_binding_to_type_name_assign`].
    pub fn binding_to_type_name_assign(&self, x: NameAssignBinding, errors: &mut ErrorCollector) -> (r: NameAssignResult)
        ensures
            r@ == self.spec_binding_to_type_name_assign(x).0,
            final(errors)@ == old(errors)@ + self.spec_binding_to_type_name_assign(x).1,
    {
        let ghost spec = self.spec_binding_to_type_name_assign(x);
        let ghost x0 = x;
        let ty = self.name_assign_infer(&x.assign, errors);
        let ghost e1 = errors@;
        let unannotated = x.assign.annotation.is_none() && x.assign.receiver.is_none();
        // An unannotated variable whose inferred type is an implicit `Any` is unknown.
        if unannotated && !x.is_class_body_assignment && matches!(ty, Type::Any(AnyStyle::Implicit)) {
            errors.error(ErrorKind::UnknownVariableType, x.range, ErrorMsg::UnknownVariableType(x.assign.name));
        } else {
            assert(errors@ + Seq::<TypeError>::empty() =~= errors@);
        }
        if !x.is_in_function_scope && !x.is_class_body_assignment && x.is_type_checking_constant && !self.is_interface
            && !x.bool_assignable {
            errors.error(ErrorKind::InvalidTypeCheckingConstant, x.range, ErrorMsg::TypeCheckingConstantNotBool(x.assign.name, ty.deep_clone()));
        } else {
            assert(errors@ + Seq::<TypeError>::empty() =~= errors@);
        }
        let annotated = x.assign.receiver.is_none() && x.assign.annotation.is_some();
        if x.assign.receiver.is_none() {
            match &x.assign.annotation {
                Some((AnnotationStyle::Forwarded, a)) => self.check_final_reassignment(a, x.range, errors),
                _ => {
                    assert(errors@ + Seq::<TypeError>::empty() =~= errors@);
                },
            }
        } else {
            assert(errors@ + Seq::<TypeError>::empty() =~= errors@);
        }
        let ghost e4 = errors@;
        let is_bare_special_form = x.value_is_name && match &ty {
            Type::TypeOf(inner) => matches!(&**inner, Type::SpecialForm(_)),
            _ => false,
        };
        if !is_bare_special_form && unannotated && may_be_implicit_type_alias(&ty) && !x.is_in_function_scope
            && x.syntax_problem.is_none() {
            // The value may be a type: treat it as an implicit type alias.
            let name = x.assign.name;
            let range = x.range;
            let ta = self.as_type_alias(name, TypeAliasStyle::LegacyImplicit, ty, range, x.syntax_problem, errors);
            let params = TypeAliasParams::Legacy(x.legacy_tparams);
            let w = self.wrap_type_alias(name, ta, &params, None, range, errors);
            proof {
                assert(errors@ =~= old(errors)@ + spec.1);
            }
            NameAssignResult::Alias(w)
        } else if annotated {
            proof {
                assert(errors@ =~= old(errors)@ + spec.1);
            }
            NameAssignResult::Value(wrap_callable_legacy_typevars(ty, self.module))
        } else {
            proof {
                assert(errors@ =~= old(errors)@ + spec.1);
            }
            NameAssignResult::Value(ty)
        }
    }

    /// The type an annotation declares, if any.
    pub open spec fn spec_declared_type(self, a: AnnotationWithTarget) -> Option<Type> {
        match a.annotation.ty {
            Some(t) => Some(spec_finalize_param(self.stdlib.dict, self.stdlib.str, a.target, t)),
            None => None,
        }
    }

    /// The type an assignment gives its name, and the errors it reports. A rebound class
    /// name keeps the class's type unless the value is assignable to it. With a direct
    /// annotation, the declared type wins (an attrs field gives an implicit `Any`, its
    /// default or factory being checked against the declared type); with a carried
    /// annotation, the value's type narrows it, except that an `Any` keeps the declared
    /// type. Without an annotation: `x = ...` in a stub is an implicit `Any`, an attrs
    /// field too; otherwise the value's type.
    pub open spec fn spec_name_assign_infer(self, x: NameAssign) -> (Type, Seq<TypeError>) {
        match x.receiver {
            Some((class_ty, assignable)) => (if assignable { x.value } else { class_ty }, Seq::empty()),
            None => match x.annotation {
                Some((style, a)) => {
                    let declared = self.spec_declared_type(a);
                    let errors = match x.attrs_field {
                        Some(Some(c)) => match declared {
                            Some(t) => if c.assignable {
                                Seq::empty()
                            } else {
                                one_error(ErrorKind::BadAssignment, c.range, ErrorMsg::AttrsFieldValueMismatch(c.got, t))
                            },
                            None => Seq::empty(),
                        },
                        _ => Seq::empty(),
                    };
                    let ty = match style {
                        AnnotationStyle::Direct => if x.attrs_field is Some {
                            Type::Any(AnyStyle::Implicit)
                        } else {
                            match declared {
                                Some(t) => t,
                                None => x.value,
                            }
                        },
                        _ => match declared {
                            Some(t) => if x.value is Any { t } else { x.value },
                            None => x.value,
                        },
                    };
                    (ty, errors)
                },
                None => if (x.value_is_ellipsis && self.is_interface) || x.attrs_field is Some {
                    (Type::Any(AnyStyle::Implicit), Seq::empty())
                } else {
                    (x.value, Seq::empty())
                },
            },
        }
    }

    /// The type an annotation declares; see [`Self::spec_declared_type`].
    pub fn declared_type(&self, a: &AnnotationWithTarget) -> (r: Option<Type>)
        ensures
            r == self.spec_declared_type(*a),
    {
        match &a.annotation.ty {
            Some(t) => Some(self.finalize_param(a.target, t.deep_clone())),
            None => None,
        }
    }

    /// The type an assignment gives its name; see [`Self::spec_name_assign_infer`].
    pub fn name_assign_infer(&self, x: &NameAssign, errors: &mut ErrorCollector) -> (r: Type)
        ensures
            r == self.spec_name_assign_infer(*x).0,
            final(errors)@ == old(errors)@ + self.spec_name_assign_infer(*x).1,
    {
        assert(old(errors)@ + Seq::<TypeError>::empty() =~= old(errors)@);
        if let Some((class_ty, assignable)) = &x.receiver {
            return if *assignable { x.value.deep_clone() } else { class_ty.deep_clone() };
        }
        match &x.annotation {
            Some((style, a)) => {
                let declared = self.declared_type(a);
                if let Some(Some(c)) = &x.attrs_field {
                    if let Some(t) = &declared {
                        if !c.assignable {
                            errors.error(ErrorKind::BadAssignment, c.range, ErrorMsg::AttrsFieldValueMismatch(c.got.deep_clone(), t.deep_clone()));
                        }
                    }
                }
                match style {
                    AnnotationStyle::Direct => {
                        if x.attrs_field.is_some() {
                            Type::Any(AnyStyle::Implicit)
                        } else {
                            match declared {
                                Some(t) => t,
                                None => x.value.deep_clone(),
                            }
                        }
                    },
                    _ => match declared {
                        Some(t) => if x.value.is_any() { t } else { x.value.deep_clone() },
                        None => x.value.deep_clone(),
                    },
                }
            },
            None => {
                if (x.value_is_ellipsis && self.is_interface) || x.attrs_field.is_some() {
                    Type::Any(AnyStyle::Implicit)
                } else {
                    x.value.deep_clone()
                }
            },
        }
    }
}

impl AnswersSolver {
    /// The errors of binding a `TypeVarTuple(...)` value: where the name is annotated with a
    /// type, the value not being assignable to it (by the solver's verdict) is reported.
    pub open spec fn spec_type_var_tuple_errors(
        self,
        value: Type,
        annotation: Option<AnnotationWithTarget>,
        assignable: bool,
        range: TextRange,
    ) -> Seq<TypeError> {
        match annotation {
            Some(a) => match a.annotation.ty {
                Some(want) => if assignable {
                    Seq::empty()
                } else {
                    one_error(ErrorKind::BadAssignment, range, ErrorMsg::AnnAssignMismatch(value, want))
                },
                None => Seq::empty(),
            },
            None => Seq::empty(),
        }
    }

    /// The type a `TypeVarTuple(...)` binding gives: the `TypeVarTuple` itself, kept whatever
    /// its annotation says so that it is recognised as a type parameter later; see
    /// [`Self::spec_type_var_tuple_errors`] for what is reported.
    pub fn binding_to_type_type_var_tuple(
        &self,
        value: &Type,
        annotation: &Option<AnnotationWithTarget>,
        assignable: bool,
        range: TextRange,
        errors: &mut ErrorCollector,
    ) -> (r: Type)
        ensures
            r == *value,
            final(errors)@ == old(errors)@ + self.spec_type_var_tuple_errors(*value, *annotation, assignable, range),
    {
        match annotation {
            Some(a) => match &a.annotation.ty {
                Some(want) => if !assignable {
                    errors.error(ErrorKind::BadAssignment, range, ErrorMsg::AnnAssignMismatch(value.deep_clone(), want.deep_clone()));
                } else {
                    assert(old(errors)@ + Seq::<TypeError>::empty() =~= old(errors)@);
                },
                None => {
                    assert(old(errors)@ + Seq::<TypeError>::empty() =~= old(errors)@);
                },
            },
            None => {
                assert(old(errors)@ + Seq::<TypeError>::empty() =~= old(errors)@);
            },
        }
        value.deep_clone()
    }
}

/// Assigning `Any` to a variable whose annotation is carried from an earlier declaration
/// keeps the declared type: `Any` carries nothing to narrow with. This holds for the first
/// assignment after a bare annotation and for later reassignments alike.
pub proof fn law_any_assignment_keeps_declared_type(solver: AnswersSolver, x: NameAssign)
    requires
        x.receiver is None,
        x.annotation matches Some((style, a)) && style != AnnotationStyle::Direct && a.annotation.ty is Some,
        x.value is Any,
    ensures
        solver.spec_name_assign_infer(x).0 == solver.spec_declared_type(x.annotation.unwrap().1).unwrap(),
{
}

/// A direct annotation is authoritative: the declared type is what the name gets, whatever
/// the value, for any value that is not an attrs field.
pub proof fn law_direct_annotation_wins(solver: AnswersSolver, x: NameAssign)
    requires
        x.receiver is None,
        x.attrs_field is None,
        x.annotation matches Some((style, a)) && style == AnnotationStyle::Direct && a.annotation.ty is Some,
    ensures
        solver.spec_name_assign_infer(x).0 == solver.spec_declared_type(x.annotation.unwrap().1).unwrap(),
        solver.spec_name_assign_infer(x).1 == Seq::<TypeError>::empty(),
{
}

/// An incompatible write to a name a `class` statement bound does not change the visible
/// binding: it keeps the class's type.
pub proof fn law_incompatible_class_rebind_keeps_class(solver: AnswersSolver, x: NameAssign)
    requires
        x.receiver matches Some((_, assignable)) && !assignable,
    ensures
        solver.spec_name_assign_infer(x).0 == x.receiver.unwrap().0,
        solver.spec_name_assign_infer(x).1 == Seq::<TypeError>::empty(),
{
}

} // verus!
