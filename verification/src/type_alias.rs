//! Solving a type alias definition: its value, untyped and checked as a type form.

use vstd::prelude::*;
use crate::alias::{TypeAlias, TypeAliasStyle};
use crate::annotation::{Annotation, AnnotationView};
use crate::errors::{ErrorCollector, ErrorKind, ErrorMsg, TextRange, TypeError};
use crate::solver::AnswersSolver;
use crate::type_form::{AnnAssignHasValue, TypeFormContext, UntypeContext};
use crate::types::{type_any, AnyStyle, Qualifier, Type, TypePred};
use crate::untype::one_error;

verus! {

/// What an annotation annotates.
#[derive(Clone, Copy, PartialEq, Eq, Structural, Debug)]
pub enum AnnotationTarget {
    /// A parameter of a function.
    Param(u64),
    /// The `*args` parameter of a function.
    ArgsParam(u64),
    /// The `**kwargs` parameter of a function.
    KwargsParam(u64),
    /// The return of a function.
    Return(u64),
    /// A name being assigned, with or without a value.
    Assign(u64, AnnAssignHasValue),
    /// An attribute of a class.
    ClassMember(u64),
}

/// An annotation together with what it annotates.
#[derive(Debug, PartialEq)]
pub struct AnnotationWithTarget {
    pub target: AnnotationTarget,
    pub annotation: Annotation,
}

/// How an annotation reaches an assignment: written on it, or carried from an earlier
/// annotation of the same name.
#[derive(Clone, Copy, PartialEq, Eq, Structural, Debug)]
pub enum AnnotationStyle {
    Direct,
    ForwardedInitial,
    Forwarded,
}

/// An alias in error: it stands for the error type.
pub open spec fn error_alias(name: u64, style: TypeAliasStyle) -> TypeAlias {
    TypeAlias { name, ty: Type::any_error(), style }
}

/// The error for an explicit `Any` in `ty`, if there is one.
pub open spec fn explicit_any_errors(ty: Type, range: TextRange) -> Seq<TypeError> {
    if type_any(ty, TypePred::ExplicitAny) {
        one_error(ErrorKind::ExplicitAny, range, ErrorMsg::ExplicitAnyNotAllowed)
    } else {
        Seq::empty()
    }
}

/// The error for assigning at `range` to a name whose annotation is `Final`, unless the
/// assignment is the annotated declaration itself with no value.
pub open spec fn spec_final_reassignment_errors(annot: AnnotationView, target: AnnotationTarget, range: TextRange) -> Seq<TypeError> {
    if annot.qualifiers.contains(Qualifier::Final) && !(target matches AnnotationTarget::Assign(_, AnnAssignHasValue::No)) {
        one_error(ErrorKind::BadAssignment, range, ErrorMsg::AssignToFinal(target))
    } else {
        Seq::empty()
    }
}

/// A type alias definition, with what evaluating its parts gave.
pub enum BindingTypeAlias {
    /// `X = value` or `X: TypeAlias = value`: the value's type, where it stands, what makes
    /// it no valid annotation syntax (if anything), and the annotation carried to the name.
    Legacy {
        name: u64,
        annotation: Option<(AnnotationStyle, AnnotationWithTarget)>,
        value: Type,
        range: TextRange,
        syntax_problem: Option<u64>,
        is_explicit: bool,
    },
    /// `type X = value`.
    Scoped { name: u64, value: Type, range: TextRange, syntax_problem: Option<u64> },
    /// `X = TypeAliasType("X", value)`; with no value when the call gives none.
    TypeAliasType { name: u64, given: Option<(Type, TextRange, Option<u64>)> },
}

impl AnswersSolver {
    /// The alias `name` with value `ty` written at `range`: syntax that no annotation may use
    /// is reported; the value must denote a type, which is then checked as a type form for
    /// an alias (an explicit `Any` is reported too). A value that fails gives an alias in
    /// error. A valid alias holds `type[T]`, or `Annotated[T]` for an `Annotated` value.
    pub open spec fn spec_as_type_alias(self, name: u64, style: TypeAliasStyle, ty: Type, range: TextRange, syntax_problem: Option<u64>) -> (TypeAlias, Seq<TypeError>) {
        match syntax_problem {
            Some(p) => (error_alias(name, style), one_error(ErrorKind::InvalidAnnotation, range, ErrorMsg::AnnotationSyntax(p))),
            None => {
                let (u, e0) = self.spec_untype_opt(ty, range, UntypeContext::Type);
                match u {
                    None => (
                        error_alias(name, style),
                        e0 + one_error(ErrorKind::InvalidTypeAlias, range, ErrorMsg::ExpectedTypeAlias(name, ty)),
                    ),
                    Some(u) => {
                        let (v, e1) = match self.type_form_problem(u, TypeFormContext::TypeAlias) {
                            Some(msg) => (Type::any_error(), one_error(ErrorKind::InvalidAnnotation, range, msg)),
                            None => (u, Seq::empty()),
                        };
                        let e = e0 + e1 + explicit_any_errors(v, range);
                        if v == Type::any_error() {
                            (error_alias(name, style), e)
                        } else {
                            (
                                TypeAlias {
                                    name,
                                    ty: if ty is Annotated {
                                        Type::Annotated(Box::new(v))
                                    } else {
                                        Type::TypeOf(Box::new(v))
                                    },
                                    style,
                                },
                                e,
                            )
                        }
                    },
                }
            },
        }
    }

    /// The alias a definition gives; see [`Self::spec_as_type_alias`]. A legacy alias whose
    /// annotation was carried from an earlier one also reports assigning to a `Final` name.
    pub open spec fn spec_solve_type_alias(self, binding: BindingTypeAlias) -> (TypeAlias, Seq<TypeError>) {
        match binding {
            BindingTypeAlias::Legacy { name, annotation, value, range, syntax_problem, is_explicit } => {
                let e0 = match annotation {
                    Some((AnnotationStyle::Forwarded, a)) => spec_final_reassignment_errors(a.annotation@, a.target, range),
                    _ => Seq::empty(),
                };
                let style = if is_explicit {
                    TypeAliasStyle::LegacyExplicit
                } else {
                    TypeAliasStyle::LegacyImplicit
                };
                let (ta, e1) = self.spec_as_type_alias(name, style, value, range, syntax_problem);
                (ta, e0 + e1)
            },
            BindingTypeAlias::Scoped { name, value, range, syntax_problem } => self.spec_as_type_alias(
                name,
                TypeAliasStyle::Scoped,
                value,
                range,
                syntax_problem,
            ),
            BindingTypeAlias::TypeAliasType { name, given } => match given {
                Some((v, range, problem)) => self.spec_as_type_alias(name, TypeAliasStyle::Scoped, v, range, problem),
                None => (error_alias(name, TypeAliasStyle::Scoped), Seq::empty()),
            },
        }
    }
}

/// Reports an explicit `Any` in `ty` at `range`.
pub fn check_explicit_any(ty: &Type, range: TextRange, errors: &mut ErrorCollector)
    ensures
        final(errors)@ == old(errors)@ + explicit_any_errors(*ty, range),
{
    if ty.any(TypePred::ExplicitAny) {
        errors.error(ErrorKind::ExplicitAny, range, ErrorMsg::ExplicitAnyNotAllowed);
    } else {
        assert(old(errors)@ + Seq::<TypeError>::empty() =~= old(errors)@);
    }
}

/// Whether the expression at `range` may be an annotation: `problem` is what makes it no
/// valid annotation syntax, which is reported.
pub fn has_valid_annotation_syntax(problem: Option<u64>, range: TextRange, errors: &mut ErrorCollector) -> (r: bool)
    ensures
        r == problem is None,
        final(errors)@ == old(errors)@ + match problem {
            Some(p) => one_error(ErrorKind::InvalidAnnotation, range, ErrorMsg::AnnotationSyntax(p)),
            None => Seq::empty(),
        },
{
    match problem {
        Some(p) => {
            errors.error(ErrorKind::InvalidAnnotation, range, ErrorMsg::AnnotationSyntax(p));
            false
        },
        None => {
            assert(old(errors)@ + Seq::<TypeError>::empty() =~= old(errors)@);
            true
        },
    }
}

pub(crate) fn has_final(qs: &Vec<Qualifier>) -> (r: bool)
    ensures
        r == qs@.contains(Qualifier::Final),
{
    let mut i: usize = 0;
    while i < qs.len()
        invariant
            i <= qs@.len(),
            forall|k: int| 0 <= k < i ==> qs@[k] != Qualifier::Final,
        decreases qs.len() - i,
    {
        if qs[i] == Qualifier::Final {
            assert(qs@[i as int] == Qualifier::Final);
            return true;
        }
        i += 1;
    }
    false
}

impl AnswersSolver {
    /// Reports an assignment at `range` to a name annotated `Final`; see
    /// [`spec_final_reassignment_errors`].
    pub fn check_final_reassignment(&self, annot: &AnnotationWithTarget, range: TextRange, errors: &mut ErrorCollector)
        ensures
            final(errors)@ == old(errors)@ + spec_final_reassignment_errors(annot.annotation@, annot.target, range),
    {
        if has_final(&annot.annotation.qualifiers) && !matches!(annot.target, AnnotationTarget::Assign(_, AnnAssignHasValue::No)) {
            errors.error(ErrorKind::BadAssignment, range, ErrorMsg::AssignToFinal(annot.target));
        } else {
            assert(old(errors)@ + Seq::<TypeError>::empty() =~= old(errors)@);
        }
    }

    /// The alias `name` with value `ty` written at `range`; see [`Self::spec_as_type_alias`].
    pub fn as_type_alias(
        &self,
        name: u64,
        style: TypeAliasStyle,
        ty: Type,
        range: TextRange,
        syntax_problem: Option<u64>,
        errors: &mut ErrorCollector,
    ) -> (r: TypeAlias)
        ensures
            r == self.spec_as_type_alias(name, style, ty, range, syntax_problem).0,
            final(errors)@ == old(errors)@ + self.spec_as_type_alias(name, style, ty, range, syntax_problem).1,
    {
        let ghost spec = self.spec_as_type_alias(name, style, ty, range, syntax_problem);
        if !has_valid_annotation_syntax(syntax_problem, range, errors) {
            return TypeAlias { name, ty: Type::Any(AnyStyle::Error), style };
        }
        assert(old(errors)@ + Seq::<TypeError>::empty() =~= old(errors)@);
        let was_annotated = matches!(ty, Type::Annotated(_));
        let given = ty.deep_clone();
        let untyped = self.untype_opt(ty, range, errors);
        let ghost e0 = errors@;
        match untyped {
            None => {
                errors.error(ErrorKind::InvalidTypeAlias, range, ErrorMsg::ExpectedTypeAlias(name, given));
                assert(errors@ =~= old(errors)@ + spec.1);
                TypeAlias { name, ty: Type::Any(AnyStyle::Error), style }
            },
            Some(u) => {
                let validated = self.validate_type_form(u, range, TypeFormContext::TypeAlias, errors);
                let ghost e1 = errors@;
                check_explicit_any(&validated, range, errors);
                assert(errors@ =~= old(errors)@ + spec.1);
                if validated.is_error() {
                    return TypeAlias { name, ty: Type::Any(AnyStyle::Error), style };
                }
                let stored = if was_annotated {
                    Type::Annotated(Box::new(validated))
                } else {
                    Type::TypeOf(Box::new(validated))
                };
                TypeAlias { name, ty: stored, style }
            },
        }
    }

    /// The alias that a type alias definition gives; see [`Self::spec_solve_type_alias`].
    pub fn solve_type_alias(&self, binding: &BindingTypeAlias, errors: &mut ErrorCollector) -> (r: TypeAlias)
        ensures
            r == self.spec_solve_type_alias(*binding).0,
            final(errors)@ == old(errors)@ + self.spec_solve_type_alias(*binding).1,
    {
        match binding {
            BindingTypeAlias::Legacy { name, annotation, value, range, syntax_problem, is_explicit } => {
                match annotation {
                    Some((AnnotationStyle::Forwarded, a)) => self.check_final_reassignment(a, *range, errors),
                    _ => {
                        assert(old(errors)@ + Seq::<TypeError>::empty() =~= old(errors)@);
                    },
                }
                let ghost e0 = errors@;
                let style = if *is_explicit {
                    TypeAliasStyle::LegacyExplicit
                } else {
                    TypeAliasStyle::LegacyImplicit
                };
                let r = self.as_type_alias(*name, style, value.deep_clone(), *range, *syntax_problem, errors);
                assert(errors@ =~= old(errors)@ + self.spec_solve_type_alias(*binding).1);
                r
            },
            BindingTypeAlias::Scoped { name, value, range, syntax_problem } => {
                self.as_type_alias(*name, TypeAliasStyle::Scoped, value.deep_clone(), *range, *syntax_problem, errors)
            },
            BindingTypeAlias::TypeAliasType { name, given } => match given {
                Some((v, range, problem)) => self.as_type_alias(*name, TypeAliasStyle::Scoped, v.deep_clone(), *range, *problem, errors),
                None => {
                    assert(old(errors)@ + Seq::<TypeError>::empty() =~= old(errors)@);
                    TypeAlias { name: *name, ty: Type::Any(AnyStyle::Error), style: TypeAliasStyle::Scoped }
                },
            },
        }
    }
}


/// An alias either is in error, holding the error type, or holds `type[T]` (or
/// `Annotated[T]`) for a `T` that is no error type; a value that denotes no type, or that
/// the type-form check rejects, always gives an alias in error.
pub proof fn law_alias_is_valid_or_error(solver: AnswersSolver, name: u64, style: TypeAliasStyle, ty: Type, range: TextRange, syntax_problem: Option<u64>)
    ensures
        ({
            let a = solver.spec_as_type_alias(name, style, ty, range, syntax_problem).0;
            &&& a.name == name
            &&& a.style == style
            &&& {
                ||| a.ty == Type::any_error()
                ||| (a.ty matches Type::TypeOf(b) && *b != Type::any_error())
                ||| (a.ty matches Type::Annotated(b) && *b != Type::any_error())
            }
        }),
        solver.spec_untype_opt(ty, range, UntypeContext::Type).0 is None
            ==> solver.spec_as_type_alias(name, style, ty, range, syntax_problem).0 == error_alias(name, style),
        (solver.spec_untype_opt(ty, range, UntypeContext::Type).0 matches Some(u)
            && solver.type_form_problem(u, TypeFormContext::TypeAlias) is Some)
            ==> solver.spec_as_type_alias(name, style, ty, range, syntax_problem).0 == error_alias(name, style),
{
}


/// An alias keeps the name and the style of the definition that makes it, whether or not
/// its value is a valid type: `type X = ...` and `TypeAliasType(...)` make scoped aliases,
/// `X: TypeAlias = ...` an explicit legacy one, and `X = ...` an implicit legacy one.
pub proof fn law_alias_style_follows_its_definition(solver: AnswersSolver, binding: BindingTypeAlias)
    ensures
        ({
            let ta = solver.spec_solve_type_alias(binding).0;
            match binding {
                BindingTypeAlias::Scoped { name, .. } => ta.name == name && ta.style == TypeAliasStyle::Scoped,
                BindingTypeAlias::TypeAliasType { name, .. } => ta.name == name && ta.style == TypeAliasStyle::Scoped,
                BindingTypeAlias::Legacy { name, is_explicit, .. } => ta.name == name && ta.style == (if is_explicit {
                    TypeAliasStyle::LegacyExplicit
                } else {
                    TypeAliasStyle::LegacyImplicit
                }),
            }
        }),
{
}

} // verus!
