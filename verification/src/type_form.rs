//! Where a type expression stands, and what each position allows.

use vstd::prelude::*;
use crate::errors::{ErrorCollector, ErrorKind, ErrorMsg, TextRange, TypeError};
use crate::solver::AnswersSolver;
use crate::types::{type_any, AnyStyle, QuantifiedKind, SpecialForm, Type, TypePred};

verus! {

/// Is the annotated assignment given a value (`x: int = 1`) or not (`x: int`)?
#[derive(Clone, Copy, PartialEq, Eq, Structural, Debug)]
pub enum AnnAssignHasValue {
    Yes,
    No,
}

/// The position in which a type expression is being parsed.
#[derive(Clone, Copy, PartialEq, Eq, Debug)]
pub enum TypeFormContext<'a> {
    /// A type expression parsed without an enclosing annotation context.
    TypeExpression,
    /// Expression in a base class list
    BaseClassList,
    /// Keyword in a class definition - `class C(some_keyword=SomeValue): ...`
    ClassKeyword,
    /// Variable annotation in a class
    ClassVarAnnotation,
    /// Argument to a function such as cast, assert_type, or TypeVar
    FunctionArgument,
    /// Arguments to Generic[] or Protocol[]
    GenericBase,
    /// Parameter annotation for a function
    ParameterAnnotation,
    ParameterArgsAnnotation,
    ParameterKwargsAnnotation,
    ReturnAnnotation,
    /// Constraints or upper bound for type variables
    TypeVarConstraint,
    /// Default values for each kind of type variable
    TypeVarDefault,
    IntVarDefault,
    ParamSpecDefault,
    TypeVarTupleDefault,
    /// A type being aliased
    TypeAlias,
    /// Variable annotation outside of a class definition
    VarAnnotation(AnnAssignHasValue),
    /// Type argument for a generic.
    TypeArgument(&'a TypeFormContext<'a>),
    /// Type argument for `builtins.type`.
    TypeArgumentForType(&'a TypeFormContext<'a>),
    /// Type argument for the return position of a `Callable` type.
    TypeArgumentCallableReturn(&'a TypeFormContext<'a>),
    /// Type argument for `TypeGuard` or `TypeIs`.
    TypePredicateArgument(&'a TypeFormContext<'a>),
    /// An element of a tuple type.
    TupleElement(&'a TypeFormContext<'a>),
    /// Type argument for the parameters list of a `Callable` type.
    TupleOrCallableParam(&'a TypeFormContext<'a>),
    /// A member of a union type.
    UnionMember(&'a TypeFormContext<'a>),
}

/// The position in which a value is being interpreted as a type.
#[derive(Clone, Copy, PartialEq, Eq, Structural, Debug)]
pub enum UntypeContext {
    /// An ordinary type position (variable annotation, type argument, etc.).
    Type,
    /// The base being parameterized in a generic subscription.
    GenericBase,
    /// A symbolic-integer dimension position.
    SymbolicInt,
}

impl<'a> TypeFormContext<'a> {
    pub fn quantified_kind_default(x: QuantifiedKind) -> (r: TypeFormContext<'static>)
        ensures
            r == match x {
                QuantifiedKind::TypeVar => TypeFormContext::TypeVarDefault,
                QuantifiedKind::IntVar => TypeFormContext::IntVarDefault,
                QuantifiedKind::ParamSpec => TypeFormContext::ParamSpecDefault,
                QuantifiedKind::TypeVarTuple => TypeFormContext::TypeVarTupleDefault,
            },
    {
        match x {
            QuantifiedKind::TypeVar => TypeFormContext::TypeVarDefault,
            QuantifiedKind::IntVar => TypeFormContext::IntVarDefault,
            QuantifiedKind::ParamSpec => TypeFormContext::ParamSpecDefault,
            QuantifiedKind::TypeVarTuple => TypeFormContext::TypeVarTupleDefault,
        }
    }

    /// A type argument parsed without an enclosing annotation context.
    pub fn type_argument() -> (r: TypeFormContext<'static>)
        ensures
            r == TypeFormContext::TypeArgument(&TypeFormContext::TypeExpression),
    {
        TypeFormContext::TypeArgument(&TypeFormContext::TypeExpression)
    }

    /// Where a bare (unsubscripted) special form is a valid annotation.
    pub open spec fn spec_is_valid_unparameterized_annotation(self, x: SpecialForm) -> bool {
        match x {
            SpecialForm::Protocol | SpecialForm::TypedDict => self is BaseClassList,
            SpecialForm::TypeAlias => self is TypeAlias || self == TypeFormContext::VarAnnotation(
                AnnAssignHasValue::Yes,
            ),
            SpecialForm::Final => self == TypeFormContext::VarAnnotation(AnnAssignHasValue::Yes)
                || self is ClassVarAnnotation,
            SpecialForm::LiteralString | SpecialForm::Never | SpecialForm::NoReturn
            | SpecialForm::Type | SpecialForm::SelfType => true,
            _ => false,
        }
    }

    /// Is this special form valid as an un-parameterized annotation anywhere?
    pub fn is_valid_unparameterized_annotation(self, x: SpecialForm) -> (r: bool)
        ensures
            r == self.spec_is_valid_unparameterized_annotation(x),
    {
        match x {
            SpecialForm::Protocol | SpecialForm::TypedDict => {
                matches!(self, TypeFormContext::BaseClassList)
            },
            SpecialForm::TypeAlias => matches!(
                self,
                TypeFormContext::TypeAlias | TypeFormContext::VarAnnotation(AnnAssignHasValue::Yes)
            ),
            SpecialForm::Final => matches!(
                self,
                TypeFormContext::VarAnnotation(AnnAssignHasValue::Yes)
                    | TypeFormContext::ClassVarAnnotation
            ),
            SpecialForm::LiteralString | SpecialForm::Never | SpecialForm::NoReturn
            | SpecialForm::Type | SpecialForm::SelfType => true,
            _ => false,
        }
    }

    /// Whether a nested position: a type argument, tuple element, callable parameter or
    /// union member, or a generic base.
    pub open spec fn spec_is_nested_argument(self) -> bool {
        ||| self is GenericBase
        ||| self is TupleOrCallableParam
        ||| self is TupleElement
        ||| self is TypeArgument
        ||| self is TypeArgumentCallableReturn
        ||| self is TypeArgumentForType
        ||| self is TypePredicateArgument
        ||| self is UnionMember
    }

    /// An explicit `Any` is reported at the outermost position only, never inside
    /// a nested one.
    pub fn can_report_explicit_any(self) -> (r: bool)
        ensures
            r == !self.spec_is_nested_argument(),
    {
        !matches!(
            self,
            TypeFormContext::GenericBase
                | TypeFormContext::TupleOrCallableParam(_)
                | TypeFormContext::TupleElement(_)
                | TypeFormContext::TypeArgument(_)
                | TypeFormContext::TypeArgumentCallableReturn(_)
                | TypeFormContext::TypeArgumentForType(_)
                | TypeFormContext::TypePredicateArgument(_)
                | TypeFormContext::UnionMember(_)
        )
    }

    /// The `UntypeContext` for this type-form position: only a generic base is
    /// distinguished; every other position is treated as an ordinary type.
    pub fn untype_context(self) -> (r: UntypeContext)
        ensures
            r == (if self is GenericBase { UntypeContext::GenericBase } else { UntypeContext::Type }),
    {
        match self {
            TypeFormContext::GenericBase => UntypeContext::GenericBase,
            _ => UntypeContext::Type,
        }
    }
}


impl<'a> TypeFormContext<'a> {
    /// Positions where an `Unpack[...]` may stand.
    pub open spec fn spec_allows_unpack(self) -> bool {
        ||| self is ParameterArgsAnnotation
        ||| self is ParameterKwargsAnnotation
        ||| self is TypeArgument
        ||| self is TupleElement
        ||| self is TupleOrCallableParam
        ||| self is GenericBase
        ||| self is TypeVarTupleDefault
    }

    /// Positions where a ParamSpec-like type may stand.
    pub open spec fn spec_allows_param_spec(self) -> bool {
        self is TypeArgument || self is GenericBase || self is ParamSpecDefault
    }

    /// Positions where a bare TypeVarTuple is checked elsewhere (tuple, callable and generic
    /// arguments).
    pub open spec fn spec_checks_type_var_tuple_elsewhere(self) -> bool {
        self is TupleElement || self is TupleOrCallableParam || self is TypeArgument
    }
}

/// The first five checks of [`AnswersSolver::validate_type_form`]: where `Unpack`, `*args` and
/// `**kwargs` forms may stand.
pub open spec fn unpack_form_problem(ty: Type, ctx: TypeFormContext) -> Option<ErrorMsg> {
    let kwargs = ctx is ParameterKwargsAnnotation;
    if !kwargs && (ty matches Type::Unpack(inner) && *inner is TypedDict) {
        Some(ErrorMsg::UnpackTypedDictOutsideKwargs)
    } else if kwargs && (ty matches Type::Unpack(inner) && !(*inner is TypedDict)) {
        Some(ErrorMsg::KwargsUnpackNotTypedDict)
    } else if !kwargs && ty is Kwargs {
        Some(ErrorMsg::KwargsOutsideKwargs)
    } else if !(ctx is ParameterArgsAnnotation) && ty is Args {
        Some(ErrorMsg::ArgsOutsideArgs)
    } else if !ctx.spec_allows_unpack() && ty is Unpack {
        Some(ErrorMsg::UnpackNotAllowed)
    } else {
        None
    }
}

impl AnswersSolver {
    /// The class that `type[...]` would be applied to, if `ty` names one.
    pub open spec fn class_of_type_form(ty: Type) -> Option<u64> {
        match ty {
            Type::ClassType(c) => Some(c.class),
            Type::SelfType(c) => Some(c.class),
            Type::ClassDef(c) => Some(c),
            _ => None,
        }
    }

    /// What is wrong, if anything, with using `ty` as a type in position `ctx`.
    pub open spec fn type_form_problem(self, ty: Type, ctx: TypeFormContext) -> Option<ErrorMsg> {
        if unpack_form_problem(ty, ctx) is Some {
            unpack_form_problem(ty, ctx)
        } else if !ctx.spec_allows_param_spec() && ty.spec_is_kind_param_spec() {
            Some(ErrorMsg::ParamSpecNotAllowed)
        } else if !ctx.spec_checks_type_var_tuple_elsewhere() && ty.spec_is_kind_type_var_tuple() {
            if unpack_form_problem(Type::Unpack(Box::new(ty)), ctx) is None {
                Some(ErrorMsg::TypeVarTupleMustBeUnpacked)
            } else {
                Some(ErrorMsg::TypeVarTupleNotAllowed)
            }
        } else if ty is SpecialForm && !ctx.spec_is_valid_unparameterized_annotation(ty->SpecialForm_0) {
            if ty->SpecialForm_0.spec_can_be_subscripted() {
                Some(ErrorMsg::ExpectedTypeArgument(ty->SpecialForm_0))
            } else {
                Some(ErrorMsg::SpecialFormNotAllowed(ty->SpecialForm_0))
            }
        } else if ctx is TypeVarConstraint && type_any(ty, TypePred::TypeVariable) {
            Some(ErrorMsg::ConstraintNotConcrete)
        } else if ctx is TypeArgumentForType && (Self::class_of_type_form(ty) matches Some(c)
            && self.metadata(c).is_new_type) {
            Some(ErrorMsg::NewTypeInType(Self::class_of_type_form(ty)->0))
        } else {
            None
        }
    }

    fn unpack_problem(ty: &Type, ctx: TypeFormContext) -> (r: Option<ErrorMsg>)
        ensures
            r == unpack_form_problem(*ty, ctx),
    {
        let kwargs = matches!(ctx, TypeFormContext::ParameterKwargsAnnotation);
        if !kwargs && matches!(ty, Type::Unpack(inner) if matches!(**inner, Type::TypedDict(_))) {
            Some(ErrorMsg::UnpackTypedDictOutsideKwargs)
        } else if kwargs && matches!(ty, Type::Unpack(inner) if !matches!(**inner, Type::TypedDict(_))) {
            Some(ErrorMsg::KwargsUnpackNotTypedDict)
        } else if !kwargs && matches!(ty, Type::Kwargs(_)) {
            Some(ErrorMsg::KwargsOutsideKwargs)
        } else if !matches!(ctx, TypeFormContext::ParameterArgsAnnotation) && matches!(ty, Type::Args(_)) {
            Some(ErrorMsg::ArgsOutsideArgs)
        } else if !matches!(
            ctx,
            TypeFormContext::ParameterArgsAnnotation
                | TypeFormContext::ParameterKwargsAnnotation
                | TypeFormContext::TypeArgument(_)
                | TypeFormContext::TupleElement(_)
                | TypeFormContext::TupleOrCallableParam(_)
                | TypeFormContext::GenericBase
                | TypeFormContext::TypeVarTupleDefault
        ) && matches!(ty, Type::Unpack(_)) {
            Some(ErrorMsg::UnpackNotAllowed)
        } else {
            None
        }
    }

    /// What is wrong, if anything, with using `ty` as a type in position `ctx`.
    pub fn type_form_error(&self, ty: &Type, ctx: TypeFormContext) -> (r: Option<ErrorMsg>)
        ensures
            r == self.type_form_problem(*ty, ctx),
    {
        let unpack = Self::unpack_problem(ty, ctx);
        if unpack.is_some() {
            return unpack;
        }
        if !matches!(
            ctx,
            TypeFormContext::TypeArgument(_) | TypeFormContext::GenericBase
                | TypeFormContext::ParamSpecDefault
        ) && ty.is_kind_param_spec() {
            return Some(ErrorMsg::ParamSpecNotAllowed);
        }
        if !matches!(
            ctx,
            TypeFormContext::TupleElement(_) | TypeFormContext::TupleOrCallableParam(_)
                | TypeFormContext::TypeArgument(_)
        ) && ty.is_kind_type_var_tuple() {
            // Determine whether we're simply missing an `Unpack[...]` or the TypeVarTuple isn't
            // allowed at all in this context.
            let unpacked = Type::Unpack(Box::new(ty.deep_clone()));
            if Self::unpack_problem(&unpacked, ctx).is_none() {
                return Some(ErrorMsg::TypeVarTupleMustBeUnpacked);
            } else {
                return Some(ErrorMsg::TypeVarTupleNotAllowed);
            }
        }
        if let Type::SpecialForm(special_form) = ty {
            if !ctx.is_valid_unparameterized_annotation(*special_form) {
                if special_form.can_be_subscripted() {
                    return Some(ErrorMsg::ExpectedTypeArgument(*special_form));
                } else {
                    return Some(ErrorMsg::SpecialFormNotAllowed(*special_form));
                }
            }
        }
        if matches!(ctx, TypeFormContext::TypeVarConstraint) && ty.contains_type_variable() {
            return Some(ErrorMsg::ConstraintNotConcrete);
        }
        if matches!(ctx, TypeFormContext::TypeArgumentForType(_)) {
            let cls = match ty {
                Type::ClassType(c) | Type::SelfType(c) => Some(c.class),
                Type::ClassDef(c) => Some(*c),
                _ => None,
            };
            if let Some(cls) = cls {
                if self.get_metadata_for_class(cls).is_new_type {
                    return Some(ErrorMsg::NewTypeInType(cls));
                }
            }
        }
        None
    }

    /// Checks that `ty` may be used as a type in position `type_form_context`. If it may, it
    /// is returned; otherwise the problem is reported at `range` as an invalid annotation and
    /// the error type is returned.
    pub fn validate_type_form(
        &self,
        ty: Type,
        range: TextRange,
        type_form_context: TypeFormContext,
        errors: &mut ErrorCollector,
    ) -> (r: Type)
        ensures
            self.type_form_problem(ty, type_form_context) matches Some(msg) ==> {
                &&& r == Type::any_error()
                &&& final(errors)@ == old(errors)@.push(
                    TypeError { kind: ErrorKind::InvalidAnnotation, range, msg },
                )
            },
            self.type_form_problem(ty, type_form_context) is None ==> {
                &&& r == ty
                &&& final(errors)@ == old(errors)@
            },
    {
        match self.type_form_error(&ty, type_form_context) {
            Some(msg) => {
                errors.error(ErrorKind::InvalidAnnotation, range, msg);
                Type::Any(AnyStyle::Error)
            },
            None => ty,
        }
    }
}

} // verus!
