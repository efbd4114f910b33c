//! The type that a binding gives, for the kinds of binding whose answer is worked out from
//! types already solved.

use vstd::prelude::*;
use crate::errors::{ErrorCollector, ErrorKind, ErrorMsg, TextRange, TypeError};
use crate::function_types::{spec_finalize_param, FunctionParameter, ReturnExplicit, ReturnImplicit, ReturnType};
use crate::exceptions::{ExceptAnnotation, ExceptionVerdict};
use crate::statements::{spec_stmt_expr_errors, ImportBinding, StmtExpr};
use crate::iterable::{get_produced_type, iterables_view, spec_produced_type, Iterable, IterableView, UnpackedPosition};
use crate::type_alias::{spec_final_reassignment_errors, AnnotationTarget, AnnotationWithTarget};
use crate::untype::one_error;
use crate::function_types::spec_suppresses;
use crate::legacy_scoping::{wrap_callable_legacy_typevars, wrap_callables};
use crate::type_alias::has_final;
use crate::type_form::AnnAssignHasValue;
use crate::types::Qualifier;
use crate::solver::AnswersSolver;
use crate::super_call::SuperStyle;
use crate::types::{AnyStyle, Lit, Tuple, Type};

verus! {

/// Every unpacked iterable of `its` has fixed ends whose lengths add up to a `usize`.
pub open spec fn ends_fit(its: Seq<IterableView>) -> bool {
    forall|k: int| 0 <= k < its.len() ==> (#[trigger] its[k] matches IterableView::Unpacked(p, _, s) ==> p.len() + s.len() <= usize::MAX)
}

/// The errors reported at `range` for the types found not iterable.
pub open spec fn not_iterable_errors(ts: Seq<Type>, range: TextRange) -> Seq<TypeError> {
    ts.map_values(|t: Type| TypeError { kind: ErrorKind::NotIterable, range, msg: ErrorMsg::NotIterable(t) })
}

/// A binding whose type the solver works out from types already solved.
pub enum Binding {
    /// `None`.
    NoneValue,
    /// An `Any` of the given style.
    AnyValue(AnyStyle),
    /// The target at `pos` of unpacking a value of type `value`, at `range`, with what the
    /// target declares.
    UnpackedValue { value: Type, range: TextRange, pos: UnpackedPosition, target: TargetCheck },
    /// A target of `a = b = value`, where the value has type `value`, at `range`.
    MultiTargetAssign { value: Type, range: TextRange, target: TargetCheck },
    /// The implicit return of a function.
    ReturnImplicit(ReturnImplicit),
    /// A `return` statement.
    ReturnExplicit(ReturnExplicit),
    /// A parameter of a function.
    FunctionParameter(FunctionParameter),
    /// A `super(...)` call at the given range.
    SuperInstance(SuperStyle, TextRange),
    /// The variable of a `for` loop (`async for` where `is_async`), with its annotation if
    /// it has one, over a value of type `iterable` (inferred with the annotation as a hint),
    /// at `range`; `assignable` is the solver's verdict on whether what iteration gives is
    /// assignable to the annotation's type.
    IterableValue {
        annotation: Option<AnnotationWithTarget>,
        iterable: Type,
        is_async: bool,
        assignable: bool,
        range: TextRange,
    },
    /// The name an `except` (`except*` where `is_star`) clause binds, with the annotation
    /// naming the exception classes and the solver's verdicts on them, in order.
    ExceptionHandler { exceptions: ExceptAnnotation, is_star: bool, verdicts: Vec<ExceptionVerdict> },
    /// An expression used as a statement.
    StmtExpr(StmtExpr),
    /// A value bound with its annotation, if it has one: the value's type (as the
    /// expression checker gives it, against the declared type), at `range`.
    Expr { annotation: Option<AnnotationWithTarget>, value: Type, range: TextRange },
    /// `Ts = TypeVarTuple(...)`: the `TypeVarTuple` made, the name's annotation if any, and
    /// the solver's verdict on whether the value is assignable to the annotation's type.
    TypeVarTuple { value: Type, annotation: Option<AnnotationWithTarget>, assignable: bool, range: TextRange },
    /// `T = TypeVar(...)`, as for `TypeVarTuple`.
    TypeVar { value: Type, annotation: Option<AnnotationWithTarget>, assignable: bool, range: TextRange },
    /// `P = ParamSpec(...)`, as for `TypeVarTuple`.
    ParamSpec { value: Type, annotation: Option<AnnotationWithTarget>, assignable: bool, range: TextRange },
    /// After a `with` block: the type of the block's body, if it has one, and the value that
    /// `__exit__` (or `__aexit__`) gives for each of its context managers.
    SuppressedException { body: Option<Type>, exits: Vec<Type> },
    /// A `class` statement: the class defined (none while it is being solved), and its
    /// decorators.
    ClassDef { class: Option<u64>, decorators: Vec<ClassDecorator> },
    /// A name that is only annotated: its annotation, where the annotation stands, whether
    /// the name is initialized later by an assignment that is no annotated one, and the
    /// binding that gives its value where the annotation has no type.
    AnnotatedType { declared: AnnotationWithTarget, range: TextRange, initialized_later: bool, fallback: Box<Binding> },
    /// The end of a `match` or of an `if` chain that may be exhaustive: for each narrowing,
    /// the type that remains of its subject after it.
    Exhaustive { remaining: Vec<Type> },
    /// The type a function returns to its callers.
    ReturnType(ReturnType),
    /// A name that `from m import name` binds.
    Import(ImportBinding),
    /// `X = Sentinel(...)`, as for `TypeVarTuple`.
    Sentinel { value: Type, annotation: Option<AnnotationWithTarget>, assignable: bool, range: TextRange },
    /// A value captured by a mapping pattern `{key: ...}`: for a TypedDict subject and a
    /// string literal key that names one of its fields, `field` is that field's type;
    /// `getitem` is what calling the subject's `__getitem__` with the key gives (the call
    /// reports its own errors).
    PatternMatchMapping { field: Option<Type>, getitem: Type },
    /// A value captured by a keyword sub-pattern `C(name=...)`: what looking the attribute
    /// up on the subject gives (the lookup reports its own errors).
    PatternMatchClassKeyword { attr: Type },
    /// A value captured by the positional sub-pattern at `index` of `C(...)`, at `range`:
    /// `match_args` is what looking `__match_args__` up on the subject gives, and
    /// `named_attr` what looking up the attribute that its member at `index` names gives,
    /// where that member is a string literal (the lookups report their own errors).
    PatternMatchClassPositional { index: usize, match_args: Type, named_attr: Type, range: TextRange },
    /// A name in a class body that the binder could not find: the class (none while it is
    /// being solved), the name, where it stands and a name suggested in its place; whether
    /// the place may refer forward to the class's fields (a postponed annotation or a string
    /// reference); the solver's verdict on whether the class body initializes a field of
    /// that name; and what looking the name up on the class object gives (the error type
    /// where the lookup fails, whose errors are not reported).
    ClassBodyUnknownName {
        class: Option<u64>,
        name: u64,
        range: TextRange,
        suggestion: Option<u64>,
        allow_forward_reference: bool,
        initialized_on_class: bool,
        attr: Type,
    },
}

impl AnswersSolver {
    /// What a name in a class body that the binder could not find gives: what looking it up
    /// on the class object gives, where the class is known and the name is no field of the
    /// class that the place cannot see (any field of its own, or with forward references
    /// allowed, one its body does not initialize); otherwise, or where the lookup fails, the
    /// error type, with the name reported as not found.
    pub open spec fn spec_class_body_unknown_name(
        self,
        class: Option<u64>,
        name: u64,
        range: TextRange,
        suggestion: Option<u64>,
        allow_forward_reference: bool,
        initialized_on_class: bool,
        attr: Type,
    ) -> (Type, Seq<TypeError>) {
        let not_found = (Type::any_error(), one_error(ErrorKind::UnknownName, range, ErrorMsg::CouldNotFindName(name, suggestion)));
        match class {
            Some(cls) => if !(self.declares_field(cls, name) && (!allow_forward_reference || !initialized_on_class))
                && attr != Type::any_error() {
                (attr, Seq::empty())
            } else {
                not_found
            },
            None => not_found,
        }
    }
}

/// What the positional sub-pattern at `index` of a class pattern captures, at `range`:
/// `__match_args__` must be a tuple of known members (or an error type, which is kept), with
/// a member at `index` that is a string literal, naming the attribute whose type
/// `named_attr` is; each other case is reported and gives the error type.
pub open spec fn spec_match_positional(index: usize, match_args: Type, named_attr: Type, range: TextRange) -> (Type, Seq<TypeError>) {
    match match_args {
        Type::Tuple(Tuple::Concrete(ts)) => if index < ts.seq().len() {
            match ts.seq()[index as int] {
                Type::Literal(Lit::Str(_)) => (named_attr, Seq::empty()),
                t => (Type::any_error(), one_error(ErrorKind::BadMatch, range, ErrorMsg::MatchArgsNotLiteral(t))),
            }
        } else {
            (Type::any_error(), one_error(ErrorKind::BadMatch, range, ErrorMsg::MatchArgsIndexOutOfRange(index as u64)))
        },
        Type::Any(AnyStyle::Error) => (match_args, Seq::empty()),
        _ => (Type::any_error(), one_error(ErrorKind::BadMatch, range, ErrorMsg::MatchArgsNotTuple(match_args))),
    }
}

/// A decorator of a class: its type, where it stands, and whether its signature declares
/// that it returns `type[Any]` (a return type inferred from its body does not count).
pub struct ClassDecorator {
    pub ty: Type,
    pub range: TextRange,
    pub returns_type_any: bool,
}

/// Whether a decorator's type is an `Any` written or implied (not one from an error).
pub open spec fn untyped_decorator(d: ClassDecorator) -> bool {
    d.ty == Type::Any(AnyStyle::Implicit) || d.ty == Type::Any(AnyStyle::Explicit)
}

/// One error for each untyped decorator of class `cls`, in order.
pub open spec fn untyped_decorator_errors(ds: Seq<ClassDecorator>, cls: u64) -> Seq<TypeError>
    decreases ds.len(),
{
    if ds.len() == 0 {
        Seq::empty()
    } else {
        untyped_decorator_errors(ds.drop_last(), cls) + if untyped_decorator(ds.last()) {
            one_error(ErrorKind::UntypedClassDecorator, ds.last().range, ErrorMsg::UntypedClassDecorator(cls))
        } else {
            Seq::empty()
        }
    }
}

/// What an assignment target declares, against which the assigned type is checked.
pub struct TargetCheck {
    /// The target's annotation, if it has one.
    pub annotation: Option<AnnotationWithTarget>,
    /// For a rebinding of a name a `class` statement bound: the name and the class's type.
    pub receiver: Option<(u64, Type)>,
    /// The solver's verdict on whether the assigned type is assignable to the declared type.
    pub annotation_ok: bool,
    /// The solver's verdict on whether the assigned type is assignable to the class's type.
    pub receiver_ok: bool,
}

/// The check of a rebound class name: an assigned type that is not assignable to the
/// class's type is reported and the class's type kept.
pub open spec fn spec_receiver_check(got: Type, receiver: Option<(u64, Type)>, ok: bool, range: TextRange) -> (Type, Seq<TypeError>) {
    match receiver {
        Some((name, class_ty)) => if ok {
            (got, Seq::empty())
        } else {
            (class_ty, one_error(ErrorKind::BadAssignment, range, ErrorMsg::AnnotatedNameMismatch(got, name, class_ty)))
        },
        None => (got, Seq::empty()),
    }
}

/// The errors for assigning to a `Final` target.
pub open spec fn spec_target_final_errors(target: TargetCheck, range: TextRange) -> Seq<TypeError> {
    match target.annotation {
        Some(a) => spec_final_reassignment_errors(a.annotation@, a.target, range),
        None => Seq::empty(),
    }
}

/// The name an iteration variable mismatch is reported with.
pub open spec fn target_name(target: AnnotationTarget) -> Option<u64> {
    match target {
        AnnotationTarget::Assign(name, _) => Some(name),
        AnnotationTarget::ClassMember(name) => Some(name),
        _ => None,
    }
}

impl AnswersSolver {
    /// What the solver needs of a binding: an unpacking position that the binder can make,
    /// on a value whose unpacked forms have ends that fit a `usize`.
    pub open spec fn binding_wf(self, b: Binding) -> bool
        decreases b,
    {
        match b {
            Binding::AnnotatedType { declared, fallback, .. } => self.spec_declared_type(declared) is Some
                || self.binding_wf(*fallback),
            Binding::UnpackedValue { value, pos, .. } => pos.wf() && ends_fit(self.spec_iterate(value)),
            Binding::ExceptionHandler { exceptions, verdicts, .. } => verdicts@.len() == self.spec_except_items(exceptions).len(),
            _ => true,
        }
    }

    /// The type a binding gives, and the errors it reports.
    pub open spec fn spec_binding_to_type(self, b: Binding) -> (Type, Seq<TypeError>)
        decreases b,
    {
        match b {
            Binding::TypeVar { value, annotation, assignable, range } | Binding::ParamSpec {
                value,
                annotation,
                assignable,
                range,
            } | Binding::Sentinel { value, annotation, assignable, range } => (
                value,
                self.spec_type_var_tuple_errors(value, annotation, assignable, range),
            ),
            Binding::ReturnType(x) => (self.spec_return_type(x), Seq::empty()),
            Binding::Import(x) => self.spec_solve_import(x),
            Binding::PatternMatchMapping { field, getitem } => (
                match field {
                    Some(f) => f,
                    None => getitem,
                },
                Seq::empty(),
            ),
            Binding::PatternMatchClassKeyword { attr } => (attr, Seq::empty()),
            Binding::ClassBodyUnknownName {
                class,
                name,
                range,
                suggestion,
                allow_forward_reference,
                initialized_on_class,
                attr,
            } => self.spec_class_body_unknown_name(
                class,
                name,
                range,
                suggestion,
                allow_forward_reference,
                initialized_on_class,
                attr,
            ),
            Binding::PatternMatchClassPositional { index, match_args, named_attr, range } => spec_match_positional(
                index,
                match_args,
                named_attr,
                range,
            ),
            Binding::SuppressedException { body, exits } => (
                if (match body {
                    Some(t) => t is Never,
                    None => true,
                }) && !(exists|i: int| 0 <= i < exits@.len() && spec_suppresses(self.stdlib.bool, #[trigger] exits@[i])) {
                    Type::Never
                } else {
                    Type::NoneType
                },
                Seq::empty(),
            ),
            Binding::ClassDef { class, decorators } => match class {
                None => (Type::Any(AnyStyle::Implicit), Seq::empty()),
                Some(cls) => (
                    if exists|i: int| 0 <= i < decorators@.len() && (#[trigger] decorators@[i]).returns_type_any {
                        Type::TypeOf(Box::new(Type::Any(AnyStyle::Explicit)))
                    } else {
                        Type::ClassDef(cls)
                    },
                    untyped_decorator_errors(decorators@, cls),
                ),
            },
            Binding::AnnotatedType { declared, range, initialized_later, fallback } => {
                let e1 = if declared.annotation@.qualifiers.contains(Qualifier::Final) && declared.annotation.ty is Some
                    && (declared.target matches AnnotationTarget::Assign(_, AnnAssignHasValue::No)) && !self.is_interface
                    && !initialized_later {
                    one_error(ErrorKind::InvalidAnnotation, range, ErrorMsg::FinalNotInitialized)
                } else {
                    Seq::empty()
                };
                match self.spec_declared_type(declared) {
                    Some(t) => (wrap_callables(t, self.module), e1),
                    None => {
                        let (t, e) = self.spec_binding_to_type(*fallback);
                        (t, e1 + e)
                    },
                }
            },
            Binding::Exhaustive { remaining } => (
                if exists|i: int| 0 <= i < remaining@.len() && (#[trigger] remaining@[i]) is Never {
                    Type::Never
                } else {
                    Type::NoneType
                },
                Seq::empty(),
            ),
            Binding::NoneValue => (Type::NoneType, Seq::empty()),
            Binding::AnyValue(style) => (Type::Any(style), Seq::empty()),
            Binding::UnpackedValue { value, range, pos, target } => {
                let (t, e) = self.spec_unpacked_target(self.spec_unpacked_value(self.spec_iterate(value), pos), target, range);
                (t, not_iterable_errors(self.not_iterable(value), range) + e)
            },
            Binding::MultiTargetAssign { value, range, target } => self.spec_multi_target(value, target, range),
            Binding::ReturnImplicit(x) => (self.spec_return_implicit(x), Seq::empty()),
            Binding::ReturnExplicit(x) => self.spec_return_explicit(x),
            Binding::FunctionParameter(p) => (self.spec_function_parameter(p), Seq::empty()),
            Binding::SuperInstance(style, range) => self.spec_solve_super(style, range),
            Binding::IterableValue { annotation, iterable, is_async, assignable, range } => self.spec_iterable_value(
                annotation,
                iterable,
                is_async,
                assignable,
                range,
            ),
            Binding::ExceptionHandler { exceptions, is_star, verdicts } => self.spec_exception_handler(
                exceptions,
                is_star,
                verdicts@,
            ),
            Binding::StmtExpr(x) => (x.result, spec_stmt_expr_errors(x)),
            Binding::TypeVarTuple { value, annotation, assignable, range } => (
                value,
                self.spec_type_var_tuple_errors(value, annotation, assignable, range),
            ),
            Binding::Expr { annotation, value, range } => (
                value,
                match annotation {
                    Some(a) => spec_final_reassignment_errors(a.annotation@, a.target, range),
                    None => Seq::empty(),
                },
            ),
        }
    }

    /// What a `for` loop over a value of type `iterable` binds its variable to, and the
    /// errors of iterating: for `async for`, what the value's `__aiter__` gives, or an error
    /// where it has none; otherwise what [`Self::spec_iterate`] gives, joined.
    pub open spec fn spec_iteration_value(self, iterable: Type, is_async: bool, range: TextRange) -> (Type, Seq<TypeError>) {
        if is_async {
            match self.spec_unwrap_async_iterable(iterable) {
                Some(t) => (spec_produced_type(seq![IterableView::OfType(t)]), Seq::empty()),
                None => (
                    spec_produced_type(seq![IterableView::OfType(Type::any_error())]),
                    seq![TypeError { kind: ErrorKind::NotIterable, range, msg: ErrorMsg::NotAsyncIterable(iterable) }],
                ),
            }
        } else {
            (spec_produced_type(self.spec_iterate(iterable)), not_iterable_errors(self.not_iterable(iterable), range))
        }
    }

    /// The type the annotation of an iteration variable declares, if any.
    pub open spec fn spec_iteration_hint(self, annotation: Option<AnnotationWithTarget>) -> Option<Type> {
        match annotation {
            Some(a) => match a.annotation.ty {
                Some(t) => Some(spec_finalize_param(self.stdlib.dict, self.stdlib.str, a.target, t)),
                None => None,
            },
            None => None,
        }
    }

    /// The type of a `for` loop's variable, and the errors reported, in order: assigning to
    /// a `Final` variable; iterating; what iteration gives not being assignable to the
    /// declared type. Where the variable is declared, an `Any` from iteration, or a value
    /// that is not assignable, gives the declared type.
    pub open spec fn spec_iterable_value(
        self,
        annotation: Option<AnnotationWithTarget>,
        iterable: Type,
        is_async: bool,
        assignable: bool,
        range: TextRange,
    ) -> (Type, Seq<TypeError>) {
        let final_errors = match annotation {
            Some(a) => spec_final_reassignment_errors(a.annotation@, a.target, range),
            None => Seq::empty(),
        };
        let (value, iteration_errors) = self.spec_iteration_value(iterable, is_async, range);
        match self.spec_iteration_hint(annotation) {
            None => (value, final_errors + iteration_errors),
            Some(hint) => if value is Any || assignable {
                (if value is Any { hint } else { value }, final_errors + iteration_errors)
            } else {
                (
                    hint,
                    final_errors + iteration_errors + one_error(
                        ErrorKind::BadAssignment,
                        range,
                        ErrorMsg::IterationVariableMismatch(value, target_name(annotation.unwrap().target), hint),
                    ),
                )
            },
        }
    }

    /// What an unpacking target gets: the type at its position, checked against the
    /// declared type where it has one (a type not assignable is reported, and the declared
    /// type kept), or else against a rebound class's type; assigning to a `Final` target is
    /// reported first.
    pub open spec fn spec_unpacked_target(self, got: Type, target: TargetCheck, range: TextRange) -> (Type, Seq<TypeError>) {
        let fe = spec_target_final_errors(target, range);
        let declared = match target.annotation {
            Some(a) => self.spec_declared_type(a),
            None => None,
        };
        match declared {
            Some(want) => if target.annotation_ok {
                (got, fe)
            } else {
                (want, fe + one_error(ErrorKind::BadAssignment, range, ErrorMsg::UnpackedAssignMismatch(got, want)))
            },
            None => {
                let (t, e) = spec_receiver_check(got, target.receiver, target.receiver_ok, range);
                (t, fe + e)
            },
        }
    }

    /// What a target of a chained assignment gets: the value's type, checked against the
    /// declared type where it has one (a type not assignable is reported, and the declared
    /// type given), then against a rebound class's type; assigning to a `Final` target is
    /// reported first.
    pub open spec fn spec_multi_target(self, value: Type, target: TargetCheck, range: TextRange) -> (Type, Seq<TypeError>) {
        let fe = spec_target_final_errors(target, range);
        let declared = match target.annotation {
            Some(a) => self.spec_declared_type(a),
            None => None,
        };
        match declared {
            Some(want) if !target.annotation_ok => (
                want,
                fe + one_error(ErrorKind::BadAssignment, range, ErrorMsg::AnnAssignMismatch(value, want)),
            ),
            _ => {
                let (t, e) = spec_receiver_check(value, target.receiver, target.receiver_ok, range);
                (t, fe + e)
            },
        }
    }

    /// Checks a rebound class name; see [`spec_receiver_check`].
    fn check_against_receiver(&self, got: Type, receiver: &Option<(u64, Type)>, ok: bool, range: TextRange, errors: &mut ErrorCollector) -> (r: Type)
        ensures
            r == spec_receiver_check(got, *receiver, ok, range).0,
            final(errors)@ == old(errors)@ + spec_receiver_check(got, *receiver, ok, range).1,
    {
        match receiver {
            Some((name, class_ty)) => if ok {
                assert(old(errors)@ + Seq::<TypeError>::empty() =~= old(errors)@);
                got
            } else {
                errors.error(ErrorKind::BadAssignment, range, ErrorMsg::AnnotatedNameMismatch(got, *name, class_ty.deep_clone()));
                class_ty.deep_clone()
            },
            None => {
                assert(old(errors)@ + Seq::<TypeError>::empty() =~= old(errors)@);
                got
            },
        }
    }

    /// Reports assigning to a `Final` target; see [`spec_target_final_errors`].
    fn check_target_final(&self, target: &TargetCheck, range: TextRange, errors: &mut ErrorCollector)
        ensures
            final(errors)@ == old(errors)@ + spec_target_final_errors(*target, range),
    {
        match &target.annotation {
            Some(a) => self.check_final_reassignment(a, range, errors),
            None => {
                assert(old(errors)@ + Seq::<TypeError>::empty() =~= old(errors)@);
            },
        }
    }

    /// The declared type of a target, if any.
    fn target_declared_type(&self, target: &TargetCheck) -> (r: Option<Type>)
        ensures
            r == (match target.annotation {
                Some(a) => self.spec_declared_type(a),
                None => None,
            }),
    {
        match &target.annotation {
            Some(a) => self.declared_type(a),
            None => None,
        }
    }

    /// What an unpacking target gets; see [`Self::spec_unpacked_target`].
    fn check_unpacked_target(&self, got: Type, target: &TargetCheck, range: TextRange, errors: &mut ErrorCollector) -> (r: Type)
        ensures
            r == self.spec_unpacked_target(got, *target, range).0,
            final(errors)@ == old(errors)@ + self.spec_unpacked_target(got, *target, range).1,
    {
        self.check_target_final(target, range, errors);
        let ghost e1 = errors@;
        match self.target_declared_type(target) {
            Some(want) => if target.annotation_ok {
                got
            } else {
                errors.error(ErrorKind::BadAssignment, range, ErrorMsg::UnpackedAssignMismatch(got, want.deep_clone()));
                assert(errors@ =~= old(errors)@ + self.spec_unpacked_target(got, *target, range).1);
                want
            },
            None => {
                let r = self.check_against_receiver(got, &target.receiver, target.receiver_ok, range, errors);
                assert(errors@ =~= old(errors)@ + self.spec_unpacked_target(got, *target, range).1);
                r
            },
        }
    }

    /// The type a target of a chained assignment gets; see [`Self::spec_multi_target`].
    pub fn binding_to_type_multi_target_assign(&self, value: &Type, target: &TargetCheck, range: TextRange, errors: &mut ErrorCollector) -> (r: Type)
        ensures
            r == self.spec_multi_target(*value, *target, range).0,
            final(errors)@ == old(errors)@ + self.spec_multi_target(*value, *target, range).1,
    {
        self.check_target_final(target, range, errors);
        let ghost e1 = errors@;
        match self.target_declared_type(target) {
            Some(want) => if !target.annotation_ok {
                errors.error(ErrorKind::BadAssignment, range, ErrorMsg::AnnAssignMismatch(value.deep_clone(), want.deep_clone()));
                assert(errors@ =~= old(errors)@ + self.spec_multi_target(*value, *target, range).1);
                return want;
            },
            None => {},
        }
        let r = self.check_against_receiver(value.deep_clone(), &target.receiver, target.receiver_ok, range, errors);
        assert(errors@ =~= old(errors)@ + self.spec_multi_target(*value, *target, range).1);
        r
    }

    /// The type a `for` loop binds its variable to; see [`Self::spec_iteration_value`].
    fn iteration_value(&self, iterable: &Type, is_async: bool, range: TextRange, errors: &mut ErrorCollector) -> (r: Type)
        ensures
            r == self.spec_iteration_value(*iterable, is_async, range).0,
            final(errors)@ == old(errors)@ + self.spec_iteration_value(*iterable, is_async, range).1,
    {
        if is_async {
            let its = self.async_iterate(iterable, range, errors);
            proof {
                match self.spec_unwrap_async_iterable(*iterable) {
                    Some(_) => assert(old(errors)@ + Seq::<TypeError>::empty() =~= old(errors)@),
                    None => {},
                }
            }
            get_produced_type(its)
        } else {
            let its = self.iterate(iterable, range, errors);
            get_produced_type(its)
        }
    }

    /// The type of a `for` loop's variable; see [`Self::spec_iterable_value`].
    pub fn binding_to_type_iterable_value(
        &self,
        annotation: &Option<AnnotationWithTarget>,
        iterable: &Type,
        is_async: bool,
        assignable: bool,
        range: TextRange,
        errors: &mut ErrorCollector,
    ) -> (r: Type)
        ensures
            r == self.spec_iterable_value(*annotation, *iterable, is_async, assignable, range).0,
            final(errors)@ == old(errors)@ + self.spec_iterable_value(*annotation, *iterable, is_async, assignable, range).1,
    {
        match annotation {
            Some(a) => self.check_final_reassignment(a, range, errors),
            None => {
                assert(old(errors)@ + Seq::<TypeError>::empty() =~= old(errors)@);
            },
        }
        let ghost e1 = errors@;
        let value = self.iteration_value(iterable, is_async, range, errors);
        let ghost e2 = errors@;
        let hint = match annotation {
            Some(a) => match &a.annotation.ty {
                Some(t) => Some(self.finalize_param(a.target, t.deep_clone())),
                None => None,
            },
            None => None,
        };
        assert(hint == self.spec_iteration_hint(*annotation));
        match hint {
            None => {
                assert(errors@ =~= old(errors)@ + self.spec_iterable_value(*annotation, *iterable, is_async, assignable, range).1);
                value
            },
            Some(h) => {
                if value.is_any() {
                    assert(errors@ =~= old(errors)@ + self.spec_iterable_value(*annotation, *iterable, is_async, assignable, range).1);
                    h
                } else if assignable {
                    assert(errors@ =~= old(errors)@ + self.spec_iterable_value(*annotation, *iterable, is_async, assignable, range).1);
                    value
                } else {
                    let name = match annotation {
                        Some(a) => match a.target {
                            AnnotationTarget::Assign(name, _) => Some(name),
                            AnnotationTarget::ClassMember(name) => Some(name),
                            _ => None,
                        },
                        None => None,
                    };
                    errors.error(ErrorKind::BadAssignment, range, ErrorMsg::IterationVariableMismatch(value, name, h.deep_clone()));
                    assert(errors@ =~= old(errors)@ + self.spec_iterable_value(*annotation, *iterable, is_async, assignable, range).1);
                    h
                }
            },
        }
    }

    /// The type of the target at `pos` when unpacking a value of type `value` at `range`:
    /// the join, over what iterating the value gives, of the type at that position, checked
    /// against what the target declares (see [`Self::spec_unpacked_target`]). Types found not
    /// iterable are reported first.
    pub fn binding_to_type_unpacked_value(
        &self,
        value: &Type,
        range: TextRange,
        pos: UnpackedPosition,
        target: &TargetCheck,
        errors: &mut ErrorCollector,
    ) -> (r: Type)
        requires
            pos.wf(),
            ends_fit(self.spec_iterate(*value)),
        ensures
            r == self.spec_unpacked_target(self.spec_unpacked_value(self.spec_iterate(*value), pos), *target, range).0,
            final(errors)@ == old(errors)@ + not_iterable_errors(self.not_iterable(*value), range)
                + self.spec_unpacked_target(self.spec_unpacked_value(self.spec_iterate(*value), pos), *target, range).1,
    {
        let its = self.iterate(value, range, errors);
        proof {
            assert forall|k: int| 0 <= k < its@.len() implies (#[trigger] its@[k] matches Iterable::Unpacked {
                prefix,
                suffix,
                ..
            } ==> prefix@.len() + suffix@.len() <= usize::MAX) by {
                assert(iterables_view(its@)[k] == its@[k]@);
            }
        }
        let got = self.unpacked_value(&its, pos);
        let ghost e1 = errors@;
        let r = self.check_unpacked_target(got, target, range, errors);
        assert(errors@ =~= old(errors)@ + not_iterable_errors(self.not_iterable(*value), range)
            + self.spec_unpacked_target(self.spec_unpacked_value(self.spec_iterate(*value), pos), *target, range).1);
        r
    }

    /// The type of a bound value, which is the value's; assigning to a `Final` target is
    /// reported.
    pub fn binding_to_type_expr(&self, annotation: &Option<AnnotationWithTarget>, value: &Type, range: TextRange, errors: &mut ErrorCollector) -> (r: Type)
        ensures
            r == *value,
            final(errors)@ == old(errors)@ + match *annotation {
                Some(a) => spec_final_reassignment_errors(a.annotation@, a.target, range),
                None => Seq::empty(),
            },
    {
        match annotation {
            Some(a) => self.check_final_reassignment(a, range, errors),
            None => {
                assert(old(errors)@ + Seq::<TypeError>::empty() =~= old(errors)@);
            },
        }
        value.deep_clone()
    }

    /// The type that `binding` gives; see [`Self::spec_binding_to_type`].
    pub fn binding_to_type(&self, binding: &Binding, errors: &mut ErrorCollector) -> (r: Type)
        requires
            self.binding_wf(*binding),
        ensures
            r == self.spec_binding_to_type(*binding).0,
            final(errors)@ == old(errors)@ + self.spec_binding_to_type(*binding).1,
        decreases binding,
    {
        match binding {
            Binding::TypeVar { value, annotation, assignable, range } | Binding::ParamSpec {
                value,
                annotation,
                assignable,
                range,
            } | Binding::Sentinel { value, annotation, assignable, range } => self.binding_to_type_type_var_tuple(
                value,
                annotation,
                *assignable,
                *range,
                errors,
            ),
            Binding::ReturnType(x) => {
                assert(old(errors)@ + Seq::<TypeError>::empty() =~= old(errors)@);
                self.binding_to_type_return_type(x)
            },
            Binding::Import(x) => self.solve_import(x, errors),
            Binding::PatternMatchMapping { field, getitem } => {
                assert(old(errors)@ + Seq::<TypeError>::empty() =~= old(errors)@);
                match field {
                    Some(f) => f.deep_clone(),
                    None => getitem.deep_clone(),
                }
            },
            Binding::PatternMatchClassKeyword { attr } => {
                assert(old(errors)@ + Seq::<TypeError>::empty() =~= old(errors)@);
                attr.deep_clone()
            },
            Binding::ClassBodyUnknownName {
                class,
                name,
                range,
                suggestion,
                allow_forward_reference,
                initialized_on_class,
                attr,
            } => {
                // Runtime class-body lookups see only inherited fields; postponed annotations
                // and forward references may also see fields declared later in the class.
                let lookup = match class {
                    Some(cls) => !(self.class_declares_field(*cls, *name) && (!*allow_forward_reference || !*initialized_on_class)),
                    None => false,
                };
                if lookup && !attr.is_error() {
                    assert(old(errors)@ + Seq::<TypeError>::empty() =~= old(errors)@);
                    attr.deep_clone()
                } else {
                    errors.error(ErrorKind::UnknownName, *range, ErrorMsg::CouldNotFindName(*name, *suggestion));
                    Type::Any(AnyStyle::Error)
                }
            },
            Binding::PatternMatchClassPositional { index, match_args, named_attr, range } => binding_to_type_pattern_match_class_positional(
                *index,
                match_args,
                named_attr,
                *range,
                errors,
            ),
            Binding::SuppressedException { body, exits } => {
                assert(old(errors)@ + Seq::<TypeError>::empty() =~= old(errors)@);
                let body_terminates = match body {
                    Some(t) => t.is_never(),
                    None => true,
                };
                let mut suppressed = false;
                let mut i: usize = 0;
                while i < exits.len()
                    invariant
                        i <= exits@.len(),
                        suppressed == exists|k: int| 0 <= k < i && spec_suppresses(self.stdlib.bool, #[trigger] exits@[k]),
                    decreases exits.len() - i,
                {
                    if self.context_manager_suppresses(&exits[i]) {
                        suppressed = true;
                    }
                    i += 1;
                }
                if body_terminates && !suppressed {
                    Type::Never
                } else {
                    Type::NoneType
                }
            },
            Binding::ClassDef { class, decorators } => match class {
                None => {
                    assert(old(errors)@ + Seq::<TypeError>::empty() =~= old(errors)@);
                    Type::Any(AnyStyle::Implicit)
                },
                Some(cls) => {
                    let mut erases = false;
                    let mut i: usize = 0;
                    assert(old(errors)@ + Seq::<TypeError>::empty() =~= old(errors)@);
                    while i < decorators.len()
                        invariant
                            i <= decorators@.len(),
                            erases == exists|k: int| 0 <= k < i && (#[trigger] decorators@[k]).returns_type_any,
                            errors@ == old(errors)@ + untyped_decorator_errors(decorators@.take(i as int), *cls),
                        decreases decorators.len() - i,
                    {
                        assert(decorators@.take(i + 1).drop_last() =~= decorators@.take(i as int));
                        let d = &decorators[i];
                        if matches!(d.ty, Type::Any(AnyStyle::Implicit) | Type::Any(AnyStyle::Explicit)) {
                            errors.error(ErrorKind::UntypedClassDecorator, d.range, ErrorMsg::UntypedClassDecorator(*cls));
                        } else {
                            assert(errors@ + Seq::<TypeError>::empty() =~= errors@);
                        }
                        if d.returns_type_any {
                            erases = true;
                        }
                        i += 1;
                    }
                    assert(decorators@.take(i as int) =~= decorators@);
                    if erases {
                        Type::TypeOf(Box::new(Type::Any(AnyStyle::Explicit)))
                    } else {
                        Type::ClassDef(*cls)
                    }
                },
            },
            Binding::AnnotatedType { declared, range, initialized_later, fallback } => {
                if has_final(&declared.annotation.qualifiers) && declared.annotation.ty.is_some()
                    && matches!(declared.target, AnnotationTarget::Assign(_, AnnAssignHasValue::No)) && !self.is_interface
                    && !*initialized_later {
                    errors.error(ErrorKind::InvalidAnnotation, *range, ErrorMsg::FinalNotInitialized);
                } else {
                    assert(old(errors)@ + Seq::<TypeError>::empty() =~= old(errors)@);
                }
                let ghost e1 = errors@;
                match self.declared_type(declared) {
                    Some(t) => wrap_callable_legacy_typevars(t, self.module),
                    None => {
                        let r = self.binding_to_type(fallback, errors);
                        assert(errors@ =~= old(errors)@ + self.spec_binding_to_type(*binding).1);
                        r
                    },
                }
            },
            Binding::Exhaustive { remaining } => {
                assert(old(errors)@ + Seq::<TypeError>::empty() =~= old(errors)@);
                let mut found = false;
                let mut i: usize = 0;
                while i < remaining.len()
                    invariant
                        i <= remaining@.len(),
                        found == exists|k: int| 0 <= k < i && (#[trigger] remaining@[k]) is Never,
                    decreases remaining.len() - i,
                {
                    if remaining[i].is_never() {
                        found = true;
                    }
                    i += 1;
                }
                if found {
                    Type::Never
                } else {
                    Type::NoneType
                }
            },
            Binding::NoneValue => {
                assert(old(errors)@ + Seq::<TypeError>::empty() =~= old(errors)@);
                Type::NoneType
            },
            Binding::AnyValue(style) => {
                assert(old(errors)@ + Seq::<TypeError>::empty() =~= old(errors)@);
                Type::Any(*style)
            },
            Binding::UnpackedValue { value, range, pos, target } => self.binding_to_type_unpacked_value(value, *range, *pos, target, errors),
            Binding::MultiTargetAssign { value, range, target } => self.binding_to_type_multi_target_assign(value, target, *range, errors),
            Binding::ReturnImplicit(x) => {
                assert(old(errors)@ + Seq::<TypeError>::empty() =~= old(errors)@);
                self.binding_to_type_return_implicit(x)
            },
            Binding::ReturnExplicit(x) => self.binding_to_type_return_explicit(x, errors),
            Binding::FunctionParameter(p) => {
                assert(old(errors)@ + Seq::<TypeError>::empty() =~= old(errors)@);
                self.binding_to_type_function_parameter(p)
            },
            Binding::SuperInstance(style, range) => self.solve_super_binding(style, *range, errors),
            Binding::IterableValue { annotation, iterable, is_async, assignable, range } => self.binding_to_type_iterable_value(
                annotation,
                iterable,
                *is_async,
                *assignable,
                *range,
                errors,
            ),
            Binding::ExceptionHandler { exceptions, is_star, verdicts } => self.binding_to_type_exception_handler(
                exceptions,
                *is_star,
                verdicts,
                errors,
            ),
            Binding::StmtExpr(x) => self.binding_to_type_stmt_expr(x, errors),
            Binding::Expr { annotation, value, range } => self.binding_to_type_expr(annotation, value, *range, errors),
            Binding::TypeVarTuple { value, annotation, assignable, range } => self.binding_to_type_type_var_tuple(
                value,
                annotation,
                *assignable,
                *range,
                errors,
            ),
        }
    }
}


/// What the positional sub-pattern at `index` of a class pattern captures; see
/// [`spec_match_positional`].
pub fn binding_to_type_pattern_match_class_positional(
    index: usize,
    match_args: &Type,
    named_attr: &Type,
    range: TextRange,
    errors: &mut ErrorCollector,
) -> (r: Type)
    ensures
        r == spec_match_positional(index, *match_args, *named_attr, range).0,
        final(errors)@ == old(errors)@ + spec_match_positional(index, *match_args, *named_attr, range).1,
{
    match match_args {
        Type::Tuple(Tuple::Concrete(ts)) => {
            let members = ts.to_vec();
            if index < members.len() {
                match &members[index] {
                    Type::Literal(Lit::Str(_)) => {
                        assert(old(errors)@ + Seq::<TypeError>::empty() =~= old(errors)@);
                        named_attr.deep_clone()
                    },
                    t => {
                        errors.error(ErrorKind::BadMatch, range, ErrorMsg::MatchArgsNotLiteral(t.deep_clone()));
                        Type::Any(AnyStyle::Error)
                    },
                }
            } else {
                errors.error(ErrorKind::BadMatch, range, ErrorMsg::MatchArgsIndexOutOfRange(index as u64));
                Type::Any(AnyStyle::Error)
            }
        },
        Type::Any(AnyStyle::Error) => {
            assert(old(errors)@ + Seq::<TypeError>::empty() =~= old(errors)@);
            Type::Any(AnyStyle::Error)
        },
        _ => {
            errors.error(ErrorKind::BadMatch, range, ErrorMsg::MatchArgsNotTuple(match_args.deep_clone()));
            Type::Any(AnyStyle::Error)
        },
    }
}

/// An `Any` that iteration gives brings no information: a `for` loop variable with a
/// declared type keeps that type, and nothing is reported beyond the `Final` and iteration
/// errors.
pub proof fn law_any_iteration_keeps_declared_type(
    solver: AnswersSolver,
    annotation: AnnotationWithTarget,
    iterable: Type,
    is_async: bool,
    assignable: bool,
    range: TextRange,
)
    requires
        annotation.annotation.ty is Some,
        solver.spec_iteration_value(iterable, is_async, range).0 is Any,
    ensures
        solver.spec_iterable_value(Some(annotation), iterable, is_async, assignable, range).0
            == solver.spec_iteration_hint(Some(annotation)).unwrap(),
        solver.spec_iterable_value(Some(annotation), iterable, is_async, assignable, range).1
            == spec_final_reassignment_errors(annotation.annotation@, annotation.target, range)
            + solver.spec_iteration_value(iterable, is_async, range).1,
{
}

/// A narrowing condition: a test of one subject (a name, or a chain of attribute and index
/// accesses on it, the facet subject), or a conjunction or disjunction of conditions.
pub enum NarrowOp {
    Atomic(Option<u64>),
    And(Vec<NarrowOp>),
    Or(Vec<NarrowOp>),
}

/// The first facet subject in `op`, in order.
pub open spec fn spec_extract_facet(op: NarrowOp) -> Option<u64>
    decreases op, 1nat,
{
    match op {
        NarrowOp::Atomic(f) => f,
        NarrowOp::And(ops) => spec_extract_facet_seq(ops@),
        NarrowOp::Or(ops) => spec_extract_facet_seq(ops@),
    }
}

pub open spec fn spec_extract_facet_seq(ops: Seq<NarrowOp>) -> Option<u64>
    decreases ops, 0nat,
{
    if ops.len() == 0 {
        None
    } else {
        match spec_extract_facet(ops[0]) {
            Some(f) => Some(f),
            None => spec_extract_facet_seq(ops.drop_first()),
        }
    }
}

/// The facet subject that a narrowing condition narrows, if any: `None` for the narrowing
/// of a plain name; for a compound condition, the first found.
pub fn extract_facet_from_op(op: &NarrowOp) -> (r: Option<u64>)
    ensures
        r == spec_extract_facet(*op),
    decreases op, 1nat,
{
    match op {
        NarrowOp::Atomic(f) => *f,
        NarrowOp::And(ops) => extract_facet_from_ops(ops),
        NarrowOp::Or(ops) => extract_facet_from_ops(ops),
    }
}

fn extract_facet_from_ops(ops: &Vec<NarrowOp>) -> (r: Option<u64>)
    ensures
        r == spec_extract_facet_seq(ops@),
    decreases ops, 0nat,
{
    let mut i: usize = 0;
    assert(ops@.skip(0) =~= ops@);
    while i < ops.len()
        invariant
            i <= ops@.len(),
            spec_extract_facet_seq(ops@) == spec_extract_facet_seq(ops@.skip(i as int)),
        decreases ops.len() - i,
    {
        assert(ops@.skip(i as int).drop_first() =~= ops@.skip(i + 1));
        assert(ops@.skip(i as int)[0] == ops@[i as int]);
        match extract_facet_from_op(&ops[i]) {
            Some(f) => {
                return Some(f);
            },
            None => {},
        }
        i += 1;
    }
    None
}

} // verus!
