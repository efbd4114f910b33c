//! The types that a function's bindings give: its parameters, its implicit return, and the
//! checks on what it returns.

use vstd::prelude::*;
use crate::errors::{ErrorCollector, ErrorKind, ErrorMsg, TextRange, TypeError};
use crate::solver::AnswersSolver;
use crate::type_alias::{AnnotationTarget, AnnotationWithTarget};
use crate::types::{AnyStyle, ClassType, Lit, Tuple, Type, TypeList};
use crate::union::{spec_unions, unions};
use crate::untype::one_error;

verus! {

broadcast use vstd::std_specs::vec::axiom_vec_index_decreases;

/// How a function body may end, with what is known of that ending.
pub enum LastStmt {
    /// An expression statement, with its type.
    Expr(Type),
    /// A `with` block, with the type its context manager's `__exit__` returns.
    With(Type),
    /// An exhaustive `match` or `if` chain, with the type it was found to have.
    Exhaustive(Type),
}

/// The implicit return of a function: how its body may end, when that is known.
pub struct ReturnImplicit {
    pub last_exprs: Option<Vec<LastStmt>>,
}

/// A function parameter: annotated, or not (with the types solved for the function's
/// unannotated parameters, by name).
pub enum FunctionParameter {
    Annotated(AnnotationWithTarget),
    Unannotated { resolved: Vec<(u64, Type)>, target: AnnotationTarget, name: u64 },
}

/// A `return` statement, with what is known of it: the function's return annotation, if
/// any; the returned value's type (checked against the annotation) and where it stands;
/// the solver's verdict on whether `None` may be returned where the annotation asks for a
/// type (for a bare `return`); and how the function and the statement stand.
pub struct ReturnExplicit {
    pub annotation: Option<Type>,
    pub value: Option<(Type, TextRange)>,
    pub none_assignable: bool,
    pub range: TextRange,
    pub is_unreachable: bool,
    pub is_async: bool,
    pub is_generator: bool,
}

/// How the type a function returns is found.
pub enum ReturnTypeKind {
    /// From the return annotation: its type (the implicit `Any` for an annotation that has
    /// none), for a generator function or not.
    ShouldTrustAnnotation { annotation: Type, is_generator: bool },
    /// `Any`, for a function whose return type is not inferred.
    ShouldReturnAny { is_generator: bool },
    /// Inferred from the body: `return_types` are the types its `return` statements give, in
    /// order, and `implicit_return` what its implicit return gives; `truncated` is the join
    /// of these (see [`spec_join_returns`]) with its class nesting cut at depth three, as
    /// the type library truncates it (the join itself where it is no deeper); `yields` are
    /// the types its `yield` and then its `yield from` expressions give (none for a
    /// function that is no generator).
    ShouldInferType { return_types: Vec<Type>, implicit_return: Type, truncated: Type, yields: Vec<Type> },
}

/// The return type of a function: how it is found, whether the function is `async`, and,
/// for the implicit `__new__` of a class, the class (of which `Self` is returned).
pub struct ReturnType {
    pub kind: ReturnTypeKind,
    pub is_async: bool,
    pub implicit_dunder_new_self: Option<u64>,
}

/// The most members an inferred return type may join before it becomes `Any`.
pub open spec fn max_inferred_return_width() -> nat {
    3
}

/// How many alternatives a type counts as: the members of a union, one otherwise.
pub open spec fn union_width(t: Type) -> nat {
    match t {
        Type::Union(l) => l.seq().len(),
        _ => 1,
    }
}

/// Whether `t` is a callable, generic or not.
pub open spec fn is_toplevel_callable(t: Type) -> bool {
    t is Callable || (t matches Type::Forall(_, b) && *b is Callable)
}

/// The join of what a function's `return` statements give and of its implicit return,
/// which is left out where it is `Never` (the body cannot end without `return`).
pub open spec fn spec_join_returns(return_types: Seq<Type>, implicit_return: Type) -> Type {
    if implicit_return is Never {
        spec_unions(return_types)
    } else {
        spec_unions(return_types.push(implicit_return))
    }
}

/// The inferred return type from the join of the returns: a callable as it is; a join
/// wider than [`max_inferred_return_width`] becomes an implicit `Any`; otherwise the join
/// with its nesting truncated (`truncated`).
pub open spec fn spec_cap_inferred_return(joined: Type, truncated: Type) -> Type {
    if is_toplevel_callable(joined) {
        joined
    } else if union_width(joined) > max_inferred_return_width() {
        Type::Any(AnyStyle::Implicit)
    } else {
        truncated
    }
}

/// The return type inferred for a function from its `return` statements and its implicit
/// return; see [`spec_join_returns`] and [`spec_cap_inferred_return`].
pub fn infer_return_type(return_types: &Vec<Type>, implicit_return: &Type, truncated: &Type) -> (r: Type)
    ensures
        r == spec_cap_inferred_return(spec_join_returns(return_types@, *implicit_return), *truncated),
{
    let mut all: Vec<Type> = Vec::new();
    let mut i: usize = 0;
    while i < return_types.len()
        invariant
            i <= return_types@.len(),
            all@ == return_types@.take(i as int),
        decreases return_types.len() - i,
    {
        all.push(return_types[i].deep_clone());
        i += 1;
        assert(all@ =~= return_types@.take(i as int));
    }
    assert(return_types@.take(i as int) =~= return_types@);
    if !implicit_return.is_never() {
        all.push(implicit_return.deep_clone());
    }
    let joined = unions(all);
    let callable = match &joined {
        Type::Callable(..) => true,
        Type::Forall(_, b) => matches!(&**b, Type::Callable(..)),
        _ => false,
    };
    if callable {
        return joined;
    }
    let width: usize = match &joined {
        Type::Union(l) => l.to_vec().len(),
        _ => 1,
    };
    if width > 3 {
        Type::Any(AnyStyle::Implicit)
    } else {
        truncated.deep_clone()
    }
}

/// `C[args]`.
pub open spec fn class_of(cls: u64, args: Seq<Type>) -> Type {
    Type::ClassType(ClassType { class: cls, targs: TypeList::from_seq(args) })
}

/// `C[args]`, built from a vector.
fn mk_class_of(cls: u64, args: Vec<Type>) -> (r: Type)
    ensures
        r == class_of(cls, args@),
{
    let ghost s = args@;
    let targs = TypeList::from_vec(args);
    proof {
        TypeList::lemma_from_seq(s);
        TypeList::lemma_seq_injective(targs, TypeList::from_seq(s));
    }
    Type::ClassType(ClassType { class: cls, targs })
}

/// `C` with no type arguments.
pub open spec fn plain_class(cls: u64) -> Type {
    Type::ClassType(ClassType { class: cls, targs: TypeList::Nil })
}

/// Whether a context manager whose `__exit__` returns `exit` may swallow an exception:
/// only when it returns `True` or `bool`.
pub open spec fn spec_suppresses(bool_class: u64, exit: Type) -> bool {
    match exit {
        Type::Literal(Lit::Bool(b)) => b,
        _ => exit == plain_class(bool_class),
    }
}

/// Whether the body cannot fall off its end after `last`.
pub open spec fn spec_ends_abruptly(bool_class: u64, last: LastStmt) -> bool {
    match last {
        LastStmt::Expr(t) => t == Type::Never,
        LastStmt::With(exit) => !spec_suppresses(bool_class, exit),
        LastStmt::Exhaustive(t) => t == Type::Never,
    }
}

/// The type of an annotated `*args` parameter is a tuple of the annotation, and of a
/// `**kwargs` parameter a `dict` from `str` to it.
pub open spec fn spec_finalize_param(dict_class: u64, str_class: u64, target: AnnotationTarget, ty: Type) -> Type {
    match target {
        AnnotationTarget::ArgsParam(_) => Type::Tuple(Tuple::Unbounded(Box::new(ty))),
        AnnotationTarget::KwargsParam(_) => Type::ClassType(
            ClassType {
                class: dict_class,
                targs: TypeList::Cons(Box::new(plain_class(str_class)), Box::new(TypeList::Cons(Box::new(ty), Box::new(TypeList::Nil)))),
            },
        ),
        _ => ty,
    }
}

/// The type of `name` among the resolved parameter types.
pub open spec fn resolved_type(resolved: Seq<(u64, Type)>, name: u64) -> Option<Type>
    decreases resolved.len(),
{
    if resolved.len() == 0 {
        None
    } else if resolved[0].0 == name {
        Some(resolved[0].1)
    } else {
        resolved_type(resolved.drop_first(), name)
    }
}

/// The return types that the generators among the members of `ms` declare, in order.
pub open spec fn generator_returns(generator: u64, ms: Seq<Type>) -> Seq<Type>
    decreases ms.len(),
{
    if ms.len() == 0 {
        Seq::empty()
    } else {
        let rest = generator_returns(generator, ms.drop_last());
        match ms.last() {
            Type::ClassType(c) => if c.class == generator && c.targs.seq().len() == 3 {
                rest.push(c.targs.seq()[2])
            } else {
                rest
            },
            _ => rest,
        }
    }
}

impl AnswersSolver {
    /// What a generator's `return` must give, as its annotation says: the union of the
    /// return types of the generators it names, if it names any.
    pub open spec fn spec_generator_return_hint(self, annotation: Option<Type>) -> Option<Type> {
        match annotation {
            Some(a) => {
                let rs = generator_returns(self.stdlib.generator, crate::yields::hint_members(a));
                if rs.len() > 0 {
                    Some(spec_unions(rs))
                } else {
                    None
                }
            },
            None => None,
        }
    }

    /// The type a `return` statement gives, and its errors: an unreachable `return` is
    /// reported and gives an error; a value returned from an async generator is reported;
    /// otherwise (against the generator return type the annotation asks for, in a generator)
    /// a returned `Any` is reported as [`Self::spec_any_return_errors`] says, and a bare
    /// `return` gives `None`, reported where `None` may not be returned.
    pub open spec fn spec_return_explicit(self, x: ReturnExplicit) -> (Type, Seq<TypeError>) {
        if x.is_unreachable {
            (Type::any_error(), one_error(ErrorKind::Unreachable, x.range, ErrorMsg::UnreachableReturn))
        } else if x.is_async && x.is_generator {
            match x.value {
                Some((_, r)) => (Type::any_error(), one_error(ErrorKind::BadReturn, r, ErrorMsg::AsyncGeneratorReturnValue)),
                None => (Type::NoneType, Seq::empty()),
            }
        } else {
            let hint = if x.is_generator {
                self.spec_generator_return_hint(x.annotation)
            } else {
                x.annotation
            };
            match x.value {
                Some((t, r)) => (t, self.spec_any_return_errors(hint, t, r)),
                None => match hint {
                    Some(h) => (
                        Type::NoneType,
                        if x.none_assignable {
                            Seq::empty()
                        } else {
                            one_error(ErrorKind::BadReturn, x.range, ErrorMsg::BareReturnNotAssignable(h))
                        },
                    ),
                    None => (Type::NoneType, Seq::empty()),
                },
            }
        }
    }

    /// The return type a generator's annotation asks of its `return` statements.
    fn generator_return_hint(&self, annotation: &Option<Type>) -> (r: Option<Type>)
        ensures
            r == self.spec_generator_return_hint(*annotation),
    {
        match annotation {
            None => None,
            Some(a) => {
                let ms: Vec<Type> = match a {
                    Type::Union(l) => l.to_vec(),
                    other => {
                        let mut v: Vec<Type> = Vec::new();
                        v.push(other.deep_clone());
                        v
                    },
                };
                assert(ms@ =~= crate::yields::hint_members(*a));
                let mut rs: Vec<Type> = Vec::new();
                let mut i: usize = 0;
                while i < ms.len()
                    invariant
                        i <= ms@.len(),
                        rs@ == generator_returns(self.stdlib.generator, ms@.take(i as int)),
                    decreases ms.len() - i,
                {
                    assert(ms@.take(i + 1).drop_last() =~= ms@.take(i as int));
                    match &ms[i] {
                        Type::ClassType(c) => {
                            let args = c.targs.to_vec();
                            if c.class == self.stdlib.generator && args.len() == 3 {
                                rs.push(args[2].deep_clone());
                            }
                        },
                        _ => {},
                    }
                    i += 1;
                }
                assert(ms@.take(i as int) =~= ms@);
                if rs.len() > 0 {
                    Some(unions(rs))
                } else {
                    None
                }
            },
        }
    }

    /// The type a `return` statement gives; see [`Self::spec_return_explicit`].
    pub fn binding_to_type_return_explicit(&self, x: &ReturnExplicit, errors: &mut ErrorCollector) -> (r: Type)
        ensures
            r == self.spec_return_explicit(*x).0,
            final(errors)@ == old(errors)@ + self.spec_return_explicit(*x).1,
    {
        if x.is_unreachable {
            errors.error(ErrorKind::Unreachable, x.range, ErrorMsg::UnreachableReturn);
            return Type::Any(AnyStyle::Error);
        }
        if x.is_async && x.is_generator {
            return match &x.value {
                Some((_, r)) => {
                    errors.error(ErrorKind::BadReturn, *r, ErrorMsg::AsyncGeneratorReturnValue);
                    Type::Any(AnyStyle::Error)
                },
                None => {
                    assert(old(errors)@ + Seq::<TypeError>::empty() =~= old(errors)@);
                    Type::NoneType
                },
            };
        }
        let hint = if x.is_generator {
            self.generator_return_hint(&x.annotation)
        } else {
            match &x.annotation {
                Some(a) => Some(a.deep_clone()),
                None => None,
            }
        };
        match &x.value {
            Some((t, r)) => {
                self.check_any_return(&hint, t, *r, errors);
                t.deep_clone()
            },
            None => match hint {
                Some(h) => {
                    if x.none_assignable {
                        assert(old(errors)@ + Seq::<TypeError>::empty() =~= old(errors)@);
                    } else {
                        errors.error(ErrorKind::BadReturn, x.range, ErrorMsg::BareReturnNotAssignable(h));
                    }
                    Type::NoneType
                },
                None => {
                    assert(old(errors)@ + Seq::<TypeError>::empty() =~= old(errors)@);
                    Type::NoneType
                },
            },
        }
    }

    /// The implicit return type: an implicit `Any` in a stub; `Never` when every way the body
    /// may end is known not to fall through; otherwise `None`.
    pub open spec fn spec_return_implicit(self, x: ReturnImplicit) -> Type {
        if self.is_interface {
            Type::Any(AnyStyle::Implicit)
        } else if x.last_exprs matches Some(v) && forall|i: int| 0 <= i < v@.len() ==> spec_ends_abruptly(self.stdlib.bool, #[trigger] v@[i]) {
            Type::Never
        } else {
            Type::NoneType
        }
    }

    /// The type a function returns to its caller: `Self` for the implicit `__new__` of a
    /// class; else what its annotation gives (or `Any`), wrapped as
    /// [`Self::spec_return_type_from_annotation`] says; else, inferred, a generator of the
    /// join of what it yields (`AsyncGenerator[Y, Any]` when `async`,
    /// `Generator[Y, Any, R]` otherwise, `R` what it returns), or, for no generator, a
    /// coroutine of what it returns when `async`, and what it returns otherwise.
    pub open spec fn spec_return_type(self, x: ReturnType) -> Type {
        match x.implicit_dunder_new_self {
            Some(cls) => Type::SelfType(self.spec_as_class_type_unchecked(cls)),
            None => match x.kind {
                ReturnTypeKind::ShouldTrustAnnotation { annotation, is_generator } => self.spec_return_type_from_annotation(
                    annotation,
                    x.is_async,
                    is_generator,
                ),
                ReturnTypeKind::ShouldReturnAny { is_generator } => self.spec_return_type_from_annotation(
                    Type::Any(AnyStyle::Implicit),
                    x.is_async,
                    is_generator,
                ),
                ReturnTypeKind::ShouldInferType { return_types, implicit_return, truncated, yields } => {
                    let returned = spec_cap_inferred_return(spec_join_returns(return_types@, implicit_return), truncated);
                    if yields@.len() > 0 {
                    let y = spec_unions(yields@);
                    if x.is_async {
                        class_of(self.stdlib.async_generator, seq![y, Type::Any(AnyStyle::Implicit)])
                    } else {
                        class_of(self.stdlib.generator, seq![y, Type::Any(AnyStyle::Implicit), returned])
                    }
                } else if x.is_async {
                    class_of(self.stdlib.coroutine, seq![Type::Any(AnyStyle::Implicit), Type::Any(AnyStyle::Implicit), returned])
                } else {
                    returned
                }
                },
            },
        }
    }

    /// The type a function returns to its caller; see [`Self::spec_return_type`].
    pub fn binding_to_type_return_type(&self, x: &ReturnType) -> (r: Type)
        ensures
            r == self.spec_return_type(*x),
    {
        let ty = match &x.kind {
            ReturnTypeKind::ShouldTrustAnnotation { annotation, is_generator } => self.return_type_from_annotation(
                annotation.deep_clone(),
                x.is_async,
                *is_generator,
            ),
            ReturnTypeKind::ShouldReturnAny { is_generator } => self.return_type_from_annotation(
                Type::Any(AnyStyle::Implicit),
                x.is_async,
                *is_generator,
            ),
            ReturnTypeKind::ShouldInferType { return_types, implicit_return, truncated, yields } => {
                let returned = &infer_return_type(return_types, implicit_return, truncated);
                if yields.len() > 0 {
                    let mut ys: Vec<Type> = Vec::new();
                    let mut i: usize = 0;
                    while i < yields.len()
                        invariant
                            i <= yields@.len(),
                            ys@ == yields@.take(i as int),
                        decreases yields.len() - i,
                    {
                        ys.push(yields[i].deep_clone());
                        i += 1;
                        assert(ys@ =~= yields@.take(i as int));
                    }
                    assert(yields@.take(i as int) =~= yields@);
                    let y = unions(ys);
                    let mut args: Vec<Type> = Vec::new();
                    args.push(y);
                    args.push(Type::Any(AnyStyle::Implicit));
                    if x.is_async {
                        assert(args@ =~= seq![spec_unions(yields@), Type::Any(AnyStyle::Implicit)]);
                        mk_class_of(self.stdlib.async_generator, args)
                    } else {
                        args.push(returned.deep_clone());
                        assert(args@ =~= seq![spec_unions(yields@), Type::Any(AnyStyle::Implicit), *returned]);
                        mk_class_of(self.stdlib.generator, args)
                    }
                } else if x.is_async {
                    let mut args: Vec<Type> = Vec::new();
                    args.push(Type::Any(AnyStyle::Implicit));
                    args.push(Type::Any(AnyStyle::Implicit));
                    args.push(returned.deep_clone());
                    assert(args@ =~= seq![Type::Any(AnyStyle::Implicit), Type::Any(AnyStyle::Implicit), *returned]);
                    mk_class_of(self.stdlib.coroutine, args)
                } else {
                    returned.deep_clone()
                }
            },
        };
        match x.implicit_dunder_new_self {
            Some(cls) => Type::SelfType(self.as_class_type_unchecked(cls)),
            None => ty,
        }
    }

    /// What a function annotated to return `annotated` returns to its caller: a coroutine of
    /// it for an `async` function that is no generator.
    pub open spec fn spec_return_type_from_annotation(self, annotated: Type, is_async: bool, is_generator: bool) -> Type {
        if is_async && !is_generator {
            Type::ClassType(
                ClassType {
                    class: self.stdlib.coroutine,
                    targs: TypeList::from_seq(seq![Type::Any(AnyStyle::Implicit), Type::Any(AnyStyle::Implicit), annotated]),
                },
            )
        } else {
            annotated
        }
    }

    /// The error for returning an `Any` (of type `returned`) from a function declared to
    /// return `declared` (other than `Any` or `object`).
    pub open spec fn spec_any_return_errors(self, declared: Option<Type>, returned: Type, range: TextRange) -> Seq<TypeError> {
        match declared {
            None => Seq::empty(),
            Some(d) => if d is Any || d == plain_class(self.stdlib.object) {
                Seq::empty()
            } else {
                match returned {
                    Type::Any(AnyStyle::Explicit) => one_error(ErrorKind::NoAnyReturnExplicit, range, ErrorMsg::ReturningAny(d)),
                    Type::Any(AnyStyle::Implicit) => one_error(ErrorKind::NoAnyReturnImplicit, range, ErrorMsg::ReturningImplicitAny(d)),
                    _ => Seq::empty(),
                }
            },
        }
    }

    /// The type of a function parameter: its annotation's type (an annotation with no type,
    /// such as a bare `Final`, gives an implicit `Any`, made a tuple or dict for `*args` or
    /// `**kwargs`), or the type solved for an unannotated one.
    pub open spec fn spec_function_parameter(self, p: FunctionParameter) -> Type {
        match p {
            FunctionParameter::Annotated(a) => match a.annotation.ty {
                Some(t) => t,
                None => spec_finalize_param(self.stdlib.dict, self.stdlib.str, a.target, Type::Any(AnyStyle::Implicit)),
            },
            FunctionParameter::Unannotated { resolved, target, name } => spec_finalize_param(
                self.stdlib.dict,
                self.stdlib.str,
                target,
                match resolved_type(resolved@, name) {
                    Some(t) => t,
                    None => Type::Any(AnyStyle::Implicit),
                },
            ),
        }
    }

    /// Whether a context manager whose `__exit__` returns `exit` may swallow an exception.
    pub fn context_manager_suppresses(&self, exit: &Type) -> (r: bool)
        ensures
            r == spec_suppresses(self.stdlib.bool, *exit),
    {
        match exit {
            Type::Literal(Lit::Bool(b)) => *b,
            Type::ClassType(c) => c.class == self.stdlib.bool && matches!(c.targs, TypeList::Nil),
            _ => false,
        }
    }

    /// The implicit return type of a function; see [`Self::spec_return_implicit`].
    pub fn binding_to_type_return_implicit(&self, x: &ReturnImplicit) -> (r: Type)
        ensures
            r == self.spec_return_implicit(*x),
    {
        if self.is_interface {
            return Type::Any(AnyStyle::Implicit);
        }
        match &x.last_exprs {
            None => Type::NoneType,
            Some(v) => {
                let mut i: usize = 0;
                while i < v.len()
                    invariant
                        i <= v@.len(),
                        !self.is_interface,
                        x.last_exprs matches Some(w) && w@ == v@,
                        forall|k: int| 0 <= k < i ==> spec_ends_abruptly(self.stdlib.bool, #[trigger] v@[k]),
                    decreases v.len() - i,
                {
                    let ends = match &v[i] {
                        LastStmt::Expr(t) => t.is_never(),
                        LastStmt::With(exit) => !self.context_manager_suppresses(exit),
                        LastStmt::Exhaustive(t) => t.is_never(),
                    };
                    if !ends {
                        assert(!spec_ends_abruptly(self.stdlib.bool, v@[i as int]));
                        return Type::NoneType;
                    }
                    i += 1;
                }
                Type::Never
            },
        }
    }

    /// What a function annotated to return `annotated_ty` returns to its caller.
    pub fn return_type_from_annotation(&self, annotated_ty: Type, is_async: bool, is_generator: bool) -> (r: Type)
        ensures
            r == self.spec_return_type_from_annotation(annotated_ty, is_async, is_generator),
    {
        if is_async && !is_generator {
            let ghost s = seq![Type::Any(AnyStyle::Implicit), Type::Any(AnyStyle::Implicit), annotated_ty];
            let mut v: Vec<Type> = Vec::new();
            v.push(Type::Any(AnyStyle::Implicit));
            v.push(Type::Any(AnyStyle::Implicit));
            v.push(annotated_ty);
            assert(v@ =~= s);
            let targs = TypeList::from_vec(v);
            proof {
                TypeList::lemma_from_seq(s);
                TypeList::lemma_seq_injective(targs, TypeList::from_seq(s));
            }
            Type::ClassType(ClassType { class: self.stdlib.coroutine, targs })
        } else {
            annotated_ty
        }
    }

    /// Reports returning an `Any` from a function declared to return `hint`; see
    /// [`Self::spec_any_return_errors`].
    pub fn check_any_return(&self, hint: &Option<Type>, return_ty: &Type, range: TextRange, errors: &mut ErrorCollector)
        ensures
            final(errors)@ == old(errors)@ + self.spec_any_return_errors(*hint, *return_ty, range),
    {
        let declared = match hint {
            None => {
                assert(old(errors)@ + Seq::<TypeError>::empty() =~= old(errors)@);
                return;
            },
            Some(d) => d,
        };
        let is_object = match declared {
            Type::ClassType(c) => c.class == self.stdlib.object && matches!(c.targs, TypeList::Nil),
            _ => false,
        };
        if declared.is_any() || is_object {
            assert(old(errors)@ + Seq::<TypeError>::empty() =~= old(errors)@);
            return;
        }
        match return_ty {
            Type::Any(AnyStyle::Explicit) => {
                errors.error(ErrorKind::NoAnyReturnExplicit, range, ErrorMsg::ReturningAny(declared.deep_clone()));
            },
            Type::Any(AnyStyle::Implicit) => {
                errors.error(ErrorKind::NoAnyReturnImplicit, range, ErrorMsg::ReturningImplicitAny(declared.deep_clone()));
            },
            _ => {
                assert(old(errors)@ + Seq::<TypeError>::empty() =~= old(errors)@);
            },
        }
    }

    pub(crate) fn finalize_param(&self, target: AnnotationTarget, ty: Type) -> (r: Type)
        ensures
            r == spec_finalize_param(self.stdlib.dict, self.stdlib.str, target, ty),
    {
        match target {
            AnnotationTarget::ArgsParam(_) => Type::Tuple(Tuple::Unbounded(Box::new(ty))),
            AnnotationTarget::KwargsParam(_) => Type::ClassType(
                ClassType {
                    class: self.stdlib.dict,
                    targs: TypeList::Cons(
                        Box::new(Type::ClassType(ClassType { class: self.stdlib.str, targs: TypeList::Nil })),
                        Box::new(TypeList::Cons(Box::new(ty), Box::new(TypeList::Nil))),
                    ),
                },
            ),
            _ => ty,
        }
    }

    /// The type of a function parameter; see [`Self::spec_function_parameter`].
    pub fn binding_to_type_function_parameter(&self, param: &FunctionParameter) -> (r: Type)
        ensures
            r == self.spec_function_parameter(*param),
    {
        match param {
            FunctionParameter::Annotated(a) => {
                let r = match &a.annotation.ty {
                    Some(t) => t.deep_clone(),
                    None => self.finalize_param(a.target, Type::Any(AnyStyle::Implicit)),
                };
                assert(r == self.spec_function_parameter(*param));
                r
            },
            FunctionParameter::Unannotated { resolved, target, name } => {
                let ty = match lookup_resolved(resolved, *name) {
                    Some(t) => t,
                    None => Type::Any(AnyStyle::Implicit),
                };
                self.finalize_param(*target, ty)
            },
        }
    }
}

/// The type of `name` among the resolved parameter types.
fn lookup_resolved(resolved: &Vec<(u64, Type)>, name: u64) -> (r: Option<Type>)
    ensures
        r == resolved_type(resolved@, name),
{
    let mut i: usize = 0;
    assert(resolved@.skip(0) =~= resolved@);
    while i < resolved.len()
        invariant
            i <= resolved@.len(),
            resolved_type(resolved@, name) == resolved_type(resolved@.skip(i as int), name),
        decreases resolved.len() - i,
    {
        assert(resolved@.skip(i as int).drop_first() =~= resolved@.skip(i + 1));
        if resolved[i].0 == name {
            assert(resolved@.skip(i as int)[0] == resolved@[i as int]);
            return Some(resolved[i].1.deep_clone());
        }
        i += 1;
    }
    None
}

/// Whether a value of type `ty` may be a type form: a class object's type, a type variable
/// of any kind, an `Annotated` form, `None` where `allow_none` (as in `T | None`), or a
/// union of such forms in which `None` is allowed.
pub open spec fn spec_check_type_form(ty: Type, allow_none: bool) -> bool
    decreases ty, 1nat,
{
    match ty {
        Type::TypeOf(_) | Type::TypeVar(_) | Type::ParamSpec(_) | Type::TypeVarTuple(_) | Type::Annotated(_) => true,
        Type::NoneType => allow_none,
        Type::Union(l) => spec_check_type_form_list(l),
        _ => false,
    }
}

pub open spec fn spec_check_type_form_list(l: TypeList) -> bool
    decreases l, 0nat,
{
    match l {
        TypeList::Nil => true,
        TypeList::Cons(h, t) => spec_check_type_form(*h, true) && spec_check_type_form_list(*t),
    }
}

/// Whether a value of type `ty` may be a type form; see [`spec_check_type_form`].
pub fn check_type_form(ty: &Type, allow_none: bool) -> (r: bool)
    ensures
        r == spec_check_type_form(*ty, allow_none),
    decreases *ty, 1nat,
{
    match ty {
        Type::TypeOf(_) | Type::TypeVar(_) | Type::ParamSpec(_) | Type::TypeVarTuple(_) | Type::Annotated(_) => true,
        Type::NoneType => allow_none,
        Type::Union(l) => check_type_form_list(l),
        _ => false,
    }
}

fn check_type_form_list(l: &TypeList) -> (r: bool)
    ensures
        r == spec_check_type_form_list(*l),
    decreases *l, 0nat,
{
    match l {
        TypeList::Nil => true,
        TypeList::Cons(h, t) => check_type_form(h, true) && check_type_form_list(t),
    }
}

/// Whether an assignment of a value of type `ty` (with no annotation) may define an
/// implicit type alias: its value may be a type form, with `None` allowed only inside a
/// union.
pub fn may_be_implicit_type_alias(ty: &Type) -> (r: bool)
    ensures
        r == spec_check_type_form(*ty, false),
{
    check_type_form(ty, false)
}


/// Whether a return annotation member asks for an async generator.
pub open spec fn is_async_generator(async_generator: u64, t: Type) -> bool {
    t matches Type::ClassType(c) && c.class == async_generator && c.targs.seq().len() == 2
}

impl AnswersSolver {
    /// The errors of checking a function's implicit return against its return annotation:
    /// an async generator must be annotated with an `AsyncGenerator`, a generator with a
    /// `Generator` (whose return type the implicit return must meet); any other function's
    /// implicit return must meet the annotation. `implicit_assignable` is the solver's
    /// verdict on the implicit return meeting the return type asked for.
    pub open spec fn spec_implicit_return_errors(
        self,
        annotation: Type,
        is_async: bool,
        is_generator: bool,
        implicit_assignable: bool,
        range: TextRange,
    ) -> Seq<TypeError> {
        let ms = crate::yields::hint_members(annotation);
        if is_async && is_generator {
            if exists|i: int| 0 <= i < ms.len() && is_async_generator(self.stdlib.async_generator, #[trigger] ms[i]) {
                Seq::empty()
            } else {
                one_error(ErrorKind::BadReturn, range, ErrorMsg::AsyncGeneratorShouldReturnAsyncGenerator)
            }
        } else if is_generator {
            let rs = generator_returns(self.stdlib.generator, ms);
            if rs.len() == 0 {
                one_error(ErrorKind::BadReturn, range, ErrorMsg::GeneratorShouldReturnGenerator)
            } else if implicit_assignable {
                Seq::empty()
            } else {
                one_error(ErrorKind::BadReturn, range, ErrorMsg::ImplicitReturnNotAssignable(spec_unions(rs)))
            }
        } else if implicit_assignable {
            Seq::empty()
        } else {
            one_error(ErrorKind::BadReturn, range, ErrorMsg::ImplicitReturnNotAssignable(annotation))
        }
    }

    /// Checks a function's implicit return against its return annotation; see
    /// [`Self::spec_implicit_return_errors`].
    pub fn check_implicit_return_against_annotation(
        &self,
        annotation: &Type,
        is_async: bool,
        is_generator: bool,
        implicit_assignable: bool,
        range: TextRange,
        errors: &mut ErrorCollector,
    )
        ensures
            final(errors)@ == old(errors)@ + self.spec_implicit_return_errors(*annotation, is_async, is_generator, implicit_assignable, range),
    {
        let ms: Vec<Type> = match annotation {
            Type::Union(l) => l.to_vec(),
            other => {
                let mut v: Vec<Type> = Vec::new();
                v.push(other.deep_clone());
                v
            },
        };
        assert(ms@ =~= crate::yields::hint_members(*annotation));
        if is_async && is_generator {
            let mut found = false;
            let mut i: usize = 0;
            while i < ms.len()
                invariant
                    i <= ms@.len(),
                    found == exists|k: int| 0 <= k < i && is_async_generator(self.stdlib.async_generator, #[trigger] ms@[k]),
                decreases ms.len() - i,
            {
                let is_agen = match &ms[i] {
                    Type::ClassType(c) => c.class == self.stdlib.async_generator && c.targs.to_vec().len() == 2,
                    _ => false,
                };
                proof {
                    if is_agen {
                        assert(is_async_generator(self.stdlib.async_generator, ms@[i as int]));
                    }
                }
                found = found || is_agen;
                i += 1;
            }
            if found {
                assert(old(errors)@ + Seq::<TypeError>::empty() =~= old(errors)@);
            } else {
                errors.error(ErrorKind::BadReturn, range, ErrorMsg::AsyncGeneratorShouldReturnAsyncGenerator);
            }
        } else if is_generator {
            let mut rs: Vec<Type> = Vec::new();
            let mut i: usize = 0;
            while i < ms.len()
                invariant
                    i <= ms@.len(),
                    rs@ == generator_returns(self.stdlib.generator, ms@.take(i as int)),
                decreases ms.len() - i,
            {
                assert(ms@.take(i + 1).drop_last() =~= ms@.take(i as int));
                match &ms[i] {
                    Type::ClassType(c) => {
                        let args = c.targs.to_vec();
                        if c.class == self.stdlib.generator && args.len() == 3 {
                            rs.push(args[2].deep_clone());
                        }
                    },
                    _ => {},
                }
                i += 1;
            }
            assert(ms@.take(i as int) =~= ms@);
            if rs.len() == 0 {
                errors.error(ErrorKind::BadReturn, range, ErrorMsg::GeneratorShouldReturnGenerator);
            } else if implicit_assignable {
                assert(old(errors)@ + Seq::<TypeError>::empty() =~= old(errors)@);
            } else {
                errors.error(ErrorKind::BadReturn, range, ErrorMsg::ImplicitReturnNotAssignable(unions(rs)));
            }
        } else if implicit_assignable {
            assert(old(errors)@ + Seq::<TypeError>::empty() =~= old(errors)@);
        } else {
            errors.error(ErrorKind::BadReturn, range, ErrorMsg::ImplicitReturnNotAssignable(annotation.deep_clone()));
        }
    }
}

} // verus!
