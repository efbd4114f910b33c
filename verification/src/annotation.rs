//! Annotations: the qualifiers (`ClassVar`, `Final`, `Required`, ...) that wrap a type, and
//! where each may stand.

use vstd::prelude::*;
use crate::errors::{ErrorCollector, ErrorKind, ErrorMsg, TextRange, TypeError};
use crate::solver::AnswersSolver;
use crate::type_form::{AnnAssignHasValue, TypeFormContext};
use crate::type_alias::{AnnotationTarget, AnnotationWithTarget};
use crate::types::{list_any, type_any, AnyStyle, ClassType, Qualifier, SpecialForm, Tuple, Type, TypeList, TypePred};

verus! {

broadcast use vstd::std_specs::vec::axiom_vec_index_decreases;

/// An annotation expression, with the types that evaluating its parts gives.
pub enum AnnotationExpr {
    /// An expression that cannot be an annotation (a call, a binary operation, ...);
    /// `problem` names what it is.
    Invalid { range: TextRange, problem: u64 },
    /// A name or attribute: `value` is the type it evaluates to, `denotes` the type it stands
    /// for as an annotation.
    Name { range: TextRange, value: Type, denotes: Type },
    /// `head[args]`: `head` is what the head evaluates to when it is a name or attribute
    /// (with its place); `denotes` is the type the whole stands for when the head is not a
    /// qualifier. For `Annotated[T, m, ...]`, `framed` is the solver's verdict on the
    /// metadata: the type `T` becomes when `T` is Polars' `DataFrame` and the metadata is a
    /// column schema (`Annotated[pl.DataFrame, Schema]`), none otherwise.
    Subscript {
        range: TextRange,
        head: Option<(TextRange, Type)>,
        args: Vec<AnnotationExpr>,
        denotes: Type,
        framed: Option<Type>,
    },
    /// Any other type expression, with the type it stands for.
    Other { range: TextRange, denotes: Type },
}

/// An annotation: its qualifiers, outermost first, and its type (none for a bare qualifier
/// such as `Final`).
#[derive(Debug, PartialEq)]
pub struct Annotation {
    pub qualifiers: Vec<Qualifier>,
    pub ty: Option<Type>,
}

/// The mathematical value of an [`Annotation`].
pub struct AnnotationView {
    pub qualifiers: Seq<Qualifier>,
    pub ty: Option<Type>,
}

impl View for Annotation {
    type V = AnnotationView;

    open spec fn view(&self) -> AnnotationView {
        AnnotationView { qualifiers: self.qualifiers@, ty: self.ty }
    }
}

/// An annotation of a type, with no qualifier.
pub open spec fn plain_annotation(ty: Type) -> AnnotationView {
    AnnotationView { qualifiers: Seq::empty(), ty: Some(ty) }
}

impl AnnotationExpr {
    pub open spec fn spec_range(self) -> TextRange {
        match self {
            AnnotationExpr::Invalid { range, .. } => range,
            AnnotationExpr::Name { range, .. } => range,
            AnnotationExpr::Subscript { range, .. } => range,
            AnnotationExpr::Other { range, .. } => range,
        }
    }

    pub fn range(&self) -> (r: TextRange)
        ensures
            r == self.spec_range(),
    {
        match self {
            AnnotationExpr::Invalid { range, .. } => *range,
            AnnotationExpr::Name { range, .. } => *range,
            AnnotationExpr::Subscript { range, .. } => *range,
            AnnotationExpr::Other { range, .. } => *range,
        }
    }
}

/// One error at `range`, as a sequence.
pub open spec fn annotation_error(range: TextRange, msg: ErrorMsg) -> Seq<TypeError> {
    seq![TypeError { kind: ErrorKind::InvalidAnnotation, range, msg }]
}

/// Is a bare qualifier allowed without a type argument in position `ctx`? `TypeAlias` and
/// `ClassVar` are; `Final` is unless it annotates a local variable given no value.
pub open spec fn bare_qualifier_ok(q: Qualifier, ctx: TypeFormContext) -> bool {
    ||| q == Qualifier::TypeAlias
    ||| q == Qualifier::ClassVar
    ||| (q == Qualifier::Final && ctx != TypeFormContext::VarAnnotation(AnnAssignHasValue::No))
}

impl AnswersSolver {
    /// The qualifier that an expression evaluating to `value` (if it is a name or attribute)
    /// stands for in position `ctx`, with the errors for a qualifier out of place, at `range`.
    pub open spec fn spec_expr_qualifier(self, value: Option<Type>, ctx: TypeFormContext, range: TextRange) -> (Option<Qualifier>, Seq<TypeError>) {
        match value {
            Some(Type::TypeOf(f)) => match *f {
                Type::SpecialForm(special) => {
                    let q = special.spec_to_qualifier();
                    if (q == Some(Qualifier::ClassVar) || q == Some(Qualifier::NotRequired) || q
                        == Some(Qualifier::Required)) && !(ctx is ClassVarAnnotation) {
                        (None, annotation_error(range, ErrorMsg::OnlyInClassBody(special)))
                    } else if q == Some(Qualifier::ReadOnly) && !(ctx is ClassVarAnnotation || ctx is ClassKeyword) {
                        (None, annotation_error(range, ErrorMsg::OnlyInClassBodyOrKeyword(special)))
                    } else if q == Some(Qualifier::Final) && !(ctx is ClassVarAnnotation || ctx is VarAnnotation) {
                        (None, annotation_error(range, ErrorMsg::FinalOnlyOnVariable(special)))
                    } else if q == Some(Qualifier::TypeAlias) && !(ctx is VarAnnotation || ctx is ClassVarAnnotation) {
                        (None, annotation_error(range, ErrorMsg::TypeAliasOnlyOnVariable))
                    } else {
                        (q, Seq::empty())
                    }
                },
                _ => (None, Seq::empty()),
            },
            Some(Type::ClassDef(cls)) => if cls == self.stdlib.init_var {
                (Some(Qualifier::InitVar), Seq::empty())
            } else {
                (None, Seq::empty())
            },
            _ => (None, Seq::empty()),
        }
    }

    /// The qualifier that an expression evaluating to `value` (if it is a name or attribute)
    /// stands for in position `type_form_context`, reporting at `range` a qualifier out of
    /// place.
    pub fn expr_qualifier(
        &self,
        value: &Option<Type>,
        type_form_context: TypeFormContext,
        range: TextRange,
        errors: &mut ErrorCollector,
    ) -> (r: Option<Qualifier>)
        ensures
            r == self.spec_expr_qualifier(*value, type_form_context, range).0,
            final(errors)@ == old(errors)@ + self.spec_expr_qualifier(*value, type_form_context, range).1,
    {
        let (r, msg): (Option<Qualifier>, Option<ErrorMsg>) = match value {
            Some(Type::TypeOf(f)) if matches!(&**f, Type::SpecialForm(_)) => {
                let special = match &**f {
                    Type::SpecialForm(s) => *s,
                    _ => SpecialForm::Annotated,
                };
                let qualifier = special.to_qualifier();
                let class_body_only = matches!(
                    qualifier,
                    Some(Qualifier::ClassVar) | Some(Qualifier::NotRequired) | Some(Qualifier::Required)
                );
                if class_body_only && !matches!(type_form_context, TypeFormContext::ClassVarAnnotation) {
                    (None, Some(ErrorMsg::OnlyInClassBody(special)))
                } else if matches!(qualifier, Some(Qualifier::ReadOnly)) && !matches!(
                    type_form_context,
                    TypeFormContext::ClassVarAnnotation | TypeFormContext::ClassKeyword
                ) {
                    (None, Some(ErrorMsg::OnlyInClassBodyOrKeyword(special)))
                } else if matches!(qualifier, Some(Qualifier::Final)) && !matches!(
                    type_form_context,
                    TypeFormContext::ClassVarAnnotation | TypeFormContext::VarAnnotation(_)
                ) {
                    (None, Some(ErrorMsg::FinalOnlyOnVariable(special)))
                } else if matches!(qualifier, Some(Qualifier::TypeAlias)) && !matches!(
                    type_form_context,
                    TypeFormContext::VarAnnotation(_) | TypeFormContext::ClassVarAnnotation
                ) {
                    (None, Some(ErrorMsg::TypeAliasOnlyOnVariable))
                } else {
                    (qualifier, None)
                }
            },
            Some(Type::ClassDef(cls)) if *cls == self.stdlib.init_var => (Some(Qualifier::InitVar), None),
            _ => (None, None),
        };
        match msg {
            Some(m) => {
                errors.error(ErrorKind::InvalidAnnotation, range, m);
                assert(errors@ =~= old(errors)@ + self.spec_expr_qualifier(*value, type_form_context, range).1);
            },
            None => {
                assert(old(errors)@ + Seq::<TypeError>::empty() =~= old(errors)@);
            },
        }
        r
    }
}


/// The errors for a qualifier `q` given `n` type arguments at `range`: `Annotated` needs at
/// least two, every other qualifier exactly one.
pub open spec fn arity_errors(q: Qualifier, n: nat, range: TextRange) -> Seq<TypeError> {
    if q == Qualifier::Annotated {
        if n < 2 {
            annotation_error(range, ErrorMsg::AnnotatedNeedsMetadata)
        } else {
            Seq::empty()
        }
    } else if n != 1 {
        annotation_error(range, ErrorMsg::ExpectedOneTypeArgument(q, n as usize))
    } else {
        Seq::empty()
    }
}

/// The annotation `q[inner]` at `range`, whose argument stands at `arg_range`, with the
/// errors for a type variable in `ClassVar`, `ClassVar` inside `Final`, `Required` with
/// `NotRequired`, and a qualifier given twice (which is then kept once).
pub open spec fn spec_qualify(q: Qualifier, range: TextRange, arg_range: TextRange, inner: AnnotationView) -> (AnnotationView, Seq<TypeError>) {
    let inner_ty = match inner.ty {
        Some(t) => t,
        None => Type::Any(AnyStyle::Implicit),
    };
    let e3 = if q == Qualifier::ClassVar && type_any(inner_ty, TypePred::TypeVariable) {
        annotation_error(arg_range, ErrorMsg::ClassVarWithTypeVariable)
    } else {
        Seq::empty()
    };
    let e4 = if q == Qualifier::Final && inner.qualifiers.contains(Qualifier::ClassVar) {
        annotation_error(arg_range, ErrorMsg::ClassVarInFinal)
    } else {
        Seq::empty()
    };
    let e5 = if (q == Qualifier::Required && inner.qualifiers.contains(Qualifier::NotRequired))
        || (q == Qualifier::NotRequired && inner.qualifiers.contains(Qualifier::Required)) {
        annotation_error(range, ErrorMsg::RequiredAndNotRequired)
    } else {
        Seq::empty()
    };
    let dup = q != Qualifier::Annotated && inner.qualifiers.contains(q);
    let e6 = if dup {
        annotation_error(range, ErrorMsg::DuplicateQualifier(q))
    } else {
        Seq::empty()
    };
    (
        AnnotationView {
            qualifiers: if dup {
                inner.qualifiers
            } else {
                seq![q] + inner.qualifiers
            },
            ty: inner.ty,
        },
        e3 + e4 + e5 + e6,
    )
}

/// `a`, the annotation `q[...]`, with its type replaced by the schema-framed type `framed`
/// when `q` is `Annotated`, `a` has a type and the metadata frames it.
pub open spec fn frame_annotated(q: Qualifier, a: AnnotationView, framed: Option<Type>) -> AnnotationView {
    if q == Qualifier::Annotated && a.ty is Some && framed is Some {
        AnnotationView { qualifiers: a.qualifiers, ty: framed }
    } else {
        a
    }
}

impl AnswersSolver {
    /// The annotation that `x` denotes in position `ctx`, with the errors it reports.
    pub open spec fn spec_expr_annotation(self, x: AnnotationExpr, ctx: TypeFormContext) -> (AnnotationView, Seq<TypeError>)
        decreases x,
    {
        match x {
            AnnotationExpr::Invalid { range, problem } => (
                plain_annotation(Type::any_error()),
                annotation_error(range, ErrorMsg::AnnotationSyntax(problem)),
            ),
            AnnotationExpr::Name { range, value, denotes } => {
                let (q, e) = self.spec_expr_qualifier(Some(value), ctx, range);
                match q {
                    Some(q) => (
                        AnnotationView { qualifiers: seq![q], ty: None },
                        e + if bare_qualifier_ok(q, ctx) {
                            Seq::empty()
                        } else {
                            annotation_error(range, ErrorMsg::ExpectedQualifierArgument(q))
                        },
                    ),
                    None => (plain_annotation(denotes), e),
                }
            },
            AnnotationExpr::Subscript { range, head, args, denotes, framed } => if args@.len() == 0 {
                (plain_annotation(denotes), Seq::empty())
            } else {
                let (hq, e0) = match head {
                    Some((hr, hv)) => self.spec_expr_qualifier(Some(hv), ctx, hr),
                    None => (None, Seq::empty()),
                };
                match hq {
                    None => (plain_annotation(denotes), e0),
                    Some(q) => {
                        let (inner, e2) = self.spec_expr_annotation(args@[0], ctx);
                        let (a, e3) = spec_qualify(q, range, args@[0].spec_range(), inner);
                        (frame_annotated(q, a, framed), e0 + arity_errors(q, args@.len(), range) + e2 + e3)
                    },
                }
            },
            AnnotationExpr::Other { denotes, .. } => (plain_annotation(denotes), Seq::empty()),
        }
    }
}


/// Whether `qs` holds `q`.
fn has_qualifier(qs: &Vec<Qualifier>, q: Qualifier) -> (r: bool)
    ensures
        r == qs@.contains(q),
{
    let mut i: usize = 0;
    while i < qs.len()
        invariant
            i <= qs@.len(),
            forall|k: int| 0 <= k < i ==> qs@[k] != q,
        decreases qs.len() - i,
    {
        if qs[i] == q {
            assert(qs@[i as int] == q);
            return true;
        }
        i += 1;
    }
    false
}

/// Reports at `range` a qualifier `q` given the wrong number `n` of type arguments.
fn check_arity(q: Qualifier, n: usize, range: TextRange, errors: &mut ErrorCollector)
    ensures
        final(errors)@ == old(errors)@ + arity_errors(q, n as nat, range),
{
    if q == Qualifier::Annotated {
        if n < 2 {
            errors.error(ErrorKind::InvalidAnnotation, range, ErrorMsg::AnnotatedNeedsMetadata);
            assert(errors@ =~= old(errors)@ + arity_errors(q, n as nat, range));
        } else {
            assert(old(errors)@ + Seq::<TypeError>::empty() =~= old(errors)@);
        }
    } else if n != 1 {
        errors.error(ErrorKind::InvalidAnnotation, range, ErrorMsg::ExpectedOneTypeArgument(q, n));
        assert(errors@ =~= old(errors)@ + arity_errors(q, n as nat, range));
    } else {
        assert(old(errors)@ + Seq::<TypeError>::empty() =~= old(errors)@);
    }
}

/// Wraps `inner` in the qualifier `q`, reporting what `spec_qualify` reports.
fn qualify(q: Qualifier, range: TextRange, arg_range: TextRange, inner: Annotation, errors: &mut ErrorCollector) -> (r: Annotation)
    ensures
        r@ == spec_qualify(q, range, arg_range, inner@).0,
        final(errors)@ == old(errors)@ + spec_qualify(q, range, arg_range, inner@).1,
{
    let ghost e0 = errors@;
    let contains_tv = match &inner.ty {
        Some(t) => t.contains_type_variable(),
        None => false,
    };
    assert(type_any(Type::Any(AnyStyle::Implicit), TypePred::TypeVariable) == false);
    let mut errs: Vec<TypeError> = Vec::new();
    if q == Qualifier::ClassVar && contains_tv {
        errs.push(TypeError { kind: ErrorKind::InvalidAnnotation, range: arg_range, msg: ErrorMsg::ClassVarWithTypeVariable });
    }
    let ghost s3 = errs@;
    if q == Qualifier::Final && has_qualifier(&inner.qualifiers, Qualifier::ClassVar) {
        errs.push(TypeError { kind: ErrorKind::InvalidAnnotation, range: arg_range, msg: ErrorMsg::ClassVarInFinal });
    }
    let ghost s4 = errs@;
    if (q == Qualifier::Required && has_qualifier(&inner.qualifiers, Qualifier::NotRequired))
        || (q == Qualifier::NotRequired && has_qualifier(&inner.qualifiers, Qualifier::Required)) {
        errs.push(TypeError { kind: ErrorKind::InvalidAnnotation, range, msg: ErrorMsg::RequiredAndNotRequired });
    }
    let ghost s5 = errs@;
    let dup = q != Qualifier::Annotated && has_qualifier(&inner.qualifiers, q);
    let mut qualifiers: Vec<Qualifier> = Vec::new();
    if dup {
        errs.push(TypeError { kind: ErrorKind::InvalidAnnotation, range, msg: ErrorMsg::DuplicateQualifier(q) });
        qualifiers = inner.qualifiers;
    } else {
        qualifiers.push(q);
        let mut rest = inner.qualifiers;
        qualifiers.append(&mut rest);
    }
    assert(errs@ =~= spec_qualify(q, range, arg_range, inner@).1);
    errors.extend(errs);
    let r = Annotation { qualifiers, ty: inner.ty };
    assert(r@ =~= spec_qualify(q, range, arg_range, inner@).0);
    r
}

impl AnswersSolver {
    /// The annotation that `x` denotes in position `type_form_context`, reporting what is
    /// wrong with it: invalid syntax, a qualifier out of place, a bare qualifier that needs a
    /// type argument, the wrong number of arguments, a type variable in `ClassVar`,
    /// `ClassVar` inside `Final`, both `Required` and `NotRequired`, or a duplicate qualifier.
    pub fn expr_annotation(
        &self,
        x: &AnnotationExpr,
        type_form_context: TypeFormContext,
        errors: &mut ErrorCollector,
    ) -> (r: Annotation)
        ensures
            r@ == self.spec_expr_annotation(*x, type_form_context).0,
            final(errors)@ == old(errors)@ + self.spec_expr_annotation(*x, type_form_context).1,
        decreases x,
    {
        let ghost spec = self.spec_expr_annotation(*x, type_form_context);
        match x {
            AnnotationExpr::Invalid { range, problem } => {
                errors.error(ErrorKind::InvalidAnnotation, *range, ErrorMsg::AnnotationSyntax(*problem));
                assert(errors@ =~= old(errors)@ + spec.1);
                let r = Annotation { qualifiers: Vec::new(), ty: Some(Type::Any(AnyStyle::Error)) };
                assert(r@ =~= spec.0);
                r
            },
            AnnotationExpr::Name { range, value, denotes } => {
                let v = Some(value.deep_clone());
                let q = self.expr_qualifier(&v, type_form_context, *range, errors);
                match q {
                    Some(q) => {
                        // A local variable annotated assignment is only allowed to have an
                        // un-parameterized Final annotation if it's initialized with a value.
                        let ok = match q {
                            Qualifier::TypeAlias | Qualifier::ClassVar => true,
                            Qualifier::Final => !matches!(
                                type_form_context,
                                TypeFormContext::VarAnnotation(AnnAssignHasValue::No)
                            ),
                            _ => false,
                        };
                        let ghost e1 = errors@;
                        if !ok {
                            errors.error(ErrorKind::InvalidAnnotation, *range, ErrorMsg::ExpectedQualifierArgument(q));
                        }
                        assert(errors@ =~= old(errors)@ + spec.1);
                        let mut qualifiers: Vec<Qualifier> = Vec::new();
                        qualifiers.push(q);
                        let r = Annotation { qualifiers, ty: None };
                        assert(r@ =~= spec.0);
                        r
                    },
                    None => {
                        let r = Annotation { qualifiers: Vec::new(), ty: Some(denotes.deep_clone()) };
                        assert(r@ =~= spec.0);
                        r
                    },
                }
            },
            AnnotationExpr::Subscript { range, head, args, denotes, framed } => {
                if args.len() == 0 {
                    assert(old(errors)@ + Seq::<TypeError>::empty() =~= old(errors)@);
                    let r = Annotation { qualifiers: Vec::new(), ty: Some(denotes.deep_clone()) };
                    assert(r@ =~= spec.0);
                    return r;
                }
                let hq = match head {
                    Some((hr, hv)) => {
                        let v = Some(hv.deep_clone());
                        self.expr_qualifier(&v, type_form_context, *hr, errors)
                    },
                    None => {
                        assert(old(errors)@ + Seq::<TypeError>::empty() =~= old(errors)@);
                        None
                    },
                };
                let ghost e0 = errors@;
                let qualifier = match hq {
                    None => {
                        let r = Annotation { qualifiers: Vec::new(), ty: Some(denotes.deep_clone()) };
                        assert(r@ =~= spec.0);
                        return r;
                    },
                    Some(q) => q,
                };
                check_arity(qualifier, args.len(), *range, errors);
                let inner = self.expr_annotation(&args[0], type_form_context, errors);
                let mut r = qualify(qualifier, *range, args[0].range(), inner, errors);
                // `Annotated[pl.DataFrame, Schema]` carries the column schema in its type.
                if qualifier == Qualifier::Annotated && r.ty.is_some() {
                    if let Some(f) = framed {
                        r.ty = Some(f.deep_clone());
                    }
                }
                proof {
                    assert(errors@ =~= old(errors)@ + spec.1);
                }
                assert(r@ =~= spec.0);
                r
            },
            AnnotationExpr::Other { denotes, .. } => {
                assert(old(errors)@ + Seq::<TypeError>::empty() =~= old(errors)@);
                let r = Annotation { qualifiers: Vec::new(), ty: Some(denotes.deep_clone()) };
                assert(r@ =~= spec.0);
                r
            },
        }
    }
}


/// `t` with every bare `typing.Self` special form replaced with `with`.
pub open spec fn subst_self(t: Type, with: Type) -> Type
    decreases t,
{
    match t {
        Type::SpecialForm(SpecialForm::SelfType) => with,
        Type::ClassType(c) => Type::ClassType(ClassType { class: c.class, targs: subst_self_list(c.targs, with) }),
        Type::SelfType(c) => Type::SelfType(ClassType { class: c.class, targs: subst_self_list(c.targs, with) }),
        Type::TypeOf(b) => Type::TypeOf(Box::new(subst_self(*b, with))),
        Type::Union(l) => Type::Union(subst_self_list(l, with)),
        Type::Tuple(Tuple::Concrete(l)) => Type::Tuple(Tuple::Concrete(subst_self_list(l, with))),
        Type::Tuple(Tuple::Unbounded(b)) => Type::Tuple(Tuple::Unbounded(Box::new(subst_self(*b, with)))),
        Type::Tuple(Tuple::Unpacked(p, m, s)) => Type::Tuple(
            Tuple::Unpacked(subst_self_list(p, with), Box::new(subst_self(*m, with)), subst_self_list(s, with)),
        ),
        Type::Callable(ps, r) => Type::Callable(subst_self_list(ps, with), Box::new(subst_self(*r, with))),
        Type::Unpack(b) => Type::Unpack(Box::new(subst_self(*b, with))),
        Type::Annotated(b) => Type::Annotated(Box::new(subst_self(*b, with))),
        Type::TypeForm(b) => Type::TypeForm(Box::new(subst_self(*b, with))),
        Type::Forall(ps, b) => Type::Forall(ps, Box::new(subst_self(*b, with))),
        _ => t,
    }
}

pub open spec fn subst_self_list(l: TypeList, with: Type) -> TypeList
    decreases l,
{
    match l {
        TypeList::Nil => TypeList::Nil,
        TypeList::Cons(h, t) => TypeList::Cons(Box::new(subst_self(*h, with)), Box::new(subst_self_list(*t, with))),
    }
}

/// Replacing `Self` with a type that holds no bare `Self` leaves none.
pub proof fn lemma_subst_self_removes(t: Type, with: Type)
    requires
        !type_any(with, TypePred::SelfForm),
    ensures
        !type_any(subst_self(t, with), TypePred::SelfForm),
    decreases t,
{
    match t {
        Type::ClassType(c) => lemma_subst_self_list_removes(c.targs, with),
        Type::SelfType(c) => lemma_subst_self_list_removes(c.targs, with),
        Type::TypeOf(b) => lemma_subst_self_removes(*b, with),
        Type::Union(l) => lemma_subst_self_list_removes(l, with),
        Type::Tuple(Tuple::Concrete(l)) => lemma_subst_self_list_removes(l, with),
        Type::Tuple(Tuple::Unbounded(b)) => lemma_subst_self_removes(*b, with),
        Type::Tuple(Tuple::Unpacked(p, m, s)) => {
            lemma_subst_self_list_removes(p, with);
            lemma_subst_self_removes(*m, with);
            lemma_subst_self_list_removes(s, with);
        },
        Type::Callable(ps, r) => {
            lemma_subst_self_list_removes(ps, with);
            lemma_subst_self_removes(*r, with);
        },
        Type::Unpack(b) => lemma_subst_self_removes(*b, with),
        Type::Annotated(b) => lemma_subst_self_removes(*b, with),
        Type::TypeForm(b) => lemma_subst_self_removes(*b, with),
        Type::Forall(_, b) => lemma_subst_self_removes(*b, with),
        _ => {},
    }
}

pub proof fn lemma_subst_self_list_removes(l: TypeList, with: Type)
    requires
        !type_any(with, TypePred::SelfForm),
    ensures
        !list_any(subst_self_list(l, with), TypePred::SelfForm),
    decreases l,
{
    match l {
        TypeList::Nil => {},
        TypeList::Cons(h, t) => {
            lemma_subst_self_removes(*h, with);
            lemma_subst_self_list_removes(*t, with);
        },
    }
}

/// `t` with every bare `Self` replaced with `with`.
pub fn subst_self_special_form(t: Type, with: &Type) -> (r: Type)
    ensures
        r == subst_self(t, *with),
    decreases t,
{
    match t {
        Type::SpecialForm(SpecialForm::SelfType) => with.deep_clone(),
        Type::ClassType(c) => Type::ClassType(ClassType { class: c.class, targs: subst_self_special_form_list(c.targs, with) }),
        Type::SelfType(c) => Type::SelfType(ClassType { class: c.class, targs: subst_self_special_form_list(c.targs, with) }),
        Type::TypeOf(b) => Type::TypeOf(Box::new(subst_self_special_form(*b, with))),
        Type::Union(l) => Type::Union(subst_self_special_form_list(l, with)),
        Type::Tuple(Tuple::Concrete(l)) => Type::Tuple(Tuple::Concrete(subst_self_special_form_list(l, with))),
        Type::Tuple(Tuple::Unbounded(b)) => Type::Tuple(Tuple::Unbounded(Box::new(subst_self_special_form(*b, with)))),
        Type::Tuple(Tuple::Unpacked(p, m, s)) => {
            let p2 = subst_self_special_form_list(p, with);
            let m2 = subst_self_special_form(*m, with);
            let s2 = subst_self_special_form_list(s, with);
            Type::Tuple(Tuple::Unpacked(p2, Box::new(m2), s2))
        },
        Type::Callable(ps, r) => {
            let ps2 = subst_self_special_form_list(ps, with);
            let r2 = subst_self_special_form(*r, with);
            Type::Callable(ps2, Box::new(r2))
        },
        Type::Unpack(b) => Type::Unpack(Box::new(subst_self_special_form(*b, with))),
        Type::Annotated(b) => Type::Annotated(Box::new(subst_self_special_form(*b, with))),
        Type::TypeForm(b) => Type::TypeForm(Box::new(subst_self_special_form(*b, with))),
        Type::Forall(ps, b) => Type::Forall(ps, Box::new(subst_self_special_form(*b, with))),
        other => other,
    }
}

fn subst_self_special_form_list(l: TypeList, with: &Type) -> (r: TypeList)
    ensures
        r == subst_self_list(l, *with),
    decreases l,
{
    match l {
        TypeList::Nil => TypeList::Nil,
        TypeList::Cons(h, t) => {
            let h2 = subst_self_special_form(*h, with);
            let t2 = subst_self_special_form_list(*t, with);
            TypeList::Cons(Box::new(h2), Box::new(t2))
        },
    }
}

/// What an annotation binding annotates, and with what.
pub enum BindingAnnotation {
    /// An annotation expression; `class_key` is the class whose body holds it, for an
    /// annotation of a class member.
    AnnotateExpr { target: AnnotationTarget, expr: AnnotationExpr, class_key: Option<usize> },
    /// A special form the annotation is known to be.
    SpecialForm { target: AnnotationTarget, form: SpecialForm },
}

impl AnnotationTarget {
    /// The type-form position of an annotation of this target.
    pub open spec fn spec_type_form_context(self) -> TypeFormContext<'static> {
        match self {
            AnnotationTarget::Param(_) => TypeFormContext::ParameterAnnotation,
            AnnotationTarget::ArgsParam(_) => TypeFormContext::ParameterArgsAnnotation,
            AnnotationTarget::KwargsParam(_) => TypeFormContext::ParameterKwargsAnnotation,
            AnnotationTarget::Return(_) => TypeFormContext::ReturnAnnotation,
            AnnotationTarget::Assign(_, v) => TypeFormContext::VarAnnotation(v),
            AnnotationTarget::ClassMember(_) => TypeFormContext::ClassVarAnnotation,
        }
    }

    pub fn type_form_context(self) -> (r: TypeFormContext<'static>)
        ensures
            r == self.spec_type_form_context(),
    {
        match self {
            AnnotationTarget::Param(_) => TypeFormContext::ParameterAnnotation,
            AnnotationTarget::ArgsParam(_) => TypeFormContext::ParameterArgsAnnotation,
            AnnotationTarget::KwargsParam(_) => TypeFormContext::ParameterKwargsAnnotation,
            AnnotationTarget::Return(_) => TypeFormContext::ReturnAnnotation,
            AnnotationTarget::Assign(_, v) => TypeFormContext::VarAnnotation(v),
            AnnotationTarget::ClassMember(_) => TypeFormContext::ClassVarAnnotation,
        }
    }
}

impl AnswersSolver {
    /// Whether `ty` is an instance of `shape_extensions.ProxyMethod`.
    pub open spec fn spec_is_proxy_method(self, ty: Type) -> bool {
        TypePred::InstanceOf(self.stdlib.proxy_method).holds(ty)
    }

    /// Whether the annotation `x`, denoting `ty`, may hold a `ProxyMethod`: a name that is one,
    /// or a subscript in which one occurs.
    pub open spec fn spec_may_contain_proxy_method(self, x: AnnotationExpr, ty: Type) -> bool {
        match x {
            AnnotationExpr::Name { .. } => self.spec_is_proxy_method(ty),
            AnnotationExpr::Subscript { .. } => type_any(ty, TypePred::InstanceOf(self.stdlib.proxy_method)),
            _ => false,
        }
    }

    /// The type of an annotation after `Self` is resolved: within a class member annotation
    /// of a solved class, `Self` is that class's `Self`; any `Self` left becomes an error
    /// `Any`.
    pub open spec fn spec_resolve_self(self, ty: Type, class_key: Option<usize>) -> Type {
        let t1 = match class_key {
            Some(k) => match self.class_answer(k) {
                Some(cls) => subst_self(ty, Type::SelfType(self.spec_as_class_type_unchecked(cls))),
                None => ty,
            },
            None => ty,
        };
        if type_any(t1, TypePred::SelfForm) {
            subst_self(t1, Type::any_error())
        } else {
            t1
        }
    }

    /// The annotation a binding gives, with its target, and the errors: those of
    /// [`Self::spec_expr_annotation`] in the target's position, then those of the scoping of
    /// legacy type variables ([`Self::spec_legacy_scoping`], after `Self` is resolved), then a
    /// `ProxyMethod` that is not a direct class member annotation.
    pub open spec fn spec_solve_annotation(self, binding: BindingAnnotation) -> (AnnotationTarget, AnnotationView, Seq<TypeError>) {
        match binding {
            BindingAnnotation::AnnotateExpr { target, expr, class_key } => {
                let (a, e) = self.spec_expr_annotation(expr, target.spec_type_form_context());
                match a.ty {
                    Some(ty) => {
                        let (t, scoping) = self.spec_legacy_scoping(self.spec_resolve_self(ty, class_key), expr.spec_range());
                        (
                            target,
                            AnnotationView { ty: Some(t), ..a },
                            e + scoping + if !(target is ClassMember) && self.spec_may_contain_proxy_method(expr, t) {
                                annotation_error(expr.spec_range(), ErrorMsg::ProxyMethodNotDirect)
                            } else {
                                Seq::empty()
                            },
                        )
                    },
                    None => (target, a, e),
                }
            },
            BindingAnnotation::SpecialForm { target, form } => (
                target,
                plain_annotation(Type::TypeOf(Box::new(Type::SpecialForm(form)))),
                Seq::empty(),
            ),
        }
    }

    /// Resolves `Self` in the type of an annotation; see [`Self::spec_resolve_self`].
    fn resolve_self(&self, ty: Type, class_key: Option<usize>) -> (r: Type)
        ensures
            r == self.spec_resolve_self(ty, class_key),
    {
        let t1 = match class_key {
            Some(k) => match self.get_class_answer(k) {
                Some(cls) => {
                    let with = Type::SelfType(self.as_class_type_unchecked(cls));
                    subst_self_special_form(ty, &with)
                },
                None => ty,
            },
            None => ty,
        };
        if t1.any(TypePred::SelfForm) {
            subst_self_special_form(t1, &Type::Any(AnyStyle::Error))
        } else {
            t1
        }
    }

    /// The annotation that `binding` gives; see [`Self::spec_solve_annotation`].
    pub fn solve_annotation(&self, binding: &BindingAnnotation, errors: &mut ErrorCollector) -> (r: AnnotationWithTarget)
        ensures
            (r.target, r.annotation@, final(errors)@) == ({
                let (t, a, e) = self.spec_solve_annotation(*binding);
                (t, a, old(errors)@ + e)
            }),
    {
        match binding {
            BindingAnnotation::AnnotateExpr { target, expr, class_key } => {
                let ctx = target.type_form_context();
                let ann = self.expr_annotation(expr, ctx, errors);
                let ghost e1 = errors@;
                let Annotation { qualifiers, ty } = ann;
                match ty {
                    Some(ty) => {
                        let resolved = self.resolve_self(ty, *class_key);
                        let t = self.check_legacy_typevar_scoping(resolved, expr.range(), errors);
                        let ghost e2 = errors@;
                        let proxy = match expr {
                            AnnotationExpr::Name { .. } => TypePred::InstanceOf(self.stdlib.proxy_method).test(&t),
                            AnnotationExpr::Subscript { .. } => t.any(TypePred::InstanceOf(self.stdlib.proxy_method)),
                            _ => false,
                        };
                        if !matches!(target, AnnotationTarget::ClassMember(_)) && proxy {
                            errors.error(ErrorKind::InvalidAnnotation, expr.range(), ErrorMsg::ProxyMethodNotDirect);
                        } else {
                            assert(e2 + Seq::<TypeError>::empty() =~= e2);
                        }
                        let r = AnnotationWithTarget { target: *target, annotation: Annotation { qualifiers, ty: Some(t) } };
                        assert(errors@ =~= old(errors)@ + self.spec_solve_annotation(*binding).2);
                        r
                    },
                    None => AnnotationWithTarget { target: *target, annotation: Annotation { qualifiers, ty: None } },
                }
            },
            BindingAnnotation::SpecialForm { target, form } => {
                assert(old(errors)@ + Seq::<TypeError>::empty() =~= old(errors)@);
                let r = AnnotationWithTarget {
                    target: *target,
                    annotation: Annotation { qualifiers: Vec::new(), ty: Some(Type::TypeOf(Box::new(Type::SpecialForm(*form)))) },
                };
                assert(r.annotation@ =~= plain_annotation(Type::TypeOf(Box::new(Type::SpecialForm(*form)))));
                r
            },
        }
    }
}


proof fn lemma_own_params_no_self(ps: Seq<crate::solver::ClassTParam>)
    ensures
        !list_any(TypeList::from_seq(crate::untype::own_params_list(ps)), TypePred::SelfForm),
    decreases ps.len(),
{
    let s = crate::untype::own_params_list(ps);
    if ps.len() > 0 {
        lemma_own_params_no_self(ps.drop_first());
        assert(s.drop_first() =~= crate::untype::own_params_list(ps.drop_first()));
        assert(s[0] == Type::Quantified(ps[0].quantified));
        assert(!type_any(s[0], TypePred::SelfForm));
    }
}

/// A solved annotation expression never holds a bare `typing.Self`: inside a class it is the
/// class's `Self`, and elsewhere it has become an error.
pub proof fn law_solved_annotation_has_no_bare_self(solver: AnswersSolver, binding: BindingAnnotation)
    requires
        binding is AnnotateExpr,
    ensures
        solver.spec_solve_annotation(binding).1.ty matches Some(t) ==> !type_any(t, TypePred::SelfForm),
{
    match binding {
        BindingAnnotation::AnnotateExpr { target, expr, class_key } => {
            let (a, e) = solver.spec_expr_annotation(expr, target.spec_type_form_context());
            match a.ty {
                Some(ty) => {
                    let t1 = match class_key {
                        Some(k) => match solver.class_answer(k) {
                            Some(cls) => {
                                let c = solver.spec_as_class_type_unchecked(cls);
                                if cls < solver.classes@.len() {
                                    lemma_own_params_no_self(solver.classes@[cls as int].tparams@);
                                }
                                subst_self(ty, Type::SelfType(c))
                            },
                            None => ty,
                        },
                        None => ty,
                    };
                    if type_any(t1, TypePred::SelfForm) {
                        lemma_subst_self_removes(t1, Type::any_error());
                    }
                    crate::legacy_scoping::lemma_scoping_keeps_no_self(solver.spec_resolve_self(ty, class_key), solver.module);
                },
                None => {},
            }
        },
        _ => {},
    }
}


/// No qualifier but `Annotated` occurs twice in `qs`.
pub open spec fn qualifiers_distinct(qs: Seq<Qualifier>) -> bool {
    forall|i: int, j: int| 0 <= i < j < qs.len() && qs[i] == qs[j] ==> qs[i] == Qualifier::Annotated
}

/// An annotation never holds a qualifier twice, `Annotated` aside: a repeated one
/// (`Final[Final[int]]`) is reported and kept once.
pub proof fn law_annotation_qualifiers_distinct(solver: AnswersSolver, x: AnnotationExpr, ctx: TypeFormContext)
    ensures
        qualifiers_distinct(solver.spec_expr_annotation(x, ctx).0.qualifiers),
    decreases x,
{
    match x {
        AnnotationExpr::Subscript { range, head, args, denotes, framed } => {
            if args@.len() > 0 {
                law_annotation_qualifiers_distinct(solver, args@[0], ctx);
                let (inner, e2) = solver.spec_expr_annotation(args@[0], ctx);
                let (hq, e0) = match head {
                    Some((hr, hv)) => solver.spec_expr_qualifier(Some(hv), ctx, hr),
                    None => (None, Seq::empty()),
                };
                match hq {
                    Some(q) => {
                        let dup = q != Qualifier::Annotated && inner.qualifiers.contains(q);
                        if !dup {
                            let qs = seq![q] + inner.qualifiers;
                            assert forall|i: int, j: int| 0 <= i < j < qs.len() && qs[i] == qs[j] implies qs[i] == Qualifier::Annotated by {
                                if i == 0 {
                                    assert(inner.qualifiers[j - 1] == q);
                                } else {
                                    assert(qs[i] == inner.qualifiers[i - 1]);
                                    assert(qs[j] == inner.qualifiers[j - 1]);
                                }
                            }
                        }
                    },
                    None => {},
                }
            }
        },
        _ => {},
    }
}


/// The value of a class keyword (`class C(..., kw=value)`): a subscript, with what its head
/// evaluates to (when it is a name or attribute), the type its slice evaluates to and the
/// type of the whole; or any other expression, with its type.
pub enum ClassKeywordExpr {
    Subscript { head: Option<(TextRange, Type)>, slice_value: Type, value: Type },
    Other { value: Type },
}

impl AnswersSolver {
    /// The annotation a class keyword gives: `ReadOnly[...]`-like qualifiers wrap the type of
    /// the slice; anything else is a plain annotation of its type.
    pub open spec fn spec_expr_class_keyword(self, x: ClassKeywordExpr) -> AnnotationView {
        match x {
            ClassKeywordExpr::Subscript { head, slice_value, value } => match head {
                Some((hr, hv)) => match self.spec_expr_qualifier(Some(hv), TypeFormContext::ClassKeyword, hr).0 {
                    Some(q) => AnnotationView { qualifiers: seq![q], ty: Some(slice_value) },
                    None => plain_annotation(value),
                },
                None => plain_annotation(value),
            },
            ClassKeywordExpr::Other { value } => plain_annotation(value),
        }
    }

    /// The annotation a class keyword gives; see [`Self::spec_expr_class_keyword`]. The
    /// qualifier's own errors are not reported here (evaluating the value reports them).
    pub fn expr_class_keyword(&self, x: &ClassKeywordExpr) -> (r: Annotation)
        ensures
            r@ == self.spec_expr_class_keyword(*x),
    {
        match x {
            ClassKeywordExpr::Subscript { head, slice_value, value } => {
                let q = match head {
                    Some((hr, hv)) => {
                        let mut swallowed = ErrorCollector::new();
                        self.expr_qualifier(&Some(hv.deep_clone()), TypeFormContext::ClassKeyword, *hr, &mut swallowed)
                    },
                    None => None,
                };
                match q {
                    Some(q) => {
                        let mut qualifiers: Vec<Qualifier> = Vec::new();
                        qualifiers.push(q);
                        let r = Annotation { qualifiers, ty: Some(slice_value.deep_clone()) };
                        assert(r@ =~= self.spec_expr_class_keyword(*x));
                        r
                    },
                    None => {
                        let r = Annotation { qualifiers: Vec::new(), ty: Some(value.deep_clone()) };
                        assert(r@ =~= self.spec_expr_class_keyword(*x));
                        r
                    },
                }
            },
            ClassKeywordExpr::Other { value } => {
                let r = Annotation { qualifiers: Vec::new(), ty: Some(value.deep_clone()) };
                assert(r@ =~= self.spec_expr_class_keyword(*x));
                r
            },
        }
    }

    /// The metadata of an `Annotated[T, m1, m2, ...]` annotation: the arguments after the
    /// first; none for any other expression. The head's qualifier errors are reported.
    pub fn get_annotated_metadata(&self, expr: AnnotationExpr, type_form_context: TypeFormContext, errors: &mut ErrorCollector) -> (r: Vec<AnnotationExpr>)
        ensures
            match expr {
                AnnotationExpr::Subscript { head: Some((hr, hv)), args, .. } => {
                    let (q, e) = self.spec_expr_qualifier(Some(hv), type_form_context, hr);
                    &&& final(errors)@ == old(errors)@ + e
                    &&& r@ == if q == Some(Qualifier::Annotated) && args@.len() > 0 {
                        args@.drop_first()
                    } else {
                        Seq::empty()
                    }
                },
                _ => r@ == Seq::<AnnotationExpr>::empty() && final(errors)@ == old(errors)@,
            },
    {
        match expr {
            AnnotationExpr::Subscript { range, head: Some((hr, hv)), args, .. } => {
                let q = self.expr_qualifier(&Some(hv), type_form_context, hr, errors);
                if q == Some(Qualifier::Annotated) && args.len() > 0 {
                    let mut rest = args;
                    let ghost before = rest@;
                    rest.remove(0);
                    assert(rest@ =~= before.drop_first());
                    rest
                } else {
                    Vec::new()
                }
            },
            _ => Vec::new(),
        }
    }
}


/// `Final` is a qualifier only in a variable or class variable annotation. Anywhere else
/// (a parameter, a return, ...) it is no qualifier and is reported once, where it stands;
/// so `def f(x: Final[int])` annotates `x` with the plain type `Final[int]` denotes, with
/// that one error.
pub proof fn law_final_only_on_variables(
    solver: AnswersSolver,
    ctx: TypeFormContext,
    hr: TextRange,
    range: TextRange,
    args: Vec<AnnotationExpr>,
    denotes: Type,
    framed: Option<Type>,
)
    ensures
        ({
            let head = Type::TypeOf(Box::new(Type::SpecialForm(SpecialForm::Final)));
            let err = seq![TypeError { kind: ErrorKind::InvalidAnnotation, range: hr, msg: ErrorMsg::FinalOnlyOnVariable(SpecialForm::Final) }];
            &&& (ctx is ClassVarAnnotation || ctx is VarAnnotation) ==> solver.spec_expr_qualifier(Some(head), ctx, hr) == (
                Some(Qualifier::Final),
                Seq::<TypeError>::empty(),
            )
            &&& !(ctx is ClassVarAnnotation || ctx is VarAnnotation) ==> solver.spec_expr_qualifier(Some(head), ctx, hr) == (
                None::<Qualifier>,
                err,
            )
            &&& (!(ctx is ClassVarAnnotation || ctx is VarAnnotation) && args@.len() > 0) ==> solver.spec_expr_annotation(
                AnnotationExpr::Subscript { range, head: Some((hr, head)), args, denotes, framed },
                ctx,
            ) == (AnnotationView { qualifiers: Seq::empty(), ty: Some(denotes) }, err)
        }),
{
}


/// Where each qualifier is recognised: `ClassVar`, `Required` and `NotRequired` only in a
/// class body; `ReadOnly` in a class body or a class keyword; `TypeAlias` only on a
/// variable. Elsewhere the head is no qualifier and one error is reported where it stands.
pub proof fn law_qualifier_positions(solver: AnswersSolver, sf: SpecialForm, ctx: TypeFormContext, hr: TextRange)
    ensures
        ({
            let (q, e) = solver.spec_expr_qualifier(Some(Type::TypeOf(Box::new(Type::SpecialForm(sf)))), ctx, hr);
            &&& (sf == SpecialForm::ClassVar || sf == SpecialForm::Required || sf == SpecialForm::NotRequired) ==> (
                if ctx is ClassVarAnnotation {
                    q == sf.spec_to_qualifier() && q is Some && e.len() == 0
                } else {
                    q is None && e.len() == 1 && e[0].range == hr && e[0].kind == ErrorKind::InvalidAnnotation
                })
            &&& sf == SpecialForm::ReadOnly ==> (if ctx is ClassVarAnnotation || ctx is ClassKeyword {
                q == Some(Qualifier::ReadOnly) && e.len() == 0
            } else {
                q is None && e.len() == 1 && e[0].range == hr
            })
            &&& sf == SpecialForm::TypeAlias ==> (if ctx is VarAnnotation || ctx is ClassVarAnnotation {
                q == Some(Qualifier::TypeAlias) && e.len() == 0
            } else {
                q is None && e == seq![
                    TypeError { kind: ErrorKind::InvalidAnnotation, range: hr, msg: ErrorMsg::TypeAliasOnlyOnVariable },
                ]
            })
        }),
{
}

} // verus!
