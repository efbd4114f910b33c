use pyrefly::annotation::{AnnotationExpr, BindingAnnotation};
use pyrefly::errors::{ErrorCollector, ErrorKind, ErrorMsg, TextRange};
use pyrefly::solver::{Synthesizers, AnswersSolver, ClassInfo, ClassMetadata, ClassScope, ClassTParam, PreInferenceVariance, Stdlib, Variance};
use pyrefly::type_alias::AnnotationTarget;
use pyrefly::type_form::{AnnAssignHasValue, TypeFormContext};
use pyrefly::types::{AnyStyle, ClassType, Qualifier, Quantified, QuantifiedIdentity, QuantifiedKind, QuantifiedOrigin, SpecialForm, Type, TypeList, TypeVar};

const A: u64 = 17;

fn stdlib() -> Stdlib {
    Stdlib {
        object: 0,
        builtins_type: 1,
        int: 2,
        bool: 3,
        str: 4,
        bytes: 5,
        none_type: 6,
        tuple: 7,
        dict: 8,
        list: 9,
        init_var: 10,
        builtins_module: 100,
        shape_int_tuple: 11,
        shape_int: 12,
        generator: 13,
        async_generator: 14,
        proxy_method: 15,
        coroutine: 16,
        base_exception: 20,
        base_exception_group: Some(21),
        exception_group: Some(22),
    }
}

fn class(id: u64, module: u64) -> ClassInfo {
    ClassInfo {
        name: 1000 + id,
        module,
        range: TextRange { start: 0, end: 0 },
        metadata: ClassMetadata::plain(1),
        mro: Vec::new(),
        bases: Vec::new(),
        fields: Vec::new(),
        unimplemented_abstract: Vec::new(),
        tparams: Vec::new(),
        iter_item: None,
        getitem_item: None,
        tuple_elements: None,
        iter_override: false,
        async_iter_item: None,
        metaclass_targs: TypeList::Nil,
        disjoint_base: None,
        synthesized: Synthesizers::none(),
    }
}

fn quantified(name: u64) -> Quantified {
    Quantified {
        identity: QuantifiedIdentity { module: 7, anchor_start: 10, anchor_end: 90, ordinal: name as u32, origin: QuantifiedOrigin::Scoped },
        name,
        kind: QuantifiedKind::TypeVar,
    }
}

/// Classes 0..=16 are the standard library's; class 17 (`A[T]`) is defined at 10..90 of
/// module 7, and class key 0 holds it.
fn world() -> AnswersSolver {
    let mut classes = Vec::new();
    for id in 0..17u64 {
        classes.push(class(id, 100));
    }
    let mut a = class(A, 7);
    a.tparams.push(ClassTParam {
        name: 50,
        quantified: quantified(50),
        is_type_var: true,
        variance: PreInferenceVariance::Invariant,
        inferred: Variance::Invariant,
    });
    classes.push(a);
    AnswersSolver {
        module: 7,
        stdlib: stdlib(),
        classes,
        class_answers: vec![Some(A)],
        is_interface: false,
        type_aliases: Vec::new(),
        upper_bounds: Vec::new(),
        class_scopes: vec![ClassScope { range: TextRange { start: 10, end: 90 }, class_key: 0 }],
    }
}

fn r(start: u32, end: u32) -> TextRange {
    TextRange { start, end }
}

fn int_type() -> Type {
    Type::ClassType(ClassType { class: 2, targs: TypeList::Nil })
}

fn special(sf: SpecialForm) -> Type {
    Type::TypeOf(Box::new(Type::SpecialForm(sf)))
}

fn name(sf: SpecialForm, at: TextRange) -> AnnotationExpr {
    AnnotationExpr::Name { range: at, value: special(sf), denotes: Type::SpecialForm(sf) }
}

fn subscript(sf: SpecialForm, at: TextRange, args: Vec<AnnotationExpr>) -> AnnotationExpr {
    AnnotationExpr::Subscript { range: at, head: Some((at, special(sf))), args, denotes: Type::Any(AnyStyle::Implicit), framed: None }
}

fn int_expr(at: TextRange) -> AnnotationExpr {
    AnnotationExpr::Other { range: at, denotes: int_type() }
}

#[test]
fn plain_type_annotation_has_no_qualifier() {
    let s = world();
    let mut errors = ErrorCollector::new();
    let a = s.expr_annotation(&int_expr(r(1, 4)), TypeFormContext::ParameterAnnotation, &mut errors);
    assert!(a.qualifiers.is_empty());
    assert_eq!(a.ty, Some(int_type()));
    assert!(errors.is_empty());
}

#[test]
fn final_int_in_variable_annotation() {
    let s = world();
    let mut errors = ErrorCollector::new();
    let x = subscript(SpecialForm::Final, r(1, 11), vec![int_expr(r(7, 10))]);
    let a = s.expr_annotation(&x, TypeFormContext::VarAnnotation(AnnAssignHasValue::Yes), &mut errors);
    assert_eq!(a.qualifiers, vec![Qualifier::Final]);
    assert_eq!(a.ty, Some(int_type()));
    assert!(errors.is_empty());
}

#[test]
fn classvar_outside_class_body_is_reported() {
    let s = world();
    let mut errors = ErrorCollector::new();
    let x = subscript(SpecialForm::ClassVar, r(1, 14), vec![int_expr(r(10, 13))]);
    let a = s.expr_annotation(&x, TypeFormContext::VarAnnotation(AnnAssignHasValue::Yes), &mut errors);
    assert!(a.qualifiers.is_empty());
    assert_eq!(a.ty, Some(Type::Any(AnyStyle::Implicit)));
    assert_eq!(errors.len(), 1);
    let e = &errors.errors()[0];
    assert_eq!(e.kind, ErrorKind::InvalidAnnotation);
    assert_eq!(e.msg, ErrorMsg::OnlyInClassBody(SpecialForm::ClassVar));
}

#[test]
fn duplicate_qualifier_is_kept_once() {
    let s = world();
    let mut errors = ErrorCollector::new();
    let inner = subscript(SpecialForm::Final, r(7, 17), vec![int_expr(r(13, 16))]);
    let x = subscript(SpecialForm::Final, r(1, 18), vec![inner]);
    let a = s.expr_annotation(&x, TypeFormContext::ClassVarAnnotation, &mut errors);
    assert_eq!(a.qualifiers, vec![Qualifier::Final]);
    assert_eq!(errors.len(), 1);
    assert_eq!(errors.errors()[0].msg, ErrorMsg::DuplicateQualifier(Qualifier::Final));
    assert_eq!(errors.errors()[0].range, r(1, 18));
}

#[test]
fn classvar_inside_final_is_reported() {
    let s = world();
    let mut errors = ErrorCollector::new();
    let inner = subscript(SpecialForm::ClassVar, r(7, 20), vec![int_expr(r(16, 19))]);
    let x = subscript(SpecialForm::Final, r(1, 21), vec![inner]);
    let a = s.expr_annotation(&x, TypeFormContext::ClassVarAnnotation, &mut errors);
    assert_eq!(a.qualifiers, vec![Qualifier::Final, Qualifier::ClassVar]);
    assert_eq!(errors.len(), 1);
    assert_eq!(errors.errors()[0].msg, ErrorMsg::ClassVarInFinal);
    assert_eq!(errors.errors()[0].range, r(7, 20));
}

#[test]
fn required_and_not_required_are_reported() {
    let s = world();
    let mut errors = ErrorCollector::new();
    let inner = subscript(SpecialForm::NotRequired, r(10, 26), vec![int_expr(r(22, 25))]);
    let x = subscript(SpecialForm::Required, r(1, 27), vec![inner]);
    let a = s.expr_annotation(&x, TypeFormContext::ClassVarAnnotation, &mut errors);
    assert_eq!(a.qualifiers, vec![Qualifier::Required, Qualifier::NotRequired]);
    assert_eq!(errors.len(), 1);
    assert_eq!(errors.errors()[0].msg, ErrorMsg::RequiredAndNotRequired);
}

#[test]
fn classvar_with_type_variable_is_reported() {
    let s = world();
    let mut errors = ErrorCollector::new();
    let tv = TypeVar { id: 3, name: 60, decl_start: 2 };
    let arg = AnnotationExpr::Other { range: r(10, 11), denotes: Type::TypeVar(tv) };
    let x = subscript(SpecialForm::ClassVar, r(1, 12), vec![arg]);
    s.expr_annotation(&x, TypeFormContext::ClassVarAnnotation, &mut errors);
    assert_eq!(errors.len(), 1);
    assert_eq!(errors.errors()[0].msg, ErrorMsg::ClassVarWithTypeVariable);
    assert_eq!(errors.errors()[0].range, r(10, 11));
}

#[test]
fn wrong_number_of_qualifier_arguments() {
    let s = world();
    let mut errors = ErrorCollector::new();
    let x = subscript(SpecialForm::Final, r(1, 20), vec![int_expr(r(7, 10)), int_expr(r(12, 15))]);
    s.expr_annotation(&x, TypeFormContext::ClassVarAnnotation, &mut errors);
    assert_eq!(errors.len(), 1);
    assert_eq!(errors.errors()[0].msg, ErrorMsg::ExpectedOneTypeArgument(Qualifier::Final, 2));

    let mut errors = ErrorCollector::new();
    let x = subscript(SpecialForm::Annotated, r(1, 20), vec![int_expr(r(11, 14))]);
    s.expr_annotation(&x, TypeFormContext::ClassVarAnnotation, &mut errors);
    assert_eq!(errors.len(), 1);
    assert_eq!(errors.errors()[0].msg, ErrorMsg::AnnotatedNeedsMetadata);
}

#[test]
fn bare_final_needs_a_value_for_a_local() {
    let s = world();
    let mut errors = ErrorCollector::new();
    let a = s.expr_annotation(&name(SpecialForm::Final, r(3, 8)), TypeFormContext::VarAnnotation(AnnAssignHasValue::No), &mut errors);
    assert_eq!(a.qualifiers, vec![Qualifier::Final]);
    assert_eq!(a.ty, None);
    assert_eq!(errors.len(), 1);
    assert_eq!(errors.errors()[0].msg, ErrorMsg::ExpectedQualifierArgument(Qualifier::Final));

    let mut errors = ErrorCollector::new();
    s.expr_annotation(&name(SpecialForm::Final, r(3, 8)), TypeFormContext::VarAnnotation(AnnAssignHasValue::Yes), &mut errors);
    assert!(errors.is_empty());
}

#[test]
fn invalid_annotation_syntax_gives_error_type() {
    let s = world();
    let mut errors = ErrorCollector::new();
    let a = s.expr_annotation(&AnnotationExpr::Invalid { range: r(2, 9), problem: 4 }, TypeFormContext::ReturnAnnotation, &mut errors);
    assert_eq!(a.ty, Some(Type::Any(AnyStyle::Error)));
    assert_eq!(errors.len(), 1);
    assert_eq!(errors.errors()[0].msg, ErrorMsg::AnnotationSyntax(4));
}

#[test]
fn init_var_is_a_qualifier() {
    let s = world();
    let mut errors = ErrorCollector::new();
    let q = s.expr_qualifier(&Some(Type::ClassDef(10)), TypeFormContext::ClassVarAnnotation, r(0, 7), &mut errors);
    assert_eq!(q, Some(Qualifier::InitVar));
    let q = s.expr_qualifier(&Some(Type::ClassDef(2)), TypeFormContext::ClassVarAnnotation, r(0, 3), &mut errors);
    assert_eq!(q, None);
    assert!(errors.is_empty());
}

#[test]
fn self_in_class_member_annotation_is_the_class() {
    let s = world();
    let mut errors = ErrorCollector::new();
    let x = AnnotationExpr::Other { range: r(20, 24), denotes: Type::SpecialForm(SpecialForm::SelfType) };
    let b = BindingAnnotation::AnnotateExpr { target: AnnotationTarget::ClassMember(5), expr: x, class_key: Some(0) };
    let a = s.solve_annotation(&b, &mut errors);
    let expected = ClassType { class: A, targs: TypeList::Cons(Box::new(Type::Quantified(quantified(50))), Box::new(TypeList::Nil)) };
    assert_eq!(a.annotation.ty, Some(Type::SelfType(expected)));
    assert!(errors.is_empty());
}

#[test]
fn self_outside_a_class_becomes_an_error() {
    let s = world();
    let mut errors = ErrorCollector::new();
    let x = AnnotationExpr::Other {
        range: r(200, 204),
        denotes: Type::Union(TypeList::Cons(Box::new(int_type()), Box::new(TypeList::Cons(Box::new(Type::SpecialForm(SpecialForm::SelfType)), Box::new(TypeList::Nil))))),
    };
    let b = BindingAnnotation::AnnotateExpr { target: AnnotationTarget::Param(1), expr: x, class_key: None };
    let a = s.solve_annotation(&b, &mut errors);
    let expected = Type::Union(TypeList::Cons(Box::new(int_type()), Box::new(TypeList::Cons(Box::new(Type::Any(AnyStyle::Error)), Box::new(TypeList::Nil)))));
    assert_eq!(a.annotation.ty, Some(expected));
}

#[test]
fn proxy_method_only_as_class_member() {
    let s = world();
    let proxy = Type::ClassType(ClassType { class: 15, targs: TypeList::Nil });
    let x = AnnotationExpr::Name { range: r(5, 16), value: Type::ClassDef(15), denotes: proxy };
    let mut errors = ErrorCollector::new();
    let b = BindingAnnotation::AnnotateExpr { target: AnnotationTarget::Param(1), expr: x, class_key: None };
    s.solve_annotation(&b, &mut errors);
    assert_eq!(errors.len(), 1);
    assert_eq!(errors.errors()[0].msg, ErrorMsg::ProxyMethodNotDirect);

    let proxy = Type::ClassType(ClassType { class: 15, targs: TypeList::Nil });
    let x = AnnotationExpr::Name { range: r(5, 16), value: Type::ClassDef(15), denotes: proxy };
    let mut errors = ErrorCollector::new();
    let b = BindingAnnotation::AnnotateExpr { target: AnnotationTarget::ClassMember(1), expr: x, class_key: Some(0) };
    s.solve_annotation(&b, &mut errors);
    assert!(errors.is_empty());
}

#[test]
fn special_form_binding_is_its_type() {
    let s = world();
    let mut errors = ErrorCollector::new();
    let b = BindingAnnotation::SpecialForm { target: AnnotationTarget::Return(2), form: SpecialForm::LiteralString };
    let a = s.solve_annotation(&b, &mut errors);
    assert_eq!(a.target, AnnotationTarget::Return(2));
    assert_eq!(a.annotation.ty, Some(special(SpecialForm::LiteralString)));
    assert!(a.annotation.qualifiers.is_empty());
}


fn callable(ps: Vec<Type>, ret: Type) -> Type {
    Type::Callable(TypeList::from_vec(ps), Box::new(ret))
}

#[test]
fn legacy_type_variable_out_of_scope_in_annotation() {
    let s = world();
    let tv = TypeVar { id: 3, name: 60, decl_start: 2 };
    let mut errors = ErrorCollector::new();
    let x = AnnotationExpr::Other { range: r(30, 31), denotes: Type::TypeVar(tv) };
    let b = BindingAnnotation::AnnotateExpr { target: AnnotationTarget::Param(1), expr: x, class_key: None };
    let a = s.solve_annotation(&b, &mut errors);
    assert_eq!(a.annotation.ty, Some(Type::Any(AnyStyle::Error)));
    assert_eq!(errors.len(), 1);
    assert_eq!(errors.errors()[0].kind, ErrorKind::InvalidTypeVar);
    assert_eq!(errors.errors()[0].range, r(30, 31));
    assert_eq!(errors.errors()[0].msg, ErrorMsg::TypeVarNotInScope(60));
}

#[test]
fn legacy_type_variable_bound_by_callable_is_in_scope() {
    let s = world();
    let tv = TypeVar { id: 3, name: 60, decl_start: 2 };
    let f = callable(vec![Type::TypeVar(tv)], Type::TypeVar(tv));
    let mut errors = ErrorCollector::new();
    let x = AnnotationExpr::Other { range: r(30, 31), denotes: f.deep_clone() };
    let b = BindingAnnotation::AnnotateExpr { target: AnnotationTarget::Param(1), expr: x, class_key: None };
    let a = s.solve_annotation(&b, &mut errors);
    assert_eq!(a.annotation.ty, Some(f));
    assert!(errors.is_empty());
}

#[test]
fn callable_made_generic_when_a_variable_is_out_of_scope() {
    let s = world();
    let t = TypeVar { id: 3, name: 60, decl_start: 2 };
    let u = TypeVar { id: 4, name: 61, decl_start: 9 };
    let f = callable(vec![Type::TypeVar(t)], Type::TypeVar(t));
    let ty = Type::Union(TypeList::from_vec(vec![f, Type::TypeVar(u), Type::TypeVar(u)]));
    let mut errors = ErrorCollector::new();
    let x = AnnotationExpr::Other { range: r(30, 31), denotes: ty };
    let b = BindingAnnotation::AnnotateExpr { target: AnnotationTarget::Param(1), expr: x, class_key: None };
    let a = s.solve_annotation(&b, &mut errors);
    let q = Type::Quantified(Quantified {
        identity: QuantifiedIdentity { module: s.module, anchor_start: 2, anchor_end: 2, ordinal: 0, origin: QuantifiedOrigin::ScopedLegacy },
        name: 60,
        kind: QuantifiedKind::TypeVar,
    });
    let generic = Type::Forall(TypeList::from_vec(vec![q.deep_clone()]), Box::new(callable(vec![q.deep_clone()], q)));
    let expected = Type::Union(TypeList::from_vec(vec![generic, Type::Any(AnyStyle::Error), Type::Any(AnyStyle::Error)]));
    assert_eq!(a.annotation.ty, Some(expected));
    assert_eq!(errors.len(), 1);
    assert_eq!(errors.errors()[0].msg, ErrorMsg::TypeVarNotInScope(61));
}

fn framed_subscript(sf: SpecialForm, at: TextRange, args: Vec<AnnotationExpr>, framed: Type) -> AnnotationExpr {
    AnnotationExpr::Subscript { range: at, head: Some((at, special(sf))), args, denotes: Type::Any(AnyStyle::Implicit), framed: Some(framed) }
}

#[test]
fn annotated_dataframe_takes_the_schema_framed_type() {
    let s = world();
    let mut errors = ErrorCollector::new();
    let framed = Type::ClassType(ClassType { class: A, targs: TypeList::Nil });
    let x = framed_subscript(SpecialForm::Annotated, r(1, 30), vec![int_expr(r(11, 14)), int_expr(r(16, 29))], framed.deep_clone());
    let a = s.expr_annotation(&x, TypeFormContext::ParameterAnnotation, &mut errors);
    assert_eq!(a.qualifiers, vec![Qualifier::Annotated]);
    assert_eq!(a.ty, Some(framed));
    assert!(errors.is_empty());
}

#[test]
fn schema_framing_applies_only_under_annotated() {
    let s = world();
    let mut errors = ErrorCollector::new();
    let framed = Type::ClassType(ClassType { class: A, targs: TypeList::Nil });
    let x = framed_subscript(SpecialForm::Final, r(1, 11), vec![int_expr(r(7, 10))], framed);
    let a = s.expr_annotation(&x, TypeFormContext::VarAnnotation(AnnAssignHasValue::Yes), &mut errors);
    assert_eq!(a.qualifiers, vec![Qualifier::Final]);
    assert_eq!(a.ty, Some(int_type()));
}
