use pyrefly::annotation::Annotation;
use pyrefly::errors::{ErrorCollector, ErrorKind, ErrorMsg, TextRange, TypeError};
use pyrefly::context_managers::{ContextManagerCalls, MethodCall};
use pyrefly::narrowing::{SolverType, Variables};
use pyrefly::exceptions::{ExceptAnnotation, ExceptElement, ExceptionVerdict};
use pyrefly::function_types::{infer_return_type, check_type_form, may_be_implicit_type_alias, FunctionParameter, LastStmt, ReturnExplicit, ReturnImplicit, ReturnType, ReturnTypeKind};
use pyrefly::bindings::{extract_facet_from_op, Binding, ClassDecorator, NarrowOp};
use pyrefly::alias_decl::{LegacyTypeParameterLookup, OuterTypeParameterSource};
use pyrefly::deletion::{DelBase, SubscriptKey, DelTarget, TypedDictField, TypedDictInfo};
use pyrefly::subscript_assign::{AssignBase, AssignTypedDict, AssignedValue, TypedDictFieldType};
use pyrefly::iterable::Iterable;
use pyrefly::annotation::{AnnotationExpr, ClassKeywordExpr};
use pyrefly::type_form::{AnnAssignHasValue, TypeFormContext};
use pyrefly::types::{Qualifier, SpecialForm};
use pyrefly::solver::{Synthesizers, AnswersSolver, ClassInfo, ClassMetadata, ClassScope, ClassTParam, PreInferenceVariance, Stdlib, Variance};
use pyrefly::test_env::{env_cross_file, env_join, env_with_pandas_stubs, env_with_polars_and_pandas_stubs, env_with_polars_stubs, TestEnv, FRAMES_SOURCE, POLARS_SCHEMA_SOURCE};
use pyrefly::type_alias::{AnnotationStyle, AnnotationTarget, AnnotationWithTarget};
use pyrefly::assignment::{AttrsFieldCheck, NameAssign, NameAssignBinding, NameAssignResult};
use pyrefly::statements::{solve_import_missing, ImportBinding, ImportFallback, ImportMissing, SpecialExport, StmtExpr};
use pyrefly::types::{AnyStyle, ClassType, Lit, QuantifiedKind, Quantified, QuantifiedIdentity, QuantifiedOrigin, Tuple, Type, TypeList, TypeVar};
use pyrefly::union::{union, unions};
use pyrefly::yields::{BindingYield, BindingYieldFrom, YieldFromSource};

const A: u64 = 17;

fn stdlib() -> Stdlib {
    Stdlib {
        object: 0,
        builtins_type: 1,
        int: 2,
        bool: 3,
        str: 4,
        bytes: 5,
        none_type: 6,
        tuple: 7,
        dict: 8,
        list: 9,
        init_var: 10,
        builtins_module: 100,
        shape_int_tuple: 11,
        shape_int: 12,
        generator: 13,
        async_generator: 14,
        proxy_method: 15,
        coroutine: 16,
        base_exception: 20,
        base_exception_group: Some(21),
        exception_group: Some(22),
    }
}

fn class(id: u64, module: u64) -> ClassInfo {
    ClassInfo {
        name: 1000 + id,
        module,
        range: TextRange { start: 0, end: 0 },
        metadata: ClassMetadata::plain(1),
        mro: Vec::new(),
        bases: Vec::new(),
        fields: Vec::new(),
        unimplemented_abstract: Vec::new(),
        tparams: Vec::new(),
        iter_item: None,
        getitem_item: None,
        tuple_elements: None,
        iter_override: false,
        async_iter_item: None,
        metaclass_targs: TypeList::Nil,
        disjoint_base: None,
        synthesized: Synthesizers::none(),
    }
}

fn quantified(name: u64, kind: QuantifiedKind) -> Quantified {
    Quantified {
        identity: QuantifiedIdentity { module: 7, anchor_start: 10, anchor_end: 90, ordinal: name as u32, origin: QuantifiedOrigin::Scoped },
        name,
        kind,
    }
}

fn world() -> AnswersSolver {
    let mut classes = Vec::new();
    for id in 0..17u64 {
        classes.push(class(id, 100));
    }
    let mut a = class(A, 7);
    a.tparams.push(ClassTParam {
        name: 50,
        quantified: quantified(50, QuantifiedKind::TypeVar),
        is_type_var: true,
        variance: PreInferenceVariance::Invariant,
        inferred: Variance::Invariant,
    });
    classes.push(a);
    let mut meta = class(18, 7);
    meta.metadata.is_metaclass = true;
    classes.push(meta);
    AnswersSolver {
        module: 7,
        stdlib: stdlib(),
        classes,
        class_answers: vec![Some(A), None, Some(18)],
        is_interface: false,
        type_aliases: Vec::new(),
        upper_bounds: Vec::new(),
        class_scopes: vec![
            ClassScope { range: TextRange { start: 10, end: 90 }, class_key: 0 },
            ClassScope { range: TextRange { start: 100, end: 150 }, class_key: 1 },
            ClassScope { range: TextRange { start: 200, end: 250 }, class_key: 2 },
        ],
    }
}

fn r(start: u32, end: u32) -> TextRange {
    TextRange { start, end }
}

fn inst(cls: u64) -> Type {
    Type::ClassType(ClassType { class: cls, targs: TypeList::Nil })
}

fn list_of(ts: Vec<Type>) -> TypeList {
    TypeList::from_vec(ts)
}


fn generator(y: Type, s: Type, ret: Type) -> Type {
    Type::ClassType(ClassType { class: 13, targs: list_of(vec![y, s, ret]) })
}

#[test]
fn yield_with_generator_annotation() {
    let s = world();
    let mut errors = ErrorCollector::new();
    let b = BindingYield::Yield { annotation: Some(generator(inst(2), inst(4), Type::NoneType)), value: Some(inst(3)), bare_none_assignable: true, range: r(0, 5) };
    let y = s.solve_yield(&b, &mut errors);
    assert_eq!(y.yield_ty, inst(3));
    assert_eq!(y.send_ty, inst(4));
    assert!(errors.is_empty());
}

#[test]
fn bare_yield_where_a_value_is_needed() {
    let s = world();
    let mut errors = ErrorCollector::new();
    let b = BindingYield::Yield { annotation: Some(generator(inst(2), inst(4), Type::NoneType)), value: None, bare_none_assignable: false, range: r(0, 5) };
    let y = s.solve_yield(&b, &mut errors);
    assert_eq!(y.yield_ty, inst(2));
    assert_eq!(errors.len(), 1);
    assert_eq!(errors.errors()[0].kind, ErrorKind::InvalidYield);
    assert_eq!(errors.errors()[0].msg, ErrorMsg::UnexpectedBareYield(inst(2)));
}

#[test]
fn yield_with_union_of_generators() {
    let s = world();
    let mut errors = ErrorCollector::new();
    let agen = Type::ClassType(ClassType { class: 14, targs: list_of(vec![inst(5), inst(3)]) });
    let ann = Type::Union(list_of(vec![generator(inst(2), inst(4), Type::NoneType), agen, inst(2)]));
    let b = BindingYield::Yield { annotation: Some(ann), value: None, bare_none_assignable: true, range: r(0, 5) };
    let y = s.solve_yield(&b, &mut errors);
    assert_eq!(y.yield_ty, Type::NoneType);
    assert_eq!(y.send_ty, Type::Union(list_of(vec![inst(4), inst(3)])));
}

#[test]
fn yield_without_hint_and_outside_function() {
    let s = world();
    let mut errors = ErrorCollector::new();
    let b = BindingYield::Yield { annotation: Some(inst(2)), value: None, bare_none_assignable: false, range: r(0, 5) };
    let y = s.solve_yield(&b, &mut errors);
    assert_eq!(y.yield_ty, Type::NoneType);
    assert_eq!(y.send_ty, Type::Any(AnyStyle::Implicit));
    assert!(errors.is_empty());
    let y = s.solve_yield(&BindingYield::Invalid { range: r(1, 6) }, &mut errors);
    assert_eq!(y.yield_ty, Type::Any(AnyStyle::Error));
    assert_eq!(errors.errors()[0].msg, ErrorMsg::YieldOutsideFunction);
    let y = s.solve_yield(&BindingYield::Unreachable { value: Some(inst(4)) }, &mut errors);
    assert_eq!(y.yield_ty, inst(4));
    assert_eq!(errors.len(), 1);
}

#[test]
fn implicit_return_types() {
    let mut s = world();
    let never = ReturnImplicit { last_exprs: Some(vec![LastStmt::Expr(Type::Never), LastStmt::Exhaustive(Type::Never)]) };
    assert_eq!(s.binding_to_type_return_implicit(&never), Type::Never);
    let falls = ReturnImplicit { last_exprs: Some(vec![LastStmt::Expr(Type::Never), LastStmt::With(Type::Literal(Lit::Bool(true)))]) };
    assert_eq!(s.binding_to_type_return_implicit(&falls), Type::NoneType);
    let with_none = ReturnImplicit { last_exprs: Some(vec![LastStmt::With(Type::NoneType)]) };
    assert_eq!(s.binding_to_type_return_implicit(&with_none), Type::Never);
    assert_eq!(s.binding_to_type_return_implicit(&ReturnImplicit { last_exprs: None }), Type::NoneType);
    assert!(s.context_manager_suppresses(&inst(3)));
    assert!(!s.context_manager_suppresses(&Type::Literal(Lit::Bool(false))));
    s.is_interface = true;
    assert_eq!(s.binding_to_type_return_implicit(&never), Type::Any(AnyStyle::Implicit));
}

#[test]
fn async_return_is_a_coroutine() {
    let s = world();
    let t = s.return_type_from_annotation(inst(2), true, false);
    let any = Type::Any(AnyStyle::Implicit);
    assert_eq!(t, Type::ClassType(ClassType { class: 16, targs: list_of(vec![any.deep_clone(), any, inst(2)]) }));
    assert_eq!(s.return_type_from_annotation(inst(2), true, true), inst(2));
    assert_eq!(s.return_type_from_annotation(inst(2), false, false), inst(2));
}

#[test]
fn returning_any_from_typed_function() {
    let s = world();
    let mut errors = ErrorCollector::new();
    s.check_any_return(&Some(inst(2)), &Type::Any(AnyStyle::Explicit), r(0, 1), &mut errors);
    s.check_any_return(&Some(inst(2)), &Type::Any(AnyStyle::Implicit), r(0, 1), &mut errors);
    s.check_any_return(&Some(inst(0)), &Type::Any(AnyStyle::Implicit), r(0, 1), &mut errors);
    s.check_any_return(&None, &Type::Any(AnyStyle::Implicit), r(0, 1), &mut errors);
    s.check_any_return(&Some(inst(2)), &inst(2), r(0, 1), &mut errors);
    assert_eq!(errors.len(), 2);
    assert_eq!(errors.errors()[0].kind, ErrorKind::NoAnyReturnExplicit);
    assert_eq!(errors.errors()[1].kind, ErrorKind::NoAnyReturnImplicit);
    assert_eq!(errors.errors()[1].msg, ErrorMsg::ReturningImplicitAny(inst(2)));
}

#[test]
fn parameter_types() {
    let s = world();
    let bare = AnnotationWithTarget { target: AnnotationTarget::ArgsParam(1), annotation: Annotation { qualifiers: vec![], ty: None } };
    assert_eq!(
        s.binding_to_type_function_parameter(&FunctionParameter::Annotated(bare)),
        Type::Tuple(Tuple::Unbounded(Box::new(Type::Any(AnyStyle::Implicit)))),
    );
    let typed = AnnotationWithTarget { target: AnnotationTarget::Param(1), annotation: Annotation { qualifiers: vec![], ty: Some(inst(2)) } };
    assert_eq!(s.binding_to_type_function_parameter(&FunctionParameter::Annotated(typed)), inst(2));
    let p = FunctionParameter::Unannotated { resolved: vec![(1, inst(2)), (2, inst(4))], target: AnnotationTarget::KwargsParam(2), name: 2 };
    assert_eq!(
        s.binding_to_type_function_parameter(&p),
        Type::ClassType(ClassType { class: 8, targs: list_of(vec![inst(4), inst(4)]) }),
    );
    let p = FunctionParameter::Unannotated { resolved: vec![], target: AnnotationTarget::Param(2), name: 2 };
    assert_eq!(s.binding_to_type_function_parameter(&p), Type::Any(AnyStyle::Implicit));
}

#[test]
fn implicit_alias_candidates() {
    let cls = Type::TypeOf(Box::new(inst(2)));
    assert!(may_be_implicit_type_alias(&cls));
    assert!(!may_be_implicit_type_alias(&Type::NoneType));
    assert!(may_be_implicit_type_alias(&Type::Union(list_of(vec![cls.deep_clone(), Type::NoneType]))));
    assert!(!may_be_implicit_type_alias(&Type::Union(list_of(vec![cls, inst(2)]))));
    assert!(check_type_form(&Type::NoneType, true));
    assert!(may_be_implicit_type_alias(&Type::TypeVar(TypeVar { id: 1, name: 2, decl_start: 3 })));
}

#[test]
fn unions_flatten_and_dedup() {
    let u = unions(vec![inst(2), Type::Union(list_of(vec![inst(4), inst(2)])), inst(4)]);
    assert_eq!(u, Type::Union(list_of(vec![inst(2), inst(4)])));
    assert_eq!(unions(vec![inst(2)]), inst(2));
    assert_eq!(union(inst(2), inst(2)), inst(2));
}

#[test]
fn type_of_values() {
    let s = world();
    assert_eq!(s.type_of(inst(2)), Type::TypeOf(Box::new(inst(2))));
    assert_eq!(s.type_of(Type::Literal(Lit::Str(3))), Type::ClassDef(4));
    assert_eq!(s.type_of(Type::NoneType), Type::ClassDef(6));
    assert_eq!(s.type_of(Type::ClassDef(2)), Type::TypeOf(Box::new(inst(1))));
    // A metaclass keeps its type arguments.
    let mut s = s;
    s.classes[5].metadata.metaclass = 18;
    s.classes[5].metaclass_targs = list_of(vec![inst(2)]);
    assert_eq!(s.type_of(Type::ClassDef(5)), Type::TypeOf(Box::new(Type::ClassType(ClassType { class: 18, targs: list_of(vec![inst(2)]) }))));
}

#[test]
fn polars_environment_modules() {
    let env = env_with_polars_stubs();
    assert_eq!(env.modules.len(), 12);
    assert_eq!(env.modules[0].name, "polars.series.series");
    assert_eq!(env.modules[0].path.as_deref(), Some("polars/series/series.pyi"));
    assert!(env.modules[1].contents.contains("class DataFrame:"));
    assert_eq!(env.modules[9].contents, POLARS_SCHEMA_SOURCE);
    assert_eq!(env.modules[10].name, "polars");
    assert_eq!(env.modules[10].path, None);
    assert_eq!(env.modules[11].name, "mymod");
}

#[test]
fn derived_environments() {
    let e = env_cross_file();
    assert_eq!(e.modules.len(), 13);
    assert_eq!(e.modules[12].name, "defs");
    assert!(e.modules[12].contents.contains("df = pl.DataFrame"));
    let e = env_join();
    assert_eq!(e.modules[12].name, "frames");
    assert_eq!(e.modules[12].contents, FRAMES_SOURCE);
    let e = env_with_pandas_stubs();
    assert_eq!(e.modules.len(), 2);
    assert_eq!(e.modules[1].name, "pandas");
    let e = env_with_polars_and_pandas_stubs();
    assert_eq!(e.modules.len(), 14);
    assert_eq!(e.modules[13].contents, "from pandas.core.frame import DataFrame as DataFrame");
    let mut t = TestEnv::new();
    t.add("m", "x = 1");
    t.add_with_path("n", "n/__init__.py", "");
    assert_eq!(t.modules.len(), 2);
    assert_eq!(t.modules[1].path.as_deref(), Some("n/__init__.py"));
}

fn ret(annotation: Option<Type>, value: Option<(Type, TextRange)>) -> ReturnExplicit {
    ReturnExplicit { annotation, value, none_assignable: false, range: r(10, 16), is_unreachable: false, is_async: false, is_generator: false }
}

#[test]
fn explicit_returns() {
    let s = world();
    let mut errors = ErrorCollector::new();
    assert_eq!(s.binding_to_type_return_explicit(&ret(Some(inst(2)), Some((inst(2), r(17, 18)))), &mut errors), inst(2));
    assert!(errors.is_empty());
    assert_eq!(s.binding_to_type_return_explicit(&ret(Some(inst(2)), None), &mut errors), Type::NoneType);
    assert_eq!(errors.errors()[0].kind, ErrorKind::BadReturn);
    assert_eq!(errors.errors()[0].msg, ErrorMsg::BareReturnNotAssignable(inst(2)));
    let mut x = ret(None, Some((inst(2), r(17, 18))));
    x.is_unreachable = true;
    assert_eq!(s.binding_to_type_return_explicit(&x, &mut errors), Type::Any(AnyStyle::Error));
    assert_eq!(errors.errors()[1].msg, ErrorMsg::UnreachableReturn);
    let mut x = ret(None, Some((inst(2), r(17, 18))));
    x.is_async = true;
    x.is_generator = true;
    s.binding_to_type_return_explicit(&x, &mut errors);
    assert_eq!(errors.errors()[2].msg, ErrorMsg::AsyncGeneratorReturnValue);
    assert_eq!(errors.errors()[2].range, r(17, 18));
    // In a generator the value is checked against the generator's return type.
    let mut x = ret(Some(generator(inst(2), inst(4), inst(5))), Some((Type::Any(AnyStyle::Explicit), r(17, 18))));
    x.is_generator = true;
    s.binding_to_type_return_explicit(&x, &mut errors);
    assert_eq!(errors.errors()[3].msg, ErrorMsg::ReturningAny(inst(5)));
    assert_eq!(errors.len(), 4);
}

#[test]
fn typed_dict_key_deletion() {
    let s = world();
    let td = TypedDictInfo {
        name: 30,
        fields: vec![
            TypedDictField { name: 1, read_only: false, required: true },
            TypedDictField { name: 2, read_only: false, required: false },
            TypedDictField { name: 3, read_only: true, required: false },
        ],
        extra_items: None,
    };
    let mut errors = ErrorCollector::new();
    s.check_del_typed_dict_literal_key(&td, 2, r(4, 7), &mut errors);
    assert!(errors.is_empty());
    s.check_del_typed_dict_literal_key(&td, 1, r(4, 7), &mut errors);
    s.check_del_typed_dict_literal_key(&td, 3, r(4, 7), &mut errors);
    s.check_del_typed_dict_literal_key(&td, 9, r(4, 7), &mut errors);
    assert_eq!(errors.len(), 3);
    assert_eq!(errors.errors()[0].kind, ErrorKind::UnsupportedDelete);
    assert_eq!(errors.errors()[0].msg, ErrorMsg::KeyMayNotBeDeleted(30, Some(1)));
    assert_eq!(errors.errors()[2].kind, ErrorKind::BadTypedDictKey);
    let open = TypedDictInfo { name: 31, fields: vec![], extra_items: Some(false) };
    let mut errors = ErrorCollector::new();
    s.check_del_typed_dict_literal_key(&open, 9, r(4, 7), &mut errors);
    assert!(errors.is_empty());
    s.check_del_typed_dict_field(31, None, false, true, r(4, 7), &mut errors);
    assert_eq!(errors.errors()[0].msg, ErrorMsg::KeyMayNotBeDeleted(31, None));
}

#[test]
fn async_iteration() {
    let mut s = world();
    s.classes[9].async_iter_item = Some(inst(4));
    let mut errors = ErrorCollector::new();
    let list = Type::ClassType(ClassType { class: 9, targs: TypeList::Nil });
    assert_eq!(s.async_iterate(&list, r(0, 1), &mut errors), vec![Iterable::OfType(inst(4))]);
    assert!(errors.is_empty());
    assert_eq!(s.async_iterate(&inst(2), r(0, 1), &mut errors), vec![Iterable::OfType(Type::Any(AnyStyle::Error))]);
    assert_eq!(errors.errors()[0].msg, ErrorMsg::NotAsyncIterable(inst(2)));
}

#[test]
fn class_keyword_annotations() {
    let s = world();
    let read_only = Type::TypeOf(Box::new(Type::SpecialForm(SpecialForm::ReadOnly)));
    let x = ClassKeywordExpr::Subscript { head: Some((r(0, 8), read_only)), slice_value: inst(2), value: Type::Any(AnyStyle::Implicit) };
    let a = s.expr_class_keyword(&x);
    assert_eq!(a.qualifiers, vec![Qualifier::ReadOnly]);
    assert_eq!(a.ty, Some(inst(2)));
    let a = s.expr_class_keyword(&ClassKeywordExpr::Other { value: inst(3) });
    assert!(a.qualifiers.is_empty());
    assert_eq!(a.ty, Some(inst(3)));
}

#[test]
fn annotated_metadata() {
    let s = world();
    let annotated = Type::TypeOf(Box::new(Type::SpecialForm(SpecialForm::Annotated)));
    let arg = |n: u32| AnnotationExpr::Other { range: r(n, n + 1), denotes: inst(2) };
    let x = AnnotationExpr::Subscript { range: r(0, 20), head: Some((r(0, 9), annotated)), args: vec![arg(10), arg(12), arg(14)], denotes: inst(2), framed: None };
    let mut errors = ErrorCollector::new();
    let m = s.get_annotated_metadata(x, TypeFormContext::ReturnAnnotation, &mut errors);
    assert_eq!(m.len(), 2);
    assert_eq!(m[0].range(), r(12, 13));
    assert!(errors.is_empty());
    let m = s.get_annotated_metadata(arg(1), TypeFormContext::ReturnAnnotation, &mut errors);
    assert!(m.is_empty());
}

#[test]
fn facet_of_narrowing() {
    let op = NarrowOp::And(vec![NarrowOp::Atomic(None), NarrowOp::Or(vec![NarrowOp::Atomic(Some(4)), NarrowOp::Atomic(Some(5))])]);
    assert_eq!(extract_facet_from_op(&op), Some(4));
    assert_eq!(extract_facet_from_op(&NarrowOp::Atomic(None)), None);
}

#[test]
fn implicit_return_against_annotation() {
    let s = world();
    let mut errors = ErrorCollector::new();
    let agen = Type::ClassType(ClassType { class: 14, targs: list_of(vec![inst(2), inst(4)]) });
    s.check_implicit_return_against_annotation(&agen, true, true, false, r(0, 9), &mut errors);
    assert!(errors.is_empty());
    s.check_implicit_return_against_annotation(&inst(2), true, true, true, r(0, 9), &mut errors);
    assert_eq!(errors.errors()[0].msg, ErrorMsg::AsyncGeneratorShouldReturnAsyncGenerator);
    s.check_implicit_return_against_annotation(&inst(2), false, true, true, r(0, 9), &mut errors);
    assert_eq!(errors.errors()[1].msg, ErrorMsg::GeneratorShouldReturnGenerator);
    s.check_implicit_return_against_annotation(&generator(inst(2), inst(4), inst(5)), false, true, false, r(0, 9), &mut errors);
    assert_eq!(errors.errors()[2].msg, ErrorMsg::ImplicitReturnNotAssignable(inst(5)));
    s.check_implicit_return_against_annotation(&inst(2), false, false, true, r(0, 9), &mut errors);
    s.check_implicit_return_against_annotation(&inst(2), false, false, false, r(0, 9), &mut errors);
    assert_eq!(errors.errors()[3].msg, ErrorMsg::ImplicitReturnNotAssignable(inst(2)));
    assert_eq!(errors.len(), 4);
}

#[test]
fn legacy_type_parameter_lookup() {
    let s = world();
    let v = TypeVar { id: 3, name: 60, decl_start: 2 };
    let p1 = s.solve_legacy_tparam(&Type::TypeVar(v), r(10, 12));
    let p2 = s.solve_legacy_tparam(&Type::TypeVar(v), r(40, 42));
    assert_ne!(p1, p2);
    match p1 {
        LegacyTypeParameterLookup::Parameter(q) => {
            assert_eq!(q.name, 60);
            assert_eq!(q.kind, QuantifiedKind::TypeVar);
            assert_eq!(q.identity.anchor_start, 10);
        },
        LegacyTypeParameterLookup::NotParameter(_) => panic!("expected a parameter"),
    }
    assert_eq!(s.solve_legacy_tparam(&inst(2), r(10, 12)), LegacyTypeParameterLookup::NotParameter(inst(2)));
}

#[test]
fn yield_from_generator_gives_its_types() {
    let s = world();
    let mut errors = ErrorCollector::new();
    let g = generator(inst(2), inst(4), inst(5));
    let b = BindingYieldFrom::YieldFrom {
        annotation: Some(generator(inst(2), inst(4), Type::NoneType)),
        is_async: false,
        value: g,
        source: YieldFromSource::Generator(inst(2), inst(4), inst(5)),
        assignable: true,
        range: r(0, 9),
    };
    let y = s.solve_yield_from(&b, &mut errors);
    assert_eq!(y.yield_ty, inst(2));
    assert_eq!(y.send_ty, inst(4));
    assert_eq!(y.return_ty, inst(5));
    assert!(errors.is_empty());
}

#[test]
fn yield_from_iterable_is_checked_as_a_generator() {
    let s = world();
    let mut errors = ErrorCollector::new();
    let b = BindingYieldFrom::YieldFrom {
        annotation: Some(generator(inst(2), inst(4), inst(3))),
        is_async: false,
        value: inst(9),
        source: YieldFromSource::Iterable(Type::Union(list_of(vec![inst(2), inst(4)]))),
        assignable: false,
        range: r(0, 9),
    };
    let y = s.solve_yield_from(&b, &mut errors);
    assert_eq!(y.yield_ty, Type::Union(list_of(vec![inst(2), inst(4)])));
    assert_eq!(y.send_ty, Type::NoneType);
    assert_eq!(y.return_ty, Type::NoneType);
    assert_eq!(errors.len(), 1);
    let got = Type::Union(list_of(vec![
        generator(inst(2), Type::NoneType, Type::NoneType),
        generator(inst(4), Type::NoneType, Type::NoneType),
    ]));
    let want = generator(inst(2), inst(4), Type::Any(AnyStyle::Implicit));
    assert_eq!(errors.errors()[0].kind, ErrorKind::InvalidYield);
    assert_eq!(errors.errors()[0].msg, ErrorMsg::YieldFromNotAssignable(got, want));
}

#[test]
fn yield_from_errors_in_async_and_outside_functions() {
    let s = world();
    let mut errors = ErrorCollector::new();
    let b = BindingYieldFrom::YieldFrom {
        annotation: None,
        is_async: true,
        value: inst(2),
        source: YieldFromSource::NotIterable,
        assignable: true,
        range: r(3, 9),
    };
    let y = s.solve_yield_from(&b, &mut errors);
    assert_eq!(y.yield_ty, Type::Any(AnyStyle::Error));
    assert_eq!(errors.len(), 1);
    assert_eq!(errors.errors()[0].msg, ErrorMsg::YieldFromInAsync);
    let b = BindingYieldFrom::YieldFrom {
        annotation: None,
        is_async: false,
        value: inst(2),
        source: YieldFromSource::NotIterable,
        assignable: true,
        range: r(3, 9),
    };
    s.solve_yield_from(&b, &mut errors);
    assert_eq!(errors.len(), 2);
    assert_eq!(errors.errors()[1].msg, ErrorMsg::YieldFromNotIterable(inst(2)));
    let y = s.solve_yield_from(&BindingYieldFrom::Invalid { range: r(1, 2) }, &mut errors);
    assert_eq!(y.return_ty, Type::Any(AnyStyle::Error));
    assert_eq!(errors.errors()[2].msg, ErrorMsg::YieldFromOutsideFunction);
    let y = s.solve_yield_from(&BindingYieldFrom::Unreachable { source: YieldFromSource::Iterable(inst(3)) }, &mut errors);
    assert_eq!(y.yield_ty, inst(3));
    assert_eq!(errors.len(), 3);
}

fn call(returned: Type, awaited: Option<Type>, n_errors: usize) -> MethodCall {
    let mut errors = Vec::new();
    for i in 0..n_errors {
        errors.push(TypeError { kind: ErrorKind::BadMatch, range: r(i as u32, i as u32 + 1), msg: ErrorMsg::ForwardRefUnion });
    }
    MethodCall { returned, awaited, errors }
}

#[test]
fn with_enter_value_sync_and_async() {
    let s = world();
    let mut errors = ErrorCollector::new();
    let t = s.context_value_enter(false, call(inst(2), None, 1), r(0, 4), &mut errors);
    assert_eq!(t, inst(2));
    assert_eq!(errors.len(), 1);
    let t = s.context_value_enter(true, call(inst(2), Some(inst(3)), 0), r(0, 4), &mut errors);
    assert_eq!(t, inst(3));
    assert_eq!(errors.len(), 1);
    let t = s.context_value_enter(true, call(inst(2), None, 0), r(0, 4), &mut errors);
    assert_eq!(t, Type::Any(AnyStyle::Error));
    assert_eq!(errors.len(), 2);
    assert_eq!(errors.errors()[1].kind, ErrorKind::NotAsync);
    assert_eq!(errors.errors()[1].msg, ErrorMsg::AenterNotAsync);
}

#[test]
fn with_exit_value_unions_both_calls() {
    let s = world();
    let mut errors = ErrorCollector::new();
    let bool_ty = inst(3);
    let t = s.context_value_exit(false, call(bool_ty, None, 1), call(Type::NoneType, None, 0), r(0, 4), &mut errors);
    assert_eq!(t, Type::Union(list_of(vec![inst(3), Type::NoneType])));
    assert_eq!(errors.len(), 1);
    assert_eq!(errors.errors()[0].kind, ErrorKind::BadMatch);
}

#[test]
fn with_exit_summarises_many_errors() {
    let s = world();
    let mut errors = ErrorCollector::new();
    let t = s.context_value_exit(true, call(inst(2), None, 3), call(inst(2), Some(inst(4)), 2), r(5, 9), &mut errors);
    assert_eq!(t, Type::Union(list_of(vec![Type::Any(AnyStyle::Error), inst(4)])));
    assert_eq!(errors.len(), 3);
    assert_eq!(errors.errors()[0].msg, ErrorMsg::AexitNotAsync);
    assert_eq!(errors.errors()[1].kind, ErrorKind::BadContextManager);
    assert_eq!(errors.errors()[1].msg, ErrorMsg::ExitNotCallableWithException(true));
    assert_eq!(errors.errors()[2].msg, ErrorMsg::ExitNotCallableWithNone(true));
}

fn type_of(t: Type) -> Type {
    Type::TypeOf(Box::new(t))
}

fn ok_verdict() -> ExceptionVerdict {
    ExceptionVerdict { is_exception: true, extends_group: false }
}

#[test]
fn except_decomposes_tuples_and_unions() {
    let s = world();
    let tuple_of = Type::ClassType(ClassType { class: 7, targs: list_of(vec![type_of(inst(4))]) });
    let ty = Type::Union(list_of(vec![
        Type::Tuple(Tuple::Concrete(list_of(vec![type_of(inst(2)), type_of(inst(3))]))),
        tuple_of,
        type_of(inst(5)),
    ]));
    let members = s.decompose_except_types(&ty);
    assert_eq!(members, vec![type_of(inst(2)), type_of(inst(3)), type_of(inst(4)), type_of(inst(5))]);
}

#[test]
fn except_tuple_literal_binds_union_of_classes() {
    let s = world();
    let mut errors = ErrorCollector::new();
    let ann = ExceptAnnotation::Tuple {
        elements: vec![
            ExceptElement { ty: type_of(inst(2)), starred: false, range: r(1, 2) },
            ExceptElement { ty: Type::Tuple(Tuple::Unbounded(Box::new(type_of(inst(3))))), starred: true, range: r(4, 6) },
        ],
        range: r(0, 7),
    };
    assert_eq!(s.except_items(&ann).len(), 2);
    let t = s.binding_to_type_exception_handler(&ann, false, &vec![ok_verdict(), ExceptionVerdict { is_exception: false, extends_group: true }], &mut errors);
    assert_eq!(t, Type::Union(list_of(vec![inst(2), inst(3)])));
    assert_eq!(errors.len(), 1);
    assert_eq!(errors.errors()[0].range, r(4, 6));
    assert_eq!(errors.errors()[0].msg, ErrorMsg::NotAnExceptionClass(inst(3)));
}

#[test]
fn except_star_wraps_in_exception_group() {
    let s = world();
    let mut errors = ErrorCollector::new();
    let ann = ExceptAnnotation::Other { ty: type_of(inst(2)), range: r(0, 3) };
    let t = s.binding_to_type_exception_handler(&ann, true, &vec![ExceptionVerdict { is_exception: true, extends_group: true }], &mut errors);
    assert_eq!(t, Type::ClassType(ClassType { class: 22, targs: list_of(vec![inst(2)]) }));
    assert_eq!(errors.len(), 1);
    assert_eq!(errors.errors()[0].msg, ErrorMsg::ExceptStarExtendsGroup);
    let mut old = world();
    old.stdlib.base_exception_group = None;
    old.stdlib.exception_group = None;
    let mut errors = ErrorCollector::new();
    let t = old.binding_to_type_exception_handler(&ann, true, &vec![ExceptionVerdict { is_exception: true, extends_group: true }], &mut errors);
    assert_eq!(t, inst(2));
    assert_eq!(errors.len(), 1);
    assert_eq!(errors.errors()[0].kind, ErrorKind::Unsupported);
    assert_eq!(errors.errors()[0].msg, ErrorMsg::ExceptStarUnsupported);
}

fn loop_annotation(qualifiers: Vec<Qualifier>, ty: Option<Type>) -> Option<AnnotationWithTarget> {
    Some(AnnotationWithTarget { target: AnnotationTarget::Assign(40, AnnAssignHasValue::No), annotation: Annotation { qualifiers, ty } })
}

#[test]
fn for_loop_variable_types() {
    let mut s = world();
    s.classes[9].iter_item = Some(inst(2));
    let mut errors = ErrorCollector::new();
    let t = s.binding_to_type_iterable_value(&None, &inst(9), false, true, r(0, 3), &mut errors);
    assert_eq!(t, inst(2));
    assert!(errors.is_empty());
    let t = s.binding_to_type_iterable_value(&loop_annotation(vec![], Some(inst(3))), &inst(9), false, true, r(0, 3), &mut errors);
    assert_eq!(t, inst(2));
    let t = s.binding_to_type_iterable_value(&loop_annotation(vec![], Some(inst(3))), &inst(9), false, false, r(0, 3), &mut errors);
    assert_eq!(t, inst(3));
    assert_eq!(errors.len(), 1);
    assert_eq!(errors.errors()[0].kind, ErrorKind::BadAssignment);
    assert_eq!(errors.errors()[0].msg, ErrorMsg::IterationVariableMismatch(inst(2), Some(40), inst(3)));
}

#[test]
fn for_loop_over_any_keeps_declared_type() {
    let s = world();
    let mut errors = ErrorCollector::new();
    let b = Binding::IterableValue {
        annotation: loop_annotation(vec![Qualifier::Final], Some(inst(3))),
        iterable: Type::Any(AnyStyle::Explicit),
        is_async: false,
        assignable: false,
        range: r(2, 8),
    };
    let t = s.binding_to_type(&b, &mut errors);
    assert_eq!(t, inst(3));
    assert!(errors.is_empty());
    let b = Binding::IterableValue {
        annotation: loop_annotation(vec![Qualifier::Final], Some(inst(3))),
        iterable: Type::Any(AnyStyle::Explicit),
        is_async: false,
        assignable: false,
        range: r(2, 8),
    };
    let t2 = s.binding_to_type(&b, &mut errors);
    assert_eq!(t2, inst(3));
}

#[test]
fn async_for_over_non_async_iterable() {
    let s = world();
    let mut errors = ErrorCollector::new();
    let t = s.binding_to_type_iterable_value(&None, &inst(2), true, true, r(0, 3), &mut errors);
    assert_eq!(t, Type::Any(AnyStyle::Error));
    assert_eq!(errors.len(), 1);
    assert_eq!(errors.errors()[0].msg, ErrorMsg::NotAsyncIterable(inst(2)));
}

#[test]
fn narrowing_forces_chains_of_variables() {
    let s = world();
    let mut errors = ErrorCollector::new();
    let vars = Variables { answers: vec![SolverType::Var(1), SolverType::Known(inst(2)), SolverType::Var(3), SolverType::Var(2)] };
    assert_eq!(s.force_for_narrowing(&vars, &SolverType::Var(0), r(0, 1), &mut errors), inst(2));
    assert_eq!(s.force_for_narrowing(&vars, &SolverType::Known(inst(4)), r(0, 1), &mut errors), inst(4));
    assert_eq!(s.force_for_narrowing(&vars, &vars.answers[0], r(0, 1), &mut errors), inst(2));
    assert!(errors.is_empty());
    let t = s.force_for_narrowing(&vars, &SolverType::Var(2), r(5, 6), &mut errors);
    assert_eq!(t, Type::Any(AnyStyle::Error));
    assert_eq!(errors.len(), 1);
    assert_eq!(errors.errors()[0].kind, ErrorKind::InternalError);
    assert_eq!(errors.errors()[0].msg, ErrorMsg::NarrowingCycle);
}

fn declared(style: AnnotationStyle, ty: Type) -> Option<(AnnotationStyle, AnnotationWithTarget)> {
    Some((style, AnnotationWithTarget { target: AnnotationTarget::Assign(40, AnnAssignHasValue::Yes), annotation: Annotation { qualifiers: vec![], ty: Some(ty) } }))
}

fn assign(annotation: Option<(AnnotationStyle, AnnotationWithTarget)>, value: Type) -> NameAssign {
    NameAssign { name: 40, annotation, receiver: None, value, value_is_ellipsis: false, attrs_field: None }
}

#[test]
fn assignment_with_direct_and_carried_annotations() {
    let s = world();
    let mut errors = ErrorCollector::new();
    assert_eq!(s.name_assign_infer(&assign(declared(AnnotationStyle::Direct, inst(3)), inst(2)), &mut errors), inst(3));
    assert_eq!(s.name_assign_infer(&assign(declared(AnnotationStyle::Forwarded, inst(3)), inst(2)), &mut errors), inst(2));
    assert_eq!(
        s.name_assign_infer(&assign(declared(AnnotationStyle::ForwardedInitial, inst(3)), Type::Any(AnyStyle::Explicit)), &mut errors),
        inst(3)
    );
    assert_eq!(s.name_assign_infer(&assign(None, inst(2)), &mut errors), inst(2));
    assert!(errors.is_empty());
}

#[test]
fn assignment_to_class_name_and_in_stubs() {
    let mut s = world();
    let mut errors = ErrorCollector::new();
    let mut x = assign(None, inst(2));
    x.receiver = Some((Type::ClassDef(4), false));
    assert_eq!(s.name_assign_infer(&x, &mut errors), Type::ClassDef(4));
    x.receiver = Some((Type::ClassDef(4), true));
    assert_eq!(s.name_assign_infer(&x, &mut errors), inst(2));
    let mut e = assign(None, Type::Ellipsis);
    e.value_is_ellipsis = true;
    assert_eq!(s.name_assign_infer(&e, &mut errors), Type::Ellipsis);
    s.is_interface = true;
    assert_eq!(s.name_assign_infer(&e, &mut errors), Type::Any(AnyStyle::Implicit));
}

#[test]
fn assignment_of_attrs_field() {
    let s = world();
    let mut errors = ErrorCollector::new();
    let mut x = assign(declared(AnnotationStyle::Direct, inst(3)), inst(9));
    x.attrs_field = Some(Some(AttrsFieldCheck { got: inst(2), assignable: false, range: r(7, 9) }));
    assert_eq!(s.name_assign_infer(&x, &mut errors), Type::Any(AnyStyle::Implicit));
    assert_eq!(errors.len(), 1);
    assert_eq!(errors.errors()[0].range, r(7, 9));
    assert_eq!(errors.errors()[0].msg, ErrorMsg::AttrsFieldValueMismatch(inst(2), inst(3)));
    let mut y = assign(None, inst(9));
    y.attrs_field = Some(None);
    assert_eq!(s.name_assign_infer(&y, &mut errors), Type::Any(AnyStyle::Implicit));
}

fn stmt(result: Type, is_call: bool, special: Option<SpecialExport>) -> StmtExpr {
    StmtExpr { result, is_await: false, is_call, special, is_coroutine: false, extends_any: false, range: r(3, 8) }
}

#[test]
fn unused_call_results_are_reported() {
    let s = world();
    let mut errors = ErrorCollector::new();
    assert_eq!(s.binding_to_type_stmt_expr(&stmt(inst(2), true, None), &mut errors), inst(2));
    assert_eq!(errors.len(), 1);
    assert_eq!(errors.errors()[0].kind, ErrorKind::UnusedCallResult);
    assert_eq!(errors.errors()[0].msg, ErrorMsg::CallResultUnused(inst(2)));
    s.binding_to_type_stmt_expr(&stmt(Type::NoneType, true, None), &mut errors);
    s.binding_to_type_stmt_expr(&stmt(inst(2), false, None), &mut errors);
    s.binding_to_type_stmt_expr(&stmt(inst(2), true, Some(SpecialExport::RevealType)), &mut errors);
    let mut any_base = stmt(inst(2), true, None);
    any_base.extends_any = true;
    s.binding_to_type_stmt_expr(&any_base, &mut errors);
    assert_eq!(errors.len(), 1);
}

#[test]
fn unused_coroutines_and_type_variables() {
    let s = world();
    let mut errors = ErrorCollector::new();
    let mut c = stmt(inst(16), true, None);
    c.is_coroutine = true;
    s.binding_to_type_stmt_expr(&c, &mut errors);
    c.is_await = true;
    c.is_call = false;
    s.binding_to_type_stmt_expr(&c, &mut errors);
    s.binding_to_type_stmt_expr(&stmt(inst(2), true, Some(SpecialExport::ParamSpec)), &mut errors);
    assert_eq!(errors.len(), 3);
    assert_eq!(errors.errors()[0].msg, ErrorMsg::CoroutineUnused);
    assert_eq!(errors.errors()[1].msg, ErrorMsg::AwaitedCoroutineUnused);
    assert_eq!(errors.errors()[2].kind, ErrorKind::InvalidParamSpec);
    assert_eq!(errors.errors()[2].msg, ErrorMsg::MustBeAssigned(SpecialExport::ParamSpec));
}

#[test]
fn expression_bindings_through_dispatcher() {
    let s = world();
    let mut errors = ErrorCollector::new();
    let b = Binding::StmtExpr(stmt(inst(2), true, None));
    assert_eq!(s.binding_to_type(&b, &mut errors), inst(2));
    assert_eq!(errors.len(), 1);
    let final_member = AnnotationWithTarget { target: AnnotationTarget::ClassMember(3), annotation: Annotation { qualifiers: vec![Qualifier::Final], ty: Some(inst(2)) } };
    let b = Binding::Expr { annotation: Some(final_member), value: inst(4), range: r(1, 2) };
    assert_eq!(s.binding_to_type(&b, &mut errors), inst(4));
    assert_eq!(errors.len(), 2);
    assert_eq!(errors.errors()[1].kind, ErrorKind::BadAssignment);
}

fn manager(enter: Type, exit: Type, exit_ok: bool) -> ContextManagerCalls {
    ContextManagerCalls {
        enter: call(enter, None, 0),
        exit_with_exception: call(exit.deep_clone(), None, 0),
        exit_with_none: call(exit, None, 0),
        exit_ok,
    }
}

#[test]
fn with_statement_over_a_union_of_managers() {
    let s = world();
    let mut errors = ErrorCollector::new();
    let cm = Type::Union(list_of(vec![inst(4), inst(5)]));
    let t = s.context_value(&cm, false, r(0, 9), vec![manager(inst(2), Type::NoneType, true), manager(inst(3), inst(2), false)], &mut errors);
    assert_eq!(t, Type::Union(list_of(vec![inst(2), inst(3)])));
    assert_eq!(errors.len(), 1);
    assert_eq!(errors.errors()[0].kind, ErrorKind::BadContextManager);
    assert_eq!(errors.errors()[0].msg, ErrorMsg::ExitReturnNotOptionalBool(inst(2)));
}

#[test]
fn with_statement_target_against_declaration() {
    let s = world();
    let mut errors = ErrorCollector::new();
    let ann = loop_annotation(vec![], Some(inst(3)));
    let t = s.binding_to_type_context_value(&ann, &inst(4), false, r(0, 9), vec![manager(inst(2), Type::NoneType, true)], false, &mut errors);
    assert_eq!(t, inst(3));
    assert_eq!(errors.len(), 1);
    assert_eq!(errors.errors()[0].msg, ErrorMsg::ContextValueMismatch(inst(2), inst(3)));
    let t = s.binding_to_type_context_value(&ann, &inst(4), false, r(0, 9), vec![manager(Type::Any(AnyStyle::Implicit), Type::NoneType, true)], false, &mut errors);
    assert_eq!(t, inst(3));
    assert_eq!(errors.len(), 1);
    let t = s.binding_to_type_context_value(&None, &inst(4), false, r(0, 9), vec![manager(inst(2), Type::NoneType, true)], false, &mut errors);
    assert_eq!(t, inst(2));
}

#[test]
fn del_statement_targets() {
    let s = world();
    let mut errors = ErrorCollector::new();
    let td = TypedDictInfo {
        name: 60,
        fields: vec![TypedDictField { name: 61, read_only: false, required: true }, TypedDictField { name: 62, read_only: false, required: false }],
        extra_items: None,
    };
    let target = DelTarget::Subscript {
        bases: vec![DelBase::TypedDict { info: td, as_dict: false }, DelBase::Other],
        keys: vec![SubscriptKey::Literal(61), SubscriptKey::Literal(62), SubscriptKey::Str],
        key_range: r(4, 6),
    };
    let calls = s.check_del_statement(&target, &mut errors);
    assert_eq!(calls, vec![(0, 2), (1, 0), (1, 1), (1, 2)]);
    assert_eq!(errors.len(), 1);
    assert_eq!(errors.errors()[0].kind, ErrorKind::UnsupportedDelete);
    assert_eq!(errors.errors()[0].msg, ErrorMsg::KeyMayNotBeDeleted(60, Some(61)));
    assert!(s.check_del_statement(&DelTarget::Name, &mut errors).is_empty());
    s.check_del_statement(&DelTarget::Other { range: r(0, 1) }, &mut errors);
    assert_eq!(errors.len(), 2);
    assert_eq!(errors.errors()[1].msg, ErrorMsg::InvalidDelTarget);
}

#[test]
fn possible_legacy_type_parameters() {
    let s = world();
    let mut errors = ErrorCollector::new();
    let q = quantified(50, QuantifiedKind::TypeVar);
    let t = s.binding_to_type_possible_legacy_tparam(&LegacyTypeParameterLookup::Parameter(q), 50, r(3, 4), true, true, &mut errors);
    assert_eq!(t, Type::TypeOf(Box::new(Type::Quantified(q))));
    assert_eq!(errors.len(), 2);
    assert_eq!(errors.errors()[0].msg, ErrorMsg::TypeParamNotInList(50));
    assert_eq!(errors.errors()[1].msg, ErrorMsg::TypeParamShadowsEnclosing(50));
    let t = s.binding_to_type_possible_legacy_tparam(&LegacyTypeParameterLookup::NotParameter(inst(2)), 50, r(3, 4), true, true, &mut errors);
    assert_eq!(t, inst(2));
    assert_eq!(errors.len(), 2);
    let t = s.binding_to_type_outer_class_type_parameter(&OuterTypeParameterSource::TypeParameter(51), r(5, 6), &mut errors);
    assert_eq!(t, Type::Any(AnyStyle::Error));
    assert_eq!(errors.errors()[2].msg, ErrorMsg::TypeVarNotInScope(51));
    let t = s.binding_to_type_outer_class_type_parameter(&OuterTypeParameterSource::PossibleLegacyTParam(inst(4)), r(5, 6), &mut errors);
    assert_eq!(t, inst(4));
    assert_eq!(errors.len(), 3);
}

fn movie() -> AssignTypedDict {
    AssignTypedDict {
        name: 60,
        fields: vec![
            TypedDictFieldType { name: 61, ty: inst(4), read_only: false },
            TypedDictFieldType { name: 62, ty: inst(2), read_only: true },
        ],
        extra_items: None,
        as_dict: None,
    }
}

#[test]
fn typed_dict_subscript_assignment() {
    let s = world();
    let mut errors = ErrorCollector::new();
    let value = AssignedValue::Expr { ty: inst(4), range: r(10, 12) };
    let fits = vec![inst(4)];
    let (t, calls) = s.check_assign_to_subscript(
        &vec![AssignBase::TypedDict(movie()), AssignBase::Other],
        &vec![SubscriptKey::Literal(61), SubscriptKey::Literal(62), SubscriptKey::Literal(63)],
        &value,
        &fits,
        r(4, 6),
        r(0, 12),
        &mut errors,
    );
    assert_eq!(calls, vec![(1, 0), (1, 1), (1, 2)]);
    assert_eq!(t, Type::Union(list_of(vec![inst(4), Type::Any(AnyStyle::Error)])));
    assert_eq!(errors.len(), 2);
    assert_eq!(errors.errors()[0].kind, ErrorKind::ReadOnly);
    assert_eq!(errors.errors()[0].msg, ErrorMsg::TypedDictKeyReadOnly(60, Some(62)));
    assert_eq!(errors.errors()[1].msg, ErrorMsg::TypedDictMissingKey(60, 63));
}

#[test]
fn typed_dict_value_mismatch() {
    let s = world();
    let mut errors = ErrorCollector::new();
    let bound = AssignedValue::Binding(inst(3));
    let t = s.check_assign_to_typed_dict_literal_subscript(&movie(), 61, &bound, &vec![], r(4, 6), r(0, 12), &mut errors);
    assert_eq!(t, inst(4));
    assert_eq!(errors.errors()[0].range, r(0, 12));
    assert_eq!(errors.errors()[0].msg, ErrorMsg::TypedDictValueMismatch(inst(3), Some(61), inst(4)));
    let expr = AssignedValue::Expr { ty: inst(3), range: r(10, 12) };
    let t = s.check_assign_to_typed_dict_literal_subscript(&movie(), 61, &expr, &vec![], r(4, 6), r(0, 12), &mut errors);
    assert_eq!(t, inst(3));
    assert_eq!(errors.errors()[1].range, r(10, 12));
    let mut open = movie();
    open.as_dict = Some(inst(5));
    let (t, calls) = s.check_assign_to_subscript(&vec![AssignBase::TypedDict(open)], &vec![SubscriptKey::Str], &expr, &vec![inst(5)], r(4, 6), r(0, 12), &mut errors);
    assert_eq!(t, inst(3));
    assert!(calls.is_empty());
    assert_eq!(errors.len(), 2);
}

#[test]
fn type_var_tuple_binding_keeps_its_value() {
    let s = world();
    let mut errors = ErrorCollector::new();
    let tvt = Type::TypeVarTuple(TypeVar { id: 9, name: 70, decl_start: 3 });
    let t = s.binding_to_type_type_var_tuple(&tvt, &loop_annotation(vec![], Some(inst(2))), false, r(0, 5), &mut errors);
    assert_eq!(t, tvt);
    assert_eq!(errors.len(), 1);
    assert_eq!(errors.errors()[0].msg, ErrorMsg::AnnAssignMismatch(tvt.deep_clone(), inst(2)));
    let t = s.binding_to_type_type_var_tuple(&tvt, &None, false, r(0, 5), &mut errors);
    assert_eq!(t, tvt);
    assert_eq!(errors.len(), 1);
}

#[test]
fn named_tuples_iterate_by_their_elements() {
    let mut s = world();
    s.classes[5].tuple_elements = Some(vec![inst(2), inst(4)]);
    s.classes[6].tuple_elements = Some(vec![inst(2), inst(4)]);
    s.classes[6].iter_override = true;
    s.classes[6].iter_item = Some(inst(3));
    let mut errors = ErrorCollector::new();
    let its = s.iterate(&inst(5), r(0, 1), &mut errors);
    assert_eq!(its.len(), 1);
    assert!(matches!(&its[0], Iterable::FixedLen(ts) if ts == &vec![inst(2), inst(4)]));
    let its = s.iterate(&inst(6), r(0, 1), &mut errors);
    assert!(matches!(&its[0], Iterable::OfType(t) if t == &inst(3)));
    assert!(errors.is_empty());
}

#[test]
fn except_with_a_named_tuple_of_classes() {
    let mut s = world();
    s.classes[5].tuple_elements = Some(vec![type_of(inst(2)), type_of(inst(3))]);
    assert_eq!(s.decompose_except_types(&inst(5)), vec![type_of(inst(2)), type_of(inst(3))]);
}

#[test]
fn suppressed_exception_and_exhaustive_bindings() {
    let s = world();
    let mut errors = ErrorCollector::new();
    let b = Binding::SuppressedException { body: Some(Type::Never), exits: vec![Type::NoneType] };
    assert_eq!(s.binding_to_type(&b, &mut errors), Type::Never);
    let b = Binding::SuppressedException { body: None, exits: vec![Type::NoneType, Type::Literal(Lit::Bool(true))] };
    assert_eq!(s.binding_to_type(&b, &mut errors), Type::NoneType);
    let b = Binding::SuppressedException { body: Some(inst(2)), exits: vec![] };
    assert_eq!(s.binding_to_type(&b, &mut errors), Type::NoneType);
    let b = Binding::Exhaustive { remaining: vec![inst(2), Type::Never] };
    assert_eq!(s.binding_to_type(&b, &mut errors), Type::Never);
    let b = Binding::Exhaustive { remaining: vec![inst(2)] };
    assert_eq!(s.binding_to_type(&b, &mut errors), Type::NoneType);
    assert!(errors.is_empty());
}

#[test]
fn class_definition_binding() {
    let s = world();
    let mut errors = ErrorCollector::new();
    let decorators = vec![
        ClassDecorator { ty: Type::Any(AnyStyle::Implicit), range: r(1, 2), returns_type_any: false },
        ClassDecorator { ty: inst(2), range: r(3, 4), returns_type_any: false },
    ];
    let b = Binding::ClassDef { class: Some(5), decorators };
    assert_eq!(s.binding_to_type(&b, &mut errors), Type::ClassDef(5));
    assert_eq!(errors.len(), 1);
    assert_eq!(errors.errors()[0].kind, ErrorKind::UntypedClassDecorator);
    assert_eq!(errors.errors()[0].range, r(1, 2));
    let b = Binding::ClassDef { class: Some(5), decorators: vec![ClassDecorator { ty: inst(2), range: r(3, 4), returns_type_any: true }] };
    assert_eq!(s.binding_to_type(&b, &mut errors), Type::TypeOf(Box::new(Type::Any(AnyStyle::Explicit))));
    let b = Binding::ClassDef { class: None, decorators: vec![] };
    assert_eq!(s.binding_to_type(&b, &mut errors), Type::Any(AnyStyle::Implicit));
    assert_eq!(errors.len(), 1);
}

#[test]
fn annotated_only_names() {
    let s = world();
    let mut errors = ErrorCollector::new();
    let declared = AnnotationWithTarget { target: AnnotationTarget::Assign(40, AnnAssignHasValue::No), annotation: Annotation { qualifiers: vec![Qualifier::Final], ty: Some(inst(2)) } };
    let b = Binding::AnnotatedType { declared, range: r(0, 9), initialized_later: false, fallback: Box::new(Binding::NoneValue) };
    assert_eq!(s.binding_to_type(&b, &mut errors), inst(2));
    assert_eq!(errors.len(), 1);
    assert_eq!(errors.errors()[0].msg, ErrorMsg::FinalNotInitialized);
    let bare = AnnotationWithTarget { target: AnnotationTarget::Assign(40, AnnAssignHasValue::No), annotation: Annotation { qualifiers: vec![Qualifier::Final], ty: None } };
    let b = Binding::AnnotatedType { declared: bare, range: r(0, 9), initialized_later: false, fallback: Box::new(Binding::AnyValue(AnyStyle::Explicit)) };
    assert_eq!(s.binding_to_type(&b, &mut errors), Type::Any(AnyStyle::Explicit));
    assert_eq!(errors.len(), 1);
}

#[test]
fn tuple_of_an_unpacked_union_iterates_once() {
    let s = world();
    let mut errors = ErrorCollector::new();
    let u = Type::Union(list_of(vec![Type::Tuple(Tuple::Unbounded(Box::new(inst(2)))), Type::Tuple(Tuple::Unbounded(Box::new(inst(3))))]));
    let t = Type::Tuple(Tuple::Unpacked(TypeList::Nil, Box::new(u), TypeList::Nil));
    let its = s.iterate(&t, r(0, 1), &mut errors);
    assert_eq!(its.len(), 1);
    assert!(matches!(&its[0], Iterable::OfType(x) if x == &Type::Union(list_of(vec![inst(2), inst(3)]))));
}

fn return_type(kind: ReturnTypeKind, is_async: bool) -> Binding {
    Binding::ReturnType(ReturnType { kind, is_async, implicit_dunder_new_self: None })
}

#[test]
fn return_types_from_annotations_and_inference() {
    let s = world();
    let mut errors = ErrorCollector::new();
    let any = Type::Any(AnyStyle::Implicit);
    let coroutine = |t: Type| Type::ClassType(ClassType { class: 16, targs: list_of(vec![Type::Any(AnyStyle::Implicit), Type::Any(AnyStyle::Implicit), t]) });
    // Annotated: an async function that is no generator returns a coroutine of it.
    let b = return_type(ReturnTypeKind::ShouldTrustAnnotation { annotation: inst(2), is_generator: false }, true);
    assert_eq!(s.binding_to_type(&b, &mut errors), coroutine(inst(2)));
    let b = return_type(ReturnTypeKind::ShouldTrustAnnotation { annotation: inst(2), is_generator: true }, true);
    assert_eq!(s.binding_to_type(&b, &mut errors), inst(2));
    let b = return_type(ReturnTypeKind::ShouldReturnAny { is_generator: false }, false);
    assert_eq!(s.binding_to_type(&b, &mut errors), any.deep_clone());
    // Inferred: generators of the join of what is yielded.
    let b = return_type(ReturnTypeKind::ShouldInferType { return_types: vec![inst(4)], implicit_return: Type::Never, truncated: inst(4), yields: vec![inst(2), inst(3), inst(2)] }, false);
    assert_eq!(s.binding_to_type(&b, &mut errors), generator(Type::Union(list_of(vec![inst(2), inst(3)])), any.deep_clone(), inst(4)));
    let b = return_type(ReturnTypeKind::ShouldInferType { return_types: vec![inst(4)], implicit_return: Type::Never, truncated: inst(4), yields: vec![inst(2)] }, true);
    assert_eq!(s.binding_to_type(&b, &mut errors), Type::ClassType(ClassType { class: 14, targs: list_of(vec![inst(2), any.deep_clone()]) }));
    let b = return_type(ReturnTypeKind::ShouldInferType { return_types: vec![inst(4)], implicit_return: Type::Never, truncated: inst(4), yields: vec![] }, true);
    assert_eq!(s.binding_to_type(&b, &mut errors), coroutine(inst(4)));
    let b = return_type(ReturnTypeKind::ShouldInferType { return_types: vec![inst(4)], implicit_return: Type::Never, truncated: inst(4), yields: vec![] }, false);
    assert_eq!(s.binding_to_type(&b, &mut errors), inst(4));
    // The implicit `__new__` of a class returns `Self`, of the class with its own parameters.
    let c = ClassType { class: A, targs: list_of(vec![Type::Quantified(quantified(50, QuantifiedKind::TypeVar))]) };
    let b = Binding::ReturnType(ReturnType {
        kind: ReturnTypeKind::ShouldReturnAny { is_generator: false },
        is_async: false,
        implicit_dunder_new_self: Some(A),
    });
    assert_eq!(s.binding_to_type(&b, &mut errors), Type::SelfType(c));
    assert!(errors.is_empty());
}

#[test]
fn sentinel_binding_keeps_its_value_and_checks_the_annotation() {
    let s = world();
    let mut errors = ErrorCollector::new();
    let annotation = Some(AnnotationWithTarget { target: AnnotationTarget::Assign(40, AnnAssignHasValue::Yes), annotation: Annotation { qualifiers: vec![], ty: Some(inst(2)) } });
    let b = Binding::Sentinel { value: inst(5), annotation, assignable: false, range: r(3, 9) };
    assert_eq!(s.binding_to_type(&b, &mut errors), inst(5));
    assert_eq!(errors.len(), 1);
    assert_eq!(errors.errors()[0].range, r(3, 9));
}

#[test]
fn mapping_and_keyword_patterns() {
    let s = world();
    let mut errors = ErrorCollector::new();
    let b = Binding::PatternMatchMapping { field: Some(inst(2)), getitem: inst(3) };
    assert_eq!(s.binding_to_type(&b, &mut errors), inst(2));
    let b = Binding::PatternMatchMapping { field: None, getitem: inst(3) };
    assert_eq!(s.binding_to_type(&b, &mut errors), inst(3));
    let b = Binding::PatternMatchClassKeyword { attr: inst(4) };
    assert_eq!(s.binding_to_type(&b, &mut errors), inst(4));
    assert!(errors.is_empty());
}

#[test]
fn positional_class_patterns() {
    let s = world();
    let mut errors = ErrorCollector::new();
    let args = Type::Tuple(Tuple::Concrete(list_of(vec![Type::Literal(Lit::Str(1)), inst(2)])));
    let positional = |index: usize, match_args: &Type| Binding::PatternMatchClassPositional { index, match_args: match_args.deep_clone(), named_attr: inst(3), range: r(5, 8) };
    assert_eq!(s.binding_to_type(&positional(0, &args), &mut errors), inst(3));
    assert!(errors.is_empty());
    assert_eq!(s.binding_to_type(&positional(1, &args), &mut errors), Type::Any(AnyStyle::Error));
    assert_eq!(errors.errors()[0].msg, ErrorMsg::MatchArgsNotLiteral(inst(2)));
    assert_eq!(errors.errors()[0].kind, ErrorKind::BadMatch);
    assert_eq!(s.binding_to_type(&positional(2, &args), &mut errors), Type::Any(AnyStyle::Error));
    assert_eq!(errors.errors()[1].msg, ErrorMsg::MatchArgsIndexOutOfRange(2));
    assert_eq!(s.binding_to_type(&positional(0, &inst(2)), &mut errors), Type::Any(AnyStyle::Error));
    assert_eq!(errors.errors()[2].msg, ErrorMsg::MatchArgsNotTuple(inst(2)));
    assert_eq!(s.binding_to_type(&positional(0, &Type::Any(AnyStyle::Error)), &mut errors), Type::Any(AnyStyle::Error));
    assert_eq!(errors.len(), 3);
}

#[test]
fn type_variable_iterates_as_its_upper_bound() {
    let mut s = world();
    let t = quantified(60, QuantifiedKind::TypeVar);
    let u = quantified(61, QuantifiedKind::TypeVar);
    let v = quantified(62, QuantifiedKind::TypeVar);
    s.upper_bounds.push((t.identity, Type::Tuple(Tuple::Concrete(list_of(vec![inst(4), inst(2)])))));
    s.upper_bounds.push((u.identity, Type::Union(list_of(vec![Type::Tuple(Tuple::Unbounded(Box::new(inst(2)))), Type::Tuple(Tuple::Unbounded(Box::new(inst(3))))]))));
    let mut errors = ErrorCollector::new();
    // `Z: tuple[str, int]` unpacks positionally.
    let its = s.iterate(&Type::Quantified(t), r(0, 1), &mut errors);
    assert_eq!(its.len(), 1);
    assert!(matches!(&its[0], Iterable::FixedLen(ts) if ts == &vec![inst(4), inst(2)]));
    // A union bound iterates as one iterable of the join.
    let its = s.iterate(&Type::Quantified(u), r(0, 1), &mut errors);
    assert_eq!(its.len(), 1);
    assert!(matches!(&its[0], Iterable::OfType(x) if x == &Type::Union(list_of(vec![inst(2), inst(3)]))));
    assert!(errors.is_empty());
    // With neither bound nor constraints, the bound is `object`, which is not iterable.
    let its = s.iterate(&Type::Quantified(v), r(0, 1), &mut errors);
    assert!(matches!(&its[0], Iterable::OfType(x) if x == &Type::Any(AnyStyle::Error)));
    assert_eq!(errors.len(), 1);
    assert_eq!(errors.errors()[0].msg, ErrorMsg::NotIterable(inst(0)));
}

#[test]
fn missing_imports() {
    let mut errors = ErrorCollector::new();
    let x = |module_missing: bool, is_unreachable: bool| ImportMissing {
        name: 3,
        module: 9,
        module_missing,
        stmt_range: r(0, 20),
        is_unreachable,
    };
    assert_eq!(solve_import_missing(&x(true, false), &mut errors), Type::Any(AnyStyle::Error));
    assert!(errors.is_empty());
    assert_eq!(solve_import_missing(&x(false, false), &mut errors), Type::Any(AnyStyle::Error));
    assert_eq!(errors.len(), 1);
    assert_eq!(errors.errors()[0].kind, ErrorKind::MissingModuleAttribute);
    assert_eq!(errors.errors()[0].range, r(0, 20));
    assert_eq!(errors.errors()[0].msg, ErrorMsg::CouldNotImport(3, 9));
    assert_eq!(solve_import_missing(&x(false, true), &mut errors), Type::Any(AnyStyle::Error));
    assert_eq!(errors.len(), 1);
}

#[test]
fn a_class_with_only_getitem_iterates_by_it() {
    let mut s = world();
    s.classes[5].getitem_item = Some(inst(4));
    let mut errors = ErrorCollector::new();
    let its = s.iterate(&inst(5), r(0, 1), &mut errors);
    assert!(matches!(&its[0], Iterable::OfType(x) if x == &inst(4)));
    assert!(errors.is_empty());
    // `__iter__` comes first.
    s.classes[5].iter_item = Some(inst(3));
    let its = s.iterate(&inst(5), r(0, 1), &mut errors);
    assert!(matches!(&its[0], Iterable::OfType(x) if x == &inst(3)));
}

fn assign_binding(assign: NameAssign) -> NameAssignBinding {
    NameAssignBinding {
        assign,
        range: r(5, 9),
        is_in_function_scope: false,
        is_class_body_assignment: false,
        is_type_checking_constant: false,
        bool_assignable: true,
        value_is_name: false,
        syntax_problem: None,
        legacy_tparams: None,
    }
}

#[test]
fn name_assignment_bindings() {
    let s = world();
    let mut errors = ErrorCollector::new();
    // An unannotated name given an implicit `Any` is unknown.
    let r1 = s.binding_to_type_name_assign(assign_binding(assign(None, Type::Any(AnyStyle::Implicit))), &mut errors);
    assert!(matches!(r1, NameAssignResult::Value(Type::Any(AnyStyle::Implicit))));
    assert_eq!(errors.len(), 1);
    assert_eq!(errors.errors()[0].kind, ErrorKind::UnknownVariableType);
    assert_eq!(errors.errors()[0].msg, ErrorMsg::UnknownVariableType(40));
    // A `TYPE_CHECKING` constant that is no `bool`.
    let mut b = assign_binding(assign(None, inst(2)));
    b.is_type_checking_constant = true;
    b.bool_assignable = false;
    let r2 = s.binding_to_type_name_assign(b, &mut errors);
    assert!(matches!(r2, NameAssignResult::Value(t) if t == inst(2)));
    assert_eq!(errors.errors()[1].msg, ErrorMsg::TypeCheckingConstantNotBool(40, inst(2)));
    // An annotated name takes its declared type.
    let r3 = s.binding_to_type_name_assign(assign_binding(assign(declared(AnnotationStyle::Direct, inst(3)), inst(2))), &mut errors);
    assert!(matches!(r3, NameAssignResult::Value(t) if t == inst(3)));
    // A class object assigned to a name outside a function makes an implicit alias.
    let r4 = s.binding_to_type_name_assign(assign_binding(assign(None, Type::TypeOf(Box::new(inst(2))))), &mut errors);
    assert!(matches!(r4, NameAssignResult::Alias(_)));
    // Inside a function it is a plain value.
    let mut b = assign_binding(assign(None, Type::TypeOf(Box::new(inst(2)))));
    b.is_in_function_scope = true;
    let r5 = s.binding_to_type_name_assign(b, &mut errors);
    assert!(matches!(r5, NameAssignResult::Value(_)));
    assert_eq!(errors.len(), 2);
}

#[test]
fn unknown_names_in_a_class_body() {
    let mut s = world();
    s.classes[A as usize].fields.push(pyrefly::solver::ClassField { name: 8, ty: inst(2), is_abstract: false, decl_range: Some(r(12, 13)) });
    let mut errors = ErrorCollector::new();
    let b = |name: u64, allow: bool, initialized: bool, attr: Type| Binding::ClassBodyUnknownName {
        class: Some(A),
        name,
        range: r(30, 31),
        suggestion: Some(9),
        allow_forward_reference: allow,
        initialized_on_class: initialized,
        attr,
    };
    // An inherited attribute is found on the class object.
    assert_eq!(s.binding_to_type(&b(7, false, false, inst(4)), &mut errors), inst(4));
    assert!(errors.is_empty());
    // A field of the class itself is not visible at runtime in its body.
    assert_eq!(s.binding_to_type(&b(8, false, true, inst(2)), &mut errors), Type::Any(AnyStyle::Error));
    assert_eq!(errors.errors()[0].kind, ErrorKind::UnknownName);
    assert_eq!(errors.errors()[0].msg, ErrorMsg::CouldNotFindName(8, Some(9)));
    // With forward references allowed, a field that the body initializes is looked up.
    assert_eq!(s.binding_to_type(&b(8, true, true, inst(2)), &mut errors), inst(2));
    // A failed lookup is reported.
    assert_eq!(s.binding_to_type(&b(7, false, false, Type::Any(AnyStyle::Error)), &mut errors), Type::Any(AnyStyle::Error));
    assert_eq!(errors.len(), 2);
}

fn fallback() -> ImportFallback {
    ImportFallback {
        stmt_range: r(0, 20),
        is_unreachable: false,
        export_exists: false,
        implicit_reexport: false,
        submodule: None,
        module_getattr: None,
        module_missing: false,
    }
}

#[test]
fn import_cascade() {
    let s = world();
    let mut errors = ErrorCollector::new();
    let import = |module: u64, deprecated: Option<TextRange>, fallback: Option<ImportFallback>| Binding::Import(ImportBinding {
        name: 3,
        module,
        deprecated,
        export: inst(2),
        fallback,
    });
    // A known export, deprecated.
    assert_eq!(s.binding_to_type(&import(9, Some(r(5, 6)), None), &mut errors), inst(2));
    assert_eq!(errors.len(), 1);
    assert_eq!(errors.errors()[0].kind, ErrorKind::Deprecated);
    // An export found after all, that is only an implicit re-export.
    let mut f = fallback();
    f.export_exists = true;
    f.implicit_reexport = true;
    assert_eq!(s.binding_to_type(&import(9, None, Some(f)), &mut errors), inst(2));
    assert_eq!(errors.errors()[1].msg, ErrorMsg::NotReexported(3, 9));
    // From this module itself, the submodule comes first.
    let mut f = fallback();
    f.export_exists = true;
    f.submodule = Some(inst(4));
    assert_eq!(s.binding_to_type(&import(7, None, Some(f)), &mut errors), inst(4));
    // A module-level `__getattr__`.
    let mut f = fallback();
    f.module_getattr = Some(Some(inst(5)));
    assert_eq!(s.binding_to_type(&import(9, None, Some(f)), &mut errors), inst(5));
    let mut f = fallback();
    f.module_getattr = Some(None);
    assert_eq!(s.binding_to_type(&import(9, None, Some(f)), &mut errors), Type::Any(AnyStyle::Implicit));
    assert_eq!(errors.len(), 2);
    // Nothing found.
    assert_eq!(s.binding_to_type(&import(9, None, Some(fallback())), &mut errors), Type::Any(AnyStyle::Error));
    assert_eq!(errors.errors()[2].msg, ErrorMsg::CouldNotImport(3, 9));
}

#[test]
fn inferred_return_types_join_and_cap() {
    // A `Never` implicit return is left out; `None` from falling off the end is joined in.
    assert_eq!(infer_return_type(&vec![inst(2), inst(3)], &Type::Never, &inst(9)), inst(9));
    let joined_with_none = Type::Union(list_of(vec![inst(2), Type::NoneType]));
    // The truncated form stands for the join once it is no wider than three members.
    assert_eq!(infer_return_type(&vec![inst(2)], &Type::NoneType, &joined_with_none.deep_clone()), joined_with_none);
    // Four members become an implicit `Any`.
    assert_eq!(infer_return_type(&vec![inst(2), inst(3), inst(4)], &Type::NoneType, &inst(9)), Type::Any(AnyStyle::Implicit));
    // Duplicates do not count twice.
    assert_eq!(infer_return_type(&vec![inst(2), inst(2), inst(3), inst(3)], &Type::Never, &inst(9)), inst(9));
    // A callable is kept as it is.
    let c = Type::Callable(TypeList::Nil, Box::new(inst(2)));
    assert_eq!(infer_return_type(&vec![c.deep_clone()], &Type::Never, &inst(9)), c);
    // As the return type of a function.
    let s = world();
    let mut errors = ErrorCollector::new();
    let b = return_type(ReturnTypeKind::ShouldInferType { return_types: vec![inst(2), inst(3), inst(4)], implicit_return: Type::NoneType, truncated: inst(9), yields: vec![] }, false);
    assert_eq!(s.binding_to_type(&b, &mut errors), Type::Any(AnyStyle::Implicit));
}
