use pyrefly::alias::{TypeAlias, TypeAliasStyle};
use pyrefly::alias_decl::{DeclaredParam, LegacyParamKey};
use pyrefly::alias_params::TParamCollector;
use pyrefly::alias_wrap::{TypeAliasParams, TypeParameterDecl, WrappedAlias};
use pyrefly::bindings::{Binding, TargetCheck};
use pyrefly::iterable::UnpackedPosition;
use pyrefly::annotation::Annotation;
use pyrefly::class_answers::{BindingClassField, BindingClassSynthesizedFields};
use pyrefly::classes::{BindingClassKey, ClassCheckReports};
use pyrefly::errors::{ErrorCollector, ErrorKind, ErrorMsg, NameList, TextRange, TypeError};
use pyrefly::iterable::{Iterable, SizeExpectation};
use pyrefly::expectation::{BindingExpect, RaisedValue};
use pyrefly::solver::{Synthesizers, AnswersSolver, ClassField, ClassInfo, ClassMetadata, ClassScope, ClassTParam, PreInferenceVariance, Stdlib, SynthesizedField, Variance};
use pyrefly::super_call::{MethodKind, SuperStyle};
use pyrefly::type_alias::{AnnotationStyle, AnnotationTarget, AnnotationWithTarget, BindingTypeAlias};
use pyrefly::type_form::{AnnAssignHasValue, TypeFormContext, UntypeContext};
use pyrefly::types::{AnyStyle, AliasRef, ClassType, Dim, Lit, Qualifier, QuantifiedKind, Quantified, QuantifiedIdentity, QuantifiedOrigin, SpecialForm, SuperObj, Tuple, Type, TypeList, TypeVar};
use starlark_map::small_map::SmallMap;
use starlark_map::small_set::SmallSet;

const A: u64 = 17;

fn stdlib() -> Stdlib {
    Stdlib {
        object: 0,
        builtins_type: 1,
        int: 2,
        bool: 3,
        str: 4,
        bytes: 5,
        none_type: 6,
        tuple: 7,
        dict: 8,
        list: 9,
        init_var: 10,
        builtins_module: 100,
        shape_int_tuple: 11,
        shape_int: 12,
        generator: 13,
        async_generator: 14,
        proxy_method: 15,
        coroutine: 16,
        base_exception: 20,
        base_exception_group: Some(21),
        exception_group: Some(22),
    }
}

fn class(id: u64, module: u64) -> ClassInfo {
    ClassInfo {
        name: 1000 + id,
        module,
        range: TextRange { start: 0, end: 0 },
        metadata: ClassMetadata::plain(1),
        mro: Vec::new(),
        bases: Vec::new(),
        fields: Vec::new(),
        unimplemented_abstract: Vec::new(),
        tparams: Vec::new(),
        iter_item: None,
        getitem_item: None,
        tuple_elements: None,
        iter_override: false,
        async_iter_item: None,
        metaclass_targs: TypeList::Nil,
        disjoint_base: None,
        synthesized: Synthesizers::none(),
    }
}

fn quantified(name: u64, kind: QuantifiedKind) -> Quantified {
    Quantified {
        identity: QuantifiedIdentity { module: 7, anchor_start: 10, anchor_end: 90, ordinal: name as u32, origin: QuantifiedOrigin::Scoped },
        name,
        kind,
    }
}

fn world() -> AnswersSolver {
    let mut classes = Vec::new();
    for id in 0..17u64 {
        classes.push(class(id, 100));
    }
    let mut a = class(A, 7);
    a.tparams.push(ClassTParam {
        name: 50,
        quantified: quantified(50, QuantifiedKind::TypeVar),
        is_type_var: true,
        variance: PreInferenceVariance::Invariant,
        inferred: Variance::Invariant,
    });
    classes.push(a);
    let mut meta = class(18, 7);
    meta.metadata.is_metaclass = true;
    classes.push(meta);
    AnswersSolver {
        module: 7,
        stdlib: stdlib(),
        classes,
        class_answers: vec![Some(A), None, Some(18)],
        is_interface: false,
        type_aliases: Vec::new(),
        upper_bounds: Vec::new(),
        class_scopes: vec![
            ClassScope { range: TextRange { start: 10, end: 90 }, class_key: 0 },
            ClassScope { range: TextRange { start: 100, end: 150 }, class_key: 1 },
            ClassScope { range: TextRange { start: 200, end: 250 }, class_key: 2 },
        ],
    }
}

fn r(start: u32, end: u32) -> TextRange {
    TextRange { start, end }
}

fn inst(cls: u64) -> Type {
    Type::ClassType(ClassType { class: cls, targs: TypeList::Nil })
}

fn list_of(ts: Vec<Type>) -> TypeList {
    TypeList::from_vec(ts)
}


fn alias_ref(name: u64) -> Type {
    Type::UntypedAlias(AliasRef { name, module: 7, index: name })
}

fn names(ns: &[u64]) -> SmallSet<u64> {
    let mut s = SmallSet::new();
    for n in ns {
        s.insert(*n);
    }
    s
}

fn alias_of(body: Type) -> TypeAlias {
    TypeAlias { name: 40, ty: Type::TypeOf(Box::new(body)), style: TypeAliasStyle::Scoped }
}

#[test]
fn cyclic_alias_references() {
    let s = world();
    let ns = names(&[40]);
    // type X = int | X
    assert!(s.type_alias_has_cyclic_reference(&ns, &alias_of(Type::Union(list_of(vec![inst(2), alias_ref(40)])))));
    // type X = tuple[int, X]
    assert!(s.type_alias_has_cyclic_reference(&ns, &alias_of(Type::Tuple(Tuple::Concrete(list_of(vec![inst(2), alias_ref(40)]))))));
    // type X = list[X], list being a builtin class
    let list_x = Type::ClassType(ClassType { class: 9, targs: list_of(vec![alias_ref(40)]) });
    assert!(s.type_alias_has_cyclic_reference(&ns, &alias_of(list_x)));
    // type X = A[X], A being a class of the module: inhabitable
    let a_x = Type::ClassType(ClassType { class: A, targs: list_of(vec![alias_ref(40)]) });
    assert!(!s.type_alias_has_cyclic_reference(&ns, &alias_of(a_x)));
    // type X = list[X | int]
    let list_x_int = Type::ClassType(ClassType { class: 9, targs: list_of(vec![Type::Union(list_of(vec![alias_ref(40), inst(2)]))]) });
    assert!(!s.type_alias_has_cyclic_reference(&ns, &alias_of(list_x_int)));
    // An alias in error holds no `type[...]` and is not checked.
    let err = TypeAlias { name: 40, ty: Type::Any(AnyStyle::Error), style: TypeAliasStyle::Scoped };
    assert!(!s.type_alias_has_cyclic_reference(&ns, &err));
}

fn collector() -> TParamCollector {
    TParamCollector { type_vars: SmallMap::new(), type_var_tuples: SmallMap::new(), param_specs: SmallMap::new(), found: Vec::new() }
}

#[test]
fn legacy_type_variables_become_alias_params() {
    let t = TypeVar { id: 1, name: 70, decl_start: 3 };
    let ts = TypeVar { id: 2, name: 71, decl_start: 5 };
    let body = Type::Union(list_of(vec![
        Type::ClassType(ClassType { class: 9, targs: list_of(vec![Type::TypeVar(t)]) }),
        Type::Tuple(Tuple::Unpacked(list_of(vec![Type::TypeVar(t)]), Box::new(Type::TypeVarTuple(ts)), TypeList::Nil)),
    ]));
    let mut st = collector();
    let out = pyrefly::alias_params::tvars_to_tparams_for_type_alias(body, 7, r(100, 120), &mut st);
    let qt = Quantified {
        identity: QuantifiedIdentity { module: 7, anchor_start: 100, anchor_end: 120, ordinal: 3, origin: QuantifiedOrigin::ScopedLegacy },
        name: 70,
        kind: QuantifiedKind::TypeVar,
    };
    let qts = Quantified {
        identity: QuantifiedIdentity { module: 7, anchor_start: 100, anchor_end: 120, ordinal: 5, origin: QuantifiedOrigin::ScopedLegacy },
        name: 71,
        kind: QuantifiedKind::TypeVarTuple,
    };
    let expected = Type::Union(list_of(vec![
        Type::ClassType(ClassType { class: 9, targs: list_of(vec![Type::Quantified(qt)]) }),
        Type::Tuple(Tuple::Unpacked(list_of(vec![Type::Quantified(qt)]), Box::new(Type::Quantified(qts)), TypeList::Nil)),
    ]));
    assert_eq!(out, expected);
    assert_eq!(st.found, vec![(3, qt), (5, qts)]);
    // The same variable in another alias gets another parameter.
    let mut st2 = collector();
    let out2 = pyrefly::alias_params::tvars_to_tparams_for_type_alias(Type::TypeVar(t), 7, r(200, 220), &mut st2);
    assert_ne!(out2, Type::Quantified(qt));
}

#[test]
fn one_body_in_two_aliases_shares_no_parameter() {
    let t = TypeVar { id: 1, name: 70, decl_start: 3 };
    let p = TypeVar { id: 3, name: 73, decl_start: 9 };
    let body = || Type::Callable(list_of(vec![Type::ParamSpec(p)]), Box::new(Type::TypeVar(t)));
    let mut st1 = collector();
    let out1 = pyrefly::alias_params::tvars_to_tparams_for_type_alias(body(), 7, r(100, 120), &mut st1);
    let mut st2 = collector();
    let out2 = pyrefly::alias_params::tvars_to_tparams_for_type_alias(body(), 7, r(200, 220), &mut st2);
    assert_ne!(out1, out2);
    assert_eq!(st1.found.len(), 2);
    assert_eq!(st2.found.len(), 2);
    for (_, q1) in &st1.found {
        for (_, q2) in &st2.found {
            assert_ne!(q1, q2);
        }
    }
    // The same place gives the same parameters.
    let mut st3 = collector();
    let out3 = pyrefly::alias_params::tvars_to_tparams_for_type_alias(body(), 7, r(100, 120), &mut st3);
    assert_eq!(out1, out3);
    assert_eq!(st1.found, st3.found);
}

fn declared(at: TextRange, v: Type) -> DeclaredParam {
    DeclaredParam { range: at, value: v }
}

#[test]
fn type_alias_type_params() {
    let s = world();
    let t = TypeVar { id: 1, name: 70, decl_start: 3 };
    let u = TypeVar { id: 2, name: 72, decl_start: 8 };
    let p = TypeVar { id: 3, name: 73, decl_start: 9 };
    let exprs = vec![
        declared(r(30, 31), Type::TypeVar(t)),
        declared(r(33, 34), Type::TypeVar(t)),
        declared(r(36, 39), Type::TypeOf(Box::new(inst(2)))),
        declared(r(41, 42), Type::ParamSpec(p)),
    ];
    let qu = Quantified {
        identity: QuantifiedIdentity { module: 7, anchor_start: 0, anchor_end: 0, ordinal: 8, origin: QuantifiedOrigin::ScopedLegacy },
        name: 72,
        kind: QuantifiedKind::TypeVar,
    };
    let used_t = Quantified {
        identity: QuantifiedIdentity { module: 7, anchor_start: 1, anchor_end: 1, ordinal: 3, origin: QuantifiedOrigin::ScopedLegacy },
        name: 70,
        kind: QuantifiedKind::TypeVar,
    };
    let legacy = vec![LegacyParamKey::Parameter(used_t), LegacyParamKey::AliasDefinition, LegacyParamKey::Parameter(qu), LegacyParamKey::NotParameter];
    let mut a = SmallMap::new();
    let mut b = SmallMap::new();
    let mut c = SmallMap::new();
    let mut errors = ErrorCollector::new();
    let ps = s.tvars_to_tparams_for_type_alias_type(&exprs, &legacy, &mut a, &mut b, &mut c, r(20, 50), &mut errors);
    let qp = Quantified {
        identity: QuantifiedIdentity { module: 7, anchor_start: 20, anchor_end: 50, ordinal: 9, origin: QuantifiedOrigin::ScopedLegacy },
        name: 73,
        kind: QuantifiedKind::ParamSpec,
    };
    // T is the parameter the value uses; P is declared but unused.
    assert_eq!(ps, vec![used_t, qp]);
    assert_eq!(errors.len(), 3);
    assert_eq!(errors.errors()[0].msg, ErrorMsg::DuplicateTypeVariable(70));
    assert_eq!(errors.errors()[0].range, r(33, 34));
    assert_eq!(errors.errors()[1].msg, ErrorMsg::ExpectedTypeVariable(inst(2)));
    // U is used but not declared.
    assert_eq!(errors.errors()[2].msg, ErrorMsg::OutOfScopeTypeVariable(72));
    assert_eq!(errors.errors()[2].range, r(20, 50));
    let _ = u;
}

#[test]
fn type_alias_values() {
    let s = world();
    let mut errors = ErrorCollector::new();
    let a = s.as_type_alias(40, TypeAliasStyle::Scoped, Type::TypeOf(Box::new(inst(2))), r(0, 10), None, &mut errors);
    assert_eq!(a.ty, Type::TypeOf(Box::new(inst(2))));
    assert!(errors.is_empty());
    // A value that is no type.
    let a = s.as_type_alias(40, TypeAliasStyle::Scoped, Type::Literal(Lit::Int(3)), r(0, 10), None, &mut errors);
    assert_eq!(a.ty, Type::Any(AnyStyle::Error));
    assert_eq!(errors.errors()[0].kind, ErrorKind::InvalidTypeAlias);
    assert_eq!(errors.errors()[0].msg, ErrorMsg::ExpectedTypeAlias(40, Type::Literal(Lit::Int(3))));
    // Syntax no annotation may use.
    let a = s.as_type_alias(40, TypeAliasStyle::Scoped, Type::TypeOf(Box::new(inst(2))), r(0, 10), Some(6), &mut errors);
    assert_eq!(a.ty, Type::Any(AnyStyle::Error));
    assert_eq!(errors.errors()[1].msg, ErrorMsg::AnnotationSyntax(6));
    // `Annotated` stays wrapped.
    let a = s.as_type_alias(40, TypeAliasStyle::LegacyExplicit, Type::Annotated(Box::new(inst(2))), r(0, 10), None, &mut errors);
    assert_eq!(a.ty, Type::Annotated(Box::new(inst(2))));
    // An explicit `Any` is reported, the alias kept.
    let a = s.as_type_alias(40, TypeAliasStyle::Scoped, Type::Any(AnyStyle::Explicit), r(0, 10), None, &mut errors);
    assert_eq!(a.ty, Type::TypeOf(Box::new(Type::Any(AnyStyle::Implicit))));
    assert_eq!(errors.len(), 2);
}

#[test]
fn solve_type_alias_reports_final_reassignment() {
    let s = world();
    let mut errors = ErrorCollector::new();
    let annot = AnnotationWithTarget {
        target: AnnotationTarget::Assign(40, AnnAssignHasValue::Yes),
        annotation: Annotation { qualifiers: vec![Qualifier::Final], ty: None },
    };
    let b = BindingTypeAlias::Legacy {
        name: 40,
        annotation: Some((AnnotationStyle::Forwarded, annot)),
        value: Type::TypeOf(Box::new(inst(2))),
        range: r(5, 8),
        syntax_problem: None,
        is_explicit: true,
    };
    let a = s.solve_type_alias(&b, &mut errors);
    assert_eq!(a.style, TypeAliasStyle::LegacyExplicit);
    assert_eq!(errors.len(), 1);
    assert_eq!(errors.errors()[0].kind, ErrorKind::BadAssignment);
    let b = BindingTypeAlias::TypeAliasType { name: 41, given: None };
    let a = s.solve_type_alias(&b, &mut errors);
    assert_eq!(a.ty, Type::Any(AnyStyle::Error));
    assert_eq!(errors.len(), 1);
}

#[test]
fn class_answers_follow_class_keys() {
    let mut s = world();
    s.classes[A as usize].disjoint_base = Some(0);
    s.classes[A as usize].fields.push(ClassField { name: 5, ty: inst(2), is_abstract: false, decl_range: Some(r(12, 13)) });
    let mut errors = ErrorCollector::new();
    assert_eq!(s.solve_class_disjoint_base(&BindingClassKey { class_idx: 0 }, &mut errors).base, Some(0));
    assert_eq!(s.solve_class_disjoint_base(&BindingClassKey { class_idx: 1 }, &mut errors).base, None);
    let f = s.solve_class_field(&BindingClassField { class_idx: 0, name: 5, range: r(12, 13) }, &mut errors);
    assert_eq!(f.ty, inst(2));
    let f = s.solve_class_field(&BindingClassField { class_idx: 1, name: 5, range: r(12, 13) }, &mut errors);
    assert_eq!(f.ty, Type::Any(AnyStyle::Implicit));
    assert!(errors.is_empty());
}

#[test]
fn synthesized_fields_later_replaces_earlier() {
    let mut s = world();
    s.classes[A as usize].synthesized.nn_module = Some(vec![SynthesizedField { name: 9, ty: inst(6) }]);
    s.classes[A as usize].synthesized.typed_dict = Some(vec![SynthesizedField { name: 1, ty: inst(2) }, SynthesizedField { name: 2, ty: inst(4) }]);
    s.classes[A as usize].synthesized.factory_boy = Some(vec![SynthesizedField { name: 1, ty: inst(5) }]);
    s.classes[A as usize].synthesized.dataclass = Some(vec![SynthesizedField { name: 1, ty: inst(3) }, SynthesizedField { name: 3, ty: inst(5) }]);
    let mut errors = ErrorCollector::new();
    let f = s.solve_class_synthesized_fields(&mut errors, &BindingClassSynthesizedFields { class_idx: 0, nn_module_registrations: false });
    assert_eq!(f.fields, vec![(1, inst(5)), (2, inst(4)), (3, inst(5))]);
    let f = s.solve_class_synthesized_fields(&mut errors, &BindingClassSynthesizedFields { class_idx: 0, nn_module_registrations: true });
    assert_eq!(f.fields, vec![(9, inst(6)), (1, inst(5)), (2, inst(4)), (3, inst(5))]);
    let f = s.solve_class_synthesized_fields(&mut errors, &BindingClassSynthesizedFields { class_idx: 1, nn_module_registrations: true });
    assert!(f.fields.is_empty());
}

#[test]
fn abstract_members_of_a_final_class() {
    let mut s = world();
    s.classes[A as usize].unimplemented_abstract = vec![5, 6];
    s.classes[A as usize].metadata.is_final = true;
    let mut errors = ErrorCollector::new();
    let m = s.solve_abstract_members(A, &mut errors);
    assert_eq!(m.unimplemented, vec![5, 6]);
    assert_eq!(errors.len(), 1);
    assert_eq!(errors.errors()[0].kind, ErrorKind::BadClassDefinition);
    let expected = NameList::Cons(5, Box::new(NameList::Cons(6, Box::new(NameList::Nil))));
    assert_eq!(errors.errors()[0].msg, ErrorMsg::FinalClassAbstractMembers(1000 + A, expected));
    s.classes[A as usize].metadata.is_final = false;
    let mut errors = ErrorCollector::new();
    s.solve_abstract_members(A, &mut errors);
    assert_eq!(errors.errors()[0].kind, ErrorKind::ImplicitAbstractClass);
    s.classes[A as usize].metadata.is_explicitly_abstract = true;
    let mut errors = ErrorCollector::new();
    s.solve_abstract_members(A, &mut errors);
    assert!(errors.is_empty());
}

fn no_reports() -> ClassCheckReports {
    ClassCheckReports { overrides: Vec::new(), multiple_inheritance: Vec::new(), shape_flag_sources: Vec::new() }
}

fn report(kind: ErrorKind, start: u32) -> TypeError {
    TypeError { kind, range: r(start, start + 1), msg: ErrorMsg::NarrowingCycle }
}

#[test]
fn class_checks_report_the_solver_checks_in_order() {
    let mut s = world();
    s.classes[A as usize].fields.push(ClassField { name: 5, ty: inst(2), is_abstract: true, decl_range: Some(r(12, 13)) });
    let reports = || ClassCheckReports {
        overrides: vec![report(ErrorKind::BadAssignment, 1)],
        multiple_inheritance: vec![report(ErrorKind::InvalidInheritance, 2)],
        shape_flag_sources: vec![report(ErrorKind::InvalidArgument, 3)],
    };
    let mut errors = ErrorCollector::new();
    // One base: the multiple-inheritance report does not apply.
    s.solve_class_checks(&BindingClassKey { class_idx: 0 }, reports(), &mut errors);
    assert_eq!(errors.len(), 3);
    assert_eq!(errors.errors()[0].range, r(1, 2));
    assert_eq!(errors.errors()[1].range, r(3, 4));
    assert_eq!(errors.errors()[2].msg, ErrorMsg::AbstractMethodInConcreteClass(1000 + A, 5));
    s.classes[A as usize].bases = vec![ClassType { class: 2, targs: TypeList::Nil }, ClassType { class: 3, targs: TypeList::Nil }];
    let mut errors = ErrorCollector::new();
    s.solve_class_checks(&BindingClassKey { class_idx: 0 }, reports(), &mut errors);
    assert_eq!(errors.len(), 4);
    assert_eq!(errors.errors()[1].range, r(2, 3));
}

#[test]
fn class_checks_abstract_method_in_concrete_class() {
    let mut s = world();
    s.classes[A as usize].fields.push(ClassField { name: 5, ty: inst(2), is_abstract: true, decl_range: Some(r(12, 13)) });
    let mut errors = ErrorCollector::new();
    s.solve_class_checks(&BindingClassKey { class_idx: 0 }, no_reports(), &mut errors);
    assert_eq!(errors.len(), 1);
    assert_eq!(errors.errors()[0].msg, ErrorMsg::AbstractMethodInConcreteClass(1000 + A, 5));
    s.classes[A as usize].metadata.extends_abc = true;
    let mut errors = ErrorCollector::new();
    s.solve_class_checks(&BindingClassKey { class_idx: 0 }, no_reports(), &mut errors);
    assert!(errors.is_empty());
}

#[test]
fn protocol_variance_suggestion() {
    let mut s = world();
    s.classes[A as usize].metadata.is_protocol = true;
    s.classes[A as usize].tparams[0].inferred = Variance::Bivariant;
    let mut errors = ErrorCollector::new();
    s.solve_class_checks(&BindingClassKey { class_idx: 0 }, no_reports(), &mut errors);
    assert_eq!(errors.len(), 1);
    assert_eq!(errors.errors()[0].msg, ErrorMsg::InvariantCouldBe(50, 1000 + A, Variance::Covariant));
    let v = s.solve_variance_binding(&BindingClassKey { class_idx: 0 }, &mut errors);
    assert_eq!(v.variances, vec![(50, Variance::Bivariant)]);
}

#[test]
fn class_answers_mro_bases_metadata() {
    let mut s = world();
    let object = ClassType { class: 0, targs: TypeList::Nil };
    s.classes[A as usize].mro = vec![object.deep_clone()];
    s.classes[A as usize].bases = vec![object.deep_clone()];
    let mut errors = ErrorCollector::new();
    assert_eq!(s.solve_class_mro(&BindingClassKey { class_idx: 0 }, &mut errors).ancestors, vec![object.deep_clone()]);
    assert!(s.solve_class_mro(&BindingClassKey { class_idx: 1 }, &mut errors).ancestors.is_empty());
    assert_eq!(s.solve_class_base_type(&BindingClassKey { class_idx: 0 }, &mut errors).bases, vec![object]);
    let m = s.solve_class_metadata(&BindingClassKey { class_idx: 1 }, &mut errors);
    assert_eq!(m, ClassMetadata::plain(1));
}

fn chain_world() -> AnswersSolver {
    // B(A), A(object): class 18 is B.
    let mut s = world();
    let object = ClassType { class: 0, targs: TypeList::Nil };
    let a = ClassType { class: A, targs: TypeList::Nil };
    s.classes[A as usize].tparams.clear();
    s.classes[A as usize].mro = vec![object.deep_clone()];
    let mut b = class(18, 7);
    b.mro = vec![a, object];
    s.classes[18] = b;
    s
}

#[test]
fn super_lookup_is_the_next_class() {
    let s = chain_world();
    let b = ClassType { class: 18, targs: TypeList::Nil };
    assert_eq!(s.get_super_lookup_class(18, &b), Some(ClassType { class: A, targs: TypeList::Nil }));
    assert_eq!(s.get_super_lookup_class(A, &b), Some(ClassType { class: 0, targs: TypeList::Nil }));
    assert_eq!(s.get_super_lookup_class(2, &b), None);
    let mut errors = ErrorCollector::new();
    let t = s.solve_super_binding(&SuperStyle::ExplicitArgs(Type::ClassDef(18), Type::ClassType(b.deep_clone())), r(0, 5), &mut errors);
    assert_eq!(t, Type::SuperInstance(ClassType { class: A, targs: TypeList::Nil }, SuperObj::Instance(b.deep_clone())));
    let t = s.solve_super_binding(&SuperStyle::ExplicitArgs(Type::ClassDef(2), Type::ClassType(b.deep_clone())), r(0, 5), &mut errors);
    assert_eq!(t, Type::Any(AnyStyle::Error));
    assert_eq!(errors.errors()[0].kind, ErrorKind::InvalidSuperCall);
    let t = s.solve_super_binding(&SuperStyle::ExplicitArgs(inst(2), Type::ClassType(b)), r(0, 5), &mut errors);
    assert_eq!(t, Type::Any(AnyStyle::Error));
    assert_eq!(errors.errors()[1].msg, ErrorMsg::SuperFirstArgument(inst(2)));
    let t = s.solve_super_binding(&SuperStyle::Any, r(0, 5), &mut errors);
    assert_eq!(t, Type::Any(AnyStyle::Implicit));
    let _ = MethodKind::Instance;
}

#[test]
fn iterate_tuples_and_unions() {
    let mut s = world();
    s.classes[9].iter_item = Some(inst(2));
    let mut errors = ErrorCollector::new();
    let fixed = Type::Tuple(Tuple::Concrete(list_of(vec![inst(2), inst(4)])));
    assert_eq!(s.iterate(&fixed, r(0, 1), &mut errors), vec![Iterable::FixedLen(vec![inst(2), inst(4)])]);
    let list = Type::ClassType(ClassType { class: 9, targs: TypeList::Nil });
    let u = Type::Union(list_of(vec![fixed.deep_clone(), list.deep_clone()]));
    assert_eq!(s.iterate(&u, r(0, 1), &mut errors), vec![Iterable::FixedLen(vec![inst(2), inst(4)]), Iterable::OfType(inst(2))]);
    assert!(errors.is_empty());
    let its = s.iterate(&inst(2), r(3, 4), &mut errors);
    assert_eq!(its, vec![Iterable::OfType(Type::Any(AnyStyle::Error))]);
    assert_eq!(errors.errors()[0].kind, ErrorKind::NotIterable);
    let its = s.iterate(&Type::IntTuple, r(3, 4), &mut errors);
    assert_eq!(its, vec![Iterable::OfType(Type::Int(Dim::Gradual))]);
}

#[test]
fn unpacked_length_mismatch() {
    let s = world();
    let mut errors = ErrorCollector::new();
    let fixed = Type::Tuple(Tuple::Concrete(list_of(vec![inst(2), inst(4)])));
    let b = BindingExpect::UnpackedLength(fixed.deep_clone(), r(0, 9), SizeExpectation::Eq(3));
    s.solve_expectation(&b, r(0, 9), &mut errors);
    assert_eq!(errors.len(), 1);
    assert_eq!(errors.errors()[0].kind, ErrorKind::BadUnpacking);
    assert_eq!(errors.errors()[0].msg, ErrorMsg::UnpackFixed(fixed.deep_clone(), 2, SizeExpectation::Eq(3)));
    let mut errors = ErrorCollector::new();
    s.solve_expectation(&BindingExpect::UnpackedLength(fixed, r(0, 9), SizeExpectation::Eq(2)), r(0, 9), &mut errors);
    assert!(errors.is_empty());
    let _ = UntypeContext::Type;
    let _ = SpecialForm::Final;
}

fn tv(id: u64, name: u64, decl_start: u32) -> TypeVar {
    TypeVar { id, name, decl_start }
}

fn legacy_q(name: u64, ordinal: u32, anchor: TextRange) -> Quantified {
    Quantified {
        identity: QuantifiedIdentity { module: 7, anchor_start: anchor.start, anchor_end: anchor.end, ordinal, origin: QuantifiedOrigin::ScopedLegacy },
        name,
        kind: QuantifiedKind::TypeVar,
    }
}

#[test]
fn wrap_legacy_alias_collects_params_in_source_order() {
    let s = world();
    let mut errors = ErrorCollector::new();
    let t = tv(1, 70, 5);
    let u = tv(2, 71, 3);
    let body = Type::Union(list_of(vec![Type::ClassType(ClassType { class: 9, targs: list_of(vec![Type::TypeVar(t)]) }), Type::TypeVar(u)]));
    let ta = TypeAlias { name: 40, ty: Type::TypeOf(Box::new(body)), style: TypeAliasStyle::LegacyImplicit };
    let w = s.wrap_type_alias(40, ta, &TypeAliasParams::Legacy(None), None, r(60, 80), &mut errors);
    let (qt, qu) = (legacy_q(70, 5, r(60, 80)), legacy_q(71, 3, r(60, 80)));
    match w {
        WrappedAlias::Forall { alias, tparams } => {
            let names: Vec<u64> = tparams.iter().map(|p| p.quantified.name).collect();
            assert_eq!(names, vec![71, 70]);
            let body = Type::Union(list_of(vec![Type::ClassType(ClassType { class: 9, targs: list_of(vec![Type::Quantified(qt)]) }), Type::Quantified(qu)]));
            assert_eq!(alias.ty, Type::TypeOf(Box::new(body)));
        },
        WrappedAlias::Error => panic!("expected an alias"),
    }
    assert!(errors.is_empty());
}

#[test]
fn wrap_cyclic_alias_is_an_error() {
    let s = world();
    let mut errors = ErrorCollector::new();
    let ta = alias_of(Type::Union(list_of(vec![inst(2), alias_ref(40)])));
    let w = s.wrap_type_alias(40, ta, &TypeAliasParams::Scoped(None), None, r(60, 80), &mut errors);
    assert_eq!(w, WrappedAlias::Error);
    assert_eq!(errors.len(), 1);
    assert_eq!(errors.errors()[0].msg, ErrorMsg::CyclicSelfReference(40));
    let mut errors = ErrorCollector::new();
    let err = TypeAlias { name: 40, ty: Type::Any(AnyStyle::Error), style: TypeAliasStyle::Scoped };
    assert_eq!(s.wrap_type_alias(40, err, &TypeAliasParams::Scoped(None), None, r(60, 80), &mut errors), WrappedAlias::Error);
    assert!(errors.is_empty());
}

#[test]
fn wrap_expands_references_to_other_aliases() {
    let mut s = world();
    // Alias 0 is `Y = int`; alias 1 is `X = list[Y]`.
    s.type_aliases = vec![
        TypeAlias { name: 0, ty: Type::TypeOf(Box::new(inst(2))), style: TypeAliasStyle::Scoped },
        alias_of(Type::ClassType(ClassType { class: 9, targs: list_of(vec![alias_ref(0)]) })),
    ];
    let mut errors = ErrorCollector::new();
    let ta = alias_of(Type::ClassType(ClassType { class: 9, targs: list_of(vec![alias_ref(0)]) }));
    let w = s.wrap_type_alias(40, ta, &TypeAliasParams::Scoped(None), Some(1), r(60, 80), &mut errors);
    match w {
        WrappedAlias::Forall { alias, tparams } => {
            assert_eq!(alias.ty, Type::TypeOf(Box::new(Type::ClassType(ClassType { class: 9, targs: list_of(vec![inst(2)]) }))));
            assert!(tparams.is_empty());
        },
        WrappedAlias::Error => panic!("expected an alias"),
    }
    assert!(errors.is_empty());
    // `X = list[X]` through the table: the reference to the alias itself stays, and is cyclic.
    let ta = alias_of(Type::ClassType(ClassType { class: 9, targs: list_of(vec![alias_ref(1)]) }));
    let w = s.wrap_type_alias(41, ta, &TypeAliasParams::Scoped(None), Some(1), r(60, 80), &mut errors);
    assert_eq!(w, WrappedAlias::Error);
    assert_eq!(errors.errors()[0].msg, ErrorMsg::CyclicSelfReference(41));
}

#[test]
fn wrap_scoped_alias_reports_undeclared_and_bad_constraints() {
    let s = world();
    let mut errors = ErrorCollector::new();
    let body = Type::ClassType(ClassType { class: 9, targs: list_of(vec![Type::TypeVar(tv(1, 70, 5))]) });
    let decl = TypeParameterDecl {
        name: 80,
        kind: QuantifiedKind::TypeVar,
        identity: QuantifiedIdentity { module: 7, anchor_start: 60, anchor_end: 80, ordinal: 0, origin: QuantifiedOrigin::Scoped },
        bound: None,
        constraints: Some((vec![inst(2)], r(66, 70))),
        default: Some((inst(3), r(72, 75))),
        default_restriction: None,
        bound_assignable: true,
        constraints_consistent: vec![vec![true]],
    };
    let w = s.wrap_type_alias(40, alias_of(body), &TypeAliasParams::Scoped(Some(vec![decl])), None, r(60, 80), &mut errors);
    assert_eq!(errors.len(), 2);
    assert_eq!(errors.errors()[0].msg, ErrorMsg::UndeclaredTypeParams(40));
    assert_eq!(errors.errors()[1].msg, ErrorMsg::TooFewConstraints(80, 1));
    match w {
        WrappedAlias::Forall { tparams, .. } => {
            assert_eq!(tparams.len(), 1);
            assert_eq!(tparams[0].default, Some(inst(3)));
        },
        WrappedAlias::Error => panic!("expected an alias"),
    }
}

#[test]
fn wrap_legacy_alias_reports_foreign_parameters() {
    let s = world();
    let mut errors = ErrorCollector::new();
    let own = legacy_q(70, 5, r(60, 80));
    let foreign = legacy_q(90, 1, r(0, 200));
    let body = Type::Union(list_of(vec![Type::Quantified(own), Type::Quantified(foreign), Type::Quantified(foreign)]));
    let params = TypeAliasParams::Legacy(Some(vec![LegacyParamKey::Parameter(own)]));
    s.wrap_type_alias(40, alias_of(body), &params, None, r(60, 80), &mut errors);
    assert_eq!(errors.len(), 1);
    assert_eq!(errors.errors()[0].msg, ErrorMsg::TypeVarNotInScope(90));
}

#[test]
fn recursive_alias_params() {
    let s = world();
    let own = legacy_q(70, 5, r(60, 80));
    let p = s.create_type_alias_params_recursive(&TypeAliasParams::Legacy(Some(vec![LegacyParamKey::Parameter(own), LegacyParamKey::NotParameter])), r(60, 80));
    assert_eq!(p.tparams.len(), 1);
    assert_eq!(p.tparams[0].quantified, own);
    let p = s.create_type_alias_params_recursive(&TypeAliasParams::Legacy(None), r(60, 80));
    assert!(p.tparams.is_empty());
}

#[test]
fn reference_to_an_alias_from_its_own_definition() {
    let s = world();
    let own = legacy_q(70, 5, r(60, 80));
    let params = TypeAliasParams::Legacy(Some(vec![LegacyParamKey::Parameter(own)]));
    let f = s.binding_to_type_alias_ref(40, 3, &params, r(60, 80));
    assert_eq!(f.alias, AliasRef { name: 40, module: 7, index: 3 });
    assert_eq!(f.tparams.len(), 1);
    assert_eq!(f.tparams[0].quantified, own);
}

#[test]
fn binding_types_from_solved_parts() {
    let mut s = world();
    s.classes[9].iter_item = Some(inst(2));
    let mut errors = ErrorCollector::new();
    assert_eq!(s.binding_to_type(&Binding::NoneValue, &mut errors), Type::NoneType);
    assert_eq!(s.binding_to_type(&Binding::AnyValue(AnyStyle::Explicit), &mut errors), Type::Any(AnyStyle::Explicit));
    let pair = Type::Tuple(Tuple::Concrete(list_of(vec![inst(2), inst(4)])));
    let b = Binding::UnpackedValue { value: pair.deep_clone(), range: r(0, 3), pos: UnpackedPosition::ExactIndex(1, 2), target: no_target() };
    assert_eq!(s.binding_to_type(&b, &mut errors), inst(4));
    let b = Binding::UnpackedValue { value: pair, range: r(0, 3), pos: UnpackedPosition::Slice(1, 0), target: no_target() };
    assert_eq!(s.binding_to_type(&b, &mut errors), Type::ClassType(ClassType { class: 9, targs: list_of(vec![inst(4)]) }));
    let list = Type::ClassType(ClassType { class: 9, targs: TypeList::Nil });
    let b = Binding::UnpackedValue { value: list, range: r(0, 3), pos: UnpackedPosition::Index(0, 1), target: no_target() };
    assert_eq!(s.binding_to_type(&b, &mut errors), inst(2));
    assert!(errors.is_empty());
    let b = Binding::UnpackedValue { value: inst(2), range: r(0, 3), pos: UnpackedPosition::Index(0, 1), target: no_target() };
    assert_eq!(s.binding_to_type(&b, &mut errors), Type::Any(AnyStyle::Error));
    assert_eq!(errors.errors()[0].kind, ErrorKind::NotIterable);
}

#[test]
fn scoped_alias_may_not_be_a_base_class() {
    let mut s = world();
    s.type_aliases = vec![
        TypeAlias { name: 70, ty: Type::TypeOf(Box::new(inst(2))), style: TypeAliasStyle::Scoped },
        TypeAlias { name: 71, ty: Type::TypeOf(Box::new(inst(3))), style: TypeAliasStyle::LegacyExplicit },
    ];
    let mut errors = ErrorCollector::new();
    let scoped = Type::UntypedAlias(AliasRef { name: 70, module: 7, index: 0 });
    let legacy = Type::UntypedAlias(AliasRef { name: 71, module: 7, index: 1 });
    let t = s.untype_runtime_type(scoped.deep_clone(), TextRange { start: 2, end: 4 }, TypeFormContext::BaseClassList, &mut errors);
    assert_eq!(t, Type::Any(AnyStyle::Error));
    assert_eq!(errors.len(), 1);
    assert_eq!(errors.errors()[0].kind, ErrorKind::InvalidInheritance);
    assert_eq!(errors.errors()[0].msg, ErrorMsg::ScopedAliasAsBase(70));
    let t = s.untype_runtime_type(legacy.deep_clone(), TextRange { start: 2, end: 4 }, TypeFormContext::BaseClassList, &mut errors);
    assert_eq!(t, legacy);
    let t = s.untype_runtime_type(scoped.deep_clone(), TextRange { start: 2, end: 4 }, TypeFormContext::TypeExpression, &mut errors);
    assert_eq!(t, scoped);
    let t = s.untype_runtime_type(inst(2), TextRange { start: 5, end: 6 }, TypeFormContext::TypeExpression, &mut errors);
    assert_eq!(t, Type::Any(AnyStyle::Error));
    assert_eq!(errors.len(), 2);
    assert_eq!(errors.errors()[1].msg, ErrorMsg::ExpectedTypeForm(inst(2)));
}

#[test]
fn shape_tuple_element_types() {
    let s = world();
    let two = Type::Int(Dim::Size(2));
    let three = Type::Int(Dim::Size(3));
    let t = s.int_tuple_unpacked_element_type(&vec![two.deep_clone()], &Type::Tuple(Tuple::Unbounded(Box::new(three.deep_clone()))), &vec![]);
    assert_eq!(t, Type::Union(list_of(vec![two.deep_clone(), three.deep_clone()])));
    let nested = Type::Tuple(Tuple::Unpacked(list_of(vec![]), Box::new(Type::Tuple(Tuple::Concrete(list_of(vec![three.deep_clone()])))), list_of(vec![two.deep_clone()])));
    let t = s.int_tuple_unpacked_element_type(&vec![], &nested, &vec![two.deep_clone()]);
    assert_eq!(t, Type::Union(list_of(vec![three.deep_clone(), two.deep_clone()])));
    let t = s.int_tuple_unpacked_element_type(&vec![two.deep_clone()], &Type::NoneType, &vec![]);
    assert_eq!(t, Type::Int(Dim::Gradual));
}

fn no_target() -> TargetCheck {
    TargetCheck { annotation: None, receiver: None, annotation_ok: true, receiver_ok: true }
}

fn declared_target(ty: Type, ok: bool) -> TargetCheck {
    TargetCheck {
        annotation: Some(AnnotationWithTarget { target: AnnotationTarget::Assign(40, AnnAssignHasValue::Yes), annotation: Annotation { qualifiers: vec![], ty: Some(ty) } }),
        receiver: Some((41, Type::ClassDef(5))),
        annotation_ok: ok,
        receiver_ok: false,
    }
}

#[test]
fn unpacked_target_checked_against_declaration() {
    let s = world();
    let mut errors = ErrorCollector::new();
    let pair = Type::Tuple(Tuple::Concrete(list_of(vec![inst(2), inst(4)])));
    let t = s.binding_to_type_unpacked_value(&pair, r(0, 3), UnpackedPosition::ExactIndex(0, 2), &declared_target(inst(3), false), &mut errors);
    assert_eq!(t, inst(3));
    assert_eq!(errors.len(), 1);
    assert_eq!(errors.errors()[0].msg, ErrorMsg::UnpackedAssignMismatch(inst(2), inst(3)));
    let t = s.binding_to_type_unpacked_value(&pair, r(0, 3), UnpackedPosition::ExactIndex(0, 2), &declared_target(inst(3), true), &mut errors);
    assert_eq!(t, inst(2));
    assert_eq!(errors.len(), 1);
    let mut rebind = no_target();
    rebind.receiver = Some((41, Type::ClassDef(5)));
    rebind.receiver_ok = false;
    let t = s.binding_to_type_unpacked_value(&pair, r(0, 3), UnpackedPosition::ExactIndex(1, 2), &rebind, &mut errors);
    assert_eq!(t, Type::ClassDef(5));
    assert_eq!(errors.errors()[1].msg, ErrorMsg::AnnotatedNameMismatch(inst(4), 41, Type::ClassDef(5)));
}

#[test]
fn chained_assignment_targets() {
    let s = world();
    let mut errors = ErrorCollector::new();
    let t = s.binding_to_type_multi_target_assign(&inst(2), &declared_target(inst(3), false), r(0, 3), &mut errors);
    assert_eq!(t, inst(3));
    assert_eq!(errors.len(), 1);
    assert_eq!(errors.errors()[0].msg, ErrorMsg::AnnAssignMismatch(inst(2), inst(3)));
    let t = s.binding_to_type_multi_target_assign(&inst(2), &declared_target(inst(3), true), r(0, 3), &mut errors);
    assert_eq!(t, Type::ClassDef(5));
    assert_eq!(errors.len(), 2);
    let b = Binding::MultiTargetAssign { value: inst(2), range: r(0, 3), target: no_target() };
    assert_eq!(s.binding_to_type(&b, &mut errors), inst(2));
    assert_eq!(errors.len(), 2);
}

#[test]
fn untype_alias_gives_its_type() {
    let s = world();
    let ta = TypeAlias { name: 70, ty: Type::TypeOf(Box::new(inst(2))), style: TypeAliasStyle::Scoped };
    assert_eq!(s.untype_alias(&ta), inst(2));
    let bad = TypeAlias { name: 71, ty: inst(2), style: TypeAliasStyle::Scoped };
    assert_eq!(s.untype_alias(&bad), Type::Any(AnyStyle::Error));
}

#[test]
fn raised_values_must_be_exceptions() {
    let s = world();
    let mut errors = ErrorCollector::new();
    let b = BindingExpect::CheckRaisedException {
        exception: RaisedValue { ty: inst(2), range: r(6, 7), is_exception: false },
        cause: Some(RaisedValue { ty: inst(3), range: r(13, 14), is_exception: false }),
    };
    s.solve_expectation(&b, r(0, 14), &mut errors);
    assert_eq!(errors.len(), 2);
    assert_eq!(errors.errors()[0].kind, ErrorKind::BadRaise);
    assert_eq!(errors.errors()[0].msg, ErrorMsg::RaiseNotException(inst(2), false));
    assert_eq!(errors.errors()[1].msg, ErrorMsg::RaiseNotException(inst(3), true));
    let ok = BindingExpect::CheckRaisedException { exception: RaisedValue { ty: inst(2), range: r(6, 7), is_exception: true }, cause: None };
    s.solve_expectation(&ok, r(0, 14), &mut errors);
    assert_eq!(errors.len(), 2);
}

#[test]
fn implicit_return_and_base_class_expectations() {
    let s = world();
    let mut errors = ErrorCollector::new();
    let b = BindingExpect::ValidateImplicitReturn { annotation: inst(2), is_async: false, is_generator: true, implicit_assignable: true };
    s.solve_expectation(&b, r(0, 9), &mut errors);
    assert_eq!(errors.len(), 1);
    assert_eq!(errors.errors()[0].msg, ErrorMsg::GeneratorShouldReturnGenerator);
    let base = BindingExpect::TypeCheckBaseClassExpr { value: Type::TypeOf(Box::new(inst(2))), range: r(3, 4) };
    s.solve_expectation(&base, r(0, 9), &mut errors);
    assert_eq!(errors.len(), 1);
    let bad = BindingExpect::TypeCheckBaseClassExpr { value: inst(2), range: r(3, 4) };
    s.solve_expectation(&bad, r(0, 9), &mut errors);
    assert_eq!(errors.len(), 2);
    assert_eq!(errors.errors()[1].kind, ErrorKind::NotAType);
}

#[test]
fn private_attribute_access_outside_its_class() {
    let mut s = world();
    s.classes[A as usize].fields.push(ClassField { name: 5, ty: inst(2), is_abstract: false, decl_range: Some(r(12, 13)) });
    let mut errors = ErrorCollector::new();
    let access = |value_is_module: bool, enclosing: Option<(Option<u64>, bool)>, has_static_attr: bool| BindingExpect::PrivateAttributeAccess {
        attr: 5,
        attr_range: r(20, 25),
        value_is_module,
        enclosing,
        has_static_attr,
    };
    // Outside any class, on a value that has the attribute: reported.
    s.solve_expectation(&access(false, None, true), r(15, 25), &mut errors);
    assert_eq!(errors.len(), 1);
    assert_eq!(errors.errors()[0].kind, ErrorKind::NoAccess);
    assert_eq!(errors.errors()[0].range, r(20, 25));
    assert_eq!(errors.errors()[0].msg, ErrorMsg::PrivateAttributeAccess(5));
    // On a module, through `__getattr__` only, or inside the defining class on itself: fine.
    s.solve_expectation(&access(true, None, true), r(15, 25), &mut errors);
    s.solve_expectation(&access(false, None, false), r(15, 25), &mut errors);
    s.solve_expectation(&access(false, Some((Some(A), true)), true), r(15, 25), &mut errors);
    s.solve_expectation(&access(false, Some((None, false)), true), r(15, 25), &mut errors);
    assert_eq!(errors.len(), 1);
    // Inside a class that does not declare it, or on a value that is not that class: reported.
    s.solve_expectation(&access(false, Some((Some(2), true)), true), r(15, 25), &mut errors);
    s.solve_expectation(&access(false, Some((Some(A), false)), true), r(15, 25), &mut errors);
    assert_eq!(errors.len(), 3);
}

#[test]
fn super_object_of_a_generic_class_carries_its_parameters() {
    let s = world();
    let mut errors = ErrorCollector::new();
    let own = ClassType { class: A, targs: list_of(vec![Type::Quantified(quantified(50, QuantifiedKind::TypeVar))]) };
    let t = s.solve_super_binding(&SuperStyle::ImplicitArgs(Some(A), MethodKind::Instance), r(0, 5), &mut errors);
    assert!(matches!(t, Type::SuperInstance(_, SuperObj::Instance(o)) if o == own));
    let t = s.solve_super_binding(&SuperStyle::ImplicitArgs(Some(A), MethodKind::ClassMethod), r(0, 5), &mut errors);
    assert!(matches!(t, Type::SuperInstance(_, SuperObj::Class(o)) if o == own));
    let t = s.solve_super_binding(&SuperStyle::ExplicitArgs(Type::ClassDef(A), Type::ClassDef(A)), r(0, 5), &mut errors);
    assert!(matches!(t, Type::SuperInstance(_, SuperObj::Class(o)) if o == own));
    assert!(errors.is_empty());
}
