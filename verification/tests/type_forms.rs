use pyrefly::errors::{ErrorCollector, ErrorKind, ErrorMsg, TextRange};
use pyrefly::solver::{Synthesizers, AnswersSolver, ClassInfo, ClassMetadata, ClassScope, ClassTParam, PreInferenceVariance, Stdlib, Variance};
use pyrefly::tparams::{validated_tparams, TParam, TParamsSource};
use pyrefly::tvar_default::{quantified_error, RestrictionCheck, TypeVarRestriction};
use pyrefly::type_form::{AnnAssignHasValue, TypeFormContext, UntypeContext};
use pyrefly::types::{AnyStyle, AliasRef, ClassType, Dim, QuantifiedKind, Quantified, QuantifiedIdentity, QuantifiedOrigin, SpecialForm, Tuple, Type, TypeList, TypeVar};
use pyrefly::untype::validate_untyped_type_var_context;

const A: u64 = 17;

fn stdlib() -> Stdlib {
    Stdlib {
        object: 0,
        builtins_type: 1,
        int: 2,
        bool: 3,
        str: 4,
        bytes: 5,
        none_type: 6,
        tuple: 7,
        dict: 8,
        list: 9,
        init_var: 10,
        builtins_module: 100,
        shape_int_tuple: 11,
        shape_int: 12,
        generator: 13,
        async_generator: 14,
        proxy_method: 15,
        coroutine: 16,
        base_exception: 20,
        base_exception_group: Some(21),
        exception_group: Some(22),
    }
}

fn class(id: u64, module: u64) -> ClassInfo {
    ClassInfo {
        name: 1000 + id,
        module,
        range: TextRange { start: 0, end: 0 },
        metadata: ClassMetadata::plain(1),
        mro: Vec::new(),
        bases: Vec::new(),
        fields: Vec::new(),
        unimplemented_abstract: Vec::new(),
        tparams: Vec::new(),
        iter_item: None,
        getitem_item: None,
        tuple_elements: None,
        iter_override: false,
        async_iter_item: None,
        metaclass_targs: TypeList::Nil,
        disjoint_base: None,
        synthesized: Synthesizers::none(),
    }
}

fn quantified(name: u64, kind: QuantifiedKind) -> Quantified {
    Quantified {
        identity: QuantifiedIdentity { module: 7, anchor_start: 10, anchor_end: 90, ordinal: name as u32, origin: QuantifiedOrigin::Scoped },
        name,
        kind,
    }
}

fn world() -> AnswersSolver {
    let mut classes = Vec::new();
    for id in 0..17u64 {
        classes.push(class(id, 100));
    }
    let mut a = class(A, 7);
    a.tparams.push(ClassTParam {
        name: 50,
        quantified: quantified(50, QuantifiedKind::TypeVar),
        is_type_var: true,
        variance: PreInferenceVariance::Invariant,
        inferred: Variance::Invariant,
    });
    classes.push(a);
    let mut meta = class(18, 7);
    meta.metadata.is_metaclass = true;
    classes.push(meta);
    AnswersSolver {
        module: 7,
        stdlib: stdlib(),
        classes,
        class_answers: vec![Some(A), None, Some(18)],
        is_interface: false,
        type_aliases: Vec::new(),
        upper_bounds: Vec::new(),
        class_scopes: vec![
            ClassScope { range: TextRange { start: 10, end: 90 }, class_key: 0 },
            ClassScope { range: TextRange { start: 100, end: 150 }, class_key: 1 },
            ClassScope { range: TextRange { start: 200, end: 250 }, class_key: 2 },
        ],
    }
}

fn r(start: u32, end: u32) -> TextRange {
    TextRange { start, end }
}

fn inst(cls: u64) -> Type {
    Type::ClassType(ClassType { class: cls, targs: TypeList::Nil })
}

fn list_of(ts: Vec<Type>) -> TypeList {
    TypeList::from_vec(ts)
}

#[test]
fn untype_of_a_class_value_is_the_class() {
    let s = world();
    let mut errors = ErrorCollector::new();
    let t = s.untype(Type::TypeOf(Box::new(inst(2))), r(1, 4), &mut errors);
    assert_eq!(t, inst(2));
    assert!(errors.is_empty());
}

#[test]
fn untype_of_an_instance_is_not_a_type() {
    let s = world();
    let mut errors = ErrorCollector::new();
    assert_eq!(s.untype_opt(inst(2), r(1, 4), &mut errors), None);
    let t = s.untype(inst(2), r(1, 4), &mut errors);
    assert_eq!(t, Type::Any(AnyStyle::Error));
    assert_eq!(errors.len(), 1);
    assert_eq!(errors.errors()[0].kind, ErrorKind::NotAType);
    assert_eq!(errors.errors()[0].msg, ErrorMsg::ExpectedTypeForm(inst(2)));
}

#[test]
fn untype_special_cases() {
    let s = world();
    let mut errors = ErrorCollector::new();
    assert_eq!(s.untype_opt(Type::TypeOf(Box::new(inst(6))), r(0, 1), &mut errors), Some(Type::NoneType));
    assert_eq!(s.untype_opt(Type::TypeOf(Box::new(inst(11))), r(0, 1), &mut errors), Some(Type::IntTuple));
    assert_eq!(s.untype_opt(Type::TypeOf(Box::new(inst(12))), r(0, 1), &mut errors), Some(Type::Int(Dim::Gradual)));
    assert_eq!(
        s.untype_opt(Type::TypeOf(Box::new(Type::SpecialForm(SpecialForm::TypeForm))), r(0, 1), &mut errors),
        Some(Type::TypeForm(Box::new(Type::Any(AnyStyle::Implicit)))),
    );
    assert_eq!(s.untype_opt(Type::Any(AnyStyle::Explicit), r(0, 1), &mut errors), Some(Type::Any(AnyStyle::Implicit)));
    assert_eq!(s.untype_opt(Type::NoneType, r(0, 1), &mut errors), Some(Type::NoneType));
    assert_eq!(s.untype_opt(Type::Ellipsis, r(0, 1), &mut errors), Some(Type::Ellipsis));
    let alias = Type::UntypedAlias(AliasRef { name: 5, module: 7, index: 0 });
    assert_eq!(s.untype_opt(alias.deep_clone(), r(0, 1), &mut errors), Some(alias));
    assert_eq!(s.untype_opt(Type::Literal(pyrefly::types::Lit::Int(3)), r(0, 1), &mut errors), None);
    assert!(errors.is_empty());
}

#[test]
fn untype_class_object_promotes_with_implicit_any() {
    let s = world();
    let mut errors = ErrorCollector::new();
    let t = s.untype_opt(Type::ClassDef(A), r(0, 1), &mut errors);
    let expected = Type::ClassType(ClassType { class: A, targs: list_of(vec![Type::Any(AnyStyle::Implicit)]) });
    assert_eq!(t, Some(expected));
}

#[test]
fn untype_union_member_by_member() {
    let s = world();
    let mut errors = ErrorCollector::new();
    let u = Type::Union(list_of(vec![Type::TypeOf(Box::new(inst(2))), Type::NoneType]));
    let t = s.untype_opt(u, r(0, 1), &mut errors);
    assert_eq!(t, Some(Type::Union(list_of(vec![inst(2), Type::NoneType]))));
    // A member that is no type makes the whole union no type.
    let u = Type::Union(list_of(vec![Type::TypeOf(Box::new(inst(2))), inst(4)]));
    assert_eq!(s.untype_opt(u, r(0, 1), &mut errors), None);
    assert!(errors.is_empty());
}

#[test]
fn untype_self_inside_and_outside_classes() {
    let s = world();
    let self_form = Type::TypeOf(Box::new(Type::SpecialForm(SpecialForm::SelfType)));
    let mut errors = ErrorCollector::new();
    let t = s.untype_opt(self_form.deep_clone(), r(20, 24), &mut errors);
    let a = ClassType { class: A, targs: list_of(vec![Type::Quantified(quantified(50, QuantifiedKind::TypeVar))]) };
    assert_eq!(t, Some(Type::SelfType(a)));
    assert!(errors.is_empty());

    let t = s.untype_opt(self_form.deep_clone(), r(300, 304), &mut errors);
    assert_eq!(t, Some(Type::SpecialForm(SpecialForm::SelfType)));
    assert_eq!(errors.errors()[0].msg, ErrorMsg::SelfOutsideClass);

    let mut errors = ErrorCollector::new();
    let t = s.untype_opt(self_form.deep_clone(), r(110, 114), &mut errors);
    assert_eq!(t, Some(Type::Any(AnyStyle::Error)));
    assert_eq!(errors.errors()[0].kind, ErrorKind::InvalidSelfType);

    let mut errors = ErrorCollector::new();
    let t = s.untype_opt(self_form, r(210, 214), &mut errors);
    assert_eq!(t, Some(Type::SelfType(ClassType { class: 18, targs: TypeList::Nil })));
    assert_eq!(errors.errors()[0].msg, ErrorMsg::SelfInMetaclass);
}

#[test]
fn int_var_position_checks() {
    let mut errors = ErrorCollector::new();
    let iv = Type::Quantified(quantified(8, QuantifiedKind::IntVar));
    let t = validate_untyped_type_var_context(iv.deep_clone(), r(1, 2), &mut errors, UntypeContext::Type);
    assert_eq!(t, Type::Any(AnyStyle::Error));
    assert_eq!(errors.errors()[0].msg, ErrorMsg::IntVarAsType(8));
    let t = validate_untyped_type_var_context(iv.deep_clone(), r(1, 2), &mut errors, UntypeContext::SymbolicInt);
    assert_eq!(t, iv);
    let tv = Type::TypeVar(TypeVar { id: 1, name: 9, decl_start: 0 });
    let t = validate_untyped_type_var_context(tv, r(1, 2), &mut errors, UntypeContext::SymbolicInt);
    assert_eq!(t, Type::Any(AnyStyle::Error));
    assert_eq!(errors.errors()[1].msg, ErrorMsg::NotAnIntVar(9));
    assert_eq!(errors.len(), 2);
}

#[test]
fn int_tuple_helpers() {
    let s = world();
    assert!(s.is_int_tuple_class(11));
    assert!(!s.is_int_tuple_class(2));
    assert_eq!(s.bare_int_tuple_carrier(), Type::Tuple(Tuple::Unbounded(Box::new(inst(2)))));
}

#[test]
fn type_form_positions() {
    assert_eq!(TypeFormContext::quantified_kind_default(QuantifiedKind::ParamSpec), TypeFormContext::ParamSpecDefault);
    assert_eq!(TypeFormContext::quantified_kind_default(QuantifiedKind::TypeVarTuple), TypeFormContext::TypeVarTupleDefault);
    assert_eq!(TypeFormContext::type_argument(), TypeFormContext::TypeArgument(&TypeFormContext::TypeExpression));
    assert!(TypeFormContext::BaseClassList.is_valid_unparameterized_annotation(SpecialForm::Protocol));
    assert!(!TypeFormContext::ReturnAnnotation.is_valid_unparameterized_annotation(SpecialForm::Protocol));
    assert!(TypeFormContext::VarAnnotation(AnnAssignHasValue::Yes).is_valid_unparameterized_annotation(SpecialForm::TypeAlias));
    assert!(TypeFormContext::ReturnAnnotation.can_report_explicit_any());
    assert!(!TypeFormContext::GenericBase.can_report_explicit_any());
    assert_eq!(TypeFormContext::GenericBase.untype_context(), UntypeContext::GenericBase);
    assert_eq!(TypeFormContext::ReturnAnnotation.untype_context(), UntypeContext::Type);
}

#[test]
fn validate_type_form_rejects_misplaced_forms() {
    let s = world();
    let mut errors = ErrorCollector::new();
    let ok = s.validate_type_form(inst(2), r(0, 3), TypeFormContext::ReturnAnnotation, &mut errors);
    assert_eq!(ok, inst(2));
    assert!(errors.is_empty());
    let ps = Type::ParamSpec(TypeVar { id: 2, name: 11, decl_start: 4 });
    let bad = s.validate_type_form(ps, r(0, 3), TypeFormContext::ReturnAnnotation, &mut errors);
    assert_eq!(bad, Type::Any(AnyStyle::Error));
    assert_eq!(errors.errors()[0].msg, ErrorMsg::ParamSpecNotAllowed);
    let unpack = Type::Unpack(Box::new(Type::Tuple(Tuple::Unbounded(Box::new(inst(2))))));
    s.validate_type_form(unpack, r(0, 3), TypeFormContext::ReturnAnnotation, &mut errors);
    assert_eq!(errors.errors()[1].msg, ErrorMsg::UnpackNotAllowed);
    s.validate_type_form(Type::SpecialForm(SpecialForm::Final), r(0, 3), TypeFormContext::ReturnAnnotation, &mut errors);
    assert_eq!(errors.errors()[2].msg, ErrorMsg::ExpectedTypeArgument(SpecialForm::Final));
    assert_eq!(errors.len(), 3);
}

#[test]
fn type_var_default_kinds() {
    let s = world();
    let mut errors = ErrorCollector::new();
    let ps = Type::ParamSpec(TypeVar { id: 2, name: 11, decl_start: 4 });
    let d = s.validate_type_var_default(1, QuantifiedKind::TypeVar, &ps, r(0, 5), &RestrictionCheck::Unrestricted, &None, &Vec::new(), &mut errors);
    assert_eq!(d, Type::Any(AnyStyle::Error));
    assert_eq!(errors.errors()[0].msg, ErrorMsg::TypeVarDefaultKind(QuantifiedKind::TypeVar, ps.deep_clone()));

    let d = s.validate_type_var_default(1, QuantifiedKind::ParamSpec, &Type::Ellipsis, r(0, 5), &RestrictionCheck::Unrestricted, &None, &Vec::new(), &mut errors);
    assert_eq!(d, Type::Ellipsis);
    let d = s.validate_type_var_default(1, QuantifiedKind::ParamSpec, &inst(2), r(0, 5), &RestrictionCheck::Unrestricted, &None, &Vec::new(), &mut errors);
    assert_eq!(d, Type::Any(AnyStyle::Error));
    assert_eq!(errors.errors()[1].kind, ErrorKind::InvalidParamSpec);

    let tuple = Type::Tuple(Tuple::Unbounded(Box::new(inst(2))));
    let d = s.validate_type_var_default(1, QuantifiedKind::TypeVarTuple, &Type::Unpack(Box::new(tuple.deep_clone())), r(0, 5), &RestrictionCheck::Unrestricted, &None, &Vec::new(), &mut errors);
    assert_eq!(d, tuple);
    let d = s.validate_type_var_default(1, QuantifiedKind::TypeVarTuple, &inst(2), r(0, 5), &RestrictionCheck::Unrestricted, &None, &Vec::new(), &mut errors);
    assert_eq!(d, Type::Any(AnyStyle::Error));
    assert_eq!(errors.errors()[2].kind, ErrorKind::InvalidTypeVarTuple);
    assert_eq!(errors.len(), 3);
}

#[test]
fn type_var_default_restrictions() {
    let s = world();
    let mut errors = ErrorCollector::new();
    let d = s.validate_type_var_default(1, QuantifiedKind::TypeVar, &inst(2), r(0, 5), &RestrictionCheck::Bound { assignable: true }, &None, &Vec::new(), &mut errors);
    assert_eq!(d, inst(2));
    assert!(errors.is_empty());
    let d = s.validate_type_var_default(1, QuantifiedKind::TypeVar, &inst(2), r(0, 5), &RestrictionCheck::Bound { assignable: false }, &None, &Vec::new(), &mut errors);
    assert_eq!(d, Type::Any(AnyStyle::Error));
    assert_eq!(errors.errors()[0].msg, ErrorMsg::DefaultNotAssignableToBound(1, inst(2)));
    let d = s.validate_type_var_default(1, QuantifiedKind::ParamSpec, &Type::Ellipsis, r(0, 5), &RestrictionCheck::Constraints, &None, &Vec::new(), &mut errors);
    assert_eq!(d, Type::Any(AnyStyle::Error));
    assert_eq!(errors.errors()[1].kind, ErrorKind::InvalidParamSpec);
    assert_eq!(errors.errors()[1].msg, ErrorMsg::DefaultNotInConstraints(1, Type::Ellipsis));
    // An error type is kept as it is, with no further report.
    let d = s.validate_type_var_default(1, QuantifiedKind::TypeVar, &Type::Any(AnyStyle::Error), r(0, 5), &RestrictionCheck::Bound { assignable: false }, &None, &Vec::new(), &mut errors);
    assert_eq!(d, Type::Any(AnyStyle::Error));
    assert_eq!(errors.len(), 2);
    assert_eq!(quantified_error(QuantifiedKind::IntVar), ErrorKind::InvalidTypeVar);
}

#[test]
fn type_var_default_under_a_shape_flag_is_what_the_shape_layer_validated() {
    let s = world();
    let mut errors = ErrorCollector::new();
    // The kind check is not reached: a ParamSpec default of an IntVar stands as validated.
    let ps = Type::ParamSpec(TypeVar { id: 2, name: 11, decl_start: 4 });
    let flag = RestrictionCheck::Flag { validated: inst(3) };
    let d = s.validate_type_var_default(1, QuantifiedKind::IntVar, &ps, r(0, 5), &flag, &None, &Vec::new(), &mut errors);
    assert_eq!(d, inst(3));
    assert!(errors.is_empty());
}

fn tparam(name: u64, kind: QuantifiedKind, default: Option<Type>) -> TParam {
    TParam { quantified: quantified(name, kind), default }
}

#[test]
fn validated_tparams_checks_order_and_scope() {
    let mut errors = ErrorCollector::new();
    let t_var = Type::TypeVar(TypeVar { id: 1, name: 1, decl_start: 0 });
    let u_var = Type::TypeVar(TypeVar { id: 9, name: 9, decl_start: 0 });
    let ps = vec![
        tparam(1, QuantifiedKind::TypeVar, None),
        tparam(2, QuantifiedKind::TypeVar, Some(t_var)),
        tparam(3, QuantifiedKind::TypeVar, Some(u_var)),
        tparam(4, QuantifiedKind::TypeVar, None),
    ];
    let out = validated_tparams(r(0, 40), ps, TParamsSource::Class, &mut errors);
    assert_eq!(out.tparams.len(), 4);
    // A default that names an earlier parameter is bound to it.
    assert_eq!(out.tparams[1].default, Some(Type::Quantified(quantified(1, QuantifiedKind::TypeVar))));
    // One that names no parameter in scope becomes gradual.
    assert_eq!(out.tparams[2].default, Some(Type::Any(AnyStyle::Implicit)));
    assert_eq!(out.tparams[3].default, None);
    assert_eq!(errors.len(), 2);
    assert_eq!(errors.errors()[0].msg, ErrorMsg::OutOfScopeDefault(3, pyrefly::errors::NameList::Cons(9, Box::new(pyrefly::errors::NameList::Nil))));
    assert_eq!(errors.errors()[1].msg, ErrorMsg::DefaultOrder(4, 3));
}

#[test]
fn validated_tparams_one_type_var_tuple() {
    let mut errors = ErrorCollector::new();
    let ps = vec![tparam(1, QuantifiedKind::TypeVarTuple, None), tparam(2, QuantifiedKind::TypeVarTuple, None)];
    validated_tparams(r(0, 40), ps, TParamsSource::TypeAlias, &mut errors);
    assert_eq!(errors.len(), 1);
    assert_eq!(errors.errors()[0].msg, ErrorMsg::MultipleTypeVarTuples(TParamsSource::TypeAlias));
    let mut errors = ErrorCollector::new();
    let ps = vec![tparam(1, QuantifiedKind::TypeVarTuple, None), tparam(2, QuantifiedKind::TypeVarTuple, None)];
    validated_tparams(r(0, 40), ps, TParamsSource::Function, &mut errors);
    assert!(errors.is_empty());
}

#[test]
fn type_variable_defaults_follow_pep_696() {
    let s = world();
    let mut errors = ErrorCollector::new();
    let t = Type::TypeVar(TypeVar { id: 3, name: 12, decl_start: 6 });
    // A constrained parameter: a plain default must match one constraint.
    let d = s.validate_type_var_default(1, QuantifiedKind::TypeVar, &inst(2), r(0, 5), &RestrictionCheck::Constraints, &None, &vec![vec![false, true]], &mut errors);
    assert_eq!(d, inst(2));
    let d = s.validate_type_var_default(1, QuantifiedKind::TypeVar, &inst(2), r(0, 5), &RestrictionCheck::Constraints, &None, &vec![vec![false, false]], &mut errors);
    assert_eq!(d, Type::Any(AnyStyle::Error));
    assert_eq!(errors.len(), 1);
    // A bounded type variable never fits, whatever the verdicts say.
    let bounded = Some(TypeVarRestriction::Bound(inst(3)));
    let d = s.validate_type_var_default(1, QuantifiedKind::TypeVar, &t, r(0, 5), &RestrictionCheck::Constraints, &bounded, &vec![vec![true]], &mut errors);
    assert_eq!(d, Type::Any(AnyStyle::Error));
    assert_eq!(errors.errors()[1].msg, ErrorMsg::DefaultNotInConstraints(1, t.deep_clone()));
    // A constrained type variable fits when each of its constraints matches one.
    let constrained = Some(TypeVarRestriction::Constraints(vec![inst(2), inst(3)]));
    assert_eq!(s.constraint_items(&t, &constrained), Some(vec![inst(2), inst(3)]));
    let d = s.validate_type_var_default(1, QuantifiedKind::TypeVar, &t, r(0, 5), &RestrictionCheck::Constraints, &constrained, &vec![vec![true, false], vec![false, true]], &mut errors);
    assert_eq!(d, t.deep_clone());
    let d = s.validate_type_var_default(1, QuantifiedKind::TypeVar, &t, r(0, 5), &RestrictionCheck::Constraints, &constrained, &vec![vec![true, false]], &mut errors);
    assert_eq!(d, Type::Any(AnyStyle::Error));
    assert_eq!(errors.len(), 3);
    // Against a bound, a type variable default is checked as its own upper bound.
    assert_eq!(s.default_for_bound_check(&t, &bounded), inst(3));
    assert_eq!(s.default_for_bound_check(&t, &Some(TypeVarRestriction::Unrestricted)), inst(0));
    assert_eq!(s.default_for_bound_check(&t, &constrained), Type::Union(TypeList::from_vec(vec![inst(2), inst(3)])));
    assert_eq!(s.default_for_bound_check(&inst(2), &bounded), inst(2));
}

fn string_form(text: &str, module_export: Option<Type>, builtins_export: Option<Type>, assignable: bool) -> pyrefly::untype::StringTypeForm {
    pyrefly::untype::StringTypeForm {
        value: Some(text.chars().collect()),
        expr_range: r(3, 8),
        module_export,
        builtins_export,
        hint: inst(5),
        assignable,
        mismatch_kind: ErrorKind::BadAssignment,
        range: r(0, 10),
    }
}

#[test]
fn string_literals_as_type_forms() {
    let s = world();
    let mut errors = ErrorCollector::new();
    let class_obj = Type::TypeOf(Box::new(inst(2)));
    let tf = Type::TypeForm(Box::new(inst(2)));
    assert_eq!(s.try_string_literal_as_typeform(&string_form("Foo_1", Some(class_obj.deep_clone()), None, true), &mut errors), Some(tf.deep_clone()));
    // `builtins` is the fallback.
    assert_eq!(s.try_string_literal_as_typeform(&string_form("int", None, Some(class_obj.deep_clone()), true), &mut errors), Some(tf.deep_clone()));
    assert!(errors.is_empty());
    // Only simple identifiers are tried.
    assert_eq!(s.try_string_literal_as_typeform(&string_form("a.b", Some(class_obj.deep_clone()), None, true), &mut errors), None);
    assert_eq!(s.try_string_literal_as_typeform(&string_form("", Some(class_obj.deep_clone()), None, true), &mut errors), None);
    assert_eq!(s.try_string_literal_as_typeform(&string_form("Foo", None, None, true), &mut errors), None);
    // A value that is no type gives none.
    assert_eq!(s.try_string_literal_as_typeform(&string_form("Foo", Some(inst(2)), None, true), &mut errors), None);
    assert!(errors.is_empty());
    // A mismatch with the hint is reported.
    assert_eq!(s.try_string_literal_as_typeform(&string_form("Foo", Some(class_obj), None, false), &mut errors), Some(tf.deep_clone()));
    assert_eq!(errors.len(), 1);
    assert_eq!(errors.errors()[0].msg, ErrorMsg::TypeFormMismatch(tf, inst(5)));
}
