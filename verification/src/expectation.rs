//! Checks that produce no type: unpacking lengths, possibly uninitialized names,
//! conflicting redefinitions, forward references in `|` unions, implicit aliases, raised
//! exceptions, implicit returns and base class expressions.

use vstd::prelude::*;
use crate::errors::{ErrorCollector, ErrorKind, ErrorMsg, TextRange, TypeError};
use crate::iterable::{iterables_view, Iterable, IterableView, SizeExpectation};
use crate::solver::AnswersSolver;
use crate::type_alias::{check_explicit_any, explicit_any_errors};
use crate::type_form::TypeFormContext;
use crate::types::{AnyStyle, ClassType, Lit, Type, TypeList};
use crate::union::spec_unions;
use crate::untype::one_error;

verus! {

/// The answer of a check: nothing.
#[derive(Clone, Copy, PartialEq, Eq, Structural, Debug)]
pub struct EmptyAnswer;

/// A check to run, with the types it inspects already solved.
pub enum BindingExpect {
    /// Unpacking a value of type `ty` into targets that need `expect` values.
    UnpackedLength(Type, TextRange, SizeExpectation),
    /// The name `name`, used at `range`, looked uninitialized on some branches; those
    /// branches end with values of the types `termination_types`.
    UninitializedCheck { name: u64, range: TextRange, termination_types: Vec<Type> },
    /// `name` is annotated at `range` with `new` but already declared with `existing`.
    Redefinition { new: Option<Type>, existing: Option<Type>, name: u64, range: TextRange },
    /// `left | right`, one side of which may be a string forward reference.
    ForwardRefUnion {
        left: Type,
        right: Type,
        left_is_forward_ref: bool,
        right_is_forward_ref: bool,
        range: TextRange,
    },
    /// `name = <expr>` may be an implicit type alias, but `expr` has a syntax problem
    /// `problem`. When `expr` is a call, `call` holds the type of its result and the type of
    /// the callee.
    ImplicitAliasCheck { name: u64, call: Option<(Type, Type)>, problem: u64 },
    /// `raise exception` or `raise exception from cause`.
    CheckRaisedException { exception: RaisedValue, cause: Option<RaisedValue> },
    /// A function whose body can end without `return`, with its return annotation's type,
    /// whether it is `async` and a generator, and the solver's verdict on whether the
    /// implicit `None` return (for a generator, what the body returns) is assignable to the
    /// return type asked for.
    ValidateImplicitReturn { annotation: Type, is_async: bool, is_generator: bool, implicit_assignable: bool },
    /// An expression in a class's list of bases, with the type of its value.
    TypeCheckBaseClassExpr { value: Type, range: TextRange },
    /// An access `value.__name` to a private attribute, the name's place being
    /// `attr_range`: the solver's verdict on whether the value is a module; for an access
    /// inside a class body, the class (none while it is being solved) and the verdict on
    /// whether the value is that class or an instance of it; and whether the value's type
    /// has the attribute statically (not only through `__getattr__`).
    PrivateAttributeAccess {
        attr: u64,
        attr_range: TextRange,
        value_is_module: bool,
        enclosing: Option<(Option<u64>, bool)>,
        has_static_attr: bool,
    },
}

/// A raised value (or the cause it is raised from): its type, where it stands, and the
/// solver's verdict on whether the type is assignable to [`spec_raise_expected`].
pub struct RaisedValue {
    pub ty: Type,
    pub range: TextRange,
    pub is_exception: bool,
}

/// What may be raised: `BaseException` or its class, and `None` as a cause.
pub open spec fn spec_raise_expected(base_exception: u64, allow_none: bool) -> Type {
    let e = ClassType { class: base_exception, targs: TypeList::Nil };
    spec_unions(
        if allow_none {
            seq![Type::ClassType(e), Type::ClassDef(base_exception), Type::NoneType]
        } else {
            seq![Type::ClassType(e), Type::ClassDef(base_exception)]
        },
    )
}

/// The error for a raised value that is no exception.
pub open spec fn spec_raise_errors(v: RaisedValue, allow_none: bool) -> Seq<TypeError> {
    if v.is_exception {
        Seq::empty()
    } else {
        one_error(ErrorKind::BadRaise, v.range, ErrorMsg::RaiseNotException(v.ty, allow_none))
    }
}

impl AnswersSolver {
    /// The values that unpacking a value of type `ty` sees: a string or bytes literal of
    /// known length gives that many values.
    pub open spec fn spec_unpacked_iterables(self, ty: Type) -> Seq<IterableView> {
        match ty {
            Type::Literal(Lit::Str(n)) => seq![
                IterableView::FixedLen(Seq::new(n as nat, |_k: int| Type::LiteralString)),
            ],
            Type::Literal(Lit::Bytes(n)) => seq![
                IterableView::FixedLen(
                    Seq::new(
                        n as nat,
                        |_k: int| Type::ClassType(ClassType { class: self.stdlib.int, targs: TypeList::Nil }),
                    ),
                ),
            ],
            _ => self.spec_iterate(ty),
        }
    }

    /// The types found not iterable while looking at a value of type `ty` to unpack.
    pub open spec fn spec_unpacked_not_iterable(self, ty: Type) -> Seq<Type> {
        match ty {
            Type::Literal(Lit::Str(_)) | Type::Literal(Lit::Bytes(_)) => Seq::empty(),
            _ => self.not_iterable(ty),
        }
    }
}

/// The error, if any, of unpacking what `it` produces (from a value of type `ty`) into
/// targets that need `expect` values.
pub open spec fn length_error(
    ty: Type,
    it: IterableView,
    expect: SizeExpectation,
    range: TextRange,
) -> Option<TypeError> {
    match it {
        IterableView::OfType(_) => None,
        // A variadic tuple has at least `prefix + suffix` elements and no upper bound, so only
        // an exact expectation below that minimum is impossible.
        IterableView::Unpacked(p, _, s) => match expect {
            SizeExpectation::Eq(n) => if n < p.len() + s.len() {
                Some(
                    TypeError {
                        kind: ErrorKind::BadUnpacking,
                        range,
                        msg: ErrorMsg::UnpackVariadic(ty, p.len() as usize, s.len() as usize, expect),
                    },
                )
            } else {
                None
            },
            SizeExpectation::Ge(_) => None,
        },
        IterableView::OfTypeVarTuple(_) => Some(
            TypeError { kind: ErrorKind::BadUnpacking, range, msg: ErrorMsg::UnpackUnknownSize(ty, expect) },
        ),
        IterableView::FixedLen(ts) => if ts.contains(Type::Never) {
            None
        } else {
            let wrong = match expect {
                SizeExpectation::Eq(n) => ts.len() != n,
                SizeExpectation::Ge(n) => ts.len() < n,
            };
            if wrong {
                Some(
                    TypeError {
                        kind: ErrorKind::BadUnpacking,
                        range,
                        msg: ErrorMsg::UnpackFixed(ty, ts.len() as usize, expect),
                    },
                )
            } else {
                None
            }
        },
    }
}

/// The errors of unpacking what each of `its` produces, in order.
pub open spec fn length_errors(
    ty: Type,
    its: Seq<IterableView>,
    expect: SizeExpectation,
    range: TextRange,
) -> Seq<TypeError>
    decreases its.len(),
{
    if its.len() == 0 {
        Seq::empty()
    } else {
        length_errors(ty, its.drop_last(), expect, range) + match length_error(
            ty,
            its.last(),
            expect,
            range,
        ) {
            Some(e) => seq![e],
            None => Seq::empty(),
        }
    }
}


/// Whether a type is a plain class object, which does not support `|` with a string at
/// runtime: a class object, `type[C]` of a class without type arguments, or `None`.
pub open spec fn is_plain_type(t: Type) -> bool {
    match t {
        Type::ClassDef(_) => true,
        Type::TypeOf(inner) => (*inner matches Type::ClassType(c) && c.targs == TypeList::Nil),
        Type::NoneType => true,
        _ => false,
    }
}

fn plain_type(t: &Type) -> (r: bool)
    ensures
        r == is_plain_type(*t),
{
    match t {
        Type::ClassDef(_) => true,
        Type::TypeOf(inner) => matches!(&**inner, Type::ClassType(c) if matches!(c.targs, TypeList::Nil)),
        Type::NoneType => true,
        _ => false,
    }
}

/// Whether an implicit alias whose value is a call is exempt from the syntax check: the call
/// gives a type-like value (a type variable or a class object), or calls a class.
pub open spec fn implicit_alias_exempt(call: Option<(Type, Type)>) -> bool {
    match call {
        Some((result, callee)) => {
            ||| result is TypeVar
            ||| result is ParamSpec
            ||| result is TypeVarTuple
            ||| (result matches Type::TypeOf(inner) && *inner is ClassType)
            ||| callee is ClassDef
        },
        None => false,
    }
}

impl AnswersSolver {
    /// The errors that a check reports; `range` is where the check stands.
    pub open spec fn expectation_errors(self, binding: BindingExpect, range: TextRange) -> Seq<TypeError> {
        match binding {
            BindingExpect::UnpackedLength(ty, r, expect) => if ty is Never {
                Seq::empty()
            } else {
                self.spec_unpacked_not_iterable(ty).map_values(
                    |t: Type| TypeError { kind: ErrorKind::NotIterable, range: r, msg: ErrorMsg::NotIterable(t) },
                ) + length_errors(ty, self.spec_unpacked_iterables(ty), expect, r)
            },
            BindingExpect::PrivateAttributeAccess { attr, attr_range, value_is_module, enclosing, has_static_attr } => {
                let allowed = value_is_module || match enclosing {
                    Some((None, _)) => true,
                    Some((Some(owner), of_owner)) => self.declares_field(owner, attr) && of_owner,
                    None => false,
                };
                if allowed || !has_static_attr {
                    Seq::empty()
                } else {
                    one_error(ErrorKind::NoAccess, attr_range, ErrorMsg::PrivateAttributeAccess(attr))
                }
            },
            BindingExpect::UninitializedCheck { name, range: r, termination_types } => if forall|k: int|
                0 <= k < termination_types@.len() ==> termination_types@[k] is Never {
                Seq::empty()
            } else {
                seq![TypeError { kind: ErrorKind::UnboundName, range: r, msg: ErrorMsg::MayBeUninitialized(name) }]
            },
            BindingExpect::Redefinition { new, existing, name, range: r } => match (new, existing) {
                (Some(t_new), Some(t_existing)) => if t_new != t_existing {
                    seq![
                        TypeError {
                            kind: ErrorKind::Redefinition,
                            range: r,
                            msg: ErrorMsg::Redefinition(name, t_new, t_existing),
                        },
                    ]
                } else {
                    Seq::empty()
                },
                _ => Seq::empty(),
            },
            BindingExpect::ForwardRefUnion {
                left,
                right,
                left_is_forward_ref,
                right_is_forward_ref,
                range: r,
            } => if (left_is_forward_ref && is_plain_type(right)) || (right_is_forward_ref
                && is_plain_type(left)) {
                seq![TypeError { kind: ErrorKind::InvalidAnnotation, range: r, msg: ErrorMsg::ForwardRefUnion }]
            } else {
                Seq::empty()
            },
            BindingExpect::ImplicitAliasCheck { name, call, problem } => if implicit_alias_exempt(call) {
                Seq::empty()
            } else {
                seq![
                    TypeError {
                        kind: ErrorKind::InvalidAnnotation,
                        range,
                        msg: ErrorMsg::InvalidImplicitAlias(name, problem),
                    },
                ]
            },
            BindingExpect::CheckRaisedException { exception, cause } => spec_raise_errors(exception, false) + match cause {
                Some(c) => spec_raise_errors(c, true),
                None => Seq::empty(),
            },
            BindingExpect::ValidateImplicitReturn { annotation, is_async, is_generator, implicit_assignable } => self.spec_implicit_return_errors(
                annotation,
                is_async,
                is_generator,
                implicit_assignable,
                range,
            ),
            BindingExpect::TypeCheckBaseClassExpr { value, range: r } => self.spec_base_class_expr_errors(value, r),
        }
    }

    /// The errors of a base class expression whose value has type `value`: those of
    /// untyping it as a base class, then of the type-form check, then of an explicit `Any`
    /// in what it denotes.
    pub open spec fn spec_base_class_expr_errors(self, value: Type, range: TextRange) -> Seq<TypeError> {
        let (untyped, e1) = self.spec_untype_runtime_type(value, range, TypeFormContext::BaseClassList);
        match self.type_form_problem(untyped, TypeFormContext::BaseClassList) {
            Some(msg) => e1 + one_error(ErrorKind::InvalidAnnotation, range, msg) + explicit_any_errors(Type::any_error(), range),
            None => e1 + explicit_any_errors(untyped, range),
        }
    }

    /// Reports a raised value that is no exception; see [`spec_raise_errors`].
    fn check_is_exception(&self, v: &RaisedValue, allow_none: bool, errors: &mut ErrorCollector)
        ensures
            final(errors)@ == old(errors)@ + spec_raise_errors(*v, allow_none),
    {
        if !v.is_exception {
            errors.error(ErrorKind::BadRaise, v.range, ErrorMsg::RaiseNotException(v.ty.deep_clone(), allow_none));
        } else {
            assert(old(errors)@ + Seq::<TypeError>::empty() =~= old(errors)@);
        }
    }

    /// Checks a base class expression; see [`Self::spec_base_class_expr_errors`].
    fn check_base_class_expr(&self, value: &Type, range: TextRange, errors: &mut ErrorCollector)
        ensures
            final(errors)@ == old(errors)@ + self.spec_base_class_expr_errors(*value, range),
    {
        let untyped = self.untype_runtime_type(value.deep_clone(), range, TypeFormContext::BaseClassList, errors);
        let ghost e1 = errors@;
        let checked = self.validate_type_form(untyped, range, TypeFormContext::BaseClassList, errors);
        check_explicit_any(&checked, range, errors);
        assert(errors@ =~= old(errors)@ + self.spec_base_class_expr_errors(*value, range));
    }

    /// The values that unpacking a value of type `ty` sees, reporting at `range` what is
    /// not iterable.
    pub fn unpacked_iterables(&self, ty: &Type, range: TextRange, errors: &mut ErrorCollector) -> (r: Vec<Iterable>)
        ensures
            iterables_view(r@) == self.spec_unpacked_iterables(*ty),
            final(errors)@ == old(errors)@ + self.spec_unpacked_not_iterable(*ty).map_values(
                |t: Type| TypeError { kind: ErrorKind::NotIterable, range, msg: ErrorMsg::NotIterable(t) },
            ),
    {
        let ghost f = |t: Type| TypeError { kind: ErrorKind::NotIterable, range, msg: ErrorMsg::NotIterable(t) };
        // String and bytes literals have known length, so generate a fixed-length iterable
        match ty {
            Type::Literal(Lit::Str(n)) => {
                let mut elts: Vec<Type> = Vec::new();
                let mut k: u64 = 0;
                while k < *n
                    invariant
                        k <= *n,
                        elts@ == Seq::new(k as nat, |_k: int| Type::LiteralString),
                    decreases *n - k,
                {
                    elts.push(Type::LiteralString);
                    k += 1;
                    assert(elts@ =~= Seq::new(k as nat, |_k: int| Type::LiteralString));
                }
                let mut r: Vec<Iterable> = Vec::new();
                r.push(Iterable::FixedLen(elts));
                assert(iterables_view(r@) =~= self.spec_unpacked_iterables(*ty));
                assert(self.spec_unpacked_not_iterable(*ty).map_values(f) =~= Seq::empty());
                assert(old(errors)@ + Seq::<TypeError>::empty() =~= old(errors)@);
                r
            },
            Type::Literal(Lit::Bytes(n)) => {
                let ghost int_ty = Type::ClassType(ClassType { class: self.stdlib.int, targs: TypeList::Nil });
                let mut elts: Vec<Type> = Vec::new();
                let mut k: u64 = 0;
                while k < *n
                    invariant
                        k <= *n,
                        int_ty == Type::ClassType(ClassType { class: self.stdlib.int, targs: TypeList::Nil }),
                        elts@ == Seq::new(k as nat, |_k: int| int_ty),
                    decreases *n - k,
                {
                    elts.push(Type::ClassType(ClassType { class: self.stdlib.int, targs: TypeList::Nil }));
                    k += 1;
                    assert(elts@ =~= Seq::new(k as nat, |_k: int| int_ty));
                }
                let mut r: Vec<Iterable> = Vec::new();
                r.push(Iterable::FixedLen(elts));
                assert(iterables_view(r@) =~= self.spec_unpacked_iterables(*ty));
                assert(self.spec_unpacked_not_iterable(*ty).map_values(f) =~= Seq::empty());
                assert(old(errors)@ + Seq::<TypeError>::empty() =~= old(errors)@);
                r
            },
            _ => self.iterate(ty, range, errors),
        }
    }

    /// Reports, at `range`, each iterable whose values cannot fill targets that need
    /// `expect` values; `ty` is the type of the value unpacked.
    pub fn check_unpacked_length(
        &self,
        ty: &Type,
        iterables: &Vec<Iterable>,
        expect: SizeExpectation,
        range: TextRange,
        errors: &mut ErrorCollector,
    )
        ensures
            final(errors)@ == old(errors)@ + length_errors(*ty, iterables_view(iterables@), expect, range),
    {
        let ghost its = iterables_view(iterables@);
        let mut i: usize = 0;
        while i < iterables.len()
            invariant
                i <= iterables@.len(),
                its == iterables_view(iterables@),
                errors@ == old(errors)@ + length_errors(*ty, its.take(i as int), expect, range),
            decreases iterables.len() - i,
        {
            proof {
                assert(its.take(i + 1).drop_last() =~= its.take(i as int));
                assert(its.take(i + 1).last() == iterables@[i as int]@);
            }
            let ghost before = errors@;
            match &iterables[i] {
                Iterable::OfType(_) => {},
                Iterable::Unpacked { prefix, suffix, .. } => {
                    if let SizeExpectation::Eq(n) = expect {
                        let plen = prefix.len();
                        let slen = suffix.len();
                        if n < plen || n - plen < slen {
                            errors.error(
                                ErrorKind::BadUnpacking,
                                range,
                                ErrorMsg::UnpackVariadic(ty.deep_clone(), plen, slen, expect),
                            );
                        }
                    }
                },
                Iterable::OfTypeVarTuple(_) => {
                    errors.error(
                        ErrorKind::BadUnpacking,
                        range,
                        ErrorMsg::UnpackUnknownSize(ty.deep_clone(), expect),
                    );
                },
                Iterable::FixedLen(ts) => {
                    if !crate::iterable::contains_never(ts) {
                        let wrong = match expect {
                            SizeExpectation::Eq(n) => ts.len() != n,
                            SizeExpectation::Ge(n) => ts.len() < n,
                        };
                        if wrong {
                            errors.error(
                                ErrorKind::BadUnpacking,
                                range,
                                ErrorMsg::UnpackFixed(ty.deep_clone(), ts.len(), expect),
                            );
                        }
                    }
                },
            }
            proof {
                let e = length_error(*ty, iterables@[i as int]@, expect, range);
                let tail = match e {
                    Some(x) => seq![x],
                    None => Seq::<TypeError>::empty(),
                };
                assert(errors@ =~= before + tail);
            }
            i += 1;
        }
        assert(its.take(i as int) =~= its);
    }

    /// Runs a check, reporting what it finds; `range` is where the check stands.
    pub fn solve_expectation(
        &self,
        binding: &BindingExpect,
        range: TextRange,
        errors: &mut ErrorCollector,
    ) -> (r: EmptyAnswer)
        ensures
            final(errors)@ == old(errors)@ + self.expectation_errors(*binding, range),
    {
        match binding {
            BindingExpect::UnpackedLength(iterable_ty, r, expect) => {
                // Iterable is `Never`: producing expression cannot complete, so this
                // unpacking is unreachable.
                if iterable_ty.is_never() {
                    assert(old(errors)@ + Seq::<TypeError>::empty() =~= old(errors)@);
                    return EmptyAnswer;
                }
                let iterables = self.unpacked_iterables(iterable_ty, *r, errors);
                let ghost mid = errors@;
                self.check_unpacked_length(iterable_ty, &iterables, *expect, *r, errors);
                assert(errors@ =~= old(errors)@ + self.expectation_errors(*binding, range));
            },
            BindingExpect::PrivateAttributeAccess { attr, attr_range, value_is_module, enclosing, has_static_attr } => {
                // Name mangling only occurs on attributes of classes; inside the defining
                // class, the class and its instances may use the attribute; an attribute
                // reachable only through `__getattr__` is not mangled either.
                let allowed = *value_is_module || match enclosing {
                    Some((None, _)) => true,
                    Some((Some(owner), of_owner)) => self.class_declares_field(*owner, *attr) && *of_owner,
                    None => false,
                };
                if allowed || !*has_static_attr {
                    assert(old(errors)@ + Seq::<TypeError>::empty() =~= old(errors)@);
                } else {
                    errors.error(ErrorKind::NoAccess, *attr_range, ErrorMsg::PrivateAttributeAccess(*attr));
                }
            },
            BindingExpect::UninitializedCheck { name, range: r, termination_types } => {
                // Check if all branches that appeared uninitialized at binding time actually
                // terminate due to Never/NoReturn.
                let mut all_terminate = true;
                let mut k: usize = 0;
                while k < termination_types.len()
                    invariant
                        k <= termination_types@.len(),
                        all_terminate == forall|j: int| 0 <= j < k ==> termination_types@[j] is Never,
                    decreases termination_types.len() - k,
                {
                    if !termination_types[k].is_never() {
                        all_terminate = false;
                    }
                    k += 1;
                }
                if !all_terminate {
                    errors.error(ErrorKind::UnboundName, *r, ErrorMsg::MayBeUninitialized(*name));
                } else {
                    assert(old(errors)@ + Seq::<TypeError>::empty() =~= old(errors)@);
                }
            },
            BindingExpect::Redefinition { new, existing, name, range: r } => {
                match (new, existing) {
                    (Some(t_new), Some(t_existing)) => {
                        if !t_new.same_as(t_existing) {
                            errors.error(
                                ErrorKind::Redefinition,
                                *r,
                                ErrorMsg::Redefinition(*name, t_new.deep_clone(), t_existing.deep_clone()),
                            );
                        } else {
                            assert(old(errors)@ + Seq::<TypeError>::empty() =~= old(errors)@);
                        }
                    },
                    _ => {
                        assert(old(errors)@ + Seq::<TypeError>::empty() =~= old(errors)@);
                    },
                }
            },
            BindingExpect::ForwardRefUnion {
                left,
                right,
                left_is_forward_ref,
                right_is_forward_ref,
                range: r,
            } => {
                // At runtime, `type.__or__` cannot handle string literals, so `int | "str"`
                // raises a TypeError.
                if (*left_is_forward_ref && plain_type(right)) || (*right_is_forward_ref
                    && plain_type(left)) {
                    errors.error(ErrorKind::InvalidAnnotation, *r, ErrorMsg::ForwardRefUnion);
                } else {
                    assert(old(errors)@ + Seq::<TypeError>::empty() =~= old(errors)@);
                }
            },
            BindingExpect::ImplicitAliasCheck { name, call, problem } => {
                let is_exempt = match call {
                    Some((result_ty, callable_ty)) => {
                        matches!(result_ty, Type::TypeVar(_) | Type::ParamSpec(_) | Type::TypeVarTuple(_))
                            || matches!(result_ty, Type::TypeOf(f) if matches!(&**f, Type::ClassType(_)))
                            || matches!(callable_ty, Type::ClassDef(_))
                    },
                    None => false,
                };
                if !is_exempt {
                    errors.error(
                        ErrorKind::InvalidAnnotation,
                        range,
                        ErrorMsg::InvalidImplicitAlias(*name, *problem),
                    );
                } else {
                    assert(old(errors)@ + Seq::<TypeError>::empty() =~= old(errors)@);
                }
            },
            BindingExpect::CheckRaisedException { exception, cause } => {
                self.check_is_exception(exception, false, errors);
                let ghost e1 = errors@;
                match cause {
                    Some(c) => self.check_is_exception(c, true, errors),
                    None => {},
                }
                assert(errors@ =~= old(errors)@ + self.expectation_errors(*binding, range));
            },
            BindingExpect::ValidateImplicitReturn { annotation, is_async, is_generator, implicit_assignable } => {
                self.check_implicit_return_against_annotation(annotation, *is_async, *is_generator, *implicit_assignable, range, errors);
            },
            BindingExpect::TypeCheckBaseClassExpr { value, range: r } => {
                self.check_base_class_expr(value, *r, errors);
            },
        }
        EmptyAnswer
    }
}


/// Unpacking a value of type `Never` (a producing expression that cannot complete) reports
/// nothing: the unpacking is unreachable.
pub proof fn law_unpacking_never_is_silent(solver: AnswersSolver, r: TextRange, expect: SizeExpectation, range: TextRange)
    ensures
        solver.expectation_errors(BindingExpect::UnpackedLength(Type::Never, r, expect), range) == Seq::<TypeError>::empty(),
{
}

} // verus!
