//! Untyping: turning the type of a value that was evaluated as a type expression into the
//! type it denotes (`type[int]` into `int`), or finding that it denotes none.

use vstd::prelude::*;
use crate::errors::{ErrorCollector, ErrorKind, ErrorMsg, TextRange, TypeError};
use crate::solver::{AnswersSolver, ClassScope};
use crate::alias::{TypeAlias, TypeAliasStyle};
use crate::type_form::{TypeFormContext, UntypeContext};
use crate::types::{AnyStyle, ClassType, Dim, QuantifiedKind, SpecialForm, Tuple, Type, TypeList};
use crate::union::{spec_unions, unions};

verus! {

broadcast use vstd::std_specs::vec::axiom_vec_index_decreases;

/// One error, as a sequence.
pub open spec fn one_error(kind: ErrorKind, range: TextRange, msg: ErrorMsg) -> Seq<TypeError> {
    seq![TypeError { kind, range, msg }]
}

/// Whether `inner` lies within `outer`.
pub open spec fn range_contains(outer: TextRange, inner: TextRange) -> bool {
    outer.start <= inner.start && inner.end <= outer.end
}

/// The innermost class body of `scopes` that holds `range`: the last one that does, since an
/// enclosing body is listed before the bodies nested in it.
pub open spec fn innermost_scope(scopes: Seq<ClassScope>, range: TextRange) -> Option<usize>
    decreases scopes.len(),
{
    if scopes.len() == 0 {
        None
    } else if range_contains(scopes.last().range, range) {
        Some(scopes.last().class_key)
    } else {
        innermost_scope(scopes.drop_last(), range)
    }
}

/// The kind and name of a type variable of any kind.
pub open spec fn variable_kind_and_name(ty: Type) -> Option<(QuantifiedKind, u64)> {
    match ty {
        Type::Quantified(q) => Some((q.kind, q.name)),
        Type::TypeVar(v) => Some((QuantifiedKind::TypeVar, v.name)),
        Type::ParamSpec(v) => Some((QuantifiedKind::ParamSpec, v.name)),
        Type::TypeVarTuple(v) => Some((QuantifiedKind::TypeVarTuple, v.name)),
        _ => None,
    }
}

/// Checking a type variable against the position it stands in: an `IntVar` cannot be an
/// ordinary type, and only an `IntVar` can stand in a dimension position. A variable in the
/// wrong place becomes an error `Any`; any other type is kept.
pub open spec fn spec_validate_variable_context(ty: Type, range: TextRange, context: UntypeContext) -> (Type, Seq<TypeError>) {
    match variable_kind_and_name(ty) {
        Some((kind, name)) => if kind == QuantifiedKind::IntVar && context == UntypeContext::Type {
            (Type::any_error(), one_error(ErrorKind::InvalidAnnotation, range, ErrorMsg::IntVarAsType(name)))
        } else if kind != QuantifiedKind::IntVar && context == UntypeContext::SymbolicInt {
            (Type::any_error(), one_error(ErrorKind::InvalidAnnotation, range, ErrorMsg::NotAnIntVar(name)))
        } else {
            (ty, Seq::empty())
        },
        None => (ty, Seq::empty()),
    }
}

/// `Some` of the type, with no error.
pub open spec fn accepted(t: Type) -> (Option<Type>, Seq<TypeError>) {
    (Some(t), Seq::empty())
}

/// `Some` of a checked variable.
pub open spec fn accepted_variable(ty: Type, range: TextRange, context: UntypeContext) -> (Option<Type>, Seq<TypeError>) {
    let (t, e) = spec_validate_variable_context(ty, range, context);
    (Some(t), e)
}

/// The instance type of the class `cls`, its type arguments the class's own parameters.
pub open spec fn own_params_list(ps: Seq<crate::solver::ClassTParam>) -> Seq<Type> {
    ps.map_values(|p: crate::solver::ClassTParam| Type::Quantified(p.quantified))
}

/// `tuple[int, ...]`: what an `IntTuple` is carried as at runtime.
pub open spec fn spec_bare_int_tuple_carrier(int_class: u64) -> Type {
    Type::Tuple(Tuple::Unbounded(Box::new(Type::ClassType(ClassType { class: int_class, targs: TypeList::Nil }))))
}

impl AnswersSolver {
    /// The class key of the innermost class body that holds `range`.
    pub open spec fn enclosing_class(self, range: TextRange) -> Option<usize> {
        innermost_scope(self.class_scopes@, range)
    }

    /// The type of an instance of `cls` inside its own body: its parameters as arguments.
    pub open spec fn spec_as_class_type_unchecked(self, cls: u64) -> ClassType {
        ClassType {
            class: cls,
            targs: if cls < self.classes@.len() {
                TypeList::from_seq(own_params_list(self.classes@[cls as int].tparams@))
            } else {
                TypeList::Nil
            },
        }
    }

    /// The class object `cls` used as a type: an instance of it, each of its type parameters
    /// given an implicit `Any`.
    pub open spec fn spec_promote_class(self, cls: u64) -> ClassType {
        ClassType {
            class: cls,
            targs: TypeList::from_seq(
                Seq::new(
                    if cls < self.classes@.len() {
                        self.classes@[cls as int].tparams@.len()
                    } else {
                        0
                    },
                    |i: int| Type::Any(AnyStyle::Implicit),
                ),
            ),
        }
    }

    /// `typing.Self` at `range`, as a type: `Self` of the innermost enclosing class. Outside
    /// any class it stays the bare special form, with an error; a class still being solved
    /// gives an error `Any`; in a metaclass it is reported but kept.
    pub open spec fn spec_untype_self(self, range: TextRange) -> (Type, Seq<TypeError>) {
        match self.enclosing_class(range) {
            None => (
                Type::SpecialForm(SpecialForm::SelfType),
                one_error(ErrorKind::InvalidAnnotation, range, ErrorMsg::SelfOutsideClass),
            ),
            Some(key) => match self.class_answer(key) {
                None => (
                    Type::any_error(),
                    one_error(ErrorKind::InvalidSelfType, range, ErrorMsg::SelfClassUnresolved),
                ),
                Some(cls) => (
                    Type::SelfType(self.spec_as_class_type_unchecked(cls)),
                    if self.metadata(cls).is_metaclass {
                        one_error(ErrorKind::InvalidAnnotation, range, ErrorMsg::SelfInMetaclass)
                    } else {
                        Seq::empty()
                    },
                ),
            },
        }
    }

    /// The type that a value of type `ty`, evaluated as a type expression at `range` in
    /// position `context`, denotes; `None` when it denotes no type. Unions are untyped member
    /// by member (and fail when one fails); `type[C]` gives `C`; type variables and the types
    /// that are their own forms are kept, after the position check.
    pub open spec fn spec_untype_opt(self, ty: Type, range: TextRange, context: UntypeContext) -> (Option<Type>, Seq<TypeError>)
        decreases ty, 1nat,
    {
        match ty {
            Type::Union(l) => if l is Nil {
                (None, Seq::empty())
            } else {
                let (r, e) = self.spec_untype_members(l, range, context);
                match r {
                    Some(ts) => (Some(spec_unions(ts)), e),
                    None => (None, e),
                }
            },
            Type::TypeVar(_) | Type::ParamSpec(_) | Type::TypeVarTuple(_) | Type::Args(_) | Type::Kwargs(_) => accepted_variable(ty, range, context),
            Type::TypeOf(t) => match *t {
                Type::ClassType(c) => if c.class == self.stdlib.shape_int_tuple {
                    accepted(Type::IntTuple)
                } else if c.class == self.stdlib.shape_int {
                    accepted(Type::Int(Dim::Gradual))
                } else if c.class == self.stdlib.none_type {
                    accepted(Type::NoneType)
                } else {
                    accepted_variable(*t, range, context)
                },
                Type::SpecialForm(SpecialForm::TypeForm) => accepted(Type::TypeForm(Box::new(Type::Any(AnyStyle::Implicit)))),
                Type::SpecialForm(SpecialForm::SelfType) => {
                    let (t2, e) = self.spec_untype_self(range);
                    (Some(t2), e)
                },
                _ => accepted_variable(*t, range, context),
            },
            Type::NoneType => accepted(Type::NoneType),
            Type::Ellipsis => accepted(Type::Ellipsis),
            Type::Any(style) => accepted(Type::Any(style.spec_propagate())),
            Type::UntypedAlias(_) => accepted(ty),
            Type::Unpack(inner) => if (*inner) is Tuple || (*inner) is TypeVarTuple || (*inner) is Quantified || (*inner) is UntypedAlias {
                accepted(ty)
            } else {
                (None, Seq::empty())
            },
            Type::Int(_) | Type::IntTuple => accepted(ty),
            Type::ClassDef(cls) => accepted_variable(Type::ClassType(self.spec_promote_class(cls)), range, context),
            Type::Annotated(t) => accepted_variable(*t, range, context),
            _ => (None, Seq::empty()),
        }
    }

    /// The members of a union, untyped one by one in order, stopping at the first that
    /// denotes no type.
    pub open spec fn spec_untype_members(self, l: TypeList, range: TextRange, context: UntypeContext) -> (Option<Seq<Type>>, Seq<TypeError>)
        decreases l, 0nat,
    {
        match l {
            TypeList::Nil => (Some(Seq::empty()), Seq::empty()),
            TypeList::Cons(h, t) => {
                let (r1, e1) = self.spec_untype_opt(*h, range, context);
                match r1 {
                    None => (None, e1),
                    Some(x) => {
                        let (r2, e2) = self.spec_untype_members(*t, range, context);
                        match r2 {
                            Some(xs) => (Some(seq![x] + xs), e1 + e2),
                            None => (None, e1 + e2),
                        }
                    },
                }
            },
        }
    }

    /// As [`Self::spec_untype_opt`], with a type that denotes none reported as `NotAType` and
    /// replaced with an error `Any`.
    pub open spec fn spec_untype(self, ty: Type, range: TextRange) -> (Type, Seq<TypeError>) {
        let (r, e) = self.spec_untype_opt(ty, range, UntypeContext::Type);
        match r {
            Some(t) => (t, e),
            None => (Type::any_error(), e + one_error(ErrorKind::NotAType, range, ErrorMsg::ExpectedTypeForm(ty))),
        }
    }
}

/// The innermost class body of `scopes` that holds `range`.
fn find_enclosing(scopes: &Vec<ClassScope>, range: TextRange) -> (r: Option<usize>)
    ensures
        r == innermost_scope(scopes@, range),
{
    let mut i: usize = scopes.len();
    assert(scopes@.take(i as int) =~= scopes@);
    while i > 0
        invariant
            i <= scopes@.len(),
            innermost_scope(scopes@, range) == innermost_scope(scopes@.take(i as int), range),
        decreases i,
    {
        let s = scopes[i - 1];
        assert(scopes@.take(i as int).drop_last() =~= scopes@.take(i - 1));
        if s.range.start <= range.start && range.end <= s.range.end {
            return Some(s.class_key);
        }
        i -= 1;
    }
    None
}

/// Checks a type variable against the position it stands in; see
/// [`spec_validate_variable_context`].
pub fn validate_untyped_type_var_context(
    ty: Type,
    range: TextRange,
    errors: &mut ErrorCollector,
    context: UntypeContext,
) -> (r: Type)
    ensures
        r == spec_validate_variable_context(ty, range, context).0,
        final(errors)@ == old(errors)@ + spec_validate_variable_context(ty, range, context).1,
{
    let kn: Option<(QuantifiedKind, u64)> = match &ty {
        Type::Quantified(q) => Some((q.kind, q.name)),
        Type::TypeVar(v) => Some((QuantifiedKind::TypeVar, v.name)),
        Type::ParamSpec(v) => Some((QuantifiedKind::ParamSpec, v.name)),
        Type::TypeVarTuple(v) => Some((QuantifiedKind::TypeVarTuple, v.name)),
        _ => None,
    };
    match kn {
        Some((kind, name)) => {
            if kind == QuantifiedKind::IntVar && context == UntypeContext::Type {
                errors.error(ErrorKind::InvalidAnnotation, range, ErrorMsg::IntVarAsType(name));
                return Type::Any(AnyStyle::Error);
            } else if kind != QuantifiedKind::IntVar && context == UntypeContext::SymbolicInt {
                errors.error(ErrorKind::InvalidAnnotation, range, ErrorMsg::NotAnIntVar(name));
                return Type::Any(AnyStyle::Error);
            }
        },
        None => {},
    }
    assert(old(errors)@ + Seq::<TypeError>::empty() =~= old(errors)@);
    ty
}

impl AnswersSolver {
    /// Whether `cls` is `shape_extensions.IntTuple`.
    pub fn is_int_tuple_class(&self, cls: u64) -> (r: bool)
        ensures
            r == (cls == self.stdlib.shape_int_tuple),
    {
        cls == self.stdlib.shape_int_tuple
    }

    /// `tuple[int, ...]`, the runtime carrier of an `IntTuple`.
    pub fn bare_int_tuple_carrier(&self) -> (r: Type)
        ensures
            r == spec_bare_int_tuple_carrier(self.stdlib.int),
    {
        Type::Tuple(Tuple::Unbounded(Box::new(Type::ClassType(ClassType { class: self.stdlib.int, targs: TypeList::Nil }))))
    }

    /// The instance type of `cls` inside its own body.
    pub fn as_class_type_unchecked(&self, cls: u64) -> (r: ClassType)
        ensures
            r == self.spec_as_class_type_unchecked(cls),
    {
        let mut ts: Vec<Type> = Vec::new();
        if cls < self.classes.len() as u64 {
            let ps = &self.classes[cls as usize].tparams;
            let mut i: usize = 0;
            while i < ps.len()
                invariant
                    i <= ps@.len(),
                    ts@ == own_params_list(ps@.take(i as int)),
                decreases ps.len() - i,
            {
                ts.push(Type::Quantified(ps[i].quantified));
                i += 1;
                assert(ts@ =~= own_params_list(ps@.take(i as int)));
            }
            assert(ps@.take(i as int) =~= ps@);
        }
        let targs = TypeList::from_vec(ts);
        proof {
            TypeList::lemma_from_seq(ts@);
            TypeList::lemma_seq_injective(targs, TypeList::from_seq(ts@));
        }
        ClassType { class: cls, targs }
    }

    /// The class object `cls` used as a type.
    pub fn promote_class(&self, cls: u64) -> (r: ClassType)
        ensures
            r == self.spec_promote_class(cls),
    {
        let n: usize = if cls < self.classes.len() as u64 {
            self.classes[cls as usize].tparams.len()
        } else {
            0
        };
        let ghost want = Seq::new(n as nat, |i: int| Type::Any(AnyStyle::Implicit));
        let mut ts: Vec<Type> = Vec::new();
        let mut i: usize = 0;
        while i < n
            invariant
                i <= n,
                want.len() == n,
                want == Seq::new(n as nat, |i: int| Type::Any(AnyStyle::Implicit)),
                ts@ == want.take(i as int),
            decreases n - i,
        {
            ts.push(Type::Any(AnyStyle::Implicit));
            i += 1;
            assert(ts@ =~= want.take(i as int));
        }
        assert(want.take(i as int) =~= want);
        let targs = TypeList::from_vec(ts);
        proof {
            TypeList::lemma_from_seq(ts@);
            TypeList::lemma_seq_injective(targs, TypeList::from_seq(ts@));
        }
        ClassType { class: cls, targs }
    }

    /// `typing.Self` at `range`, as a type; see [`Self::spec_untype_self`].
    pub fn untype_self(&self, range: TextRange, errors: &mut ErrorCollector) -> (r: Type)
        ensures
            r == self.spec_untype_self(range).0,
            final(errors)@ == old(errors)@ + self.spec_untype_self(range).1,
    {
        match find_enclosing(&self.class_scopes, range) {
            None => {
                errors.error(ErrorKind::InvalidAnnotation, range, ErrorMsg::SelfOutsideClass);
                Type::SpecialForm(SpecialForm::SelfType)
            },
            Some(key) => match self.get_class_answer(key) {
                None => {
                    errors.error(ErrorKind::InvalidSelfType, range, ErrorMsg::SelfClassUnresolved);
                    Type::Any(AnyStyle::Error)
                },
                Some(cls) => {
                    if self.get_metadata_for_class(cls).is_metaclass {
                        errors.error(ErrorKind::InvalidAnnotation, range, ErrorMsg::SelfInMetaclass);
                    } else {
                        assert(old(errors)@ + Seq::<TypeError>::empty() =~= old(errors)@);
                    }
                    Type::SelfType(self.as_class_type_unchecked(cls))
                },
            },
        }
    }

    /// The type that a value of type `ty`, evaluated as a type expression in an ordinary
    /// type position, denotes; `None` when it denotes no type.
    pub fn untype_opt(&self, ty: Type, range: TextRange, errors: &mut ErrorCollector) -> (r: Option<Type>)
        ensures
            r == self.spec_untype_opt(ty, range, UntypeContext::Type).0,
            final(errors)@ == old(errors)@ + self.spec_untype_opt(ty, range, UntypeContext::Type).1,
    {
        self.untype_opt_with_context(ty, range, errors, UntypeContext::Type)
    }

    /// As [`Self::untype_opt`], in position `context`.
    pub fn untype_opt_with_context(&self, ty: Type, range: TextRange, errors: &mut ErrorCollector, context: UntypeContext) -> (r: Option<Type>)
        ensures
            r == self.spec_untype_opt(ty, range, context).0,
            final(errors)@ == old(errors)@ + self.spec_untype_opt(ty, range, context).1,
    {
        self.untype_opt_with_context_impl(ty, range, errors, context)
    }

    /// See [`Self::spec_untype_opt`].
    fn untype_opt_with_context_impl(&self, ty: Type, range: TextRange, errors: &mut ErrorCollector, context: UntypeContext) -> (r: Option<Type>)
        ensures
            r == self.spec_untype_opt(ty, range, context).0,
            final(errors)@ == old(errors)@ + self.spec_untype_opt(ty, range, context).1,
        decreases ty, 1nat,
    {
        let ghost spec = self.spec_untype_opt(ty, range, context);
        match ty {
            Type::Union(l) => {
                if matches!(l, TypeList::Nil) {
                    assert(old(errors)@ + Seq::<TypeError>::empty() =~= old(errors)@);
                    return None;
                }
                let mut ts: Vec<Type> = Vec::new();
                let ok = self.untype_members(&l, range, errors, context, &mut ts);
                if ok {
                    Some(unions(ts))
                } else {
                    None
                }
            },
            Type::TypeVar(_) | Type::ParamSpec(_) | Type::TypeVarTuple(_) | Type::Args(_) | Type::Kwargs(_) => {
                Some(validate_untyped_type_var_context(ty, range, errors, context))
            },
            Type::TypeOf(t) => {
                let inner = *t;
                match inner {
                    Type::ClassType(c) => {
                        assert(old(errors)@ + Seq::<TypeError>::empty() =~= old(errors)@);
                        if self.is_int_tuple_class(c.class) {
                            Some(Type::IntTuple)
                        } else if c.class == self.stdlib.shape_int {
                            Some(Type::Int(Dim::Gradual))
                        } else if c.class == self.stdlib.none_type {
                            Some(Type::NoneType)
                        } else {
                            Some(validate_untyped_type_var_context(Type::ClassType(c), range, errors, context))
                        }
                    },
                    Type::SpecialForm(SpecialForm::TypeForm) => {
                        assert(old(errors)@ + Seq::<TypeError>::empty() =~= old(errors)@);
                        Some(Type::TypeForm(Box::new(Type::Any(AnyStyle::Implicit))))
                    },
                    Type::SpecialForm(SpecialForm::SelfType) => Some(self.untype_self(range, errors)),
                    other => Some(validate_untyped_type_var_context(other, range, errors, context)),
                }
            },
            Type::Unpack(inner) => {
                assert(old(errors)@ + Seq::<TypeError>::empty() =~= old(errors)@);
                if matches!(&*inner, Type::Tuple(_) | Type::TypeVarTuple(_) | Type::Quantified(_) | Type::UntypedAlias(_)) {
                    Some(Type::Unpack(inner))
                } else {
                    None
                }
            },
            Type::Any(style) => {
                assert(old(errors)@ + Seq::<TypeError>::empty() =~= old(errors)@);
                Some(Type::Any(style.propagate()))
            },
            Type::NoneType | Type::Ellipsis | Type::UntypedAlias(_) | Type::Int(_) | Type::IntTuple => {
                assert(old(errors)@ + Seq::<TypeError>::empty() =~= old(errors)@);
                Some(ty)
            },
            Type::ClassDef(cls) => {
                let promoted = self.promote_class(cls);
                Some(validate_untyped_type_var_context(Type::ClassType(promoted), range, errors, context))
            },
            Type::Annotated(t) => Some(validate_untyped_type_var_context(*t, range, errors, context)),
            _ => {
                assert(old(errors)@ + Seq::<TypeError>::empty() =~= old(errors)@);
                None
            },
        }
    }

    /// Untypes the members of `l` in order onto `out`, stopping at the first that denotes
    /// no type; returns whether all did.
    fn untype_members(&self, l: &TypeList, range: TextRange, errors: &mut ErrorCollector, context: UntypeContext, out: &mut Vec<Type>) -> (r: bool)
        ensures
            r == self.spec_untype_members(*l, range, context).0 is Some,
            r ==> final(out)@ == old(out)@ + self.spec_untype_members(*l, range, context).0->0,
            final(errors)@ == old(errors)@ + self.spec_untype_members(*l, range, context).1,
        decreases *l, 0nat,
    {
        match l {
            TypeList::Nil => {
                assert(old(errors)@ + Seq::<TypeError>::empty() =~= old(errors)@);
                assert(old(out)@ + Seq::<Type>::empty() =~= old(out)@);
                true
            },
            TypeList::Cons(h, t) => {
                let ghost e0 = errors@;
                match self.untype_opt_with_context_impl(h.deep_clone(), range, errors, context) {
                    None => false,
                    Some(x) => {
                        let ghost e1 = errors@;
                        let ghost o1 = out@;
                        out.push(x);
                        let ok = self.untype_members(t, range, errors, context, out);
                        proof {
                            assert(errors@ =~= old(errors)@ + self.spec_untype_members(*l, range, context).1);
                            if ok {
                                assert(out@ =~= old(out)@ + self.spec_untype_members(*l, range, context).0->0);
                            }
                        }
                        ok
                    },
                }
            },
        }
    }

    /// The type that a value of type `ty` denotes as a type expression; a value that denotes
    /// none is reported (`NotAType`) and gives an error `Any`.
    pub fn untype(&self, ty: Type, range: TextRange, errors: &mut ErrorCollector) -> (r: Type)
        ensures
            r == self.spec_untype(ty, range).0,
            final(errors)@ == old(errors)@ + self.spec_untype(ty, range).1,
    {
        let copy = ty.deep_clone();
        match self.untype_opt(ty, range, errors) {
            Some(t) => t,
            None => {
                let ghost e1 = errors@;
                errors.error(ErrorKind::NotAType, range, ErrorMsg::ExpectedTypeForm(copy));
                assert(errors@ =~= old(errors)@ + self.spec_untype(copy, range).1);
                Type::Any(AnyStyle::Error)
            },
        }
    }
}


/// Evaluating a class as a value gives `type[C]`; untyping that gives back the instance type
/// `C`, with no error, in every position (but for the classes that stand for shapes and
/// `NoneType`, which untype to their own forms).
pub proof fn law_untype_of_type_of_class(solver: AnswersSolver, c: ClassType, range: TextRange, context: UntypeContext)
    requires
        c.class != solver.stdlib.shape_int_tuple,
        c.class != solver.stdlib.shape_int,
        c.class != solver.stdlib.none_type,
    ensures
        solver.spec_untype_opt(solver.spec_type_of(Type::ClassType(c)), range, context) == (Some(Type::ClassType(c)), Seq::<TypeError>::empty()),
{
}

/// A value that is no type (such as an instance of a class) untypes to nothing, with no
/// error; `untype` then reports it once and gives the error type.
pub proof fn law_untype_instance_is_not_a_type(solver: AnswersSolver, c: ClassType, range: TextRange)
    ensures
        solver.spec_untype_opt(Type::ClassType(c), range, UntypeContext::Type) == (Option::<Type>::None, Seq::<TypeError>::empty()),
        solver.spec_untype(Type::ClassType(c), range) == (
            Type::any_error(),
            one_error(ErrorKind::NotAType, range, ErrorMsg::ExpectedTypeForm(Type::ClassType(c))),
        ),
{
    assert(Seq::<TypeError>::empty() + one_error(ErrorKind::NotAType, range, ErrorMsg::ExpectedTypeForm(Type::ClassType(c)))
        =~= one_error(ErrorKind::NotAType, range, ErrorMsg::ExpectedTypeForm(Type::ClassType(c))));
}

impl AnswersSolver {
    /// The scoped alias (`type X = ...`) of this module that `t` refers to, if it is one.
    pub open spec fn spec_scoped_alias(self, t: Type) -> Option<TypeAlias> {
        match t {
            Type::UntypedAlias(r) => if r.module == self.module && r.index < self.type_aliases@.len()
                && self.type_aliases@[r.index as int].style == TypeAliasStyle::Scoped {
                Some(self.type_aliases@[r.index as int])
            } else {
                None
            },
            _ => None,
        }
    }

    /// The type that a value of type `inferred`, evaluated as a type expression at `range` in
    /// position `context`, denotes: a scoped alias may not be a base class; a value that
    /// denotes no type is reported and gives the error type.
    pub open spec fn spec_untype_runtime_type(self, inferred: Type, range: TextRange, context: TypeFormContext) -> (Type, Seq<TypeError>) {
        match self.spec_scoped_alias(inferred) {
            Some(ta) if context is BaseClassList => (
                Type::any_error(),
                one_error(ErrorKind::InvalidInheritance, range, ErrorMsg::ScopedAliasAsBase(ta.name)),
            ),
            _ => {
                let uc = if context is GenericBase { UntypeContext::GenericBase } else { UntypeContext::Type };
                let (r, e) = self.spec_untype_opt(inferred, range, uc);
                match r {
                    Some(t) => (t, e),
                    None => (Type::any_error(), e + one_error(ErrorKind::NotAType, range, ErrorMsg::ExpectedTypeForm(inferred))),
                }
            },
        }
    }

    /// The name of the scoped alias of this module that `t` refers to, if it is one.
    fn scoped_alias_name(&self, t: &Type) -> (r: Option<u64>)
        ensures
            r == (match self.spec_scoped_alias(*t) {
                Some(ta) => Some(ta.name),
                None => None,
            }),
    {
        match t {
            Type::UntypedAlias(r) => {
                if r.module == self.module && r.index < self.type_aliases.len() as u64 {
                    let ta = &self.type_aliases[r.index as usize];
                    if ta.style == TypeAliasStyle::Scoped {
                        return Some(ta.name);
                    }
                }
                None
            },
            _ => None,
        }
    }

    /// The type that a value of type `inferred` denotes as a type expression; see
    /// [`Self::spec_untype_runtime_type`].
    pub fn untype_runtime_type(&self, inferred: Type, range: TextRange, context: TypeFormContext, errors: &mut ErrorCollector) -> (r: Type)
        ensures
            r == self.spec_untype_runtime_type(inferred, range, context).0,
            final(errors)@ == old(errors)@ + self.spec_untype_runtime_type(inferred, range, context).1,
    {
        if matches!(context, TypeFormContext::BaseClassList) {
            if let Some(name) = self.scoped_alias_name(&inferred) {
                errors.error(ErrorKind::InvalidInheritance, range, ErrorMsg::ScopedAliasAsBase(name));
                return Type::Any(AnyStyle::Error);
            }
        }
        let copy = inferred.deep_clone();
        match self.untype_opt_with_context(inferred, range, errors, context.untype_context()) {
            Some(t) => t,
            None => {
                let ghost e1 = errors@;
                errors.error(ErrorKind::NotAType, range, ErrorMsg::ExpectedTypeForm(copy));
                assert(errors@ =~= old(errors)@ + self.spec_untype_runtime_type(copy, range, context).1);
                Type::Any(AnyStyle::Error)
            },
        }
    }
}

impl AnswersSolver {
    /// The type an alias stands for: its value untyped (it was checked when the alias was
    /// made, so nothing is reported).
    pub fn untype_alias(&self, ta: &TypeAlias) -> (r: Type)
        ensures
            r == self.spec_untype(ta.ty, TextRange { start: 0, end: 0 }).0,
    {
        let mut swallowed = ErrorCollector::new();
        self.untype(ta.ty.deep_clone(), TextRange { start: 0, end: 0 }, &mut swallowed)
    }
}


/// Whether `c` may stand in a simple identifier: an ASCII letter or digit, or `_`.
pub open spec fn identifier_char(c: char) -> bool {
    ('a' <= c && c <= 'z') || ('A' <= c && c <= 'Z') || ('0' <= c && c <= '9') || c == '_'
}

/// Whether `s` is a non-empty run of identifier characters.
pub open spec fn is_simple_identifier(s: Seq<char>) -> bool {
    s.len() > 0 && forall|i: int| 0 <= i < s.len() ==> identifier_char(#[trigger] s[i])
}

/// Whether `s` is a simple identifier; see [`is_simple_identifier`].
pub fn simple_identifier(s: &Vec<char>) -> (r: bool)
    ensures
        r == is_simple_identifier(s@),
{
    if s.len() == 0 {
        return false;
    }
    let mut i: usize = 0;
    while i < s.len()
        invariant
            i <= s@.len(),
            forall|k: int| 0 <= k < i ==> identifier_char(#[trigger] s@[k]),
        decreases s.len() - i,
    {
        let c = s[i];
        if !(('a' <= c && c <= 'z') || ('A' <= c && c <= 'Z') || ('0' <= c && c <= '9') || c == '_') {
            assert(!identifier_char(s@[i as int]));
            return false;
        }
        i += 1;
    }
    true
}

/// A string literal where a `TypeForm` may be expected, with what resolving it needs: the
/// literal's text (none for an expression that is not a single-part string literal), where
/// it stands, the types of the exports of that name in this module and in `builtins`
/// (none where there is no such export), the hint, the solver's verdict on whether the
/// `TypeForm` found is assignable to the hint, the kind the caller's type-check context
/// reports a mismatch with, and where a mismatch is reported.
pub struct StringTypeForm {
    pub value: Option<Vec<char>>,
    pub expr_range: TextRange,
    pub module_export: Option<Type>,
    pub builtins_export: Option<Type>,
    pub hint: Type,
    pub assignable: bool,
    pub mismatch_kind: ErrorKind,
    pub range: TextRange,
}

impl AnswersSolver {
    /// A string literal as a forward reference to a type form (PEP 747): only a simple
    /// identifier is tried; it names an export of this module, else of `builtins`; that
    /// export, untyped (its errors not reported), gives `TypeForm[T]`, which is checked
    /// against the hint. Otherwise none.
    pub open spec fn spec_string_literal_as_typeform(self, x: StringTypeForm) -> (Option<Type>, Seq<TypeError>) {
        match x.value {
            None => (None, Seq::empty()),
            Some(v) => if !is_simple_identifier(v@) {
                (None, Seq::empty())
            } else {
                let export = match x.module_export {
                    Some(t) => Some(t),
                    None => x.builtins_export,
                };
                match export {
                    None => (None, Seq::empty()),
                    Some(t) => match self.spec_untype_opt(t, x.expr_range, UntypeContext::Type).0 {
                        None => (None, Seq::empty()),
                        Some(u) => {
                            let tf = Type::TypeForm(Box::new(u));
                            (
                                Some(tf),
                                if x.assignable {
                                    Seq::empty()
                                } else {
                                    one_error(x.mismatch_kind, x.range, ErrorMsg::TypeFormMismatch(tf, x.hint))
                                },
                            )
                        },
                    },
                }
            },
        }
    }

    /// A string literal as a forward reference to a type form; see
    /// [`Self::spec_string_literal_as_typeform`].
    pub fn try_string_literal_as_typeform(&self, x: &StringTypeForm, errors: &mut ErrorCollector) -> (r: Option<Type>)
        ensures
            r == self.spec_string_literal_as_typeform(*x).0,
            final(errors)@ == old(errors)@ + self.spec_string_literal_as_typeform(*x).1,
    {
        assert(old(errors)@ + Seq::<TypeError>::empty() =~= old(errors)@);
        let v = match &x.value {
            Some(v) => v,
            None => return None,
        };
        // Only simple identifiers are handled.
        if !simple_identifier(v) {
            return None;
        }
        let export = match &x.module_export {
            Some(t) => t.deep_clone(),
            None => match &x.builtins_export {
                Some(t) => t.deep_clone(),
                None => return None,
            },
        };
        let mut silent = ErrorCollector::new();
        let u = match self.untype_opt(export, x.expr_range, &mut silent) {
            Some(u) => u,
            None => return None,
        };
        let tf = Type::TypeForm(Box::new(u));
        if !x.assignable {
            errors.error(x.mismatch_kind, x.range, ErrorMsg::TypeFormMismatch(tf.deep_clone(), x.hint.deep_clone()));
        }
        Some(tf)
    }
}

} // verus!
