//! The type language the solver works on.
//!
//! Types are plain values: classes, aliases and type variables are identified by integers
//! (interned identities), and every compound type holds its members in a [`TypeList`], so that
//! two types are equal exactly when they are built alike.

use vstd::prelude::*;

verus! {

/// How an `Any` came about.
#[derive(Clone, Copy, PartialEq, Eq, Structural, Debug)]
pub enum AnyStyle {
    /// Written by the user.
    Explicit,
    /// Inferred where nothing better is known.
    Implicit,
    /// Produced after an error was reported.
    Error,
}

impl AnyStyle {
    /// The style an `Any` takes when it flows onward: an explicit `Any` becomes implicit.
    pub open spec fn spec_propagate(self) -> AnyStyle {
        match self {
            AnyStyle::Explicit => AnyStyle::Implicit,
            s => s,
        }
    }

    pub fn propagate(self) -> (r: AnyStyle)
        ensures r == self.spec_propagate(),
    {
        match self {
            AnyStyle::Explicit => AnyStyle::Implicit,
            s => s,
        }
    }
}

/// The kind of a type parameter.
#[derive(Clone, Copy, PartialEq, Eq, Structural, Debug)]
pub enum QuantifiedKind {
    TypeVar,
    ParamSpec,
    TypeVarTuple,
    IntVar,
}

/// The special forms of the `typing` module that the solver distinguishes.
#[derive(Clone, Copy, PartialEq, Eq, Structural, Debug)]
pub enum SpecialForm {
    Annotated,
    Callable,
    ClassVar,
    Concatenate,
    Final,
    Generic,
    Literal,
    LiteralString,
    Never,
    NoReturn,
    NotRequired,
    Optional,
    Protocol,
    ReadOnly,
    Required,
    SelfType,
    Tuple,
    Type,
    TypeAlias,
    TypeForm,
    TypeGuard,
    TypeIs,
    TypedDict,
    Union,
    Unpack,
}

/// A qualifier that can wrap an annotation.
#[derive(Clone, Copy, PartialEq, Eq, Structural, Debug)]
pub enum Qualifier {
    Required,
    NotRequired,
    ReadOnly,
    ClassVar,
    Final,
    InitVar,
    Annotated,
    TypeAlias,
}

impl SpecialForm {
    /// The qualifier a special form stands for, if it is one.
    pub open spec fn spec_to_qualifier(self) -> Option<Qualifier> {
        match self {
            SpecialForm::Annotated => Some(Qualifier::Annotated),
            SpecialForm::ClassVar => Some(Qualifier::ClassVar),
            SpecialForm::NotRequired => Some(Qualifier::NotRequired),
            SpecialForm::Required => Some(Qualifier::Required),
            SpecialForm::ReadOnly => Some(Qualifier::ReadOnly),
            SpecialForm::TypeAlias => Some(Qualifier::TypeAlias),
            SpecialForm::Final => Some(Qualifier::Final),
            _ => None,
        }
    }

    pub fn to_qualifier(self) -> (r: Option<Qualifier>)
        ensures r == self.spec_to_qualifier(),
    {
        match self {
            SpecialForm::Annotated => Some(Qualifier::Annotated),
            SpecialForm::ClassVar => Some(Qualifier::ClassVar),
            SpecialForm::NotRequired => Some(Qualifier::NotRequired),
            SpecialForm::Required => Some(Qualifier::Required),
            SpecialForm::ReadOnly => Some(Qualifier::ReadOnly),
            SpecialForm::TypeAlias => Some(Qualifier::TypeAlias),
            SpecialForm::Final => Some(Qualifier::Final),
            _ => None,
        }
    }

    /// Whether the special form takes type arguments (`Final[int]`, `Callable[..., T]`).
    pub open spec fn spec_can_be_subscripted(self) -> bool {
        !matches!(
            self,
            SpecialForm::LiteralString | SpecialForm::Never | SpecialForm::NoReturn
                | SpecialForm::SelfType | SpecialForm::TypeAlias | SpecialForm::TypedDict
        )
    }

    pub fn can_be_subscripted(self) -> (r: bool)
        ensures r == self.spec_can_be_subscripted(),
    {
        !matches!(
            self,
            SpecialForm::LiteralString | SpecialForm::Never | SpecialForm::NoReturn
                | SpecialForm::SelfType | SpecialForm::TypeAlias | SpecialForm::TypedDict
        )
    }
}

/// A legacy type variable, as created by a `TypeVar(...)` call.
/// `id` is its identity; `decl_start` is where its declaration starts in the module.
#[derive(Clone, Copy, PartialEq, Eq, Structural, Debug)]
pub struct TypeVar {
    pub id: u64,
    pub name: u64,
    pub decl_start: u32,
}

/// How a type parameter came to be bound.
#[derive(Clone, Copy, PartialEq, Eq, Structural, Debug)]
pub enum QuantifiedOrigin {
    /// A legacy type variable that a scope (a function, class or alias) binds.
    ScopedLegacy,
    /// A parameter of a PEP 695 type parameter list.
    Scoped,
}

/// What tells two type parameters apart: the module, the place of the scope that binds it
/// (`anchor_start`..`anchor_end`), an ordinal within that scope, and its origin.
#[derive(Clone, Copy, PartialEq, Eq, Structural, Debug)]
pub struct QuantifiedIdentity {
    pub module: u64,
    pub anchor_start: u32,
    pub anchor_end: u32,
    pub ordinal: u32,
    pub origin: QuantifiedOrigin,
}

/// A bound type parameter.
#[derive(Clone, Copy, PartialEq, Eq, Structural, Debug)]
pub struct Quantified {
    pub identity: QuantifiedIdentity,
    pub name: u64,
    pub kind: QuantifiedKind,
}

/// A reference, inside an alias body, to a type alias by name.
#[derive(Clone, Copy, PartialEq, Eq, Structural, Debug)]
pub struct AliasRef {
    pub name: u64,
    pub module: u64,
    pub index: u64,
}

/// A literal value's type. Strings and bytes carry their length.
#[derive(Clone, Copy, PartialEq, Eq, Structural, Debug)]
pub enum Lit {
    /// A string literal, with its length in characters (Unicode scalar values).
    Str(u64),
    /// A bytes literal, with its length in bytes.
    Bytes(u64),
    Int(i64),
    Bool(bool),
}

/// A tensor dimension: a known size, or a gradual one.
#[derive(Clone, Copy, PartialEq, Eq, Structural, Debug)]
pub enum Dim {
    Size(i64),
    Gradual,
}

/// The members of a compound type, in order.
#[derive(Debug, PartialEq)]
pub enum TypeList {
    Nil,
    Cons(Box<Type>, Box<TypeList>),
}

/// An instance of a class, with its type arguments.
#[derive(Debug, PartialEq)]
pub struct ClassType {
    pub class: u64,
    pub targs: TypeList,
}

/// The three shapes of a tuple type.
#[derive(Debug, PartialEq)]
pub enum Tuple {
    /// `tuple[A, B, C]`
    Concrete(TypeList),
    /// `tuple[A, ...]`
    Unbounded(Box<Type>),
    /// `tuple[A, *Ts, B]`: a fixed prefix, a variadic middle and a fixed suffix.
    Unpacked(TypeList, Box<Type>, TypeList),
}

/// The second argument of a `super(...)` call: an instance, or a class.
#[derive(Debug, PartialEq)]
pub enum SuperObj {
    Instance(ClassType),
    Class(ClassType),
}

/// A type.
#[derive(Debug, PartialEq)]
pub enum Type {
    Any(AnyStyle),
    Never,
    NoneType,
    Ellipsis,
    /// An instance of a class.
    ClassType(ClassType),
    /// `Self` bound to a class.
    SelfType(ClassType),
    /// A class object.
    ClassDef(u64),
    /// `type[T]`: the value of an expression that denotes the type `T`.
    TypeOf(Box<Type>),
    Union(TypeList),
    Tuple(Tuple),
    /// A callable with its parameter types and its return type.
    Callable(TypeList, Box<Type>),
    TypeVar(TypeVar),
    TypeVarTuple(TypeVar),
    ParamSpec(TypeVar),
    Quantified(Quantified),
    Unpack(Box<Type>),
    /// `Annotated[T, ...]`; the metadata is not kept.
    Annotated(Box<Type>),
    SpecialForm(SpecialForm),
    /// A not yet expanded reference to a type alias.
    UntypedAlias(AliasRef),
    /// `P.args` of a ParamSpec.
    Args(u64),
    /// `P.kwargs` of a ParamSpec.
    Kwargs(u64),
    TypedDict(u64),
    Literal(Lit),
    LiteralString,
    Int(Dim),
    /// An element of the tuple that a TypeVarTuple stands for.
    ElementOfTypeVarTuple(Quantified),
    /// The value of `super(...)`: attribute lookup starts at the class, on behalf of the object.
    SuperInstance(ClassType, SuperObj),
    /// A tuple of symbolic integers whose shape is not known.
    IntTuple,
    /// `TypeForm[T]`: a value that is a type expression for `T`.
    TypeForm(Box<Type>),
    /// A generic callable: the type parameters it binds (each a `Quantified`), and the
    /// callable.
    Forall(TypeList, Box<Type>),
}

impl TypeList {
    /// The members, as a sequence.
    pub open spec fn seq(self) -> Seq<Type>
        decreases self,
    {
        match self {
            TypeList::Nil => Seq::empty(),
            TypeList::Cons(h, t) => seq![*h] + t.seq(),
        }
    }

    /// The list holding the members of `s`, in order.
    pub open spec fn from_seq(s: Seq<Type>) -> TypeList
        decreases s.len(),
    {
        if s.len() == 0 {
            TypeList::Nil
        } else {
            TypeList::Cons(Box::new(s[0]), Box::new(TypeList::from_seq(s.drop_first())))
        }
    }

    pub proof fn lemma_from_seq(s: Seq<Type>)
        ensures
            TypeList::from_seq(s).seq() == s,
        decreases s.len(),
    {
        if s.len() > 0 {
            TypeList::lemma_from_seq(s.drop_first());
            assert(seq![s[0]] + s.drop_first() =~= s);
        }
    }

    pub proof fn lemma_seq_injective(a: TypeList, b: TypeList)
        requires
            a.seq() == b.seq(),
        ensures
            a == b,
        decreases a,
    {
        match (a, b) {
            (TypeList::Cons(ha, ta), TypeList::Cons(hb, tb)) => {
                assert(a.seq()[0] == *ha);
                assert(b.seq()[0] == *hb);
                assert(ta.seq() =~= a.seq().drop_first());
                assert(tb.seq() =~= b.seq().drop_first());
                TypeList::lemma_seq_injective(*ta, *tb);
            },
            (TypeList::Nil, TypeList::Cons(_, _)) => {
                assert(b.seq().len() > 0);
            },
            (TypeList::Cons(_, _), TypeList::Nil) => {
                assert(a.seq().len() > 0);
            },
            _ => {},
        }
    }
}


/// A property of a single type node, tested by [`type_any`] at every node of a type.
#[derive(Clone, Copy, PartialEq, Eq, Structural, Debug)]
pub enum TypePred {
    /// A legacy type variable, ParamSpec, TypeVarTuple, or a bound type parameter.
    TypeVariable,
    /// An explicit `Any`.
    ExplicitAny,
    /// The bare `typing.Self` special form.
    SelfForm,
    /// `Self` bound to a class.
    BoundSelf,
    /// An instance of the given class.
    InstanceOf(u64),
    /// A legacy type variable, ParamSpec or TypeVarTuple (not yet bound to a parameter).
    LegacyVariable,
}

impl TypePred {
    pub open spec fn holds(self, t: Type) -> bool {
        match self {
            TypePred::TypeVariable => t is TypeVar || t is TypeVarTuple || t is ParamSpec
                || t is Quantified,
            TypePred::ExplicitAny => t == Type::Any(AnyStyle::Explicit),
            TypePred::SelfForm => t == Type::SpecialForm(SpecialForm::SelfType),
            TypePred::BoundSelf => t is SelfType,
            TypePred::InstanceOf(cls) => t matches Type::ClassType(c) && c.class == cls,
            TypePred::LegacyVariable => t is TypeVar || t is TypeVarTuple || t is ParamSpec,
        }
    }
}

/// Does `p` hold at some node of `t` (`t` itself or a type nested in it)?
pub open spec fn type_any(t: Type, p: TypePred) -> bool
    decreases t,
{
    p.holds(t) || match t {
        Type::ClassType(c) => list_any(c.targs, p),
        Type::SelfType(c) => list_any(c.targs, p),
        Type::TypeOf(b) => type_any(*b, p),
        Type::Union(l) => list_any(l, p),
        Type::Tuple(Tuple::Concrete(l)) => list_any(l, p),
        Type::Tuple(Tuple::Unbounded(b)) => type_any(*b, p),
        Type::Tuple(Tuple::Unpacked(pre, m, suf)) => list_any(pre, p) || type_any(*m, p)
            || list_any(suf, p),
        Type::Callable(ps, r) => list_any(ps, p) || type_any(*r, p),
        Type::Unpack(b) => type_any(*b, p),
        Type::Annotated(b) => type_any(*b, p),
        Type::TypeForm(b) => type_any(*b, p),
        Type::Forall(_, b) => type_any(*b, p),
        _ => false,
    }
}

/// Does `p` hold at some node of some member of `l`?
pub open spec fn list_any(l: TypeList, p: TypePred) -> bool
    decreases l,
{
    match l {
        TypeList::Nil => false,
        TypeList::Cons(h, t) => type_any(*h, p) || list_any(*t, p),
    }
}

impl Type {
    /// Whether the type denotes a ParamSpec (a parameter list).
    pub open spec fn spec_is_kind_param_spec(self) -> bool {
        match self {
            Type::Ellipsis | Type::ParamSpec(_) => true,
            Type::Quantified(q) => q.kind == QuantifiedKind::ParamSpec,
            _ => false,
        }
    }

    /// Whether the type denotes a TypeVarTuple.
    pub open spec fn spec_is_kind_type_var_tuple(self) -> bool {
        match self {
            Type::TypeVarTuple(_) => true,
            Type::Quantified(q) => q.kind == QuantifiedKind::TypeVarTuple,
            _ => false,
        }
    }

    /// The type reported after an error.
    pub open spec fn any_error() -> Type {
        Type::Any(AnyStyle::Error)
    }

    /// The gradual dimension size.
    pub open spec fn gradual_size() -> Type {
        Type::Int(Dim::Gradual)
    }
}

} // verus!
