//! Copying types and moving their members between lists and vectors.

use vstd::prelude::*;
use crate::types::{
    list_any, type_any, AnyStyle, ClassType, Dim, QuantifiedKind, SpecialForm, SuperObj, Tuple,
    Type, TypeList, TypePred,
};

verus! {

impl TypeList {
    /// The members, copied into a vector.
    pub fn to_vec(&self) -> (r: Vec<Type>)
        ensures
            r@ == self.seq(),
    {
        let mut r: Vec<Type> = Vec::new();
        let mut cur = self;
        loop
            invariant
                r@ + cur.seq() == self.seq(),
            decreases cur.seq().len(),
        {
            match cur {
                TypeList::Nil => {
                    assert(r@ =~= self.seq());
                    return r;
                },
                TypeList::Cons(h, t) => {
                    let x = h.deep_clone();
                    proof {
                        assert(r@.push(x) + t.seq() =~= r@ + cur.seq());
                    }
                    r.push(x);
                    cur = t;
                },
            }
        }
    }

    /// The list holding the members of `v`, in order.
    pub fn from_vec(v: Vec<Type>) -> (r: TypeList)
        ensures
            r.seq() == v@,
    {
        let ghost orig = v@;
        let mut v = v;
        let mut l = TypeList::Nil;
        while v.len() > 0
            invariant
                v@ + l.seq() == orig,
            decreases v.len(),
        {
            let ghost before = v@;
            let x = v.pop().unwrap();
            proof {
                assert(v@.push(x) =~= before);
            }
            let ghost prev = l.seq();
            l = TypeList::Cons(Box::new(x), Box::new(l));
            proof {
                assert(l.seq() =~= seq![x] + prev);
                assert(v@ + l.seq() =~= before + prev);
            }
        }
        assert(l.seq() =~= orig);
        l
    }

    /// The number of members.
    pub fn len(&self) -> (r: usize)
        requires
            self.seq().len() <= usize::MAX,
        ensures
            r == self.seq().len(),
    {
        let mut n: usize = 0;
        let mut cur = self;
        loop
            invariant
                n + cur.seq().len() == self.seq().len(),
                self.seq().len() <= usize::MAX,
            decreases cur.seq().len(),
        {
            match cur {
                TypeList::Nil => return n,
                TypeList::Cons(_, t) => {
                    n = n + 1;
                    cur = t;
                },
            }
        }
    }

    pub fn deep_clone(&self) -> (r: TypeList)
        ensures
            r == *self,
        decreases self,
    {
        match self {
            TypeList::Nil => TypeList::Nil,
            TypeList::Cons(h, t) => TypeList::Cons(Box::new(h.deep_clone()), Box::new(t.deep_clone())),
        }
    }
}

impl ClassType {
    pub fn deep_clone(&self) -> (r: ClassType)
        ensures
            r == *self,
        decreases self,
    {
        ClassType { class: self.class, targs: self.targs.deep_clone() }
    }
}

impl SuperObj {
    pub fn deep_clone(&self) -> (r: SuperObj)
        ensures
            r == *self,
        decreases self,
    {
        match self {
            SuperObj::Instance(c) => SuperObj::Instance(c.deep_clone()),
            SuperObj::Class(c) => SuperObj::Class(c.deep_clone()),
        }
    }

    pub fn same_as(&self, other: &SuperObj) -> (r: bool)
        ensures
            r == (*self == *other),
        decreases self,
    {
        match (self, other) {
            (SuperObj::Instance(a), SuperObj::Instance(b)) => a.same_as(b),
            (SuperObj::Class(a), SuperObj::Class(b)) => a.same_as(b),
            _ => false,
        }
    }
}

impl Tuple {
    pub fn deep_clone(&self) -> (r: Tuple)
        ensures
            r == *self,
        decreases self,
    {
        match self {
            Tuple::Concrete(ts) => Tuple::Concrete(ts.deep_clone()),
            Tuple::Unbounded(t) => Tuple::Unbounded(Box::new(t.deep_clone())),
            Tuple::Unpacked(p, m, s) => Tuple::Unpacked(
                p.deep_clone(),
                Box::new(m.deep_clone()),
                s.deep_clone(),
            ),
        }
    }
}

impl Type {
    /// A copy of the type.
    pub fn deep_clone(&self) -> (r: Type)
        ensures
            r == *self,
        decreases self,
    {
        match self {
            Type::Any(s) => Type::Any(*s),
            Type::Never => Type::Never,
            Type::NoneType => Type::NoneType,
            Type::Ellipsis => Type::Ellipsis,
            Type::ClassType(c) => Type::ClassType(c.deep_clone()),
            Type::SelfType(c) => Type::SelfType(c.deep_clone()),
            Type::ClassDef(c) => Type::ClassDef(*c),
            Type::TypeOf(t) => Type::TypeOf(Box::new(t.deep_clone())),
            Type::Union(ts) => Type::Union(ts.deep_clone()),
            Type::Tuple(t) => Type::Tuple(t.deep_clone()),
            Type::Callable(ps, r) => Type::Callable(ps.deep_clone(), Box::new(r.deep_clone())),
            Type::TypeVar(v) => Type::TypeVar(*v),
            Type::TypeVarTuple(v) => Type::TypeVarTuple(*v),
            Type::ParamSpec(v) => Type::ParamSpec(*v),
            Type::Quantified(q) => Type::Quantified(*q),
            Type::Unpack(t) => Type::Unpack(Box::new(t.deep_clone())),
            Type::Annotated(t) => Type::Annotated(Box::new(t.deep_clone())),
            Type::SpecialForm(s) => Type::SpecialForm(*s),
            Type::UntypedAlias(a) => Type::UntypedAlias(*a),
            Type::Args(p) => Type::Args(*p),
            Type::Kwargs(p) => Type::Kwargs(*p),
            Type::TypedDict(d) => Type::TypedDict(*d),
            Type::Literal(l) => Type::Literal(*l),
            Type::LiteralString => Type::LiteralString,
            Type::Int(d) => Type::Int(*d),
            Type::ElementOfTypeVarTuple(q) => Type::ElementOfTypeVarTuple(*q),
            Type::SuperInstance(c, o) => Type::SuperInstance(c.deep_clone(), o.deep_clone()),
            Type::IntTuple => Type::IntTuple,
            Type::TypeForm(t) => Type::TypeForm(Box::new(t.deep_clone())),
            Type::Forall(ps, t) => Type::Forall(ps.deep_clone(), Box::new(t.deep_clone())),
        }
    }
}

/// Copies of the types in `v`.
pub fn clone_types(v: &Vec<Type>) -> (r: Vec<Type>)
    ensures
        r@ == v@,
{
    let mut r: Vec<Type> = Vec::new();
    let mut i: usize = 0;
    while i < v.len()
        invariant
            i <= v.len(),
            r@ == v@.take(i as int),
        decreases v.len() - i,
    {
        r.push(v[i].deep_clone());
        i += 1;
        assert(r@ =~= v@.take(i as int));
    }
    assert(v@.take(i as int) =~= v@);
    r
}


impl TypePred {
    pub fn test(self, t: &Type) -> (r: bool)
        ensures
            r == self.holds(*t),
    {
        match self {
            TypePred::TypeVariable => matches!(
                t,
                Type::TypeVar(_) | Type::TypeVarTuple(_) | Type::ParamSpec(_) | Type::Quantified(_)
            ),
            TypePred::ExplicitAny => matches!(t, Type::Any(AnyStyle::Explicit)),
            TypePred::SelfForm => matches!(t, Type::SpecialForm(SpecialForm::SelfType)),
            TypePred::BoundSelf => matches!(t, Type::SelfType(_)),
            TypePred::InstanceOf(cls) => match t {
                Type::ClassType(c) => c.class == cls,
                _ => false,
            },
            TypePred::LegacyVariable => matches!(t, Type::TypeVar(_) | Type::TypeVarTuple(_) | Type::ParamSpec(_)),
        }
    }
}

impl TypeList {
    /// Does `p` hold somewhere in some member?
    pub fn any(&self, p: TypePred) -> (r: bool)
        ensures
            r == list_any(*self, p),
        decreases self,
    {
        match self {
            TypeList::Nil => false,
            TypeList::Cons(h, t) => h.any(p) || t.any(p),
        }
    }
}

impl Type {
    /// Does `p` hold at this type or at a type nested in it?
    pub fn any(&self, p: TypePred) -> (r: bool)
        ensures
            r == type_any(*self, p),
        decreases self,
    {
        if p.test(self) {
            return true;
        }
        match self {
            Type::ClassType(c) => c.targs.any(p),
            Type::SelfType(c) => c.targs.any(p),
            Type::TypeOf(b) => b.any(p),
            Type::Union(l) => l.any(p),
            Type::Tuple(Tuple::Concrete(l)) => l.any(p),
            Type::Tuple(Tuple::Unbounded(b)) => b.any(p),
            Type::Tuple(Tuple::Unpacked(pre, m, suf)) => pre.any(p) || m.any(p) || suf.any(p),
            Type::Callable(ps, r) => ps.any(p) || r.any(p),
            Type::Unpack(b) => b.any(p),
            Type::Annotated(b) => b.any(p),
            Type::TypeForm(b) => b.any(p),
            Type::Forall(_, b) => b.any(p),
            _ => false,
        }
    }

    /// Whether a type variable of any kind occurs in the type.
    pub fn contains_type_variable(&self) -> (r: bool)
        ensures
            r == type_any(*self, TypePred::TypeVariable),
    {
        self.any(TypePred::TypeVariable)
    }

    pub fn is_kind_param_spec(&self) -> (r: bool)
        ensures
            r == self.spec_is_kind_param_spec(),
    {
        match self {
            Type::Ellipsis | Type::ParamSpec(_) => true,
            Type::Quantified(q) => matches!(q.kind, QuantifiedKind::ParamSpec),
            _ => false,
        }
    }

    pub fn is_kind_type_var_tuple(&self) -> (r: bool)
        ensures
            r == self.spec_is_kind_type_var_tuple(),
    {
        match self {
            Type::TypeVarTuple(_) => true,
            Type::Quantified(q) => matches!(q.kind, QuantifiedKind::TypeVarTuple),
            _ => false,
        }
    }

    pub fn is_any(&self) -> (r: bool)
        ensures
            r == (*self is Any),
    {
        matches!(self, Type::Any(_))
    }

    pub fn is_never(&self) -> (r: bool)
        ensures
            r == (*self is Never),
    {
        matches!(self, Type::Never)
    }

    pub fn is_error(&self) -> (r: bool)
        ensures
            r == (*self == Type::any_error()),
    {
        matches!(self, Type::Any(AnyStyle::Error))
    }

    pub fn is_gradual_size(&self) -> (r: bool)
        ensures
            r == (*self == Type::gradual_size()),
    {
        matches!(self, Type::Int(Dim::Gradual))
    }
}


impl TypeList {
    /// Whether the two lists hold the same types in the same order.
    pub fn same_as(&self, other: &TypeList) -> (r: bool)
        ensures
            r == (*self == *other),
        decreases self,
    {
        match (self, other) {
            (TypeList::Nil, TypeList::Nil) => true,
            (TypeList::Cons(h1, t1), TypeList::Cons(h2, t2)) => h1.same_as(h2) && t1.same_as(t2),
            _ => false,
        }
    }
}

impl ClassType {
    pub fn same_as(&self, other: &ClassType) -> (r: bool)
        ensures
            r == (*self == *other),
        decreases self,
    {
        self.class == other.class && self.targs.same_as(&other.targs)
    }
}

impl Tuple {
    pub fn same_as(&self, other: &Tuple) -> (r: bool)
        ensures
            r == (*self == *other),
        decreases self,
    {
        match (self, other) {
            (Tuple::Concrete(a), Tuple::Concrete(b)) => a.same_as(b),
            (Tuple::Unbounded(a), Tuple::Unbounded(b)) => a.same_as(b),
            (Tuple::Unpacked(p1, m1, s1), Tuple::Unpacked(p2, m2, s2)) => p1.same_as(p2)
                && m1.same_as(m2) && s1.same_as(s2),
            _ => false,
        }
    }
}

impl Type {
    /// Whether the two types are the same type, built alike.
    pub fn same_as(&self, other: &Type) -> (r: bool)
        ensures
            r == (*self == *other),
        decreases self,
    {
        match (self, other) {
            (Type::Any(a), Type::Any(b)) => *a == *b,
            (Type::Never, Type::Never) => true,
            (Type::NoneType, Type::NoneType) => true,
            (Type::Ellipsis, Type::Ellipsis) => true,
            (Type::ClassType(a), Type::ClassType(b)) => a.same_as(b),
            (Type::SelfType(a), Type::SelfType(b)) => a.same_as(b),
            (Type::ClassDef(a), Type::ClassDef(b)) => *a == *b,
            (Type::TypeOf(a), Type::TypeOf(b)) => a.same_as(b),
            (Type::Union(a), Type::Union(b)) => a.same_as(b),
            (Type::Tuple(a), Type::Tuple(b)) => a.same_as(b),
            (Type::Callable(p1, r1), Type::Callable(p2, r2)) => p1.same_as(p2) && r1.same_as(r2),
            (Type::TypeVar(a), Type::TypeVar(b)) => *a == *b,
            (Type::TypeVarTuple(a), Type::TypeVarTuple(b)) => *a == *b,
            (Type::ParamSpec(a), Type::ParamSpec(b)) => *a == *b,
            (Type::Quantified(a), Type::Quantified(b)) => *a == *b,
            (Type::Unpack(a), Type::Unpack(b)) => a.same_as(b),
            (Type::Annotated(a), Type::Annotated(b)) => a.same_as(b),
            (Type::SpecialForm(a), Type::SpecialForm(b)) => *a == *b,
            (Type::UntypedAlias(a), Type::UntypedAlias(b)) => *a == *b,
            (Type::Args(a), Type::Args(b)) => *a == *b,
            (Type::Kwargs(a), Type::Kwargs(b)) => *a == *b,
            (Type::TypedDict(a), Type::TypedDict(b)) => *a == *b,
            (Type::Literal(a), Type::Literal(b)) => *a == *b,
            (Type::LiteralString, Type::LiteralString) => true,
            (Type::Int(a), Type::Int(b)) => *a == *b,
            (Type::ElementOfTypeVarTuple(a), Type::ElementOfTypeVarTuple(b)) => *a == *b,
            (Type::SuperInstance(c1, o1), Type::SuperInstance(c2, o2)) => c1.same_as(c2) && o1.same_as(o2),
            (Type::IntTuple, Type::IntTuple) => true,
            (Type::TypeForm(a), Type::TypeForm(b)) => a.same_as(b),
            (Type::Forall(p1, a), Type::Forall(p2, b)) => p1.same_as(p2) && a.same_as(b),
            _ => false,
        }
    }
}

} // verus!
