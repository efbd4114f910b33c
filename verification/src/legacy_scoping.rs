//! Legacy type variables in annotations: a callable that uses legacy type variables becomes
//! generic in them; any legacy type variable left outside such a callable is not in scope,
//! is reported, and becomes the error type.

use vstd::prelude::*;
use crate::errors::{ErrorCollector, ErrorKind, ErrorMsg, TextRange, TypeError};
use crate::solver::AnswersSolver;
use crate::types::{
    type_any, list_any, AnyStyle, ClassType, Quantified, QuantifiedIdentity, QuantifiedKind, QuantifiedOrigin,
    Tuple, Type, TypeList, TypePred, TypeVar,
};

verus! {

/// The parameter a generic callable binds for the legacy type variable `v`, anchored at
/// `v`'s declaration.
pub open spec fn callable_param(module: u64, v: TypeVar) -> Quantified {
    Quantified {
        identity: QuantifiedIdentity {
            module,
            anchor_start: v.decl_start,
            anchor_end: v.decl_start,
            ordinal: 0,
            origin: QuantifiedOrigin::ScopedLegacy,
        },
        name: v.name,
        kind: QuantifiedKind::TypeVar,
    }
}

/// The values of `s` at their first occurrence, in order.
pub open spec fn first_occurrences<A>(s: Seq<A>) -> Seq<A>
    decreases s.len(),
{
    if s.len() == 0 {
        Seq::empty()
    } else {
        let r = first_occurrences(s.drop_last());
        if r.contains(s.last()) {
            r
        } else {
            r.push(s.last())
        }
    }
}

/// The uses of legacy `TypeVar`s (not `ParamSpec`s or `TypeVarTuple`s) in `t`, in order.
pub open spec fn type_var_uses(t: Type) -> Seq<TypeVar>
    decreases t,
{
    match t {
        Type::TypeVar(v) => seq![v],
        Type::ClassType(c) => type_var_uses_list(c.targs),
        Type::SelfType(c) => type_var_uses_list(c.targs),
        Type::TypeOf(b) => type_var_uses(*b),
        Type::Union(l) => type_var_uses_list(l),
        Type::Tuple(Tuple::Concrete(l)) => type_var_uses_list(l),
        Type::Tuple(Tuple::Unbounded(b)) => type_var_uses(*b),
        Type::Tuple(Tuple::Unpacked(p, m, s)) => type_var_uses_list(p) + type_var_uses(*m) + type_var_uses_list(s),
        Type::Callable(ps, r) => type_var_uses_list(ps) + type_var_uses(*r),
        Type::Unpack(b) => type_var_uses(*b),
        Type::Annotated(b) => type_var_uses(*b),
        Type::TypeForm(b) => type_var_uses(*b),
        Type::Forall(_, b) => type_var_uses(*b),
        _ => Seq::empty(),
    }
}

pub open spec fn type_var_uses_list(l: TypeList) -> Seq<TypeVar>
    decreases l,
{
    match l {
        TypeList::Nil => Seq::empty(),
        TypeList::Cons(h, t) => type_var_uses(*h) + type_var_uses_list(*t),
    }
}

/// `t` with every legacy `TypeVar` replaced with the parameter a callable binds for it.
pub open spec fn promote_type_vars(t: Type, module: u64) -> Type
    decreases t,
{
    match t {
        Type::TypeVar(v) => Type::Quantified(callable_param(module, v)),
        Type::ClassType(c) => Type::ClassType(ClassType { class: c.class, targs: promote_type_vars_list(c.targs, module) }),
        Type::SelfType(c) => Type::SelfType(ClassType { class: c.class, targs: promote_type_vars_list(c.targs, module) }),
        Type::TypeOf(b) => Type::TypeOf(Box::new(promote_type_vars(*b, module))),
        Type::Union(l) => Type::Union(promote_type_vars_list(l, module)),
        Type::Tuple(Tuple::Concrete(l)) => Type::Tuple(Tuple::Concrete(promote_type_vars_list(l, module))),
        Type::Tuple(Tuple::Unbounded(b)) => Type::Tuple(Tuple::Unbounded(Box::new(promote_type_vars(*b, module)))),
        Type::Tuple(Tuple::Unpacked(p, m, s)) => Type::Tuple(
            Tuple::Unpacked(
                promote_type_vars_list(p, module),
                Box::new(promote_type_vars(*m, module)),
                promote_type_vars_list(s, module),
            ),
        ),
        Type::Callable(ps, r) => Type::Callable(promote_type_vars_list(ps, module), Box::new(promote_type_vars(*r, module))),
        Type::Unpack(b) => Type::Unpack(Box::new(promote_type_vars(*b, module))),
        Type::Annotated(b) => Type::Annotated(Box::new(promote_type_vars(*b, module))),
        Type::TypeForm(b) => Type::TypeForm(Box::new(promote_type_vars(*b, module))),
        Type::Forall(ps, b) => Type::Forall(ps, Box::new(promote_type_vars(*b, module))),
        _ => t,
    }
}

pub open spec fn promote_type_vars_list(l: TypeList, module: u64) -> TypeList
    decreases l,
{
    match l {
        TypeList::Nil => TypeList::Nil,
        TypeList::Cons(h, t) => TypeList::Cons(
            Box::new(promote_type_vars(*h, module)),
            Box::new(promote_type_vars_list(*t, module)),
        ),
    }
}

/// A callable made generic in the legacy `TypeVar`s it uses (in the order of their first
/// use), or left as it is where it uses none.
pub open spec fn generic_callable(c: Type, module: u64) -> Type {
    let vs = first_occurrences(type_var_uses(c));
    if vs.len() == 0 {
        c
    } else {
        Type::Forall(
            TypeList::from_seq(vs.map_values(|v: TypeVar| Type::Quantified(callable_param(module, v)))),
            Box::new(promote_type_vars(c, module)),
        )
    }
}

/// `t` with every callable in it made generic in its legacy `TypeVar`s, the innermost
/// callables first (so that an enclosing callable binds only the variables that no callable
/// inside it binds).
pub open spec fn wrap_callables(t: Type, module: u64) -> Type
    decreases t,
{
    match t {
        Type::Callable(ps, r) => generic_callable(
            Type::Callable(wrap_callables_list(ps, module), Box::new(wrap_callables(*r, module))),
            module,
        ),
        Type::ClassType(c) => Type::ClassType(ClassType { class: c.class, targs: wrap_callables_list(c.targs, module) }),
        Type::SelfType(c) => Type::SelfType(ClassType { class: c.class, targs: wrap_callables_list(c.targs, module) }),
        Type::TypeOf(b) => Type::TypeOf(Box::new(wrap_callables(*b, module))),
        Type::Union(l) => Type::Union(wrap_callables_list(l, module)),
        Type::Tuple(Tuple::Concrete(l)) => Type::Tuple(Tuple::Concrete(wrap_callables_list(l, module))),
        Type::Tuple(Tuple::Unbounded(b)) => Type::Tuple(Tuple::Unbounded(Box::new(wrap_callables(*b, module)))),
        Type::Tuple(Tuple::Unpacked(p, m, s)) => Type::Tuple(
            Tuple::Unpacked(
                wrap_callables_list(p, module),
                Box::new(wrap_callables(*m, module)),
                wrap_callables_list(s, module),
            ),
        ),
        Type::Unpack(b) => Type::Unpack(Box::new(wrap_callables(*b, module))),
        Type::Annotated(b) => Type::Annotated(Box::new(wrap_callables(*b, module))),
        Type::TypeForm(b) => Type::TypeForm(Box::new(wrap_callables(*b, module))),
        Type::Forall(ps, b) => Type::Forall(ps, Box::new(wrap_callables(*b, module))),
        _ => t,
    }
}

pub open spec fn wrap_callables_list(l: TypeList, module: u64) -> TypeList
    decreases l,
{
    match l {
        TypeList::Nil => TypeList::Nil,
        TypeList::Cons(h, t) => TypeList::Cons(
            Box::new(wrap_callables(*h, module)),
            Box::new(wrap_callables_list(*t, module)),
        ),
    }
}

/// The names of the legacy type variables (`TypeVar`s, `ParamSpec`s and `TypeVarTuple`s)
/// used in `t`, in order.
pub open spec fn legacy_names(t: Type) -> Seq<u64>
    decreases t,
{
    match t {
        Type::TypeVar(v) => seq![v.name],
        Type::ParamSpec(v) => seq![v.name],
        Type::TypeVarTuple(v) => seq![v.name],
        Type::ClassType(c) => legacy_names_list(c.targs),
        Type::SelfType(c) => legacy_names_list(c.targs),
        Type::TypeOf(b) => legacy_names(*b),
        Type::Union(l) => legacy_names_list(l),
        Type::Tuple(Tuple::Concrete(l)) => legacy_names_list(l),
        Type::Tuple(Tuple::Unbounded(b)) => legacy_names(*b),
        Type::Tuple(Tuple::Unpacked(p, m, s)) => legacy_names_list(p) + legacy_names(*m) + legacy_names_list(s),
        Type::Callable(ps, r) => legacy_names_list(ps) + legacy_names(*r),
        Type::Unpack(b) => legacy_names(*b),
        Type::Annotated(b) => legacy_names(*b),
        Type::TypeForm(b) => legacy_names(*b),
        Type::Forall(_, b) => legacy_names(*b),
        _ => Seq::empty(),
    }
}

pub open spec fn legacy_names_list(l: TypeList) -> Seq<u64>
    decreases l,
{
    match l {
        TypeList::Nil => Seq::empty(),
        TypeList::Cons(h, t) => legacy_names(*h) + legacy_names_list(*t),
    }
}

/// `t` with every legacy type variable replaced with the error type.
pub open spec fn erase_legacy(t: Type) -> Type
    decreases t,
{
    match t {
        Type::TypeVar(_) | Type::ParamSpec(_) | Type::TypeVarTuple(_) => Type::any_error(),
        Type::ClassType(c) => Type::ClassType(ClassType { class: c.class, targs: erase_legacy_list(c.targs) }),
        Type::SelfType(c) => Type::SelfType(ClassType { class: c.class, targs: erase_legacy_list(c.targs) }),
        Type::TypeOf(b) => Type::TypeOf(Box::new(erase_legacy(*b))),
        Type::Union(l) => Type::Union(erase_legacy_list(l)),
        Type::Tuple(Tuple::Concrete(l)) => Type::Tuple(Tuple::Concrete(erase_legacy_list(l))),
        Type::Tuple(Tuple::Unbounded(b)) => Type::Tuple(Tuple::Unbounded(Box::new(erase_legacy(*b)))),
        Type::Tuple(Tuple::Unpacked(p, m, s)) => Type::Tuple(
            Tuple::Unpacked(erase_legacy_list(p), Box::new(erase_legacy(*m)), erase_legacy_list(s)),
        ),
        Type::Callable(ps, r) => Type::Callable(erase_legacy_list(ps), Box::new(erase_legacy(*r))),
        Type::Unpack(b) => Type::Unpack(Box::new(erase_legacy(*b))),
        Type::Annotated(b) => Type::Annotated(Box::new(erase_legacy(*b))),
        Type::TypeForm(b) => Type::TypeForm(Box::new(erase_legacy(*b))),
        Type::Forall(ps, b) => Type::Forall(ps, Box::new(erase_legacy(*b))),
        _ => t,
    }
}

pub open spec fn erase_legacy_list(l: TypeList) -> TypeList
    decreases l,
{
    match l {
        TypeList::Nil => TypeList::Nil,
        TypeList::Cons(h, t) => TypeList::Cons(Box::new(erase_legacy(*h)), Box::new(erase_legacy_list(*t))),
    }
}

/// The errors for the legacy type variables named in `names`, one each, at `range`.
pub open spec fn not_in_scope_errors(names: Seq<u64>, range: TextRange) -> Seq<TypeError> {
    names.map_values(|n: u64| TypeError { kind: ErrorKind::InvalidTypeVar, range, msg: ErrorMsg::TypeVarNotInScope(n) })
}

impl AnswersSolver {
    /// The scoping of legacy type variables in the type `ty` of an annotation at `range`:
    /// with its callables made generic, the legacy type variables still used are not in
    /// scope. Each name among them is reported once, in order of first use, and the type is
    /// then the one with generic callables and those variables made the error type; where
    /// there are none, the type is kept as it is.
    pub open spec fn spec_legacy_scoping(self, ty: Type, range: TextRange) -> (Type, Seq<TypeError>) {
        let wrapped = wrap_callables(ty, self.module);
        let names = first_occurrences(legacy_names(wrapped));
        if names.len() == 0 {
            (ty, Seq::empty())
        } else {
            (erase_legacy(wrapped), not_in_scope_errors(names, range))
        }
    }
}

/// Appends the uses of legacy `TypeVar`s in `t`; see [`type_var_uses`].
fn collect_type_var_uses(t: &Type, out: &mut Vec<TypeVar>)
    ensures
        final(out)@ == old(out)@ + type_var_uses(*t),
    decreases t,
{
    match t {
        Type::TypeVar(v) => {
            out.push(*v);
        },
        Type::ClassType(c) => collect_type_var_uses_list(&c.targs, out),
        Type::SelfType(c) => collect_type_var_uses_list(&c.targs, out),
        Type::TypeOf(b) => collect_type_var_uses(b, out),
        Type::Union(l) => collect_type_var_uses_list(l, out),
        Type::Tuple(Tuple::Concrete(l)) => collect_type_var_uses_list(l, out),
        Type::Tuple(Tuple::Unbounded(b)) => collect_type_var_uses(b, out),
        Type::Tuple(Tuple::Unpacked(p, m, s)) => {
            collect_type_var_uses_list(p, out);
            collect_type_var_uses(m, out);
            collect_type_var_uses_list(s, out);
            assert(out@ =~= old(out)@ + type_var_uses(*t));
        },
        Type::Callable(ps, r) => {
            collect_type_var_uses_list(ps, out);
            collect_type_var_uses(r, out);
            assert(out@ =~= old(out)@ + type_var_uses(*t));
        },
        Type::Unpack(b) => collect_type_var_uses(b, out),
        Type::Annotated(b) => collect_type_var_uses(b, out),
        Type::TypeForm(b) => collect_type_var_uses(b, out),
        Type::Forall(_, b) => collect_type_var_uses(b, out),
        _ => {
            assert(out@ =~= old(out)@ + type_var_uses(*t));
        },
    }
}

fn collect_type_var_uses_list(l: &TypeList, out: &mut Vec<TypeVar>)
    ensures
        final(out)@ == old(out)@ + type_var_uses_list(*l),
    decreases l,
{
    match l {
        TypeList::Nil => {
            assert(out@ =~= old(out)@ + type_var_uses_list(*l));
        },
        TypeList::Cons(h, t) => {
            collect_type_var_uses(h, out);
            collect_type_var_uses_list(t, out);
            assert(out@ =~= old(out)@ + type_var_uses_list(*l));
        },
    }
}

/// Appends the names of the legacy type variables used in `t`; see [`legacy_names`].
fn collect_legacy_names(t: &Type, out: &mut Vec<u64>)
    ensures
        final(out)@ == old(out)@ + legacy_names(*t),
    decreases t,
{
    match t {
        Type::TypeVar(v) | Type::ParamSpec(v) | Type::TypeVarTuple(v) => {
            out.push(v.name);
        },
        Type::ClassType(c) => collect_legacy_names_list(&c.targs, out),
        Type::SelfType(c) => collect_legacy_names_list(&c.targs, out),
        Type::TypeOf(b) => collect_legacy_names(b, out),
        Type::Union(l) => collect_legacy_names_list(l, out),
        Type::Tuple(Tuple::Concrete(l)) => collect_legacy_names_list(l, out),
        Type::Tuple(Tuple::Unbounded(b)) => collect_legacy_names(b, out),
        Type::Tuple(Tuple::Unpacked(p, m, s)) => {
            collect_legacy_names_list(p, out);
            collect_legacy_names(m, out);
            collect_legacy_names_list(s, out);
            assert(out@ =~= old(out)@ + legacy_names(*t));
        },
        Type::Callable(ps, r) => {
            collect_legacy_names_list(ps, out);
            collect_legacy_names(r, out);
            assert(out@ =~= old(out)@ + legacy_names(*t));
        },
        Type::Unpack(b) => collect_legacy_names(b, out),
        Type::Annotated(b) => collect_legacy_names(b, out),
        Type::TypeForm(b) => collect_legacy_names(b, out),
        Type::Forall(_, b) => collect_legacy_names(b, out),
        _ => {
            assert(out@ =~= old(out)@ + legacy_names(*t));
        },
    }
}

fn collect_legacy_names_list(l: &TypeList, out: &mut Vec<u64>)
    ensures
        final(out)@ == old(out)@ + legacy_names_list(*l),
    decreases l,
{
    match l {
        TypeList::Nil => {
            assert(out@ =~= old(out)@ + legacy_names_list(*l));
        },
        TypeList::Cons(h, t) => {
            collect_legacy_names(h, out);
            collect_legacy_names_list(t, out);
            assert(out@ =~= old(out)@ + legacy_names_list(*l));
        },
    }
}

/// The type variables of `s` at their first occurrence; see [`first_occurrences`].
fn first_type_vars(s: &Vec<TypeVar>) -> (r: Vec<TypeVar>)
    ensures
        r@ == first_occurrences(s@),
{
    let mut r: Vec<TypeVar> = Vec::new();
    let mut i: usize = 0;
    while i < s.len()
        invariant
            i <= s@.len(),
            r@ == first_occurrences(s@.take(i as int)),
        decreases s.len() - i,
    {
        assert(s@.take(i + 1).drop_last() =~= s@.take(i as int));
        let x = s[i];
        let mut seen = false;
        let mut j: usize = 0;
        while j < r.len()
            invariant
                j <= r@.len(),
                seen == (exists|k: int| 0 <= k < j && r@[k] == x),
            decreases r.len() - j,
        {
            if r[j] == x {
                seen = true;
            }
            j += 1;
        }
        if !seen {
            r.push(x);
        } else {
            assert(r@.contains(x));
        }
        i += 1;
    }
    assert(s@.take(i as int) =~= s@);
    r
}

/// The names of `s` at their first occurrence; see [`first_occurrences`].
fn first_names(s: &Vec<u64>) -> (r: Vec<u64>)
    ensures
        r@ == first_occurrences(s@),
{
    let mut r: Vec<u64> = Vec::new();
    let mut i: usize = 0;
    while i < s.len()
        invariant
            i <= s@.len(),
            r@ == first_occurrences(s@.take(i as int)),
        decreases s.len() - i,
    {
        assert(s@.take(i + 1).drop_last() =~= s@.take(i as int));
        let x = s[i];
        let mut seen = false;
        let mut j: usize = 0;
        while j < r.len()
            invariant
                j <= r@.len(),
                seen == (exists|k: int| 0 <= k < j && r@[k] == x),
            decreases r.len() - j,
        {
            if r[j] == x {
                seen = true;
            }
            j += 1;
        }
        if !seen {
            r.push(x);
        } else {
            assert(r@.contains(x));
        }
        i += 1;
    }
    assert(s@.take(i as int) =~= s@);
    r
}

/// `t` with every legacy `TypeVar` replaced with the parameter a callable binds for it.
fn promote_vars(t: Type, module: u64) -> (r: Type)
    ensures
        r == promote_type_vars(t, module),
    decreases t,
{
    match t {
        Type::TypeVar(v) => Type::Quantified(Quantified {
            identity: QuantifiedIdentity {
                module,
                anchor_start: v.decl_start,
                anchor_end: v.decl_start,
                ordinal: 0,
                origin: QuantifiedOrigin::ScopedLegacy,
            },
            name: v.name,
            kind: QuantifiedKind::TypeVar,
        }),
        Type::ClassType(c) => Type::ClassType(ClassType { class: c.class, targs: promote_vars_list(c.targs, module) }),
        Type::SelfType(c) => Type::SelfType(ClassType { class: c.class, targs: promote_vars_list(c.targs, module) }),
        Type::TypeOf(b) => Type::TypeOf(Box::new(promote_vars(*b, module))),
        Type::Union(l) => Type::Union(promote_vars_list(l, module)),
        Type::Tuple(Tuple::Concrete(l)) => Type::Tuple(Tuple::Concrete(promote_vars_list(l, module))),
        Type::Tuple(Tuple::Unbounded(b)) => Type::Tuple(Tuple::Unbounded(Box::new(promote_vars(*b, module)))),
        Type::Tuple(Tuple::Unpacked(p, m, s)) => {
            let p2 = promote_vars_list(p, module);
            let m2 = promote_vars(*m, module);
            let s2 = promote_vars_list(s, module);
            Type::Tuple(Tuple::Unpacked(p2, Box::new(m2), s2))
        },
        Type::Callable(ps, r) => {
            let ps2 = promote_vars_list(ps, module);
            let r2 = promote_vars(*r, module);
            Type::Callable(ps2, Box::new(r2))
        },
        Type::Unpack(b) => Type::Unpack(Box::new(promote_vars(*b, module))),
        Type::Annotated(b) => Type::Annotated(Box::new(promote_vars(*b, module))),
        Type::TypeForm(b) => Type::TypeForm(Box::new(promote_vars(*b, module))),
        Type::Forall(ps, b) => Type::Forall(ps, Box::new(promote_vars(*b, module))),
        other => other,
    }
}

fn promote_vars_list(l: TypeList, module: u64) -> (r: TypeList)
    ensures
        r == promote_type_vars_list(l, module),
    decreases l,
{
    match l {
        TypeList::Nil => TypeList::Nil,
        TypeList::Cons(h, t) => {
            let h2 = promote_vars(*h, module);
            let t2 = promote_vars_list(*t, module);
            TypeList::Cons(Box::new(h2), Box::new(t2))
        },
    }
}

/// A callable made generic in its legacy `TypeVar`s; see [`generic_callable`].
fn make_generic(c: Type, module: u64) -> (r: Type)
    ensures
        r == generic_callable(c, module),
{
    let mut uses: Vec<TypeVar> = Vec::new();
    collect_type_var_uses(&c, &mut uses);
    assert(uses@ =~= type_var_uses(c));
    let vs = first_type_vars(&uses);
    if vs.len() == 0 {
        return c;
    }
    let mut params: Vec<Type> = Vec::new();
    let mut i: usize = 0;
    while i < vs.len()
        invariant
            i <= vs@.len(),
            params@ == vs@.take(i as int).map_values(|v: TypeVar| Type::Quantified(callable_param(module, v))),
        decreases vs.len() - i,
    {
        let v = vs[i];
        params.push(Type::Quantified(Quantified {
            identity: QuantifiedIdentity {
                module,
                anchor_start: v.decl_start,
                anchor_end: v.decl_start,
                ordinal: 0,
                origin: QuantifiedOrigin::ScopedLegacy,
            },
            name: v.name,
            kind: QuantifiedKind::TypeVar,
        }));
        i += 1;
        assert(params@ =~= vs@.take(i as int).map_values(|v: TypeVar| Type::Quantified(callable_param(module, v))));
    }
    assert(vs@.take(i as int) =~= vs@);
    let ps = TypeList::from_vec(params);
    proof {
        TypeList::lemma_from_seq(vs@.map_values(|v: TypeVar| Type::Quantified(callable_param(module, v))));
        TypeList::lemma_seq_injective(ps, TypeList::from_seq(vs@.map_values(|v: TypeVar| Type::Quantified(callable_param(module, v)))));
    }
    Type::Forall(ps, Box::new(promote_vars(c, module)))
}

/// `t` with every callable made generic in its legacy `TypeVar`s, the innermost first; see
/// [`wrap_callables`].
pub fn wrap_callable_legacy_typevars(t: Type, module: u64) -> (r: Type)
    ensures
        r == wrap_callables(t, module),
    decreases t,
{
    match t {
        Type::Callable(ps, r) => {
            let ps2 = wrap_list(ps, module);
            let r2 = wrap_callable_legacy_typevars(*r, module);
            make_generic(Type::Callable(ps2, Box::new(r2)), module)
        },
        Type::ClassType(c) => Type::ClassType(ClassType { class: c.class, targs: wrap_list(c.targs, module) }),
        Type::SelfType(c) => Type::SelfType(ClassType { class: c.class, targs: wrap_list(c.targs, module) }),
        Type::TypeOf(b) => Type::TypeOf(Box::new(wrap_callable_legacy_typevars(*b, module))),
        Type::Union(l) => Type::Union(wrap_list(l, module)),
        Type::Tuple(Tuple::Concrete(l)) => Type::Tuple(Tuple::Concrete(wrap_list(l, module))),
        Type::Tuple(Tuple::Unbounded(b)) => Type::Tuple(Tuple::Unbounded(Box::new(wrap_callable_legacy_typevars(*b, module)))),
        Type::Tuple(Tuple::Unpacked(p, m, s)) => {
            let p2 = wrap_list(p, module);
            let m2 = wrap_callable_legacy_typevars(*m, module);
            let s2 = wrap_list(s, module);
            Type::Tuple(Tuple::Unpacked(p2, Box::new(m2), s2))
        },
        Type::Unpack(b) => Type::Unpack(Box::new(wrap_callable_legacy_typevars(*b, module))),
        Type::Annotated(b) => Type::Annotated(Box::new(wrap_callable_legacy_typevars(*b, module))),
        Type::TypeForm(b) => Type::TypeForm(Box::new(wrap_callable_legacy_typevars(*b, module))),
        Type::Forall(ps, b) => Type::Forall(ps, Box::new(wrap_callable_legacy_typevars(*b, module))),
        other => other,
    }
}

fn wrap_list(l: TypeList, module: u64) -> (r: TypeList)
    ensures
        r == wrap_callables_list(l, module),
    decreases l,
{
    match l {
        TypeList::Nil => TypeList::Nil,
        TypeList::Cons(h, t) => {
            let h2 = wrap_callable_legacy_typevars(*h, module);
            let t2 = wrap_list(*t, module);
            TypeList::Cons(Box::new(h2), Box::new(t2))
        },
    }
}

/// `t` with every legacy type variable made the error type; see [`erase_legacy`].
fn erase_legacy_vars(t: Type) -> (r: Type)
    ensures
        r == erase_legacy(t),
    decreases t,
{
    match t {
        Type::TypeVar(_) | Type::ParamSpec(_) | Type::TypeVarTuple(_) => Type::Any(AnyStyle::Error),
        Type::ClassType(c) => Type::ClassType(ClassType { class: c.class, targs: erase_list(c.targs) }),
        Type::SelfType(c) => Type::SelfType(ClassType { class: c.class, targs: erase_list(c.targs) }),
        Type::TypeOf(b) => Type::TypeOf(Box::new(erase_legacy_vars(*b))),
        Type::Union(l) => Type::Union(erase_list(l)),
        Type::Tuple(Tuple::Concrete(l)) => Type::Tuple(Tuple::Concrete(erase_list(l))),
        Type::Tuple(Tuple::Unbounded(b)) => Type::Tuple(Tuple::Unbounded(Box::new(erase_legacy_vars(*b)))),
        Type::Tuple(Tuple::Unpacked(p, m, s)) => {
            let p2 = erase_list(p);
            let m2 = erase_legacy_vars(*m);
            let s2 = erase_list(s);
            Type::Tuple(Tuple::Unpacked(p2, Box::new(m2), s2))
        },
        Type::Callable(ps, r) => {
            let ps2 = erase_list(ps);
            let r2 = erase_legacy_vars(*r);
            Type::Callable(ps2, Box::new(r2))
        },
        Type::Unpack(b) => Type::Unpack(Box::new(erase_legacy_vars(*b))),
        Type::Annotated(b) => Type::Annotated(Box::new(erase_legacy_vars(*b))),
        Type::TypeForm(b) => Type::TypeForm(Box::new(erase_legacy_vars(*b))),
        Type::Forall(ps, b) => Type::Forall(ps, Box::new(erase_legacy_vars(*b))),
        other => other,
    }
}

fn erase_list(l: TypeList) -> (r: TypeList)
    ensures
        r == erase_legacy_list(l),
    decreases l,
{
    match l {
        TypeList::Nil => TypeList::Nil,
        TypeList::Cons(h, t) => {
            let h2 = erase_legacy_vars(*h);
            let t2 = erase_list(*t);
            TypeList::Cons(Box::new(h2), Box::new(t2))
        },
    }
}

impl AnswersSolver {
    /// Checks the scoping of legacy type variables in the type of an annotation at `range`;
    /// see [`Self::spec_legacy_scoping`].
    pub fn check_legacy_typevar_scoping(&self, ty: Type, range: TextRange, errors: &mut ErrorCollector) -> (r: Type)
        ensures
            r == self.spec_legacy_scoping(ty, range).0,
            final(errors)@ == old(errors)@ + self.spec_legacy_scoping(ty, range).1,
    {
        let wrapped = wrap_callable_legacy_typevars(ty.deep_clone(), self.module);
        let mut uses: Vec<u64> = Vec::new();
        collect_legacy_names(&wrapped, &mut uses);
        assert(uses@ =~= legacy_names(wrapped));
        let names = first_names(&uses);
        if names.len() == 0 {
            assert(old(errors)@ + Seq::<TypeError>::empty() =~= old(errors)@);
            return ty;
        }
        let mut i: usize = 0;
        while i < names.len()
            invariant
                i <= names@.len(),
                errors@ == old(errors)@ + not_in_scope_errors(names@.take(i as int), range),
            decreases names.len() - i,
        {
            errors.error(ErrorKind::InvalidTypeVar, range, ErrorMsg::TypeVarNotInScope(names[i]));
            i += 1;
            assert(errors@ =~= old(errors)@ + not_in_scope_errors(names@.take(i as int), range));
        }
        assert(names@.take(i as int) =~= names@);
        erase_legacy_vars(wrapped)
    }
}

/// Erasing leaves no legacy type variable.
pub proof fn lemma_erase_legacy_free(t: Type)
    ensures
        !type_any(erase_legacy(t), TypePred::LegacyVariable),
    decreases t,
{
    match t {
        Type::ClassType(c) => lemma_erase_legacy_list_free(c.targs),
        Type::SelfType(c) => lemma_erase_legacy_list_free(c.targs),
        Type::TypeOf(b) => lemma_erase_legacy_free(*b),
        Type::Union(l) => lemma_erase_legacy_list_free(l),
        Type::Tuple(Tuple::Concrete(l)) => lemma_erase_legacy_list_free(l),
        Type::Tuple(Tuple::Unbounded(b)) => lemma_erase_legacy_free(*b),
        Type::Tuple(Tuple::Unpacked(p, m, s)) => {
            lemma_erase_legacy_list_free(p);
            lemma_erase_legacy_free(*m);
            lemma_erase_legacy_list_free(s);
        },
        Type::Callable(ps, r) => {
            lemma_erase_legacy_list_free(ps);
            lemma_erase_legacy_free(*r);
        },
        Type::Unpack(b) => lemma_erase_legacy_free(*b),
        Type::Annotated(b) => lemma_erase_legacy_free(*b),
        Type::TypeForm(b) => lemma_erase_legacy_free(*b),
        Type::Forall(_, b) => lemma_erase_legacy_free(*b),
        _ => {},
    }
}

pub proof fn lemma_erase_legacy_list_free(l: TypeList)
    ensures
        !list_any(erase_legacy_list(l), TypePred::LegacyVariable),
    decreases l,
{
    match l {
        TypeList::Nil => {},
        TypeList::Cons(h, t) => {
            lemma_erase_legacy_free(*h);
            lemma_erase_legacy_list_free(*t);
        },
    }
}

/// An annotation type's legacy type variables are either all in scope (none is reported, and
/// the type is kept), or each name out of scope is reported exactly once and no legacy type
/// variable is left in the type.
pub proof fn law_out_of_scope_type_variables_reported_and_erased(solver: AnswersSolver, ty: Type, range: TextRange)
    ensures
        ({
            let (r, e) = solver.spec_legacy_scoping(ty, range);
            let names = first_occurrences(legacy_names(wrap_callables(ty, solver.module)));
            &&& e.len() == names.len()
            &&& (forall|i: int| 0 <= i < e.len() ==> #[trigger] e[i] == TypeError {
                kind: ErrorKind::InvalidTypeVar,
                range,
                msg: ErrorMsg::TypeVarNotInScope(names[i]),
            })
            &&& names.no_duplicates()
            &&& (names.len() == 0 ==> r == ty)
            &&& (names.len() > 0 ==> !type_any(r, TypePred::LegacyVariable))
        }),
{
    let names = first_occurrences(legacy_names(wrap_callables(ty, solver.module)));
    lemma_first_occurrences_distinct(legacy_names(wrap_callables(ty, solver.module)));
    lemma_erase_legacy_free(wrap_callables(ty, solver.module));
}

/// First occurrences hold no value twice.
pub proof fn lemma_first_occurrences_distinct<A>(s: Seq<A>)
    ensures
        first_occurrences(s).no_duplicates(),
    decreases s.len(),
{
    if s.len() > 0 {
        lemma_first_occurrences_distinct(s.drop_last());
        let r = first_occurrences(s.drop_last());
        if !r.contains(s.last()) {
            assert forall|i: int, j: int| 0 <= i < j < r.push(s.last()).len() implies r.push(s.last())[i] != r.push(s.last())[j] by {
                if j == r.len() {
                    assert(r[i] == r.push(s.last())[i]);
                }
            }
        }
    }
}

/// Making callables generic, and erasing legacy type variables, bring in no bare `Self`.
pub proof fn lemma_scoping_keeps_no_self(t: Type, module: u64)
    requires
        !type_any(t, TypePred::SelfForm),
    ensures
        !type_any(wrap_callables(t, module), TypePred::SelfForm),
        !type_any(erase_legacy(wrap_callables(t, module)), TypePred::SelfForm),
{
    lemma_wrap_no_self(t, module);
    lemma_erase_no_self(wrap_callables(t, module));
}

proof fn lemma_promote_no_self(t: Type, module: u64)
    requires
        !type_any(t, TypePred::SelfForm),
    ensures
        !type_any(promote_type_vars(t, module), TypePred::SelfForm),
    decreases t,
{
    match t {
        Type::ClassType(c) => lemma_promote_no_self_list(c.targs, module),
        Type::SelfType(c) => lemma_promote_no_self_list(c.targs, module),
        Type::TypeOf(b) => lemma_promote_no_self(*b, module),
        Type::Union(l) => lemma_promote_no_self_list(l, module),
        Type::Tuple(Tuple::Concrete(l)) => lemma_promote_no_self_list(l, module),
        Type::Tuple(Tuple::Unbounded(b)) => lemma_promote_no_self(*b, module),
        Type::Tuple(Tuple::Unpacked(p, m, s)) => {
            lemma_promote_no_self_list(p, module);
            lemma_promote_no_self(*m, module);
            lemma_promote_no_self_list(s, module);
        },
        Type::Callable(ps, r) => {
            lemma_promote_no_self_list(ps, module);
            lemma_promote_no_self(*r, module);
        },
        Type::Unpack(b) => lemma_promote_no_self(*b, module),
        Type::Annotated(b) => lemma_promote_no_self(*b, module),
        Type::TypeForm(b) => lemma_promote_no_self(*b, module),
        Type::Forall(_, b) => lemma_promote_no_self(*b, module),
        _ => {},
    }
}

proof fn lemma_promote_no_self_list(l: TypeList, module: u64)
    requires
        !list_any(l, TypePred::SelfForm),
    ensures
        !list_any(promote_type_vars_list(l, module), TypePred::SelfForm),
    decreases l,
{
    match l {
        TypeList::Nil => {},
        TypeList::Cons(h, t) => {
            lemma_promote_no_self(*h, module);
            lemma_promote_no_self_list(*t, module);
        },
    }
}

proof fn lemma_wrap_no_self(t: Type, module: u64)
    requires
        !type_any(t, TypePred::SelfForm),
    ensures
        !type_any(wrap_callables(t, module), TypePred::SelfForm),
    decreases t,
{
    match t {
        Type::Callable(ps, r) => {
            lemma_wrap_no_self_list(ps, module);
            lemma_wrap_no_self(*r, module);
            let c = Type::Callable(wrap_callables_list(ps, module), Box::new(wrap_callables(*r, module)));
            lemma_promote_no_self(c, module);
        },
        Type::ClassType(c) => lemma_wrap_no_self_list(c.targs, module),
        Type::SelfType(c) => lemma_wrap_no_self_list(c.targs, module),
        Type::TypeOf(b) => lemma_wrap_no_self(*b, module),
        Type::Union(l) => lemma_wrap_no_self_list(l, module),
        Type::Tuple(Tuple::Concrete(l)) => lemma_wrap_no_self_list(l, module),
        Type::Tuple(Tuple::Unbounded(b)) => lemma_wrap_no_self(*b, module),
        Type::Tuple(Tuple::Unpacked(p, m, s)) => {
            lemma_wrap_no_self_list(p, module);
            lemma_wrap_no_self(*m, module);
            lemma_wrap_no_self_list(s, module);
        },
        Type::Unpack(b) => lemma_wrap_no_self(*b, module),
        Type::Annotated(b) => lemma_wrap_no_self(*b, module),
        Type::TypeForm(b) => lemma_wrap_no_self(*b, module),
        Type::Forall(_, b) => lemma_wrap_no_self(*b, module),
        _ => {},
    }
}

proof fn lemma_wrap_no_self_list(l: TypeList, module: u64)
    requires
        !list_any(l, TypePred::SelfForm),
    ensures
        !list_any(wrap_callables_list(l, module), TypePred::SelfForm),
    decreases l,
{
    match l {
        TypeList::Nil => {},
        TypeList::Cons(h, t) => {
            lemma_wrap_no_self(*h, module);
            lemma_wrap_no_self_list(*t, module);
        },
    }
}

proof fn lemma_erase_no_self(t: Type)
    requires
        !type_any(t, TypePred::SelfForm),
    ensures
        !type_any(erase_legacy(t), TypePred::SelfForm),
    decreases t,
{
    match t {
        Type::ClassType(c) => lemma_erase_no_self_list(c.targs),
        Type::SelfType(c) => lemma_erase_no_self_list(c.targs),
        Type::TypeOf(b) => lemma_erase_no_self(*b),
        Type::Union(l) => lemma_erase_no_self_list(l),
        Type::Tuple(Tuple::Concrete(l)) => lemma_erase_no_self_list(l),
        Type::Tuple(Tuple::Unbounded(b)) => lemma_erase_no_self(*b),
        Type::Tuple(Tuple::Unpacked(p, m, s)) => {
            lemma_erase_no_self_list(p);
            lemma_erase_no_self(*m);
            lemma_erase_no_self_list(s);
        },
        Type::Callable(ps, r) => {
            lemma_erase_no_self_list(ps);
            lemma_erase_no_self(*r);
        },
        Type::Unpack(b) => lemma_erase_no_self(*b),
        Type::Annotated(b) => lemma_erase_no_self(*b),
        Type::TypeForm(b) => lemma_erase_no_self(*b),
        Type::Forall(_, b) => lemma_erase_no_self(*b),
        _ => {},
    }
}

proof fn lemma_erase_no_self_list(l: TypeList)
    requires
        !list_any(l, TypePred::SelfForm),
    ensures
        !list_any(erase_legacy_list(l), TypePred::SelfForm),
    decreases l,
{
    match l {
        TypeList::Nil => {},
        TypeList::Cons(h, t) => {
            lemma_erase_no_self(*h);
            lemma_erase_no_self_list(*t);
        },
    }
}

} // verus!
