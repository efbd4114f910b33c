//! Type aliases: their values, and the self-references that make an alias meaningless.

use vstd::prelude::*;
use starlark_map::small_set::SmallSet;
use crate::small_map::{small_set_contains, small_set_elems};
use crate::solver::AnswersSolver;
use crate::types::{Tuple, Type, TypeList};

verus! {

/// How a type alias was written.
#[derive(Clone, Copy, PartialEq, Eq, Structural, Debug)]
pub enum TypeAliasStyle {
    /// `type X = ...` or `X = TypeAliasType(...)`
    Scoped,
    /// `X: TypeAlias = ...`
    LegacyExplicit,
    /// `X = ...`, found to be an alias from its value
    LegacyImplicit,
}

/// A type alias: its name, the type it stands for, and how it was written. A valid alias
/// holds `type[T]` for its value `T`; an alias in error holds the error type.
#[derive(Debug, PartialEq)]
pub struct TypeAlias {
    pub name: u64,
    pub ty: Type,
    pub style: TypeAliasStyle,
}

/// Is `t` a reference to one of the aliases named in `names`?
pub open spec fn is_self_ref(t: Type, names: Seq<u64>) -> bool {
    t matches Type::UntypedAlias(r) && names.contains(r.name)
}

/// The members of a tuple; an unpacked middle that is itself a tuple contributes its own.
pub open spec fn tuple_members(tu: Tuple) -> Seq<Type>
    decreases tu,
{
    match tu {
        Tuple::Concrete(l) => l.seq(),
        Tuple::Unbounded(b) => seq![*b],
        Tuple::Unpacked(p, m, s) => p.seq() + match *m {
            Type::Tuple(inner) => tuple_members(inner),
            _ => Seq::empty(),
        } + s.seq(),
    }
}

/// What an unpacked middle contributes to the members of its tuple.
pub open spec fn middle_members(m: Type) -> Seq<Type> {
    match m {
        Type::Tuple(inner) => tuple_members(inner),
        _ => Seq::empty(),
    }
}

/// A self-reference as a direct member of a union or tuple body (`int | X`,
/// `tuple[int, X]`), or as the whole body.
pub open spec fn direct_self_ref(body: Type, names: Seq<u64>) -> bool {
    ||| (match body {
        Type::Union(l) => exists|i: int| 0 <= i < l.seq().len() && is_self_ref(#[trigger] l.seq()[i], names),
        _ => is_self_ref(body, names),
    })
    ||| (body matches Type::Tuple(tu) && exists|i: int|
        0 <= i < tuple_members(tu).len() && is_self_ref(#[trigger] tuple_members(tu)[i], names))
}

impl AnswersSolver {
    /// Is `t` made of self-references only, through unions, builtin generic classes,
    /// `type[...]` and tuples (`list[X]`, `X | list[X]`)? Such a type holds no value but
    /// nested empty containers.
    pub open spec fn only_self_ref(self, t: Type, names: Seq<u64>) -> bool
        decreases t,
    {
        if is_self_ref(t, names) {
            true
        } else {
            match t {
                Type::Union(l) => self.only_self_ref_list(l, names),
                Type::ClassType(c) => self.is_builtin_class(c.class) && c.targs != TypeList::Nil
                    && self.only_self_ref_list(c.targs, names),
                Type::TypeOf(b) => self.only_self_ref(*b, names),
                Type::Tuple(tu) => tuple_members(tu).len() > 0 && self.only_self_ref_tuple(tu, names),
                _ => false,
            }
        }
    }

    pub open spec fn only_self_ref_list(self, l: TypeList, names: Seq<u64>) -> bool
        decreases l,
    {
        match l {
            TypeList::Nil => true,
            TypeList::Cons(h, t) => self.only_self_ref(*h, names) && self.only_self_ref_list(*t, names),
        }
    }

    /// Are all the members of the tuple (see [`tuple_members`]) made of self-references only?
    pub open spec fn only_self_ref_tuple(self, tu: Tuple, names: Seq<u64>) -> bool
        decreases tu,
    {
        match tu {
            Tuple::Concrete(l) => self.only_self_ref_list(l, names),
            Tuple::Unbounded(b) => self.only_self_ref(*b, names),
            Tuple::Unpacked(p, m, s) => self.only_self_ref_list(p, names) && match *m {
                Type::Tuple(inner) => self.only_self_ref_tuple(inner, names),
                _ => true,
            } && self.only_self_ref_list(s, names),
        }
    }

    /// Does the alias's value refer to itself (or to one of `names`) in a way that makes it
    /// uninhabited or meaningless? An alias in error (not holding `type[...]`) never does.
    pub open spec fn spec_has_cyclic_reference(self, names: Seq<u64>, ta: TypeAlias) -> bool {
        match ta.ty {
            Type::TypeOf(body) => direct_self_ref(*body, names) || self.only_self_ref(*body, names),
            _ => false,
        }
    }
}

fn self_ref(t: &Type, names: &SmallSet<u64>) -> (r: bool)
    ensures
        r == is_self_ref(*t, small_set_elems(*names)),
{
    match t {
        Type::UntypedAlias(r) => small_set_contains(names, r.name),
        _ => false,
    }
}

fn list_has_self_ref(l: &TypeList, names: &SmallSet<u64>) -> (r: bool)
    ensures
        r == exists|i: int| 0 <= i < l.seq().len() && is_self_ref(#[trigger] l.seq()[i], small_set_elems(*names)),
    decreases l,
{
    match l {
        TypeList::Nil => {
            assert(l.seq().len() == 0);
            false
        },
        TypeList::Cons(h, t) => {
            let rest = list_has_self_ref(t, names);
            let first = self_ref(h, names);
            proof {
                assert(l.seq() == seq![**h] + t.seq());
                assert(l.seq()[0] == **h);
                if rest {
                    let i = choose|i: int| 0 <= i < t.seq().len() && is_self_ref(#[trigger] t.seq()[i], small_set_elems(*names));
                    assert(l.seq()[i + 1] == t.seq()[i]);
                }
                assert forall|i: int| 0 < i < l.seq().len() implies l.seq()[i] == t.seq()[i - 1] by {}
            }
            first || rest
        },
    }
}

fn tuple_has_self_ref(tu: &Tuple, names: &SmallSet<u64>) -> (r: bool)
    ensures
        r == exists|i: int|
            0 <= i < tuple_members(*tu).len() && is_self_ref(#[trigger] tuple_members(*tu)[i], small_set_elems(*names)),
    decreases tu,
{
    let ghost ns = small_set_elems(*names);
    match tu {
        Tuple::Concrete(l) => list_has_self_ref(l, names),
        Tuple::Unbounded(b) => {
            proof {
                assert(tuple_members(*tu) == seq![**b]);
                assert(tuple_members(*tu)[0] == **b);
            }
            self_ref(b, names)
        },
        Tuple::Unpacked(p, m, s) => {
            let ghost mid = middle_members(**m);
            let in_p = list_has_self_ref(p, names);
            let in_m = match &**m {
                Type::Tuple(inner) => tuple_has_self_ref(inner, names),
                _ => false,
            };
            let in_s = list_has_self_ref(s, names);
            proof {
                let all = tuple_members(*tu);
                assert(all == p.seq() + mid + s.seq());
                if in_p {
                    let i = choose|i: int| 0 <= i < p.seq().len() && is_self_ref(#[trigger] p.seq()[i], ns);
                    assert(all[i] == p.seq()[i]);
                }
                if in_m {
                    let i = choose|i: int| 0 <= i < mid.len() && is_self_ref(#[trigger] mid[i], ns);
                    assert(all[p.seq().len() + i] == mid[i]);
                }
                if in_s {
                    let i = choose|i: int| 0 <= i < s.seq().len() && is_self_ref(#[trigger] s.seq()[i], ns);
                    assert(all[p.seq().len() + mid.len() + i] == s.seq()[i]);
                }
                if !(in_p || in_m || in_s) {
                    assert forall|i: int| 0 <= i < all.len() implies !is_self_ref(#[trigger] all[i], ns) by {
                        if i < p.seq().len() {
                            assert(all[i] == p.seq()[i]);
                        } else if i < p.seq().len() + mid.len() {
                            assert(all[i] == mid[i - p.seq().len()]);
                        } else {
                            assert(all[i] == s.seq()[i - p.seq().len() - mid.len()]);
                        }
                    }
                }
            }
            in_p || in_m || in_s
        },
    }
}

fn tuple_nonempty(tu: &Tuple) -> (r: bool)
    ensures
        r == (tuple_members(*tu).len() > 0),
    decreases tu,
{
    match tu {
        Tuple::Concrete(l) => matches!(l, TypeList::Cons(..)),
        Tuple::Unbounded(_) => true,
        Tuple::Unpacked(p, m, s) => {
            matches!(p, TypeList::Cons(..)) || matches!(s, TypeList::Cons(..)) || match &**m {
                Type::Tuple(inner) => tuple_nonempty(inner),
                _ => false,
            }
        },
    }
}

impl AnswersSolver {
    fn only_self_refs(&self, t: &Type, names: &SmallSet<u64>) -> (r: bool)
        ensures
            r == self.only_self_ref(*t, small_set_elems(*names)),
        decreases t,
    {
        if self_ref(t, names) {
            return true;
        }
        match t {
            Type::Union(l) => self.only_self_refs_list(l, names),
            Type::ClassType(c) => self.class_is_builtin(c.class) && matches!(c.targs, TypeList::Cons(..))
                && self.only_self_refs_list(&c.targs, names),
            Type::TypeOf(b) => self.only_self_refs(b, names),
            Type::Tuple(tu) => tuple_nonempty(tu) && self.only_self_refs_tuple(tu, names),
            _ => false,
        }
    }

    fn only_self_refs_list(&self, l: &TypeList, names: &SmallSet<u64>) -> (r: bool)
        ensures
            r == self.only_self_ref_list(*l, small_set_elems(*names)),
        decreases l,
    {
        match l {
            TypeList::Nil => true,
            TypeList::Cons(h, t) => self.only_self_refs(h, names) && self.only_self_refs_list(t, names),
        }
    }

    fn only_self_refs_tuple(&self, tu: &Tuple, names: &SmallSet<u64>) -> (r: bool)
        ensures
            r == self.only_self_ref_tuple(*tu, small_set_elems(*names)),
        decreases tu,
    {
        match tu {
            Tuple::Concrete(l) => self.only_self_refs_list(l, names),
            Tuple::Unbounded(b) => self.only_self_refs(b, names),
            Tuple::Unpacked(p, m, s) => self.only_self_refs_list(p, names) && match &**m {
                Type::Tuple(inner) => self.only_self_refs_tuple(inner, names),
                _ => true,
            } && self.only_self_refs_list(s, names),
        }
    }

    /// Check whether a type alias body contains a cyclic self-reference.
    ///
    /// Two kinds of invalid self-reference are detected:
    /// 1. Direct top-level member of a union or tuple (`type X = int | X`,
    ///    `type X = tuple[int, X]`).
    /// 2. A reference nested inside unions, builtin classes, `type[...]` and tuples, with no
    ///    non-self-reference beside it (`type X = list[X]`).
    ///
    /// `names` holds the alias being resolved plus any alias left as a recursive reference
    /// while expanding its body.
    pub fn type_alias_has_cyclic_reference(&self, names: &SmallSet<u64>, ta: &TypeAlias) -> (r: bool)
        ensures
            r == self.spec_has_cyclic_reference(small_set_elems(*names), *ta),
    {
        let body = match &ta.ty {
            Type::TypeOf(inner) => &**inner,
            _ => return false,
        };
        // Check 1: Direct top-level union or tuple member (e.g. `int | X`).
        let mut has_direct_self_ref = match body {
            Type::Union(l) => list_has_self_ref(l, names),
            _ => self_ref(body, names),
        };
        if let Type::Tuple(tu) = body {
            has_direct_self_ref = has_direct_self_ref || tuple_has_self_ref(tu, names);
        }
        // Check 2: nested self-reference without a non-self-reference (e.g. `list[X]`).
        has_direct_self_ref || self.only_self_refs(body, names)
    }
}

} // verus!
