//! Expanding references to the module's own type aliases inside an alias body, and the
//! helpers that wrapping an alias needs: putting collected parameters in source order, and
//! finding the parameters an alias body mentions.

use vstd::prelude::*;
use starlark_map::small_set::SmallSet;
use crate::alias::TypeAlias;
use crate::small_map::{
    differs_from, elems_insert, elems_remove, small_set_contains, small_set_elems, small_set_insert,
    small_set_new, small_set_shift_remove,
};
use crate::solver::AnswersSolver;
use crate::types::{ClassType, Quantified, Tuple, Type, TypeList};

verus! {

/// The body of an alias's value: `T` of `type[T]` or of `Annotated[T]`; an alias in error
/// has none.
pub open spec fn alias_body(ta: TypeAlias) -> Option<Type> {
    match ta.ty {
        Type::TypeOf(b) => Some(*b),
        Type::Annotated(b) => Some(*b),
        _ => None,
    }
}

/// Every reference in `t` to an alias of module `module` has an index below `n`.
pub open spec fn refs_in_table(t: Type, module: u64, n: nat) -> bool
    decreases t,
{
    match t {
        Type::UntypedAlias(r) => r.module == module ==> r.index < n,
        Type::ClassType(c) => refs_in_table_list(c.targs, module, n),
        Type::SelfType(c) => refs_in_table_list(c.targs, module, n),
        Type::TypeOf(b) => refs_in_table(*b, module, n),
        Type::Union(l) => refs_in_table_list(l, module, n),
        Type::Tuple(Tuple::Concrete(l)) => refs_in_table_list(l, module, n),
        Type::Tuple(Tuple::Unbounded(b)) => refs_in_table(*b, module, n),
        Type::Tuple(Tuple::Unpacked(p, m, s)) => refs_in_table_list(p, module, n) && refs_in_table(*m, module, n)
            && refs_in_table_list(s, module, n),
        Type::Callable(ps, r) => refs_in_table_list(ps, module, n) && refs_in_table(*r, module, n),
        Type::Unpack(b) => refs_in_table(*b, module, n),
        Type::Annotated(b) => refs_in_table(*b, module, n),
        Type::TypeForm(b) => refs_in_table(*b, module, n),
        Type::Forall(_, b) => refs_in_table(*b, module, n),
        _ => true,
    }
}

pub open spec fn refs_in_table_list(l: TypeList, module: u64, n: nat) -> bool
    decreases l,
{
    match l {
        TypeList::Nil => true,
        TypeList::Cons(h, t) => refs_in_table(*h, module, n) && refs_in_table_list(*t, module, n),
    }
}

/// Keeping the elements of `s` other than `x`, which it does not hold, keeps them all.
proof fn lemma_filter_absent(s: Seq<u64>, x: u64)
    requires
        !s.contains(x),
    ensures
        s.filter(differs_from(x)) == s,
    decreases s.len(),
{
    let p = differs_from(x);
    if s.len() > 0 {
        lemma_filter_absent(s.drop_last(), x);
        s.drop_last().lemma_filter_push(s.last(), p);
        assert(s.drop_last().push(s.last()) =~= s);
    } else {
        assert(s.filter(p) =~= s);
    }
}

/// Adding `x` (not there before) and removing it again gives back `s`.
proof fn lemma_push_remove(s: Seq<u64>, x: u64)
    requires
        !s.contains(x),
    ensures
        elems_remove(s.push(x), x) == s,
{
    s.lemma_filter_push(x, differs_from(x));
    lemma_filter_absent(s, x);
}

impl AnswersSolver {
    /// The module's aliases all refer only to aliases it has.
    pub open spec fn alias_table_closed(self) -> bool {
        forall|i: int| 0 <= i < self.type_aliases@.len() ==> (#[trigger] alias_body(self.type_aliases@[i]) matches Some(b)
            ==> refs_in_table(b, self.module, self.type_aliases@.len()))
    }

    /// `t` with each reference to an alias of this module replaced by the alias's body
    /// (itself expanded), except a reference to an alias being expanded (in `visiting`),
    /// which stays and whose name is added to `refs`, and a reference to an alias in error,
    /// which stays. `depth` bounds the nesting of expansions; as each expansion adds an alias
    /// to `visiting`, the number of aliases is never reached.
    pub open spec fn spec_expand(self, t: Type, visiting: Seq<u64>, refs: Seq<u64>, depth: nat) -> (Type, Seq<u64>)
        decreases depth, t, 1nat,
    {
        match t {
            Type::UntypedAlias(r) => if r.module != self.module {
                (t, refs)
            } else if visiting.contains(r.index) {
                (t, elems_insert(refs, r.name))
            } else if depth == 0 || r.index >= self.type_aliases@.len() {
                (t, refs)
            } else {
                match alias_body(self.type_aliases@[r.index as int]) {
                    None => (t, refs),
                    Some(body) => self.spec_expand(body, visiting.push(r.index), refs, (depth - 1) as nat),
                }
            },
            Type::ClassType(c) => {
                let (l, rs) = self.spec_expand_list(c.targs, visiting, refs, depth);
                (Type::ClassType(ClassType { class: c.class, targs: l }), rs)
            },
            Type::SelfType(c) => {
                let (l, rs) = self.spec_expand_list(c.targs, visiting, refs, depth);
                (Type::SelfType(ClassType { class: c.class, targs: l }), rs)
            },
            Type::TypeOf(b) => {
                let (b2, rs) = self.spec_expand(*b, visiting, refs, depth);
                (Type::TypeOf(Box::new(b2)), rs)
            },
            Type::Union(l) => {
                let (l2, rs) = self.spec_expand_list(l, visiting, refs, depth);
                (Type::Union(l2), rs)
            },
            Type::Tuple(Tuple::Concrete(l)) => {
                let (l2, rs) = self.spec_expand_list(l, visiting, refs, depth);
                (Type::Tuple(Tuple::Concrete(l2)), rs)
            },
            Type::Tuple(Tuple::Unbounded(b)) => {
                let (b2, rs) = self.spec_expand(*b, visiting, refs, depth);
                (Type::Tuple(Tuple::Unbounded(Box::new(b2))), rs)
            },
            Type::Tuple(Tuple::Unpacked(p, m, s)) => {
                let (p2, r1) = self.spec_expand_list(p, visiting, refs, depth);
                let (m2, r2) = self.spec_expand(*m, visiting, r1, depth);
                let (s2, r3) = self.spec_expand_list(s, visiting, r2, depth);
                (Type::Tuple(Tuple::Unpacked(p2, Box::new(m2), s2)), r3)
            },
            Type::Callable(ps, r) => {
                let (ps2, r1) = self.spec_expand_list(ps, visiting, refs, depth);
                let (r2, r3) = self.spec_expand(*r, visiting, r1, depth);
                (Type::Callable(ps2, Box::new(r2)), r3)
            },
            Type::Unpack(b) => {
                let (b2, rs) = self.spec_expand(*b, visiting, refs, depth);
                (Type::Unpack(Box::new(b2)), rs)
            },
            Type::Annotated(b) => {
                let (b2, rs) = self.spec_expand(*b, visiting, refs, depth);
                (Type::Annotated(Box::new(b2)), rs)
            },
            Type::TypeForm(b) => {
                let (b2, rs) = self.spec_expand(*b, visiting, refs, depth);
                (Type::TypeForm(Box::new(b2)), rs)
            },
            Type::Forall(ps, b) => {
                let (b2, rs) = self.spec_expand(*b, visiting, refs, depth);
                (Type::Forall(ps, Box::new(b2)), rs)
            },
            _ => (t, refs),
        }
    }

    pub open spec fn spec_expand_list(self, l: TypeList, visiting: Seq<u64>, refs: Seq<u64>, depth: nat) -> (TypeList, Seq<u64>)
        decreases depth, l, 0nat,
    {
        match l {
            TypeList::Nil => (TypeList::Nil, refs),
            TypeList::Cons(h, t) => {
                let (h2, r1) = self.spec_expand(*h, visiting, refs, depth);
                let (t2, r2) = self.spec_expand_list(*t, visiting, r1, depth);
                (TypeList::Cons(Box::new(h2), Box::new(t2)), r2)
            },
        }
    }

    /// Expanding the body of the alias at `current_index`: that alias is being expanded from
    /// the start. The names of the aliases left as recursive references are returned too.
    pub open spec fn spec_expand_type_alias_refs(self, t: Type, current_index: u64) -> (Type, Seq<u64>) {
        self.spec_expand(t, seq![current_index], Seq::empty(), self.type_aliases@.len())
    }

    fn expand_refs_inner(&self, t: Type, visiting: &mut SmallSet<u64>, refs: &mut SmallSet<u64>, depth: usize) -> (r: Type)
        requires
            self.alias_table_closed(),
            refs_in_table(t, self.module, self.type_aliases@.len()),
        ensures
            (r, small_set_elems(*final(refs))) == self.spec_expand(t, small_set_elems(*old(visiting)), small_set_elems(*old(refs)), depth as nat),
            small_set_elems(*final(visiting)) == small_set_elems(*old(visiting)),
        decreases depth, t, 1nat,
    {
        match t {
            Type::UntypedAlias(r) => {
                if r.module != self.module {
                    return Type::UntypedAlias(r);
                }
                if small_set_contains(visiting, r.index) {
                    small_set_insert(refs, r.name);
                    return Type::UntypedAlias(r);
                }
                if depth == 0 || r.index >= self.type_aliases.len() as u64 {
                    return Type::UntypedAlias(r);
                }
                let ta = &self.type_aliases[r.index as usize];
                let body = match &ta.ty {
                    Type::TypeOf(b) => b.deep_clone(),
                    Type::Annotated(b) => b.deep_clone(),
                    _ => {
                        return Type::UntypedAlias(r);
                    },
                };
                assert(alias_body(self.type_aliases@[r.index as int]) == Some(body));
                let ghost before = small_set_elems(*visiting);
                small_set_insert(visiting, r.index);
                let expanded = self.expand_refs_inner(body, visiting, refs, depth - 1);
                small_set_shift_remove(visiting, r.index);
                proof {
                    lemma_push_remove(before, r.index);
                }
                expanded
            },
            Type::ClassType(c) => {
                let l = self.expand_refs_list(c.targs, visiting, refs, depth);
                Type::ClassType(ClassType { class: c.class, targs: l })
            },
            Type::SelfType(c) => {
                let l = self.expand_refs_list(c.targs, visiting, refs, depth);
                Type::SelfType(ClassType { class: c.class, targs: l })
            },
            Type::TypeOf(b) => Type::TypeOf(Box::new(self.expand_refs_inner(*b, visiting, refs, depth))),
            Type::Union(l) => Type::Union(self.expand_refs_list(l, visiting, refs, depth)),
            Type::Tuple(Tuple::Concrete(l)) => Type::Tuple(Tuple::Concrete(self.expand_refs_list(l, visiting, refs, depth))),
            Type::Tuple(Tuple::Unbounded(b)) => Type::Tuple(Tuple::Unbounded(Box::new(self.expand_refs_inner(*b, visiting, refs, depth)))),
            Type::Tuple(Tuple::Unpacked(p, m, s)) => {
                let p2 = self.expand_refs_list(p, visiting, refs, depth);
                let m2 = self.expand_refs_inner(*m, visiting, refs, depth);
                let s2 = self.expand_refs_list(s, visiting, refs, depth);
                Type::Tuple(Tuple::Unpacked(p2, Box::new(m2), s2))
            },
            Type::Callable(ps, r) => {
                let ps2 = self.expand_refs_list(ps, visiting, refs, depth);
                let r2 = self.expand_refs_inner(*r, visiting, refs, depth);
                Type::Callable(ps2, Box::new(r2))
            },
            Type::Unpack(b) => Type::Unpack(Box::new(self.expand_refs_inner(*b, visiting, refs, depth))),
            Type::Annotated(b) => Type::Annotated(Box::new(self.expand_refs_inner(*b, visiting, refs, depth))),
            Type::TypeForm(b) => Type::TypeForm(Box::new(self.expand_refs_inner(*b, visiting, refs, depth))),
            Type::Forall(ps, b) => Type::Forall(ps, Box::new(self.expand_refs_inner(*b, visiting, refs, depth))),
            other => other,
        }
    }

    fn expand_refs_list(&self, l: TypeList, visiting: &mut SmallSet<u64>, refs: &mut SmallSet<u64>, depth: usize) -> (r: TypeList)
        requires
            self.alias_table_closed(),
            refs_in_table_list(l, self.module, self.type_aliases@.len()),
        ensures
            (r, small_set_elems(*final(refs))) == self.spec_expand_list(l, small_set_elems(*old(visiting)), small_set_elems(*old(refs)), depth as nat),
            small_set_elems(*final(visiting)) == small_set_elems(*old(visiting)),
        decreases depth, l, 0nat,
    {
        match l {
            TypeList::Nil => TypeList::Nil,
            TypeList::Cons(h, t) => {
                let h2 = self.expand_refs_inner(*h, visiting, refs, depth);
                let t2 = self.expand_refs_list(*t, visiting, refs, depth);
                TypeList::Cons(Box::new(h2), Box::new(t2))
            },
        }
    }

    /// `ty`, the body of the alias at `current_index`, with the references to the module's
    /// other aliases expanded; see [`Self::spec_expand_type_alias_refs`]. Also the names of
    /// the aliases left in place as recursive references.
    pub fn expand_type_alias_refs(&self, ty: Type, current_index: u64) -> (r: (Type, SmallSet<u64>))
        requires
            self.alias_table_closed(),
            refs_in_table(ty, self.module, self.type_aliases@.len()),
        ensures
            (r.0, small_set_elems(r.1)) == self.spec_expand_type_alias_refs(ty, current_index),
    {
        let mut visiting = small_set_new();
        small_set_insert(&mut visiting, current_index);
        assert(small_set_elems(visiting) =~= seq![current_index]);
        let mut recursive_refs = small_set_new();
        let t = self.expand_refs_inner(ty, &mut visiting, &mut recursive_refs, self.type_aliases.len());
        (t, recursive_refs)
    }
}

/// The position of the first entry of `sorted` that starts after `start`, or its length.
pub open spec fn first_after(sorted: Seq<(u32, Quantified)>, start: u32) -> int
    decreases sorted.len(),
{
    if sorted.len() == 0 {
        0
    } else if sorted[0].0 > start {
        0
    } else {
        1 + first_after(sorted.drop_first(), start)
    }
}

/// `s` ordered by where each parameter was declared, parameters declared at the same place
/// keeping their order.
pub open spec fn sort_by_start(s: Seq<(u32, Quantified)>) -> Seq<(u32, Quantified)>
    decreases s.len(),
{
    if s.len() == 0 {
        Seq::empty()
    } else {
        let rest = sort_by_start(s.drop_last());
        rest.insert(first_after(rest, s.last().0), s.last())
    }
}

/// Whether `s` is ordered by where each parameter was declared.
pub open spec fn ordered_by_start(s: Seq<(u32, Quantified)>) -> bool {
    forall|i: int, j: int| 0 <= i < j < s.len() ==> s[i].0 <= s[j].0
}

proof fn lemma_first_after(sorted: Seq<(u32, Quantified)>, start: u32)
    requires
        ordered_by_start(sorted),
    ensures
        0 <= first_after(sorted, start) <= sorted.len(),
        forall|i: int| 0 <= i < first_after(sorted, start) ==> sorted[i].0 <= start,
        forall|i: int| first_after(sorted, start) <= i < sorted.len() ==> sorted[i].0 > start,
    decreases sorted.len(),
{
    if sorted.len() > 0 && sorted[0].0 <= start {
        let d = sorted.drop_first();
        assert(ordered_by_start(d)) by {
            assert forall|i: int, j: int| 0 <= i < j < d.len() implies d[i].0 <= d[j].0 by {
                assert(d[i] == sorted[i + 1] && d[j] == sorted[j + 1]);
            }
        }
        lemma_first_after(d, start);
        assert forall|i: int| 1 <= i < first_after(sorted, start) implies sorted[i].0 <= start by {
            assert(sorted[i] == d[i - 1]);
        }
        assert forall|i: int| first_after(sorted, start) <= i < sorted.len() implies sorted[i].0 > start by {
            assert(sorted[i] == d[i - 1]);
        }
    }
}

/// The parameters collected from a legacy alias's body are put back in the order in which
/// they were declared in the source (a union's members may have been reordered), and none
/// is lost or added.
pub proof fn law_collected_params_in_source_order(s: Seq<(u32, Quantified)>)
    ensures
        ordered_by_start(sort_by_start(s)),
        sort_by_start(s).len() == s.len(),
    decreases s.len(),
{
    if s.len() > 0 {
        let rest = sort_by_start(s.drop_last());
        law_collected_params_in_source_order(s.drop_last());
        let x = s.last();
        lemma_first_after(rest, x.0);
        let p = first_after(rest, x.0);
        let out = rest.insert(p, x);
        assert forall|i: int, j: int| 0 <= i < j < out.len() implies out[i].0 <= out[j].0 by {
            if j < p {
            } else if j == p {
            } else if i < p {
            } else if i == p {
                assert(out[j] == rest[j - 1]);
            } else {
                assert(out[i] == rest[i - 1] && out[j] == rest[j - 1]);
            }
        }
    }
}

/// The parameters in `s`, in source order; see [`sort_by_start`].
pub fn sort_params_by_start(s: &Vec<(u32, Quantified)>) -> (r: Vec<(u32, Quantified)>)
    ensures
        r@ == sort_by_start(s@),
{
    let mut out: Vec<(u32, Quantified)> = Vec::new();
    let mut i: usize = 0;
    while i < s.len()
        invariant
            i <= s@.len(),
            out@ == sort_by_start(s@.take(i as int)),
        decreases s.len() - i,
    {
        let x = s[i];
        assert(s@.take(i + 1).drop_last() =~= s@.take(i as int));
        assert(s@.take(i + 1).last() == x);
        let mut p: usize = 0;
        assert(out@.skip(0) =~= out@);
        while p < out.len() && out[p].0 <= x.0
            invariant
                p <= out@.len(),
                first_after(out@, x.0) == p + first_after(out@.skip(p as int), x.0),
            decreases out.len() - p,
        {
            assert(out@.skip(p as int).drop_first() =~= out@.skip(p + 1));
            p += 1;
        }
        proof {
            if p < out@.len() {
                assert(out@.skip(p as int)[0] == out@[p as int]);
            }
            assert(first_after(out@.skip(p as int), x.0) == 0);
        }
        out.insert(p, x);
        i += 1;
    }
    assert(s@.take(i as int) =~= s@);
    out
}

/// The bound type parameters that `t` mentions, in order, each as often as it occurs.
pub open spec fn quantifieds_of(t: Type) -> Seq<Quantified>
    decreases t,
{
    match t {
        Type::Quantified(q) => seq![q],
        Type::ClassType(c) => quantifieds_of_list(c.targs),
        Type::SelfType(c) => quantifieds_of_list(c.targs),
        Type::TypeOf(b) => quantifieds_of(*b),
        Type::Union(l) => quantifieds_of_list(l),
        Type::Tuple(Tuple::Concrete(l)) => quantifieds_of_list(l),
        Type::Tuple(Tuple::Unbounded(b)) => quantifieds_of(*b),
        Type::Tuple(Tuple::Unpacked(p, m, s)) => quantifieds_of_list(p) + quantifieds_of(*m) + quantifieds_of_list(s),
        Type::Callable(ps, r) => quantifieds_of_list(ps) + quantifieds_of(*r),
        Type::Unpack(b) => quantifieds_of(*b),
        Type::Annotated(b) => quantifieds_of(*b),
        Type::TypeForm(b) => quantifieds_of(*b),
        _ => Seq::empty(),
    }
}

pub open spec fn quantifieds_of_list(l: TypeList) -> Seq<Quantified>
    decreases l,
{
    match l {
        TypeList::Nil => Seq::empty(),
        TypeList::Cons(h, t) => quantifieds_of(*h) + quantifieds_of_list(*t),
    }
}

/// Appends the bound type parameters that `t` mentions to `out`.
pub fn collect_quantifieds(t: &Type, out: &mut Vec<Quantified>)
    ensures
        final(out)@ == old(out)@ + quantifieds_of(*t),
    decreases t,
{
    match t {
        Type::Quantified(q) => {
            out.push(*q);
            assert(out@ =~= old(out)@ + quantifieds_of(*t));
        },
        Type::ClassType(c) => collect_quantifieds_list(&c.targs, out),
        Type::SelfType(c) => collect_quantifieds_list(&c.targs, out),
        Type::TypeOf(b) => collect_quantifieds(b, out),
        Type::Union(l) => collect_quantifieds_list(l, out),
        Type::Tuple(Tuple::Concrete(l)) => collect_quantifieds_list(l, out),
        Type::Tuple(Tuple::Unbounded(b)) => collect_quantifieds(b, out),
        Type::Tuple(Tuple::Unpacked(p, m, s)) => {
            collect_quantifieds_list(p, out);
            collect_quantifieds(m, out);
            collect_quantifieds_list(s, out);
            assert(out@ =~= old(out)@ + quantifieds_of(*t));
        },
        Type::Callable(ps, r) => {
            collect_quantifieds_list(ps, out);
            collect_quantifieds(r, out);
            assert(out@ =~= old(out)@ + quantifieds_of(*t));
        },
        Type::Unpack(b) => collect_quantifieds(b, out),
        Type::Annotated(b) => collect_quantifieds(b, out),
        Type::TypeForm(b) => collect_quantifieds(b, out),
        _ => {
            assert(out@ =~= old(out)@ + quantifieds_of(*t));
        },
    }
}

fn collect_quantifieds_list(l: &TypeList, out: &mut Vec<Quantified>)
    ensures
        final(out)@ == old(out)@ + quantifieds_of_list(*l),
    decreases l,
{
    match l {
        TypeList::Nil => {
            assert(out@ =~= old(out)@ + quantifieds_of_list(*l));
        },
        TypeList::Cons(h, t) => {
            collect_quantifieds(h, out);
            collect_quantifieds_list(t, out);
            assert(out@ =~= old(out)@ + quantifieds_of_list(*l));
        },
    }
}

} // verus!
