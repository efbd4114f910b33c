//! What iterating over a value produces, and what unpacking it into targets gives each target.

use vstd::prelude::*;
use crate::errors::{ErrorCollector, ErrorKind, ErrorMsg, TextRange, TypeError};
use crate::solver::AnswersSolver;
use crate::type_ops::clone_types;
use crate::types::{list_any, type_any, AnyStyle, ClassType, Dim, QuantifiedKind, Quantified, Tuple, Type, TypeList, TypePred};
use crate::union::{spec_unions, unions};

verus! {

/// What iterating gives, as one iterable: the one there is, or, where there are several
/// (iterating over a union), one that produces the join of what they produce.
pub open spec fn single_iterable(its: Seq<IterableView>) -> Seq<IterableView> {
    if its.len() == 1 {
        its
    } else {
        seq![IterableView::OfType(spec_produced_type(its))]
    }
}

/// The mathematical value of an [`Iterable`].
pub enum IterableView {
    OfType(Type),
    FixedLen(Seq<Type>),
    Unpacked(Seq<Type>, Type, Seq<Type>),
    OfTypeVarTuple(Quantified),
}

/// What iterating over a value produces.
#[derive(Debug, PartialEq)]
pub enum Iterable {
    /// Any number of values of the type.
    OfType(Type),
    /// Exactly these values, in order.
    FixedLen(Vec<Type>),
    /// The fixed `prefix`, any number of `middle` values, then the fixed `suffix`.
    Unpacked {
        prefix: Vec<Type>,
        middle: Type,
        suffix: Vec<Type>,
    },
    /// The elements of the tuple that a TypeVarTuple stands for.
    OfTypeVarTuple(Quantified),
}

impl View for Iterable {
    type V = IterableView;

    open spec fn view(&self) -> IterableView {
        match self {
            Iterable::OfType(t) => IterableView::OfType(*t),
            Iterable::FixedLen(ts) => IterableView::FixedLen(ts@),
            Iterable::Unpacked { prefix, middle, suffix } => IterableView::Unpacked(
                prefix@,
                *middle,
                suffix@,
            ),
            Iterable::OfTypeVarTuple(q) => IterableView::OfTypeVarTuple(*q),
        }
    }
}

/// The position of an unpacking target, as the binder recorded it.
#[derive(Clone, Copy, PartialEq, Eq, Structural, Debug)]
pub enum UnpackedPosition {
    /// The `i`th target of `n` targets, none starred.
    ExactIndex(usize, usize),
    /// The `i`th target before a starred one, of at least `n` values.
    Index(usize, usize),
    /// The `i`th target from the end (counting from 1), after a starred one, of at least `n`
    /// values.
    ReverseIndex(usize, usize),
    /// The starred target, with `i` targets before it and `j` after it.
    Slice(usize, usize),
}

impl UnpackedPosition {
    /// The positions that the binder creates: an exact index is below the number of
    /// targets, an index can be followed by another, and a reverse index counts from 1.
    pub open spec fn wf(self) -> bool {
        match self {
            UnpackedPosition::ExactIndex(i, n) => i < n,
            UnpackedPosition::Index(i, _) => i < usize::MAX,
            UnpackedPosition::ReverseIndex(i, _) => i >= 1,
            UnpackedPosition::Slice(_, _) => true,
        }
    }
}

/// How many values an unpacking needs: exactly `n`, or at least `n` (with a starred target).
#[derive(Clone, Copy, PartialEq, Eq, Structural, Debug)]
pub enum SizeExpectation {
    Eq(usize),
    Ge(usize),
}

/// The types that an iterable produces, in order.
pub open spec fn produced(it: IterableView) -> Seq<Type> {
    match it {
        IterableView::OfType(t) => seq![t],
        IterableView::FixedLen(ts) => ts,
        IterableView::Unpacked(p, m, s) => p + seq![m] + s,
        IterableView::OfTypeVarTuple(q) => seq![Type::ElementOfTypeVarTuple(q)],
    }
}

/// The types that a list of iterables produces, in order.
pub open spec fn produced_all(its: Seq<IterableView>) -> Seq<Type>
    decreases its.len(),
{
    if its.len() == 0 {
        Seq::empty()
    } else {
        produced_all(its.drop_last()) + produced(its.last())
    }
}

/// A gradual dimension absorbs the rest; otherwise the produced types are joined.
pub open spec fn spec_produced_type(its: Seq<IterableView>) -> Type {
    if produced_all(its).contains(Type::gradual_size()) {
        Type::gradual_size()
    } else {
        spec_unions(produced_all(its))
    }
}

/// The types of `s` other than dimensions.
pub open spec fn drop_dims(s: Seq<Type>) -> Seq<Type>
    decreases s.len(),
{
    if s.len() == 0 {
        Seq::empty()
    } else if s.last() is Int {
        drop_dims(s.drop_last())
    } else {
        drop_dims(s.drop_last()).push(s.last())
    }
}

/// A gradual dimension subsumes the other dimensions but not the other types.
pub open spec fn spec_unions_or_gradual(elements: Seq<Type>) -> Type {
    if elements.contains(Type::gradual_size()) {
        spec_unions(drop_dims(elements).push(Type::gradual_size()))
    } else {
        spec_unions(elements)
    }
}

/// `a - b`, or 0 when `b` exceeds `a`.
pub open spec fn sat_sub(a: int, b: int) -> int {
    if a >= b {
        a - b
    } else {
        0
    }
}

/// The first `m` elements of `p`, last first.
pub open spec fn rev_take(p: Seq<Type>, m: int) -> Seq<Type> {
    Seq::new(m as nat, |k: int| p[p.len() - 1 - k])
}

pub open spec fn min(a: int, b: int) -> int {
    if a <= b {
        a
    } else {
        b
    }
}

impl AnswersSolver {
    /// `list[t]`.
    pub open spec fn spec_list_of(self, t: Type) -> Type {
        Type::ClassType(
            ClassType {
                class: self.stdlib.list,
                targs: TypeList::Cons(Box::new(t), Box::new(TypeList::Nil)),
            },
        )
    }

    /// An instance of `object`.
    pub open spec fn spec_object_type(self) -> Type {
        Type::ClassType(ClassType { class: self.stdlib.object, targs: TypeList::Nil })
    }

    /// The type a target at `pos` takes from the values that `it` produces.
    pub open spec fn spec_unpacked_element(self, it: IterableView, pos: UnpackedPosition) -> Type {
        match it {
            IterableView::OfType(ty) => match pos {
                UnpackedPosition::Slice(_, _) => self.spec_list_of(ty),
                _ => ty,
            },
            IterableView::Unpacked(prefix, middle, suffix) => {
                let plen = prefix.len() as int;
                let slen = suffix.len() as int;
                match pos {
                    UnpackedPosition::ExactIndex(i, exact_len) => if i < plen {
                        prefix[i as int]
                    } else {
                        let past = i - plen;
                        let middle_len = sat_sub(exact_len as int, plen + slen);
                        if past < middle_len {
                            middle
                        } else {
                            suffix[past - middle_len]
                        }
                    },
                    UnpackedPosition::Index(i, min_len) => if i < plen {
                        prefix[i as int]
                    } else {
                        let past = i - plen;
                        let min_middle = sat_sub(min_len as int, plen + slen);
                        let shift = sat_sub(past + 1, min_middle);
                        spec_unions_or_gradual(seq![middle] + suffix.take(min(shift, slen)))
                    },
                    UnpackedPosition::ReverseIndex(i, min_len) => if i > 0 && i <= slen {
                        suffix[slen - i]
                    } else {
                        let min_middle = sat_sub(min_len as int, plen + slen);
                        let shift = sat_sub(i - slen, min_middle);
                        spec_unions_or_gradual(seq![middle] + rev_take(prefix, min(shift, plen)))
                    },
                    UnpackedPosition::Slice(i, j) => self.spec_list_of(
                        spec_unions_or_gradual(
                            prefix.skip(min(i as int, plen)) + seq![middle] + suffix.take(
                                sat_sub(slen, j as int),
                            ),
                        ),
                    ),
                }
            },
            IterableView::OfTypeVarTuple(_) => match pos {
                UnpackedPosition::Slice(_, _) => self.spec_list_of(self.spec_object_type()),
                _ => self.spec_object_type(),
            },
            IterableView::FixedLen(ts) => {
                let len = ts.len() as int;
                let fallback = if ts.contains(Type::Never) {
                    Type::Never
                } else {
                    Type::any_error()
                };
                match pos {
                    UnpackedPosition::ExactIndex(i, _) | UnpackedPosition::Index(i, _) => if i
                        < len {
                        ts[i as int]
                    } else {
                        fallback
                    },
                    UnpackedPosition::ReverseIndex(i, _) => if 1 <= i <= len {
                        ts[len - i]
                    } else {
                        fallback
                    },
                    UnpackedPosition::Slice(i, j) => if j <= len && i <= len - j {
                        self.spec_list_of(spec_unions(ts.subrange(i as int, len - j)))
                    } else {
                        fallback
                    },
                }
            },
        }
    }

    /// The type a target at `pos` takes when the value unpacked iterates as `its`: the join
    /// over the iterables.
    pub open spec fn spec_unpacked_value(self, its: Seq<IterableView>, pos: UnpackedPosition) -> Type {
        spec_unions(Seq::new(its.len(), |k: int| self.spec_unpacked_element(its[k], pos)))
    }
}


/// The views of a list of iterables.
pub open spec fn iterables_view(v: Seq<Iterable>) -> Seq<IterableView> {
    v.map_values(|it: Iterable| it@)
}

/// Appends copies of the types in `ts` to `out`.
fn extend_cloned(out: &mut Vec<Type>, ts: &Vec<Type>)
    ensures
        final(out)@ == old(out)@ + ts@,
{
    let mut i: usize = 0;
    while i < ts.len()
        invariant
            i <= ts@.len(),
            out@ == old(out)@ + ts@.take(i as int),
        decreases ts.len() - i,
    {
        out.push(ts[i].deep_clone());
        i += 1;
        assert(out@ =~= old(out)@ + ts@.take(i as int));
    }
    assert(ts@.take(i as int) =~= ts@);
}

/// Whether `ts` holds the gradual dimension.
fn contains_gradual(ts: &Vec<Type>) -> (r: bool)
    ensures
        r == ts@.contains(Type::gradual_size()),
{
    let mut i: usize = 0;
    while i < ts.len()
        invariant
            i <= ts@.len(),
            forall|k: int| 0 <= k < i ==> ts@[k] != Type::gradual_size(),
        decreases ts.len() - i,
    {
        if ts[i].is_gradual_size() {
            assert(ts@[i as int] == Type::gradual_size());
            return true;
        }
        i += 1;
    }
    false
}

/// Whether `ts` holds `Never`.
pub fn contains_never(ts: &Vec<Type>) -> (r: bool)
    ensures
        r == ts@.contains(Type::Never),
{
    let mut i: usize = 0;
    while i < ts.len()
        invariant
            i <= ts@.len(),
            forall|k: int| 0 <= k < i ==> ts@[k] != Type::Never,
        decreases ts.len() - i,
    {
        if ts[i].is_never() {
            assert(ts@[i as int] == Type::Never);
            return true;
        }
        i += 1;
    }
    false
}

/// The type produced by iterating: a gradual dimension if any iterable produces one,
/// otherwise the union of all the types produced.
pub fn get_produced_type(iterables: Vec<Iterable>) -> (r: Type)
    ensures
        r == spec_produced_type(iterables_view(iterables@)),
{
    let ghost its = iterables_view(iterables@);
    let mut produced_types: Vec<Type> = Vec::new();
    let mut i: usize = 0;
    while i < iterables.len()
        invariant
            i <= iterables@.len(),
            its == iterables_view(iterables@),
            produced_types@ == produced_all(its.take(i as int)),
        decreases iterables.len() - i,
    {
        proof {
            assert(its.take(i + 1).drop_last() =~= its.take(i as int));
            assert(its.take(i + 1).last() == iterables@[i as int]@);
        }
        match &iterables[i] {
            Iterable::OfType(t) => produced_types.push(t.deep_clone()),
            Iterable::FixedLen(ts) => extend_cloned(&mut produced_types, ts),
            Iterable::Unpacked { prefix, middle, suffix } => {
                extend_cloned(&mut produced_types, prefix);
                produced_types.push(middle.deep_clone());
                extend_cloned(&mut produced_types, suffix);
            },
            Iterable::OfTypeVarTuple(q) => produced_types.push(Type::ElementOfTypeVarTuple(*q)),
        }
        proof {
            assert(produced_types@ =~= produced_all(its.take(i as int)) + produced(iterables@[i as int]@));
        }
        i += 1;
    }
    assert(its.take(i as int) =~= its);
    if contains_gradual(&produced_types) {
        Type::Int(crate::types::Dim::Gradual)
    } else {
        unions(produced_types)
    }
}

/// A gradual dimension subsumes other int dimensions but not non-dimension types.
pub fn unions_or_gradual(elements: Vec<Type>) -> (r: Type)
    ensures
        r == spec_unions_or_gradual(elements@),
{
    if contains_gradual(&elements) {
        let mut kept: Vec<Type> = Vec::new();
        let mut i: usize = 0;
        while i < elements.len()
            invariant
                i <= elements@.len(),
                kept@ == drop_dims(elements@.take(i as int)),
            decreases elements.len() - i,
        {
            proof {
                assert(elements@.take(i + 1).drop_last() =~= elements@.take(i as int));
            }
            if !matches!(elements[i], Type::Int(_)) {
                kept.push(elements[i].deep_clone());
            }
            i += 1;
        }
        assert(elements@.take(i as int) =~= elements@);
        kept.push(Type::Int(crate::types::Dim::Gradual));
        unions(kept)
    } else {
        unions(elements)
    }
}


impl AnswersSolver {
    /// `list[t]`.
    pub fn list_of(&self, t: Type) -> (r: Type)
        ensures
            r == self.spec_list_of(t),
    {
        Type::ClassType(
            ClassType {
                class: self.stdlib.list,
                targs: TypeList::Cons(Box::new(t), Box::new(TypeList::Nil)),
            },
        )
    }

    /// An instance of `object`.
    pub fn object_type(&self) -> (r: Type)
        ensures
            r == self.spec_object_type(),
    {
        Type::ClassType(ClassType { class: self.stdlib.object, targs: TypeList::Nil })
    }

    /// The type that a target at `pos` takes from the values that `iterable` produces.
    pub fn unpacked_element(&self, iterable: &Iterable, pos: UnpackedPosition) -> (r: Type)
        requires
            pos.wf(),
            iterable matches Iterable::Unpacked { prefix, suffix, .. } ==> prefix@.len()
                + suffix@.len() <= usize::MAX,
        ensures
            r == self.spec_unpacked_element(iterable@, pos),
    {
        match iterable {
            Iterable::OfType(ty) => match pos {
                UnpackedPosition::ExactIndex(..) | UnpackedPosition::Index(..)
                | UnpackedPosition::ReverseIndex(..) => ty.deep_clone(),
                UnpackedPosition::Slice(_, _) => self.list_of(ty.deep_clone()),
            },
            Iterable::Unpacked { prefix, middle, suffix } => {
                let plen = prefix.len();
                let slen = suffix.len();
                match pos {
                    // Exact length pins the variadic middle to `middle_len` elements, so a
                    // position past the fixed prefix resolves to a single element: the middle
                    // if it lands within it, otherwise a specific suffix element.
                    UnpackedPosition::ExactIndex(i, exact_len) => if i < plen {
                        prefix[i].deep_clone()
                    } else {
                        let past = i - plen;
                        let middle_len = exact_len.saturating_sub(plen + slen);
                        if past < middle_len {
                            middle.deep_clone()
                        } else {
                            suffix[past - middle_len].deep_clone()
                        }
                    },
                    // Before a star the middle may hold as few as `min_middle` elements, so a
                    // fixed suffix element can shift forward into this position.
                    UnpackedPosition::Index(i, min_len) => if i < plen {
                        prefix[i].deep_clone()
                    } else {
                        let past = i - plen;
                        let min_middle = min_len.saturating_sub(plen + slen);
                        let shift = (past + 1).saturating_sub(min_middle);
                        let mut elements: Vec<Type> = Vec::new();
                        elements.push(middle.deep_clone());
                        let take = if shift < slen { shift } else { slen };
                        let mut k: usize = 0;
                        while k < take
                            invariant
                                take <= suffix@.len(),
                                k <= take,
                                elements@ == seq![*middle] + suffix@.take(k as int),
                            decreases take - k,
                        {
                            elements.push(suffix[k].deep_clone());
                            k += 1;
                            assert(elements@ =~= seq![*middle] + suffix@.take(k as int));
                        }
                        unions_or_gradual(elements)
                    },
                    // After a star; symmetric to `Index`, a fixed prefix element can shift back.
                    UnpackedPosition::ReverseIndex(i, min_len) => if i > 0 && i <= slen {
                        suffix[slen - i].deep_clone()
                    } else {
                        let min_middle = min_len.saturating_sub(plen + slen);
                        let shift = (i - slen).saturating_sub(min_middle);
                        let mut elements: Vec<Type> = Vec::new();
                        elements.push(middle.deep_clone());
                        let take = if shift < plen { shift } else { plen };
                        let mut k: usize = 0;
                        while k < take
                            invariant
                                take <= prefix@.len(),
                                plen == prefix@.len(),
                                k <= take,
                                elements@ == seq![*middle] + rev_take(prefix@, k as int),
                            decreases take - k,
                        {
                            elements.push(prefix[plen - 1 - k].deep_clone());
                            k += 1;
                            assert(elements@ =~= seq![*middle] + rev_take(prefix@, k as int));
                        }
                        unions_or_gradual(elements)
                    },
                    UnpackedPosition::Slice(i, j) => {
                        let mut elements: Vec<Type> = Vec::new();
                        let start = if i < plen { i } else { plen };
                        let mut k: usize = start;
                        while k < plen
                            invariant
                                start <= k <= plen,
                                plen == prefix@.len(),
                                elements@ == prefix@.subrange(start as int, k as int),
                            decreases plen - k,
                        {
                            elements.push(prefix[k].deep_clone());
                            k += 1;
                            assert(elements@ =~= prefix@.subrange(start as int, k as int));
                        }
                        elements.push(middle.deep_clone());
                        let take = slen.saturating_sub(j);
                        let ghost before = elements@;
                        let mut k: usize = 0;
                        while k < take
                            invariant
                                take <= suffix@.len(),
                                k <= take,
                                elements@ == before + suffix@.take(k as int),
                            decreases take - k,
                        {
                            elements.push(suffix[k].deep_clone());
                            k += 1;
                            assert(elements@ =~= before + suffix@.take(k as int));
                        }
                        assert(prefix@.subrange(start as int, plen as int) =~= prefix@.skip(
                            min(i as int, plen as int),
                        ));
                        assert(elements@ =~= prefix@.skip(min(i as int, plen as int)) + seq![*middle]
                            + suffix@.take(sat_sub(slen as int, j as int)));
                        self.list_of(unions_or_gradual(elements))
                    },
                }
            },
            Iterable::OfTypeVarTuple(_) => {
                // Type var tuples can resolve to anything so we fall back to object
                let object_type = self.object_type();
                match pos {
                    UnpackedPosition::ExactIndex(..) | UnpackedPosition::Index(..)
                    | UnpackedPosition::ReverseIndex(..) => object_type,
                    UnpackedPosition::Slice(_, _) => self.list_of(object_type),
                }
            },
            Iterable::FixedLen(ts) => {
                let has_never = contains_never(ts);
                let len = ts.len();
                match pos {
                    UnpackedPosition::ExactIndex(i, _) | UnpackedPosition::Index(i, _) => {
                        if i < len {
                            ts[i].deep_clone()
                        } else if has_never {
                            // Tuple contains `Never`: this position is unreachable.
                            Type::Never
                        } else {
                            // The length mismatch is reported by the unpacked-length check.
                            Type::Any(crate::types::AnyStyle::Error)
                        }
                    },
                    UnpackedPosition::ReverseIndex(i, _) => {
                        if 1 <= i && i <= len {
                            ts[len - i].deep_clone()
                        } else if has_never {
                            Type::Never
                        } else {
                            Type::Any(crate::types::AnyStyle::Error)
                        }
                    },
                    UnpackedPosition::Slice(i, j) => {
                        if j <= len && i <= len - j {
                            let end = len - j;
                            let mut items: Vec<Type> = Vec::new();
                            let mut k: usize = i;
                            while k < end
                                invariant
                                    i <= k <= end,
                                    end <= ts@.len(),
                                    items@ == ts@.subrange(i as int, k as int),
                                decreases end - k,
                            {
                                items.push(ts[k].deep_clone());
                                k += 1;
                                assert(items@ =~= ts@.subrange(i as int, k as int));
                            }
                            self.list_of(unions(items))
                        } else if has_never {
                            Type::Never
                        } else {
                            Type::Any(crate::types::AnyStyle::Error)
                        }
                    },
                }
            },
        }
    }

    /// The type that a target at `pos` takes when unpacking a value that iterates as
    /// `iterables`: the join of what each iterable gives it.
    pub fn unpacked_value(&self, iterables: &Vec<Iterable>, pos: UnpackedPosition) -> (r: Type)
        requires
            pos.wf(),
            forall|k: int|
                0 <= k < iterables@.len() ==> (#[trigger] iterables@[k] matches Iterable::Unpacked {
                    prefix,
                    suffix,
                    ..
                } ==> prefix@.len() + suffix@.len() <= usize::MAX),
        ensures
            r == self.spec_unpacked_value(iterables_view(iterables@), pos),
    {
        let ghost its = iterables_view(iterables@);
        let mut values: Vec<Type> = Vec::new();
        let mut i: usize = 0;
        while i < iterables.len()
            invariant
                i <= iterables@.len(),
                its == iterables_view(iterables@),
                pos.wf(),
                forall|k: int|
                    0 <= k < iterables@.len() ==> (#[trigger] iterables@[k] matches Iterable::Unpacked {
                        prefix,
                        suffix,
                        ..
                    } ==> prefix@.len() + suffix@.len() <= usize::MAX),
                values@ == Seq::new(i as nat, |k: int| self.spec_unpacked_element(its[k], pos)),
            decreases iterables.len() - i,
        {
            let v = self.unpacked_element(&iterables[i], pos);
            values.push(v);
            i += 1;
            assert(values@ =~= Seq::new(i as nat, |k: int| self.spec_unpacked_element(its[k], pos)));
        }
        unions(values)
    }
}


/// 1 if a type variable occurs in `t`, else 0: iterating over a type variable goes on to
/// its upper bound, which mentions none.
pub open spec fn tv_rank(t: Type) -> int {
    if type_any(t, TypePred::TypeVariable) {
        1
    } else {
        0
    }
}

pub open spec fn tv_rank_list(l: TypeList) -> int {
    if list_any(l, TypePred::TypeVariable) {
        1
    } else {
        0
    }
}

impl AnswersSolver {
    /// Whether `t` is a type variable parameter whose upper bound can be iterated instead:
    /// one that mentions no type variable (which a bound or constraint never does).
    pub open spec fn iterates_by_bound(self, t: Type) -> bool {
        t matches Type::Quantified(q) && q.kind == QuantifiedKind::TypeVar && !type_any(
            self.upper_bound(q),
            TypePred::TypeVariable,
        )
    }

    /// What the iteration protocol gives for a type that is not a tuple or a union: the
    /// iteration type of an iterable class, and `Any` for `Any`.
    pub open spec fn spec_unwrap_iterable(self, t: Type) -> Option<Type> {
        match t {
            Type::ClassType(c) => self.iter_item(c.class),
            Type::SelfType(c) => self.iter_item(c.class),
            Type::Any(s) => Some(Type::Any(s.spec_propagate())),
            Type::IntTuple => Some(Type::Int(Dim::Gradual)),
            _ => None,
        }
    }

    /// What the iteration protocols give for a type that is not a tuple or a union: what
    /// [`Self::spec_unwrap_iterable`] gives, else what `__getitem__` with an `int` gives.
    pub open spec fn spec_protocol_item(self, t: Type) -> Option<Type> {
        match self.spec_unwrap_iterable(t) {
            Some(e) => Some(e),
            None => match t {
                Type::ClassType(c) => self.getitem_item(c.class),
                Type::SelfType(c) => self.getitem_item(c.class),
                _ => None,
            },
        }
    }

    /// What iterating over a value of type `t` produces. A union produces what each member
    /// produces; a type variable what its upper bound produces, taken as one iterable.
    pub open spec fn spec_iterate(self, t: Type) -> Seq<IterableView>
        decreases tv_rank(t), t,
    {
        match t {
            Type::Quantified(q) if self.iterates_by_bound(t) => single_iterable(self.spec_iterate(self.upper_bound(q))),
            Type::Tuple(Tuple::Concrete(l)) => seq![IterableView::FixedLen(l.seq())],
            Type::Tuple(Tuple::Unbounded(e)) => seq![IterableView::OfType(*e)],
            Type::Tuple(Tuple::Unpacked(p, m, s)) => if p.seq().len() == 0 && s.seq().len() == 0 {
                match *m {
                    Type::Quantified(q) => if q.kind == QuantifiedKind::TypeVarTuple {
                        seq![IterableView::OfTypeVarTuple(q)]
                    } else {
                        single_iterable(self.spec_iterate(*m))
                    },
                    _ => single_iterable(self.spec_iterate(*m)),
                }
            } else {
                let middle = match *m {
                    Type::Tuple(Tuple::Unbounded(e)) => *e,
                    Type::Quantified(q) => if q.kind == QuantifiedKind::TypeVarTuple {
                        self.spec_object_type()
                    } else {
                        spec_produced_type(self.spec_iterate(*m))
                    },
                    _ => spec_produced_type(self.spec_iterate(*m)),
                };
                seq![IterableView::Unpacked(p.seq(), middle, s.seq())]
            },
            Type::Union(l) => self.spec_iterate_list(l),
            Type::ClassType(c) if self.fixed_tuple_elements(c.class) is Some => seq![
                IterableView::FixedLen(self.fixed_tuple_elements(c.class).unwrap()),
            ],
            Type::SelfType(c) if self.fixed_tuple_elements(c.class) is Some => seq![
                IterableView::FixedLen(self.fixed_tuple_elements(c.class).unwrap()),
            ],
            _ => match self.spec_protocol_item(t) {
                Some(e) => seq![IterableView::OfType(e)],
                None => seq![IterableView::OfType(Type::any_error())],
            },
        }
    }

    pub open spec fn spec_iterate_list(self, l: TypeList) -> Seq<IterableView>
        decreases tv_rank_list(l), l,
    {
        match l {
            TypeList::Nil => Seq::empty(),
            TypeList::Cons(h, t) => self.spec_iterate(*h) + self.spec_iterate_list(*t),
        }
    }

    /// The types found not iterable while iterating over `t`, in order.
    pub open spec fn not_iterable(self, t: Type) -> Seq<Type>
        decreases tv_rank(t), t,
    {
        match t {
            Type::Quantified(q) if self.iterates_by_bound(t) => self.not_iterable(self.upper_bound(q)),
            Type::Tuple(Tuple::Concrete(_)) | Type::Tuple(Tuple::Unbounded(_)) => Seq::empty(),
            Type::Tuple(Tuple::Unpacked(p, m, s)) => if p.seq().len() == 0 && s.seq().len() == 0 {
                match *m {
                    Type::Quantified(q) => if q.kind == QuantifiedKind::TypeVarTuple {
                        Seq::empty()
                    } else {
                        self.not_iterable(*m)
                    },
                    _ => self.not_iterable(*m),
                }
            } else {
                match *m {
                    Type::Tuple(Tuple::Unbounded(_)) => Seq::empty(),
                    Type::Quantified(q) => if q.kind == QuantifiedKind::TypeVarTuple {
                        Seq::empty()
                    } else {
                        self.not_iterable(*m)
                    },
                    _ => self.not_iterable(*m),
                }
            },
            Type::Union(l) => self.not_iterable_list(l),
            Type::ClassType(c) if self.fixed_tuple_elements(c.class) is Some => Seq::empty(),
            Type::SelfType(c) if self.fixed_tuple_elements(c.class) is Some => Seq::empty(),
            _ => if self.spec_protocol_item(t) is Some {
                Seq::empty()
            } else {
                seq![t]
            },
        }
    }

    pub open spec fn not_iterable_list(self, l: TypeList) -> Seq<Type>
        decreases tv_rank_list(l), l,
    {
        match l {
            TypeList::Nil => Seq::empty(),
            TypeList::Cons(h, t) => self.not_iterable(*h) + self.not_iterable_list(*t),
        }
    }

    fn unwrap_iterable(&self, t: &Type) -> (r: Option<Type>)
        ensures
            r == self.spec_unwrap_iterable(*t),
    {
        match t {
            Type::ClassType(c) => self.class_iter_item(c.class),
            Type::SelfType(c) => self.class_iter_item(c.class),
            Type::Any(s) => Some(Type::Any(s.propagate())),
            Type::IntTuple => Some(Type::Int(Dim::Gradual)),
            _ => None,
        }
    }

    /// Given an `iterable` type, determine the iteration type; this is the type of `x` if we
    /// were to loop using `for x in iterable`. A type variable iterates like its upper bound.
    /// Each type found not iterable is reported at `range`, and iterates as the error type.
    ///
    /// Returns one iterable unless the type is a union, in which case the caller must handle
    /// each case.
    pub fn iterate(&self, iterable: &Type, range: TextRange, errors: &mut ErrorCollector) -> (r: Vec<Iterable>)
        ensures
            iterables_view(r@) == self.spec_iterate(*iterable),
            final(errors)@ == old(errors)@ + self.not_iterable(*iterable).map_values(
                |t: Type| TypeError { kind: ErrorKind::NotIterable, range, msg: ErrorMsg::NotIterable(t) },
            ),
        decreases tv_rank(*iterable), iterable,
    {
        let ghost f = |t: Type| TypeError { kind: ErrorKind::NotIterable, range, msg: ErrorMsg::NotIterable(t) };
        let mut r: Vec<Iterable> = Vec::new();
        match iterable {
            Type::Tuple(Tuple::Concrete(elts)) => {
                r.push(Iterable::FixedLen(elts.to_vec()));
                assert(self.not_iterable(*iterable).map_values(f) =~= Seq::empty());
                assert(old(errors)@ + Seq::<TypeError>::empty() =~= old(errors)@);
            },
            Type::Tuple(Tuple::Unbounded(elt)) => {
                r.push(Iterable::OfType(elt.deep_clone()));
                assert(self.not_iterable(*iterable).map_values(f) =~= Seq::empty());
                assert(old(errors)@ + Seq::<TypeError>::empty() =~= old(errors)@);
            },
            Type::Tuple(Tuple::Unpacked(prefix, middle, suffix)) => {
                let prefix = prefix.to_vec();
                let suffix = suffix.to_vec();
                if prefix.len() == 0 && suffix.len() == 0 {
                    // Empty ends around the unbounded middle, e.g. `tuple[*Ts]`: iteration
                    // collapses to the middle alone.
                    match &**middle {
                        Type::Quantified(q) if matches!(q.kind, QuantifiedKind::TypeVarTuple) => {
                            r.push(Iterable::OfTypeVarTuple(*q));
                            assert(self.not_iterable(*iterable).map_values(f) =~= Seq::empty());
                            assert(old(errors)@ + Seq::<TypeError>::empty() =~= old(errors)@);
                        },
                        _ => {
                            let its = self.iterate(middle, range, errors);
                            if its.len() == 1 {
                                return its;
                            }
                            let produced = get_produced_type(its);
                            let mut one: Vec<Iterable> = Vec::new();
                            one.push(Iterable::OfType(produced));
                            assert(iterables_view(one@) =~= single_iterable(self.spec_iterate(**middle)));
                            return one;
                        },
                    }
                } else {
                    // Keep the fixed ends distinct so a starred target captures only the middle.
                    let middle_ty = match &**middle {
                        Type::Tuple(Tuple::Unbounded(elt)) => {
                            assert(self.not_iterable(*iterable).map_values(f) =~= Seq::empty());
                            assert(old(errors)@ + Seq::<TypeError>::empty() =~= old(errors)@);
                            elt.deep_clone()
                        },
                        Type::Quantified(q) if matches!(q.kind, QuantifiedKind::TypeVarTuple) => {
                            assert(self.not_iterable(*iterable).map_values(f) =~= Seq::empty());
                            assert(old(errors)@ + Seq::<TypeError>::empty() =~= old(errors)@);
                            self.object_type()
                        },
                        _ => get_produced_type(self.iterate(middle, range, errors)),
                    };
                    r.push(Iterable::Unpacked { prefix, middle: middle_ty, suffix });
                }
            },
            Type::Union(members) => {
                return self.iterate_list(members, range, errors);
            },
            Type::Quantified(q) if matches!(q.kind, QuantifiedKind::TypeVar) && !self.quantified_upper_bound(q).contains_type_variable() => {
                // A TypeVar iterates like its upper bound: `Z: tuple[str, int]` unpacks
                // positionally rather than collapsing to the join of its elements.
                let bound = self.quantified_upper_bound(q);
                assert(self.iterates_by_bound(*iterable));
                let its = self.iterate(&bound, range, errors);
                if its.len() == 1 {
                    return its;
                }
                let produced = get_produced_type(its);
                let mut one: Vec<Iterable> = Vec::new();
                one.push(Iterable::OfType(produced));
                assert(iterables_view(one@) =~= single_iterable(self.spec_iterate(bound)));
                return one;
            },
            _ => {
                let fixed = match iterable {
                    Type::ClassType(c) => self.class_fixed_tuple_elements(c.class),
                    Type::SelfType(c) => self.class_fixed_tuple_elements(c.class),
                    _ => None,
                };
                if let Some(elts) = fixed {
                    r.push(Iterable::FixedLen(elts));
                    assert(self.not_iterable(*iterable).map_values(f) =~= Seq::empty());
                    assert(old(errors)@ + Seq::<TypeError>::empty() =~= old(errors)@);
                    assert(iterables_view(r@) =~= self.spec_iterate(*iterable));
                    return r;
                }
                let item = match self.unwrap_iterable(iterable) {
                    Some(ty) => Some(ty),
                    None => match iterable {
                        Type::ClassType(c) => self.class_getitem_item(c.class),
                        Type::SelfType(c) => self.class_getitem_item(c.class),
                        _ => None,
                    },
                };
                match item {
                    Some(ty) => {
                        r.push(Iterable::OfType(ty));
                        assert(self.not_iterable(*iterable).map_values(f) =~= Seq::empty());
                        assert(old(errors)@ + Seq::<TypeError>::empty() =~= old(errors)@);
                    },
                    None => {
                        errors.error(
                            ErrorKind::NotIterable,
                            range,
                            ErrorMsg::NotIterable(iterable.deep_clone()),
                        );
                        r.push(Iterable::OfType(Type::Any(AnyStyle::Error)));
                        assert(self.not_iterable(*iterable).map_values(f) =~= seq![f(*iterable)]);
                    },
                }
            },
        }
        assert(iterables_view(r@) =~= self.spec_iterate(*iterable));
        r
    }

    fn iterate_list(&self, l: &TypeList, range: TextRange, errors: &mut ErrorCollector) -> (r: Vec<Iterable>)
        ensures
            iterables_view(r@) == self.spec_iterate_list(*l),
            final(errors)@ == old(errors)@ + self.not_iterable_list(*l).map_values(
                |t: Type| TypeError { kind: ErrorKind::NotIterable, range, msg: ErrorMsg::NotIterable(t) },
            ),
        decreases tv_rank_list(*l), l,
    {
        let ghost f = |t: Type| TypeError { kind: ErrorKind::NotIterable, range, msg: ErrorMsg::NotIterable(t) };
        match l {
            TypeList::Nil => {
                assert(old(errors)@ + Seq::<TypeError>::empty() =~= old(errors)@);
                assert(self.not_iterable_list(*l).map_values(f) =~= Seq::empty());
                let r: Vec<Iterable> = Vec::new();
                assert(iterables_view(r@) =~= Seq::empty());
                r
            },
            TypeList::Cons(h, t) => {
                let ghost e0 = errors@;
                let mut r = self.iterate(h, range, errors);
                let ghost e1 = errors@;
                let ghost r1 = r@;
                let mut rest = self.iterate_list(t, range, errors);
                let ghost r2 = rest@;
                r.append(&mut rest);
                assert(r@ =~= r1 + r2);
                assert(iterables_view(r@) =~= iterables_view(r1) + iterables_view(r2));
                assert(self.not_iterable_list(*l).map_values(f) =~= self.not_iterable(**h).map_values(f)
                    + self.not_iterable_list(**t).map_values(f));
                assert(errors@ =~= e0 + self.not_iterable_list(*l).map_values(f));
                r
            },
        }
    }
}


/// Iterating over a type that is not a union gives one iterable.
pub proof fn law_iterate_one_unless_union(solver: AnswersSolver, t: Type)
    requires
        !(t is Union),
    ensures
        solver.spec_iterate(t).len() == 1,
{
}

/// A type variable iterates like its upper bound (a bound `tuple[str, int]` unpacks
/// positionally), as one iterable, and reports what iterating over the bound reports.
pub proof fn law_type_variable_iterates_as_its_bound(solver: AnswersSolver, q: Quantified)
    requires
        q.kind == QuantifiedKind::TypeVar,
        !type_any(solver.upper_bound(q), TypePred::TypeVariable),
    ensures
        solver.spec_iterate(Type::Quantified(q)) == single_iterable(solver.spec_iterate(solver.upper_bound(q))),
        !(solver.upper_bound(q) is Union) ==> solver.spec_iterate(Type::Quantified(q)) == solver.spec_iterate(solver.upper_bound(q)),
        solver.not_iterable(Type::Quantified(q)) == solver.not_iterable(solver.upper_bound(q)),
{
    if !(solver.upper_bound(q) is Union) {
        law_iterate_one_unless_union(solver, solver.upper_bound(q));
    }
}

/// Iterating over a union gives, in order, what iterating over each member gives.
pub proof fn law_iterate_union_members(solver: AnswersSolver, l: TypeList)
    ensures
        solver.spec_iterate(Type::Union(l)) == solver.spec_iterate_list(l),
        l matches TypeList::Cons(h, t) ==> solver.spec_iterate_list(l) == solver.spec_iterate(*h) + solver.spec_iterate_list(*t),
{
}


impl AnswersSolver {
    /// What `async for` over a value of type `t` yields: the async iteration item of its
    /// class, or `Any` for `Any`.
    pub open spec fn spec_unwrap_async_iterable(self, t: Type) -> Option<Type> {
        match t {
            Type::ClassType(c) => self.async_iter_item(c.class),
            Type::SelfType(c) => self.async_iter_item(c.class),
            Type::Any(s) => Some(Type::Any(s.spec_propagate())),
            _ => None,
        }
    }

    /// What `async for x in iterable` gives `x`: one iterable of the async iteration item
    /// type; a value that is not async iterable is reported at `range` and iterates as the
    /// error type.
    pub fn async_iterate(&self, iterable: &Type, range: TextRange, errors: &mut ErrorCollector) -> (r: Vec<Iterable>)
        ensures
            iterables_view(r@) == seq![
                IterableView::OfType(
                    match self.spec_unwrap_async_iterable(*iterable) {
                        Some(t) => t,
                        None => Type::any_error(),
                    },
                ),
            ],
            final(errors)@ == old(errors)@ + match self.spec_unwrap_async_iterable(*iterable) {
                Some(_) => Seq::empty(),
                None => seq![TypeError { kind: ErrorKind::NotIterable, range, msg: ErrorMsg::NotAsyncIterable(*iterable) }],
            },
    {
        let item = match iterable {
            Type::ClassType(c) => self.class_async_iter_item(c.class),
            Type::SelfType(c) => self.class_async_iter_item(c.class),
            Type::Any(s) => Some(Type::Any(s.propagate())),
            _ => None,
        };
        let ty = match item {
            Some(t) => {
                assert(old(errors)@ + Seq::<TypeError>::empty() =~= old(errors)@);
                t
            },
            None => {
                errors.error(ErrorKind::NotIterable, range, ErrorMsg::NotAsyncIterable(iterable.deep_clone()));
                Type::Any(AnyStyle::Error)
            },
        };
        let mut r: Vec<Iterable> = Vec::new();
        r.push(Iterable::OfType(ty));
        assert(iterables_view(r@) =~= seq![IterableView::OfType(r@[0]->OfType_0)]);
        r
    }
}


proof fn lemma_drop_dims(es: Seq<Type>)
    ensures
        forall|i: int| 0 <= i < es.len() && !(es[i] is Int) ==> drop_dims(es).contains(#[trigger] es[i]),
        forall|j: int| 0 <= j < drop_dims(es).len() ==> !(#[trigger] drop_dims(es)[j] is Int),
    decreases es.len(),
{
    if es.len() > 0 {
        let d = es.drop_last();
        lemma_drop_dims(d);
        assert forall|i: int| 0 <= i < es.len() && !(es[i] is Int) implies drop_dims(es).contains(#[trigger] es[i]) by {
            if i < es.len() - 1 {
                assert(es[i] == d[i]);
                if !(es.last() is Int) {
                    vstd::seq_lib::lemma_seq_contains_after_push(drop_dims(d), es.last(), es[i]);
                }
            } else {
                vstd::seq_lib::lemma_seq_contains_after_push(drop_dims(d), es.last(), es[i]);
            }
        }
    }
}

/// A gradual dimension subsumes the other dimensions but not the other types: where the
/// elements hold a gradual dimension, their join is the join of every element that is no
/// dimension, and of the gradual dimension, with no other dimension.
pub proof fn law_gradual_subsumes_dimensions(elements: Seq<Type>)
    requires
        elements.contains(Type::gradual_size()),
    ensures
        ({
            let joined = drop_dims(elements).push(Type::gradual_size());
            &&& spec_unions_or_gradual(elements) == spec_unions(joined)
            &&& forall|i: int| 0 <= i < elements.len() && !(elements[i] is Int) ==> joined.contains(#[trigger] elements[i])
            &&& forall|j: int| 0 <= j < joined.len() && (#[trigger] joined[j] is Int) ==> joined[j] == Type::gradual_size()
        }),
{
    lemma_drop_dims(elements);
    let joined = drop_dims(elements).push(Type::gradual_size());
    assert forall|i: int| 0 <= i < elements.len() && !(elements[i] is Int) implies joined.contains(#[trigger] elements[i]) by {
        vstd::seq_lib::lemma_seq_contains_after_push(drop_dims(elements), Type::gradual_size(), elements[i]);
    }
    assert forall|j: int| 0 <= j < joined.len() && (#[trigger] joined[j] is Int) implies joined[j] == Type::gradual_size() by {
        if j < drop_dims(elements).len() {
            assert(joined[j] == drop_dims(elements)[j]);
        }
    }
}

impl AnswersSolver {
    /// The type of an element of a shape tuple `tuple[*prefix, *middle, *suffix]`: the union
    /// of the ends' elements and the middle's, where the middle's is the union of a concrete
    /// tuple's elements, an unbounded tuple's element, that of an unpacked tuple (found the
    /// same way), or what iterating it gives (a gradual dimension where nothing is known).
    /// A gradual dimension anywhere makes the whole a gradual dimension.
    pub open spec fn spec_int_tuple_unpacked_element(self, prefix: Seq<Type>, middle: Type, suffix: Seq<Type>) -> Type
        decreases middle,
    {
        let m = match middle {
            Type::Tuple(Tuple::Concrete(l)) => spec_unions(l.seq()),
            Type::Tuple(Tuple::Unbounded(e)) => *e,
            Type::Tuple(Tuple::Unpacked(p, m2, s2)) => self.spec_int_tuple_unpacked_element(p.seq(), *m2, s2.seq()),
            _ => match self.spec_unwrap_iterable(middle) {
                Some(t) => t,
                None => Type::gradual_size(),
            },
        };
        let elements = prefix.push(m) + suffix;
        if elements.contains(Type::gradual_size()) {
            Type::gradual_size()
        } else {
            spec_unions(elements)
        }
    }

    /// The type of an element of a shape tuple; see [`Self::spec_int_tuple_unpacked_element`].
    pub fn int_tuple_unpacked_element_type(&self, prefix: &Vec<Type>, middle: &Type, suffix: &Vec<Type>) -> (r: Type)
        ensures
            r == self.spec_int_tuple_unpacked_element(prefix@, *middle, suffix@),
        decreases middle,
    {
        let m = match middle {
            Type::Tuple(Tuple::Concrete(l)) => unions(l.to_vec()),
            Type::Tuple(Tuple::Unbounded(e)) => e.deep_clone(),
            Type::Tuple(Tuple::Unpacked(p, m2, s2)) => self.int_tuple_unpacked_element_type(&p.to_vec(), m2, &s2.to_vec()),
            _ => match self.unwrap_iterable(middle) {
                Some(t) => t,
                None => Type::Int(Dim::Gradual),
            },
        };
        let mut elements = clone_types(prefix);
        elements.push(m);
        let mut rest = clone_types(suffix);
        elements.append(&mut rest);
        if contains_gradual(&elements) {
            Type::Int(Dim::Gradual)
        } else {
            unions(elements)
        }
    }
}


/// Unpacking a tuple with fixed ends around an unpacked middle (`a, *b, c = t` for
/// `t: tuple[int, *tuple[str, ...], bytes]`) gives one iterable that keeps the ends where
/// they stand: the prefix is exactly the leading members and the suffix exactly the
/// trailing ones, in order; an unbounded middle gives its element.
pub proof fn law_iterate_keeps_fixed_ends(solver: AnswersSolver, p: TypeList, m: Type, s: TypeList)
    requires
        p.seq().len() > 0 || s.seq().len() > 0,
    ensures
        ({
            let its = solver.spec_iterate(Type::Tuple(Tuple::Unpacked(p, Box::new(m), s)));
            &&& its.len() == 1
            &&& its[0] matches IterableView::Unpacked(pre, _, suf) && pre == p.seq() && suf == s.seq()
            &&& (m matches Type::Tuple(Tuple::Unbounded(e)) ==> its[0] == IterableView::Unpacked(p.seq(), *e, s.seq()))
        }),
{
}


/// A tuple of known members iterates as exactly those members, in order; `tuple[X, ...]`
/// gives its element; `tuple[*Ts]` gives the TypeVarTuple; and nothing is reported.
pub proof fn law_iterate_tuples(solver: AnswersSolver, l: TypeList, e: Type, q: Quantified)
    requires
        q.kind == QuantifiedKind::TypeVarTuple,
    ensures
        solver.spec_iterate(Type::Tuple(Tuple::Concrete(l))) == seq![IterableView::FixedLen(l.seq())],
        solver.spec_iterate(Type::Tuple(Tuple::Unbounded(Box::new(e)))) == seq![IterableView::OfType(e)],
        solver.spec_iterate(Type::Tuple(Tuple::Unpacked(TypeList::Nil, Box::new(Type::Quantified(q)), TypeList::Nil)))
            == seq![IterableView::OfTypeVarTuple(q)],
        solver.not_iterable(Type::Tuple(Tuple::Concrete(l))).len() == 0,
        solver.not_iterable(Type::Tuple(Tuple::Unbounded(Box::new(e)))).len() == 0,
{
}

} // verus!
