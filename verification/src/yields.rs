//! The types that a `yield` expression yields and receives.

use vstd::prelude::*;
use crate::errors::{ErrorCollector, ErrorKind, ErrorMsg, TextRange, TypeError};
use crate::solver::AnswersSolver;
use crate::types::{AnyStyle, ClassType, Type, TypeList};
use crate::union::{spec_unions, union_members, unions};
use crate::untype::one_error;

verus! {

broadcast use vstd::std_specs::vec::axiom_vec_index_decreases;

/// A `yield` expression.
pub enum BindingYield {
    /// A `yield` in a function, with the type of the function's return annotation (if any),
    /// the type of the yielded value (checked against what the annotation asks for), and,
    /// for a bare `yield`, the solver's verdict on whether `None` may be yielded there.
    Yield { annotation: Option<Type>, value: Option<Type>, bare_none_assignable: bool, range: TextRange },
    /// A `yield` outside any function.
    Invalid { range: TextRange },
    /// A `yield` that cannot be reached, with the type of its value, if any.
    Unreachable { value: Option<Type> },
}

/// What a `yield` yields, and what it receives when the generator is resumed.
#[derive(Debug, PartialEq)]
pub struct YieldResult {
    pub yield_ty: Type,
    pub send_ty: Type,
}

/// The yield and send types that a return annotation member asks for: those of a
/// `Generator[Y, S, R]` or an `AsyncGenerator[Y, S]`.
pub open spec fn generator_hint(generator: u64, async_generator: u64, t: Type) -> Option<(Type, Type)> {
    match t {
        Type::ClassType(c) => if c.class == generator && c.targs.seq().len() == 3 {
            Some((c.targs.seq()[0], c.targs.seq()[1]))
        } else if c.class == async_generator && c.targs.seq().len() == 2 {
            Some((c.targs.seq()[0], c.targs.seq()[1]))
        } else {
            None
        },
        _ => None,
    }
}

/// The members of a type, taken one by one: the members of a union, or the type itself.
pub open spec fn hint_members(t: Type) -> Seq<Type> {
    if t is Union {
        union_members(t)
    } else {
        seq![t]
    }
}

/// The yield and send hints of each member of `ms` that asks for any, in order.
pub open spec fn generator_hints(generator: u64, async_generator: u64, ms: Seq<Type>) -> Seq<(Type, Type)>
    decreases ms.len(),
{
    if ms.len() == 0 {
        Seq::empty()
    } else {
        let rest = generator_hints(generator, async_generator, ms.drop_last());
        match generator_hint(generator, async_generator, ms.last()) {
            Some(h) => rest.push(h),
            None => rest,
        }
    }
}

/// The yield result with no hint: the value's type (or `None` for a bare `yield`), and an
/// implicit `Any` received.
pub open spec fn unhinted_yield(value: Option<Type>) -> YieldResult {
    YieldResult {
        yield_ty: match value {
            Some(v) => v,
            None => Type::NoneType,
        },
        send_ty: Type::Any(AnyStyle::Implicit),
    }
}

impl AnswersSolver {
    /// The yield and send hints that `annotation` asks for.
    pub open spec fn spec_yield_hints(self, annotation: Option<Type>) -> Seq<(Type, Type)> {
        match annotation {
            Some(a) => generator_hints(self.stdlib.generator, self.stdlib.async_generator, hint_members(a)),
            None => Seq::empty(),
        }
    }

    /// The result of a `yield`: where the annotation asks for generators, the value's type
    /// (a bare `yield` yields `None`, or, where `None` may not be yielded, is reported and
    /// yields the type asked for) and the union of the send types asked for; otherwise the
    /// unhinted result. A `yield` outside a function is reported and gives errors.
    pub open spec fn spec_solve_yield(self, x: BindingYield) -> (YieldResult, Seq<TypeError>) {
        match x {
            BindingYield::Yield { annotation, value, bare_none_assignable, range } => {
                let hints = self.spec_yield_hints(annotation);
                if hints.len() > 0 {
                    let want = spec_unions(hints.map_values(|h: (Type, Type)| h.0));
                    let send = spec_unions(hints.map_values(|h: (Type, Type)| h.1));
                    match value {
                        Some(v) => (YieldResult { yield_ty: v, send_ty: send }, Seq::empty()),
                        None => if bare_none_assignable {
                            (YieldResult { yield_ty: Type::NoneType, send_ty: send }, Seq::empty())
                        } else {
                            (
                                YieldResult { yield_ty: want, send_ty: send },
                                one_error(ErrorKind::InvalidYield, range, ErrorMsg::UnexpectedBareYield(want)),
                            )
                        },
                    }
                } else {
                    (unhinted_yield(value), Seq::empty())
                }
            },
            BindingYield::Invalid { range } => (
                YieldResult { yield_ty: Type::any_error(), send_ty: Type::any_error() },
                one_error(ErrorKind::InvalidYield, range, ErrorMsg::YieldOutsideFunction),
            ),
            BindingYield::Unreachable { value } => (unhinted_yield(value), Seq::empty()),
        }
    }

    /// The yield and send hints of `t`, if it asks for a generator.
    fn generator_hint_of(&self, t: &Type) -> (r: Option<(Type, Type)>)
        ensures
            r == generator_hint(self.stdlib.generator, self.stdlib.async_generator, *t),
    {
        match t {
            Type::ClassType(c) => {
                let args = c.targs.to_vec();
                if c.class == self.stdlib.generator && args.len() == 3 {
                    Some((args[0].deep_clone(), args[1].deep_clone()))
                } else if c.class == self.stdlib.async_generator && args.len() == 2 {
                    Some((args[0].deep_clone(), args[1].deep_clone()))
                } else {
                    None
                }
            },
            _ => None,
        }
    }

    /// The yield and send hints that `annotation` asks for.
    pub fn yield_hints(&self, annotation: &Option<Type>) -> (r: Vec<(Type, Type)>)
        ensures
            r@ == self.spec_yield_hints(*annotation),
    {
        let mut out: Vec<(Type, Type)> = Vec::new();
        if let Some(a) = annotation {
            let ms: Vec<Type> = match a {
                Type::Union(l) => l.to_vec(),
                other => {
                    let mut v: Vec<Type> = Vec::new();
                    v.push(other.deep_clone());
                    v
                },
            };
            assert(ms@ =~= hint_members(*a));
            let mut i: usize = 0;
            while i < ms.len()
                invariant
                    i <= ms@.len(),
                    out@ == generator_hints(self.stdlib.generator, self.stdlib.async_generator, ms@.take(i as int)),
                decreases ms.len() - i,
            {
                assert(ms@.take(i + 1).drop_last() =~= ms@.take(i as int));
                match self.generator_hint_of(&ms[i]) {
                    Some(h) => out.push(h),
                    None => {},
                }
                i += 1;
            }
            assert(ms@.take(i as int) =~= ms@);
        }
        out
    }

    /// The result of a `yield`; see [`Self::spec_solve_yield`].
    pub fn solve_yield(&self, x: &BindingYield, errors: &mut ErrorCollector) -> (r: YieldResult)
        ensures
            r == self.spec_solve_yield(*x).0,
            final(errors)@ == old(errors)@ + self.spec_solve_yield(*x).1,
    {
        match x {
            BindingYield::Yield { annotation, value, bare_none_assignable, range } => {
                let hints = self.yield_hints(annotation);
                if hints.len() > 0 {
                    let mut yields: Vec<Type> = Vec::new();
                    let mut sends: Vec<Type> = Vec::new();
                    let mut i: usize = 0;
                    while i < hints.len()
                        invariant
                            i <= hints@.len(),
                            yields@ == hints@.take(i as int).map_values(|h: (Type, Type)| h.0),
                            sends@ == hints@.take(i as int).map_values(|h: (Type, Type)| h.1),
                        decreases hints.len() - i,
                    {
                        yields.push(hints[i].0.deep_clone());
                        sends.push(hints[i].1.deep_clone());
                        i += 1;
                        assert(yields@ =~= hints@.take(i as int).map_values(|h: (Type, Type)| h.0));
                        assert(sends@ =~= hints@.take(i as int).map_values(|h: (Type, Type)| h.1));
                    }
                    assert(hints@.take(i as int) =~= hints@);
                    let send = unions(sends);
                    match value {
                        Some(v) => {
                            assert(old(errors)@ + Seq::<TypeError>::empty() =~= old(errors)@);
                            YieldResult { yield_ty: v.deep_clone(), send_ty: send }
                        },
                        None => {
                            let want = unions(yields);
                            if *bare_none_assignable {
                                assert(old(errors)@ + Seq::<TypeError>::empty() =~= old(errors)@);
                                YieldResult { yield_ty: Type::NoneType, send_ty: send }
                            } else {
                                errors.error(ErrorKind::InvalidYield, *range, ErrorMsg::UnexpectedBareYield(want.deep_clone()));
                                YieldResult { yield_ty: want, send_ty: send }
                            }
                        },
                    }
                } else {
                    assert(old(errors)@ + Seq::<TypeError>::empty() =~= old(errors)@);
                    YieldResult {
                        yield_ty: match value {
                            Some(v) => v.deep_clone(),
                            None => Type::NoneType,
                        },
                        send_ty: Type::Any(AnyStyle::Implicit),
                    }
                }
            },
            BindingYield::Invalid { range } => {
                errors.error(ErrorKind::InvalidYield, *range, ErrorMsg::YieldOutsideFunction);
                YieldResult { yield_ty: Type::Any(AnyStyle::Error), send_ty: Type::Any(AnyStyle::Error) }
            },
            BindingYield::Unreachable { value } => {
                assert(old(errors)@ + Seq::<TypeError>::empty() =~= old(errors)@);
                YieldResult {
                    yield_ty: match value {
                        Some(v) => v.deep_clone(),
                        None => Type::NoneType,
                    },
                    send_ty: Type::Any(AnyStyle::Implicit),
                }
            },
        }
    }
}


/// What the solver found the value of a `yield from` to be.
pub enum YieldFromSource {
    /// A generator, with its yield, send and return types.
    Generator(Type, Type, Type),
    /// An iterable that is no generator, with its element type.
    Iterable(Type),
    /// Neither a generator nor an iterable.
    NotIterable,
}

/// A `yield from` expression.
pub enum BindingYieldFrom {
    /// A `yield from` in a function: the type of the function's return annotation (if any),
    /// whether the function is `async`, the type of the value delegated to, what the solver
    /// found that value to be, and the solver's verdict on whether the value (made a
    /// generator where it is a plain iterable) is assignable to the generators the
    /// annotation asks for.
    YieldFrom {
        annotation: Option<Type>,
        is_async: bool,
        value: Type,
        source: YieldFromSource,
        assignable: bool,
        range: TextRange,
    },
    /// A `yield from` outside any function.
    Invalid { range: TextRange },
    /// A `yield from` that cannot be reached, with what its value was found to be.
    Unreachable { source: YieldFromSource },
}

/// What a `yield from` yields, what it receives, and what it evaluates to.
#[derive(Debug, PartialEq)]
pub struct YieldFromResult {
    pub yield_ty: Type,
    pub send_ty: Type,
    pub return_ty: Type,
}

/// `Generator[y, s, r]`.
pub open spec fn generator_type(generator: u64, y: Type, s: Type, r: Type) -> Type {
    Type::ClassType(ClassType { class: generator, targs: TypeList::from_seq(seq![y, s, r]) })
}

/// The result of delegating to `source`: a generator's own types; an iterable's element
/// type, with `None` sent and returned; errors otherwise.
pub open spec fn spec_yield_from_result(source: YieldFromSource) -> YieldFromResult {
    match source {
        YieldFromSource::Generator(y, s, r) => YieldFromResult { yield_ty: y, send_ty: s, return_ty: r },
        YieldFromSource::Iterable(y) => YieldFromResult { yield_ty: y, send_ty: Type::NoneType, return_ty: Type::NoneType },
        YieldFromSource::NotIterable => YieldFromResult {
            yield_ty: Type::any_error(),
            send_ty: Type::any_error(),
            return_ty: Type::any_error(),
        },
    }
}

/// An iterable of `y` seen as a generator that is sent and returns `None`, taken member by
/// member where `y` is a union.
pub open spec fn spec_promote_iterable(generator: u64, y: Type) -> Type {
    match y {
        Type::Union(l) => spec_unions(
            l.seq().map_values(|m: Type| generator_type(generator, m, Type::NoneType, Type::NoneType)),
        ),
        _ => generator_type(generator, y, Type::NoneType, Type::NoneType),
    }
}

/// The generators that the members of `ms` ask to be delegated to: each
/// `Generator[Y, S, R]` member as `Generator[Y, S, Any]`, in order.
pub open spec fn delegation_wants(generator: u64, ms: Seq<Type>) -> Seq<Type>
    decreases ms.len(),
{
    if ms.len() == 0 {
        Seq::empty()
    } else {
        let rest = delegation_wants(generator, ms.drop_last());
        match ms.last() {
            Type::ClassType(c) => if c.class == generator && c.targs.seq().len() == 3 {
                rest.push(generator_type(generator, c.targs.seq()[0], c.targs.seq()[1], Type::Any(AnyStyle::Implicit)))
            } else {
                rest
            },
            _ => rest,
        }
    }
}

impl AnswersSolver {
    /// The generators that `annotation` asks a `yield from` to delegate to.
    pub open spec fn spec_yield_from_wants(self, annotation: Option<Type>) -> Seq<Type> {
        match annotation {
            Some(a) => delegation_wants(self.stdlib.generator, hint_members(a)),
            None => Seq::empty(),
        }
    }

    /// The result of a `yield from`, and the errors it reports, in order: delegating from
    /// an `async` function; a value that is not iterable (outside `async` functions); a
    /// value (made a generator where it is a plain iterable, an error where it is not
    /// iterable) that is not assignable to the generators the annotation asks for. A
    /// `yield from` outside a function is reported and gives errors; one that cannot be
    /// reached reports nothing.
    pub open spec fn spec_solve_yield_from(self, x: BindingYieldFrom) -> (YieldFromResult, Seq<TypeError>) {
        match x {
            BindingYieldFrom::YieldFrom { annotation, is_async, value, source, assignable, range } => {
                let async_errors = if is_async {
                    one_error(ErrorKind::InvalidYield, range, ErrorMsg::YieldFromInAsync)
                } else {
                    Seq::empty()
                };
                let (checked, source_errors) = match source {
                    YieldFromSource::Generator(_, _, _) => (value, Seq::<TypeError>::empty()),
                    YieldFromSource::Iterable(y) => (spec_promote_iterable(self.stdlib.generator, y), Seq::<TypeError>::empty()),
                    YieldFromSource::NotIterable => (
                        Type::any_error(),
                        if is_async {
                            Seq::<TypeError>::empty()
                        } else {
                            one_error(ErrorKind::InvalidYield, range, ErrorMsg::YieldFromNotIterable(value))
                        },
                    ),
                };
                let wants = self.spec_yield_from_wants(annotation);
                let check_errors = if wants.len() > 0 && !assignable {
                    one_error(ErrorKind::InvalidYield, range, ErrorMsg::YieldFromNotAssignable(checked, spec_unions(wants)))
                } else {
                    Seq::empty()
                };
                (spec_yield_from_result(source), async_errors + source_errors + check_errors)
            },
            BindingYieldFrom::Invalid { range } => (
                spec_yield_from_result(YieldFromSource::NotIterable),
                one_error(ErrorKind::InvalidYield, range, ErrorMsg::YieldFromOutsideFunction),
            ),
            BindingYieldFrom::Unreachable { source } => (spec_yield_from_result(source), Seq::empty()),
        }
    }

    /// `Generator[y, s, r]`.
    fn generator_of(&self, y: Type, s: Type, r: Type) -> (t: Type)
        ensures
            t == generator_type(self.stdlib.generator, y, s, r),
    {
        let ghost sq = seq![y, s, r];
        let mut v: Vec<Type> = Vec::new();
        v.push(y);
        v.push(s);
        v.push(r);
        assert(v@ =~= sq);
        let targs = TypeList::from_vec(v);
        proof {
            TypeList::lemma_from_seq(sq);
            TypeList::lemma_seq_injective(targs, TypeList::from_seq(sq));
        }
        Type::ClassType(ClassType { class: self.stdlib.generator, targs })
    }

    /// An iterable of `y` seen as a generator; see [`spec_promote_iterable`].
    pub fn promote_iterable(&self, y: &Type) -> (t: Type)
        ensures
            t == spec_promote_iterable(self.stdlib.generator, *y),
    {
        match y {
            Type::Union(l) => {
                let ms = l.to_vec();
                let mut gens: Vec<Type> = Vec::new();
                let mut i: usize = 0;
                while i < ms.len()
                    invariant
                        i <= ms@.len(),
                        ms@ == l.seq(),
                        gens@ == ms@.take(i as int).map_values(
                            |m: Type| generator_type(self.stdlib.generator, m, Type::NoneType, Type::NoneType),
                        ),
                    decreases ms.len() - i,
                {
                    let g = self.generator_of(ms[i].deep_clone(), Type::NoneType, Type::NoneType);
                    gens.push(g);
                    i += 1;
                    assert(gens@ =~= ms@.take(i as int).map_values(
                        |m: Type| generator_type(self.stdlib.generator, m, Type::NoneType, Type::NoneType),
                    ));
                }
                assert(ms@.take(i as int) =~= ms@);
                unions(gens)
            },
            _ => self.generator_of(y.deep_clone(), Type::NoneType, Type::NoneType),
        }
    }

    /// The generators that `annotation` asks a `yield from` to delegate to.
    pub fn yield_from_wants(&self, annotation: &Option<Type>) -> (r: Vec<Type>)
        ensures
            r@ == self.spec_yield_from_wants(*annotation),
    {
        let mut out: Vec<Type> = Vec::new();
        if let Some(a) = annotation {
            let ms: Vec<Type> = match a {
                Type::Union(l) => l.to_vec(),
                other => {
                    let mut v: Vec<Type> = Vec::new();
                    v.push(other.deep_clone());
                    v
                },
            };
            assert(ms@ =~= hint_members(*a));
            let mut i: usize = 0;
            while i < ms.len()
                invariant
                    i <= ms@.len(),
                    out@ == delegation_wants(self.stdlib.generator, ms@.take(i as int)),
                decreases ms.len() - i,
            {
                assert(ms@.take(i + 1).drop_last() =~= ms@.take(i as int));
                match &ms[i] {
                    Type::ClassType(c) => {
                        let args = c.targs.to_vec();
                        if c.class == self.stdlib.generator && args.len() == 3 {
                            let g = self.generator_of(args[0].deep_clone(), args[1].deep_clone(), Type::Any(AnyStyle::Implicit));
                            out.push(g);
                        }
                    },
                    _ => {},
                }
                i += 1;
            }
            assert(ms@.take(i as int) =~= ms@);
        }
        out
    }

    /// The result of delegating to `source`; see [`spec_yield_from_result`].
    fn yield_from_result(source: &YieldFromSource) -> (r: YieldFromResult)
        ensures
            r == spec_yield_from_result(*source),
    {
        match source {
            YieldFromSource::Generator(y, s, r) => YieldFromResult {
                yield_ty: y.deep_clone(),
                send_ty: s.deep_clone(),
                return_ty: r.deep_clone(),
            },
            YieldFromSource::Iterable(y) => YieldFromResult {
                yield_ty: y.deep_clone(),
                send_ty: Type::NoneType,
                return_ty: Type::NoneType,
            },
            YieldFromSource::NotIterable => YieldFromResult {
                yield_ty: Type::Any(AnyStyle::Error),
                send_ty: Type::Any(AnyStyle::Error),
                return_ty: Type::Any(AnyStyle::Error),
            },
        }
    }

    /// The result of a `yield from`; see [`Self::spec_solve_yield_from`].
    pub fn solve_yield_from(&self, x: &BindingYieldFrom, errors: &mut ErrorCollector) -> (r: YieldFromResult)
        ensures
            r == self.spec_solve_yield_from(*x).0,
            final(errors)@ == old(errors)@ + self.spec_solve_yield_from(*x).1,
    {
        match x {
            BindingYieldFrom::YieldFrom { annotation, is_async, value, source, assignable, range } => {
                let ghost e0 = errors@;
                if *is_async {
                    errors.error(ErrorKind::InvalidYield, *range, ErrorMsg::YieldFromInAsync);
                }
                let ghost e1 = errors@;
                let checked = match source {
                    YieldFromSource::Generator(_, _, _) => value.deep_clone(),
                    YieldFromSource::Iterable(y) => self.promote_iterable(y),
                    YieldFromSource::NotIterable => {
                        if !*is_async {
                            errors.error(ErrorKind::InvalidYield, *range, ErrorMsg::YieldFromNotIterable(value.deep_clone()));
                        }
                        Type::Any(AnyStyle::Error)
                    },
                };
                let ghost e2 = errors@;
                let wants = self.yield_from_wants(annotation);
                if wants.len() > 0 && !*assignable {
                    let want = unions(wants);
                    errors.error(ErrorKind::InvalidYield, *range, ErrorMsg::YieldFromNotAssignable(checked, want));
                }
                proof {
                    let sp = self.spec_solve_yield_from(*x).1;
                    assert(errors@ =~= old(errors)@ + sp);
                }
                Self::yield_from_result(source)
            },
            BindingYieldFrom::Invalid { range } => {
                errors.error(ErrorKind::InvalidYield, *range, ErrorMsg::YieldFromOutsideFunction);
                Self::yield_from_result(&YieldFromSource::NotIterable)
            },
            BindingYieldFrom::Unreachable { source } => {
                assert(old(errors)@ + Seq::<TypeError>::empty() =~= old(errors)@);
                Self::yield_from_result(source)
            },
        }
    }
}

/// A `yield` that cannot be reached is no error (`return; yield` is the idiom for an empty
/// generator): it yields its value's type, or `None`, and receives an implicit `Any`.
pub proof fn law_unreachable_yield_is_not_an_error(solver: AnswersSolver, value: Option<Type>)
    ensures
        solver.spec_solve_yield(BindingYield::Unreachable { value }).1 == Seq::<TypeError>::empty(),
        solver.spec_solve_yield(BindingYield::Unreachable { value }).0 == unhinted_yield(value),
{
}

/// A `yield from` that cannot be reached is no error, and evaluates as a reachable one with
/// the same value would: the result depends only on what the value was found to be.
pub proof fn law_unreachable_yield_from_is_not_an_error(
    solver: AnswersSolver,
    annotation: Option<Type>,
    is_async: bool,
    value: Type,
    source: YieldFromSource,
    assignable: bool,
    range: TextRange,
)
    ensures
        solver.spec_solve_yield_from(BindingYieldFrom::Unreachable { source }).1 == Seq::<TypeError>::empty(),
        solver.spec_solve_yield_from(BindingYieldFrom::Unreachable { source }).0
            == solver.spec_solve_yield_from(
            BindingYieldFrom::YieldFrom { annotation, is_async, value, source, assignable, range },
        ).0,
{
}

} // verus!
