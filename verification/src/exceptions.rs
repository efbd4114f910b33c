//! The type an `except` (or `except*`) clause binds: the exception classes its annotation
//! names, each checked to be an exception class.

use vstd::prelude::*;
use crate::errors::{ErrorCollector, ErrorKind, ErrorMsg, TextRange, TypeError};
use crate::solver::AnswersSolver;
use crate::types::{ClassType, Tuple, Type, TypeList};
use crate::union::{spec_unions, unions};
use crate::untype::one_error;

verus! {

broadcast use vstd::std_specs::vec::axiom_vec_index_decreases;

/// An element of a tuple literal in an `except` clause.
pub struct ExceptElement {
    /// The element's type (for `*x`, the type of `x`).
    pub ty: Type,
    /// Whether the element is starred.
    pub starred: bool,
    pub range: TextRange,
}

/// The annotation of an `except` clause.
pub enum ExceptAnnotation {
    /// A tuple literal, such as `(A, B, *rest)`.
    Tuple { elements: Vec<ExceptElement>, range: TextRange },
    /// Any other expression, with its type.
    Other { ty: Type, range: TextRange },
}

/// The solver's verdicts on one exception class named in an `except` clause.
#[derive(Clone, Copy, PartialEq, Eq, Structural, Debug)]
pub struct ExceptionVerdict {
    /// Whether the class (as a type) is assignable to `BaseException`.
    pub is_exception: bool,
    /// Whether the class, not being one that behaves like `Any`, is assignable to
    /// `BaseExceptionGroup[Any]`.
    pub extends_group: bool,
}

impl AnswersSolver {
    /// The exception classes that a type in an `except` clause stands for: the members of
    /// a tuple (an instance of `tuple[X]`, or of a class whose instances are tuples of a
    /// fixed length, counting as the tuple it is), of each member of a union, or the type
    /// itself.
    pub open spec fn spec_except_members(self, ty: Type) -> Seq<Type>
        decreases ty,
    {
        match ty {
            Type::ClassType(c) => if c.class == self.stdlib.tuple && c.targs.seq().len() == 1 {
                seq![c.targs.seq()[0]]
            } else {
                match self.tuple_elements(c.class) {
                    Some(elts) => elts,
                    None => seq![ty],
                }
            },
            Type::Tuple(Tuple::Concrete(l)) => l.seq(),
            Type::Tuple(Tuple::Unbounded(b)) => seq![*b],
            Type::Union(l) => self.list_except_members(l),
            _ => seq![ty],
        }
    }

    /// The exception classes that the members of `l` stand for, in order.
    pub open spec fn list_except_members(self, l: TypeList) -> Seq<Type>
        decreases l,
    {
        match l {
            TypeList::Nil => Seq::empty(),
            TypeList::Cons(h, t) => self.spec_except_members(*h) + self.list_except_members(*t),
        }
    }

    /// The exception classes that the elements of a tuple literal name, each at its
    /// element: a starred element's members, or the element itself.
    pub open spec fn element_items(self, es: Seq<ExceptElement>) -> Seq<(Type, TextRange)>
        decreases es.len(),
    {
        if es.len() == 0 {
            Seq::empty()
        } else {
            let e = es.last();
            self.element_items(es.drop_last()) + if e.starred {
                at_range(self.spec_except_members(e.ty), e.range)
            } else {
                seq![(e.ty, e.range)]
            }
        }
    }

    /// The exception classes that an `except` annotation names, each at the place it is
    /// reported at.
    pub open spec fn spec_except_items(self, ann: ExceptAnnotation) -> Seq<(Type, TextRange)> {
        match ann {
            ExceptAnnotation::Tuple { elements, .. } => self.element_items(elements@),
            ExceptAnnotation::Other { ty, range } => at_range(self.spec_except_members(ty), range),
        }
    }
}

/// Each of `ts`, at `range`.
pub open spec fn at_range(ts: Seq<Type>, range: TextRange) -> Seq<(Type, TextRange)> {
    ts.map_values(|t: Type| (t, range))
}

impl ExceptAnnotation {
    pub open spec fn range(self) -> TextRange {
        match self {
            ExceptAnnotation::Tuple { range, .. } => range,
            ExceptAnnotation::Other { range, .. } => range,
        }
    }
}

impl AnswersSolver {
    /// One exception class checked: the type it denotes, after untyping's errors, an error
    /// where it is no exception class, and, where an `except*` checks against exception
    /// groups, an error where it extends one.
    pub open spec fn spec_check_exception(
        self,
        item: (Type, TextRange),
        verdict: ExceptionVerdict,
        group: bool,
    ) -> (Type, Seq<TypeError>) {
        let (exception, untype_errors) = self.spec_untype(item.0, item.1);
        (
            exception,
            untype_errors + (if verdict.is_exception {
                Seq::empty()
            } else {
                one_error(ErrorKind::InvalidInheritance, item.1, ErrorMsg::NotAnExceptionClass(exception))
            }) + (if group && verdict.extends_group {
                one_error(ErrorKind::InvalidInheritance, item.1, ErrorMsg::ExceptStarExtendsGroup)
            } else {
                Seq::empty()
            }),
        )
    }

    /// The exception classes of `items` checked in order, the i-th with the i-th verdict.
    pub open spec fn spec_check_exceptions(
        self,
        items: Seq<(Type, TextRange)>,
        verdicts: Seq<ExceptionVerdict>,
        group: bool,
    ) -> (Seq<Type>, Seq<TypeError>)
        decreases items.len(),
    {
        if items.len() == 0 {
            (Seq::empty(), Seq::empty())
        } else {
            let n = items.len() - 1;
            let (ts, es) = self.spec_check_exceptions(items.take(n), verdicts, group);
            let (t, e) = self.spec_check_exception(items[n], verdicts[n], group);
            (ts.push(t), es + e)
        }
    }

    /// The type an `except` clause binds, and the errors it reports: for `except*` on a
    /// Python without exception groups, that it is unsupported; then the checks of each
    /// exception class named. The type is the union of the classes, wrapped in an
    /// `ExceptionGroup` for `except*` where there is one.
    pub open spec fn spec_exception_handler(
        self,
        ann: ExceptAnnotation,
        is_star: bool,
        verdicts: Seq<ExceptionVerdict>,
    ) -> (Type, Seq<TypeError>) {
        let group = is_star && self.stdlib.base_exception_group is Some;
        let unsupported = if is_star && self.stdlib.base_exception_group is None {
            one_error(ErrorKind::Unsupported, ann.range(), ErrorMsg::ExceptStarUnsupported)
        } else {
            Seq::empty()
        };
        let (ts, es) = self.spec_check_exceptions(self.spec_except_items(ann), verdicts, group);
        let u = spec_unions(ts);
        (
            match self.stdlib.exception_group {
                Some(eg) => if is_star {
                    Type::ClassType(ClassType { class: eg, targs: TypeList::Cons(Box::new(u), Box::new(TypeList::Nil)) })
                } else {
                    u
                },
                None => u,
            },
            unsupported + es,
        )
    }

    /// The exception classes that a type in an `except` clause stands for; see
    /// [`Self::spec_except_members`].
    pub fn decompose_except_types(&self, ty: &Type) -> (r: Vec<Type>)
        ensures
            r@ == self.spec_except_members(*ty),
        decreases ty,
    {
        match ty {
            Type::ClassType(c) => {
                if c.class == self.stdlib.tuple {
                    match &c.targs {
                        TypeList::Cons(h, t) => match &**t {
                            TypeList::Nil => {
                                assert(c.targs.seq() =~= seq![**h] + t.seq());
                                assert(c.targs.seq() =~= seq![**h]);
                                return vec![h.deep_clone()];
                            },
                            TypeList::Cons(_, _) => {
                                assert(c.targs.seq() =~= seq![**h] + t.seq());
                                assert(t.seq().len() > 0);
                            },
                        },
                        TypeList::Nil => {},
                    }
                }
                match self.class_tuple_elements(c.class) {
                    Some(elts) => elts,
                    None => vec![ty.deep_clone()],
                }
            },
            Type::Tuple(Tuple::Concrete(l)) => l.to_vec(),
            Type::Tuple(Tuple::Unbounded(b)) => vec![b.deep_clone()],
            Type::Union(l) => self.decompose_except_list(l),
            _ => vec![ty.deep_clone()],
        }
    }

    /// The exception classes that the members of `l` stand for, in order.
    fn decompose_except_list(&self, l: &TypeList) -> (r: Vec<Type>)
        ensures
            r@ == self.list_except_members(*l),
        decreases l,
    {
        match l {
            TypeList::Nil => Vec::new(),
            TypeList::Cons(h, t) => {
                let mut a = self.decompose_except_types(h);
                let mut b = self.decompose_except_list(t);
                a.append(&mut b);
                a
            },
        }
    }

    /// Each of `ts`, at `range`.
    fn at_range_vec(ts: Vec<Type>, range: TextRange) -> (r: Vec<(Type, TextRange)>)
        ensures
            r@ == at_range(ts@, range),
    {
        let mut out: Vec<(Type, TextRange)> = Vec::new();
        let mut i: usize = 0;
        while i < ts.len()
            invariant
                i <= ts@.len(),
                out@ == at_range(ts@.take(i as int), range),
            decreases ts.len() - i,
        {
            out.push((ts[i].deep_clone(), range));
            i += 1;
            assert(out@ =~= at_range(ts@.take(i as int), range));
        }
        assert(ts@.take(i as int) =~= ts@);
        out
    }

    /// The exception classes that an `except` annotation names, each at the place it is
    /// reported at; see [`Self::spec_except_items`].
    pub fn except_items(&self, ann: &ExceptAnnotation) -> (r: Vec<(Type, TextRange)>)
        ensures
            r@ == self.spec_except_items(*ann),
    {
        match ann {
            ExceptAnnotation::Tuple { elements, .. } => {
                let mut out: Vec<(Type, TextRange)> = Vec::new();
                let mut i: usize = 0;
                while i < elements.len()
                    invariant
                        i <= elements@.len(),
                        out@ == self.element_items(elements@.take(i as int)),
                    decreases elements.len() - i,
                {
                    assert(elements@.take(i + 1).drop_last() =~= elements@.take(i as int));
                    let e = &elements[i];
                    let mut more = if e.starred {
                        Self::at_range_vec(self.decompose_except_types(&e.ty), e.range)
                    } else {
                        vec![(e.ty.deep_clone(), e.range)]
                    };
                    out.append(&mut more);
                    i += 1;
                }
                assert(elements@.take(i as int) =~= elements@);
                out
            },
            ExceptAnnotation::Other { ty, range } => Self::at_range_vec(self.decompose_except_types(ty), *range),
        }
    }

    /// Checks one exception class; see [`Self::spec_check_exception`].
    fn check_exception(&self, t: Type, range: TextRange, verdict: ExceptionVerdict, group: bool, errors: &mut ErrorCollector) -> (r: Type)
        ensures
            r == self.spec_check_exception((t, range), verdict, group).0,
            final(errors)@ == old(errors)@ + self.spec_check_exception((t, range), verdict, group).1,
    {
        let ghost t0 = t;
        let exception = self.untype(t, range, errors);
        let ghost e1 = errors@;
        if !verdict.is_exception {
            errors.error(ErrorKind::InvalidInheritance, range, ErrorMsg::NotAnExceptionClass(exception.deep_clone()));
        }
        if group && verdict.extends_group {
            errors.error(ErrorKind::InvalidInheritance, range, ErrorMsg::ExceptStarExtendsGroup);
        }
        proof {
            assert(errors@ =~= old(errors)@ + self.spec_check_exception((t0, range), verdict, group).1);
        }
        exception
    }

    /// The type an `except` clause binds; see [`Self::spec_exception_handler`]. The i-th
    /// verdict is the solver's on the i-th of [`Self::except_items`].
    pub fn binding_to_type_exception_handler(
        &self,
        ann: &ExceptAnnotation,
        is_star: bool,
        verdicts: &Vec<ExceptionVerdict>,
        errors: &mut ErrorCollector,
    ) -> (r: Type)
        requires
            verdicts@.len() == self.spec_except_items(*ann).len(),
        ensures
            r == self.spec_exception_handler(*ann, is_star, verdicts@).0,
            final(errors)@ == old(errors)@ + self.spec_exception_handler(*ann, is_star, verdicts@).1,
    {
        let group = is_star && self.stdlib.base_exception_group.is_some();
        if is_star && self.stdlib.base_exception_group.is_none() {
            let rg = match ann {
                ExceptAnnotation::Tuple { range, .. } => *range,
                ExceptAnnotation::Other { range, .. } => *range,
            };
            errors.error(ErrorKind::Unsupported, rg, ErrorMsg::ExceptStarUnsupported);
        }
        let ghost e0 = errors@;
        let items = self.except_items(ann);
        let mut exceptions: Vec<Type> = Vec::new();
        let mut i: usize = 0;
        while i < items.len()
            invariant
                i <= items@.len(),
                items@ == self.spec_except_items(*ann),
                verdicts@.len() == items@.len(),
                exceptions@ == self.spec_check_exceptions(items@.take(i as int), verdicts@, group).0,
                errors@ == e0 + self.spec_check_exceptions(items@.take(i as int), verdicts@, group).1,
            decreases items.len() - i,
        {
            assert(items@.take(i + 1).take(i as int) =~= items@.take(i as int));
            assert(items@.take(i + 1)[i as int] == items@[i as int]);
            let (t, rg) = (items[i].0.deep_clone(), items[i].1);
            let ghost before = errors@;
            let x = self.check_exception(t, rg, verdicts[i], group, errors);
            exceptions.push(x);
            i += 1;
            proof {
                assert(errors@ =~= e0 + self.spec_check_exceptions(items@.take(i as int), verdicts@, group).1);
            }
        }
        assert(items@.take(i as int) =~= items@);
        let u = unions(exceptions);
        proof {
            assert(errors@ =~= old(errors)@ + self.spec_exception_handler(*ann, is_star, verdicts@).1);
        }
        match self.stdlib.exception_group {
            Some(eg) => if is_star {
                Type::ClassType(ClassType { class: eg, targs: TypeList::Cons(Box::new(u), Box::new(TypeList::Nil)) })
            } else {
                u
            },
            None => u,
        }
    }
}

} // verus!
