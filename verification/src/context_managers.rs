//! What a `with` statement's context manager gives: the values of its `__enter__` and
//! `__exit__` calls (or `__aenter__` and `__aexit__`, awaited), and the errors they report.

use vstd::prelude::*;
use crate::errors::{ErrorCollector, ErrorKind, ErrorMsg, TextRange, TypeError};
use crate::solver::AnswersSolver;
use crate::types::{AnyStyle, Type};
use crate::union::{spec_unions, union, unions};
use crate::yields::hint_members;
use crate::type_alias::{spec_final_reassignment_errors, AnnotationWithTarget};
use crate::untype::one_error;

verus! {

/// A call of one of a context manager's methods, as the solver made it.
pub struct MethodCall {
    /// The type the call returned.
    pub returned: Type,
    /// For an `async with`, the type that awaiting the returned value gives, where that
    /// value can be awaited.
    pub awaited: Option<Type>,
    /// The errors the call itself reported, in order.
    pub errors: Vec<TypeError>,
}

/// The value of a call for a `with` (`async` or not): what it returned, or what awaiting
/// that gives; where it cannot be awaited, an error is reported with `not_async`.
pub open spec fn spec_call_value(is_async: bool, returned: Type, awaited: Option<Type>, range: TextRange, not_async: ErrorMsg) -> (Type, Seq<TypeError>) {
    if !is_async {
        (returned, Seq::empty())
    } else {
        match awaited {
            Some(t) => (t, Seq::empty()),
            None => (Type::any_error(), one_error(ErrorKind::NotAsync, range, not_async)),
        }
    }
}

/// The errors of a call whose own errors are forwarded where there is at most one, and
/// replaced by the one error `summary` where there are more.
pub open spec fn spec_forwarded(call_errors: Seq<TypeError>, range: TextRange, summary: ErrorMsg) -> Seq<TypeError> {
    if call_errors.len() <= 1 {
        call_errors
    } else {
        one_error(ErrorKind::BadContextManager, range, summary)
    }
}

/// The value `__enter__` (or `__aenter__`, awaited) gives, after the errors of the call.
pub open spec fn spec_context_value_enter(is_async: bool, call: MethodCall, range: TextRange) -> (Type, Seq<TypeError>) {
    let (t, e) = spec_call_value(is_async, call.returned, call.awaited, range, ErrorMsg::AenterNotAsync);
    (t, call.errors@ + e)
}

/// The value of `__exit__` (or `__aexit__`, awaited), called once with an exception's
/// arguments and once with `None`s: the union of the two values. The errors: that either
/// cannot be awaited, in that order; then, for each call in turn, its own error if it
/// reported at most one, or one summary error if it reported more.
pub open spec fn spec_context_value_exit(
    is_async: bool,
    with_exception: MethodCall,
    with_none: MethodCall,
    range: TextRange,
) -> (Type, Seq<TypeError>) {
    let (a, ea) = spec_call_value(is_async, with_exception.returned, with_exception.awaited, range, ErrorMsg::AexitNotAsync);
    let (b, eb) = spec_call_value(is_async, with_none.returned, with_none.awaited, range, ErrorMsg::AexitNotAsync);
    (
        spec_unions(seq![a, b]),
        ea + eb + spec_forwarded(with_exception.errors@, range, ErrorMsg::ExitNotCallableWithException(is_async))
            + spec_forwarded(with_none.errors@, range, ErrorMsg::ExitNotCallableWithNone(is_async)),
    )
}

/// The value of a call; see [`spec_call_value`].
fn call_value(is_async: bool, returned: Type, awaited: Option<Type>, range: TextRange, not_async: ErrorMsg, errors: &mut ErrorCollector) -> (r: Type)
    ensures
        r == spec_call_value(is_async, returned, awaited, range, not_async).0,
        final(errors)@ == old(errors)@ + spec_call_value(is_async, returned, awaited, range, not_async).1,
{
    if !is_async {
        assert(old(errors)@ + Seq::<TypeError>::empty() =~= old(errors)@);
        returned
    } else {
        match awaited {
            Some(t) => {
                assert(old(errors)@ + Seq::<TypeError>::empty() =~= old(errors)@);
                t
            },
            None => {
                errors.error(ErrorKind::NotAsync, range, not_async);
                Type::Any(AnyStyle::Error)
            },
        }
    }
}

/// Forwards a call's errors; see [`spec_forwarded`].
fn forward(call_errors: Vec<TypeError>, range: TextRange, summary: ErrorMsg, errors: &mut ErrorCollector)
    ensures
        final(errors)@ == old(errors)@ + spec_forwarded(call_errors@, range, summary),
{
    if call_errors.len() <= 1 {
        errors.extend(call_errors);
    } else {
        errors.error(ErrorKind::BadContextManager, range, summary);
    }
}

impl AnswersSolver {
    /// The value `__enter__` (or `__aenter__`, awaited) gives; see
    /// [`spec_context_value_enter`].
    pub fn context_value_enter(&self, is_async: bool, call: MethodCall, range: TextRange, errors: &mut ErrorCollector) -> (r: Type)
        ensures
            r == spec_context_value_enter(is_async, call, range).0,
            final(errors)@ == old(errors)@ + spec_context_value_enter(is_async, call, range).1,
    {
        let ghost c = call;
        let MethodCall { returned, awaited, errors: call_errors } = call;
        errors.extend(call_errors);
        let r = call_value(is_async, returned, awaited, range, ErrorMsg::AenterNotAsync, errors);
        proof {
            assert(errors@ =~= old(errors)@ + spec_context_value_enter(is_async, c, range).1);
        }
        r
    }

    /// The value of `__exit__` (or `__aexit__`, awaited), from its call with an exception's
    /// arguments and its call with `None`s; see [`spec_context_value_exit`].
    pub fn context_value_exit(
        &self,
        is_async: bool,
        with_exception: MethodCall,
        with_none: MethodCall,
        range: TextRange,
        errors: &mut ErrorCollector,
    ) -> (r: Type)
        ensures
            r == spec_context_value_exit(is_async, with_exception, with_none, range).0,
            final(errors)@ == old(errors)@ + spec_context_value_exit(is_async, with_exception, with_none, range).1,
    {
        let ghost we = with_exception;
        let ghost wn = with_none;
        let MethodCall { returned: ra, awaited: aa, errors: ea } = with_exception;
        let MethodCall { returned: rb, awaited: ab, errors: eb } = with_none;
        let a = call_value(is_async, ra, aa, range, ErrorMsg::AexitNotAsync, errors);
        let b = call_value(is_async, rb, ab, range, ErrorMsg::AexitNotAsync, errors);
        forward(ea, range, ErrorMsg::ExitNotCallableWithException(is_async), errors);
        forward(eb, range, ErrorMsg::ExitNotCallableWithNone(is_async), errors);
        proof {
            assert(errors@ =~= old(errors)@ + spec_context_value_exit(is_async, we, wn, range).1);
        }
        union(a, b)
    }
}

/// The calls the solver made on one context manager (a member of the union the `with`
/// statement's value has, or that value itself).
pub struct ContextManagerCalls {
    pub enter: MethodCall,
    pub exit_with_exception: MethodCall,
    pub exit_with_none: MethodCall,
    /// The solver's verdict on whether the value of `__exit__` is assignable to
    /// `bool | None`.
    pub exit_ok: bool,
}

/// What one context manager gives: the value of `__enter__`; its errors, then those of
/// `__exit__`, then one where `__exit__` gives something other than `bool | None`.
pub open spec fn spec_manager_value(is_async: bool, c: ContextManagerCalls, range: TextRange) -> (Type, Seq<TypeError>) {
    let (entered, enter_errors) = spec_context_value_enter(is_async, c.enter, range);
    let (exited, exit_errors) = spec_context_value_exit(is_async, c.exit_with_exception, c.exit_with_none, range);
    (
        entered,
        enter_errors + exit_errors + if c.exit_ok {
            Seq::empty()
        } else {
            one_error(ErrorKind::BadContextManager, range, ErrorMsg::ExitReturnNotOptionalBool(exited))
        },
    )
}

/// What each of several context managers gives, in order, and all their errors.
pub open spec fn spec_manager_values(is_async: bool, cs: Seq<ContextManagerCalls>, range: TextRange) -> (Seq<Type>, Seq<TypeError>)
    decreases cs.len(),
{
    if cs.len() == 0 {
        (Seq::empty(), Seq::empty())
    } else {
        let (ts, es) = spec_manager_values(is_async, cs.drop_last(), range);
        let (t, e) = spec_manager_value(is_async, cs.last(), range);
        (ts.push(t), es + e)
    }
}

/// The value a `with` statement binds: the union of what each context manager gives.
pub open spec fn spec_context_value(is_async: bool, calls: Seq<ContextManagerCalls>, range: TextRange) -> (Type, Seq<TypeError>) {
    let (ts, es) = spec_manager_values(is_async, calls, range);
    (spec_unions(ts), es)
}

impl AnswersSolver {
    /// What one context manager gives; see [`spec_manager_value`].
    fn manager_value(&self, is_async: bool, c: ContextManagerCalls, range: TextRange, errors: &mut ErrorCollector) -> (r: Type)
        ensures
            r == spec_manager_value(is_async, c, range).0,
            final(errors)@ == old(errors)@ + spec_manager_value(is_async, c, range).1,
    {
        let ghost c0 = c;
        let ContextManagerCalls { enter, exit_with_exception, exit_with_none, exit_ok } = c;
        let entered = self.context_value_enter(is_async, enter, range, errors);
        let exited = self.context_value_exit(is_async, exit_with_exception, exit_with_none, range, errors);
        if !exit_ok {
            errors.error(ErrorKind::BadContextManager, range, ErrorMsg::ExitReturnNotOptionalBool(exited));
        }
        proof {
            assert(errors@ =~= old(errors)@ + spec_manager_value(is_async, c0, range).1);
        }
        entered
    }

    /// The value a `with` statement binds, from the calls made on each member of the union
    /// its value has (or on the value itself); see [`spec_context_value`].
    pub fn context_value(
        &self,
        context_manager: &Type,
        is_async: bool,
        range: TextRange,
        calls: Vec<ContextManagerCalls>,
        errors: &mut ErrorCollector,
    ) -> (r: Type)
        requires
            calls@.len() == hint_members(*context_manager).len(),
        ensures
            r == spec_context_value(is_async, calls@, range).0,
            final(errors)@ == old(errors)@ + spec_context_value(is_async, calls@, range).1,
    {
        let ghost all = calls@;
        let n: usize = calls.len();
        let mut calls = calls;
        let mut values: Vec<Type> = Vec::new();
        let mut i: usize = 0;
        while calls.len() > 0
            invariant
                i + calls@.len() == all.len(),
                all.len() == n,
                calls@ == all.skip(i as int),
                values@ == spec_manager_values(is_async, all.take(i as int), range).0,
                errors@ == old(errors)@ + spec_manager_values(is_async, all.take(i as int), range).1,
            decreases calls@.len(),
        {
            let c = calls.remove(0);
            proof {
                assert(c == all[i as int]);
                assert(all.take(i + 1).drop_last() =~= all.take(i as int));
                assert(all.take(i + 1).last() == all[i as int]);
            }
            let v = self.manager_value(is_async, c, range, errors);
            values.push(v);
            i += 1;
            proof {
                assert(calls@ =~= all.skip(i as int));
                assert(errors@ =~= old(errors)@ + spec_manager_values(is_async, all.take(i as int), range).1);
            }
        }
        assert(all.take(i as int) =~= all);
        unions(values)
    }

    /// The type a `with ... as x` statement gives `x`, and the errors it reports: those of
    /// the context managers; assigning to a `Final` target; a value not assignable to the
    /// declared type (which is then kept). An `Any` value also keeps the declared type.
    pub open spec fn spec_context_value_binding(
        self,
        annotation: Option<AnnotationWithTarget>,
        is_async: bool,
        calls: Seq<ContextManagerCalls>,
        assignable: bool,
        range: TextRange,
    ) -> (Type, Seq<TypeError>) {
        let (value, errors) = spec_context_value(is_async, calls, range);
        match annotation {
            Some(a) => {
                let fe = spec_final_reassignment_errors(a.annotation@, a.target, range);
                match self.spec_declared_type(a) {
                    Some(t) => if value is Any {
                        (t, errors + fe)
                    } else if assignable {
                        (value, errors + fe)
                    } else {
                        (t, errors + fe + one_error(ErrorKind::BadAssignment, range, ErrorMsg::ContextValueMismatch(value, t)))
                    },
                    None => (value, errors + fe),
                }
            },
            None => (value, errors),
        }
    }

    /// The type a `with ... as x` statement gives `x`; see
    /// [`Self::spec_context_value_binding`]. `assignable` is the solver's verdict on
    /// whether the value is assignable to the declared type.
    pub fn binding_to_type_context_value(
        &self,
        annotation: &Option<AnnotationWithTarget>,
        context_manager: &Type,
        is_async: bool,
        range: TextRange,
        calls: Vec<ContextManagerCalls>,
        assignable: bool,
        errors: &mut ErrorCollector,
    ) -> (r: Type)
        requires
            calls@.len() == hint_members(*context_manager).len(),
        ensures
            r == self.spec_context_value_binding(*annotation, is_async, calls@, assignable, range).0,
            final(errors)@ == old(errors)@ + self.spec_context_value_binding(*annotation, is_async, calls@, assignable, range).1,
    {
        let ghost cs = calls@;
        let value = self.context_value(context_manager, is_async, range, calls, errors);
        let ghost e1 = errors@;
        match annotation {
            Some(a) => {
                self.check_final_reassignment(a, range, errors);
                match self.declared_type(a) {
                    Some(t) => {
                        if value.is_any() {
                            assert(errors@ =~= old(errors)@ + self.spec_context_value_binding(*annotation, is_async, cs, assignable, range).1);
                            t
                        } else if assignable {
                            assert(errors@ =~= old(errors)@ + self.spec_context_value_binding(*annotation, is_async, cs, assignable, range).1);
                            value
                        } else {
                            errors.error(ErrorKind::BadAssignment, range, ErrorMsg::ContextValueMismatch(value, t.deep_clone()));
                            assert(errors@ =~= old(errors)@ + self.spec_context_value_binding(*annotation, is_async, cs, assignable, range).1);
                            t
                        }
                    },
                    None => {
                        assert(errors@ =~= old(errors)@ + self.spec_context_value_binding(*annotation, is_async, cs, assignable, range).1);
                        value
                    },
                }
            },
            None => value,
        }
    }
}

/// An `Any` that a `with` statement's context managers give brings no information: a
/// declared target keeps its declared type, whatever the solver's verdict.
pub proof fn law_any_context_value_keeps_declared_type(
    solver: AnswersSolver,
    annotation: AnnotationWithTarget,
    is_async: bool,
    calls: Seq<ContextManagerCalls>,
    assignable: bool,
    range: TextRange,
)
    requires
        annotation.annotation.ty is Some,
        spec_context_value(is_async, calls, range).0 is Any,
    ensures
        solver.spec_context_value_binding(Some(annotation), is_async, calls, assignable, range).0
            == solver.spec_declared_type(annotation).unwrap(),
{
}

} // verus!
