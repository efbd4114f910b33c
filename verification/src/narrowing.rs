//! Forcing the solver's variables before narrowing: the outermost type is resolved, without
//! going inside it.

use vstd::prelude::*;
use crate::errors::{ErrorCollector, ErrorKind, ErrorMsg, TextRange, TypeError};
use crate::solver::AnswersSolver;
use crate::types::{AnyStyle, Type};
use crate::untype::one_error;
use vstd::set_lib::{lemma_int_range, lemma_len_subset, set_int_range};

verus! {

/// A type as the solver holds it: one of its variables, or a type whose outermost form is
/// known.
pub enum SolverType {
    Var(u64),
    Known(Type),
}

/// The solver's variables: what forcing each one gives (a variable is forced once, and then
/// keeps that answer), by index.
pub struct Variables {
    pub answers: Vec<SolverType>,
}

impl Variables {
    /// Whether `t` refers only to variables of the table.
    pub open spec fn refers(self, t: SolverType) -> bool {
        t matches SolverType::Var(v) ==> v < self.answers@.len()
    }

    /// Every answer refers only to variables of the table.
    pub open spec fn wf(self) -> bool {
        forall|i: int| 0 <= i < self.answers@.len() ==> self.refers(#[trigger] self.answers@[i])
    }
}

/// What forcing `t` gives, while the variables of `active` are being forced: a variable is
/// forced and its answer forced in turn; reaching a variable that is already being forced
/// is a cycle (`None`). (A chain longer than the table would repeat a variable, so the last
/// test only bounds the definition.)
pub open spec fn spec_force(answers: Seq<SolverType>, t: SolverType, active: Seq<u64>) -> Option<Type>
    decreases answers.len() - active.len(),
{
    match t {
        SolverType::Known(x) => Some(x),
        SolverType::Var(v) => if active.contains(v) || v >= answers.len() || active.len() >= answers.len() {
            None
        } else {
            spec_force(answers, answers[v as int], active.push(v))
        },
    }
}

/// Distinct variables of a table of `n` are at most `n`.
proof fn lemma_distinct_vars_bounded(s: Seq<u64>, n: nat)
    requires
        s.no_duplicates(),
        forall|i: int| 0 <= i < s.len() ==> s[i] < n,
    ensures
        s.len() <= n,
{
    let si = s.map_values(|x: u64| x as int);
    assert(si.no_duplicates()) by {
        assert forall|i: int, j: int| 0 <= i < si.len() && 0 <= j < si.len() && i != j implies si[i] != si[j] by {
            assert(s[i] != s[j]);
        }
    }
    si.unique_seq_to_set();
    lemma_int_range(0, n as int);
    assert(si.to_set().subset_of(set_int_range(0, n as int))) by {
        assert forall|x: int| si.to_set().contains(x) implies set_int_range(0, n as int).contains(x) by {
            assert(si.contains(x));
            let i = choose|i: int| 0 <= i < si.len() && si[i] == x;
            assert(s[i] < n);
        }
    }
    lemma_len_subset(si.to_set(), set_int_range(0, n as int));
}

impl AnswersSolver {
    /// What narrowing sees of `ty`: the forced outermost type; a cycle of variables is
    /// reported as an internal error at `range` and gives the error type.
    pub open spec fn spec_force_for_narrowing(self, vars: Variables, ty: SolverType, range: TextRange) -> (Type, Seq<TypeError>) {
        match spec_force(vars.answers@, ty, Seq::empty()) {
            Some(t) => (t, Seq::empty()),
            None => (Type::any_error(), one_error(ErrorKind::InternalError, range, ErrorMsg::NarrowingCycle)),
        }
    }

    /// Forces the outermost type of `ty`, without going inside it; see
    /// [`Self::spec_force_for_narrowing`].
    pub fn force_for_narrowing(&self, vars: &Variables, ty: &SolverType, range: TextRange, errors: &mut ErrorCollector) -> (r: Type)
        requires
            vars.wf(),
            vars.refers(*ty),
        ensures
            r == self.spec_force_for_narrowing(*vars, *ty, range).0,
            final(errors)@ == old(errors)@ + self.spec_force_for_narrowing(*vars, *ty, range).1,
    {
        let ghost answers = vars.answers@;
        let mut active: Vec<u64> = Vec::new();
        let mut cur: &SolverType = ty;
        loop
            invariant
                answers == vars.answers@,
                vars.wf(),
                vars.refers(*cur),
                active@.no_duplicates(),
                forall|i: int| 0 <= i < active@.len() ==> active@[i] < answers.len(),
                active@.len() <= answers.len(),
                errors@ == old(errors)@,
                spec_force(answers, *ty, Seq::empty()) == spec_force(answers, *cur, active@),
            decreases answers.len() - active@.len(),
        {
            match cur {
                SolverType::Known(t) => {
                    assert(old(errors)@ + Seq::<TypeError>::empty() =~= old(errors)@);
                    return t.deep_clone();
                },
                SolverType::Var(v) => {
                    let v = *v;
                    let mut seen = false;
                    let mut i: usize = 0;
                    while i < active.len()
                        invariant
                            i <= active@.len(),
                            seen == (exists|k: int| 0 <= k < i && active@[k] == v),
                        decreases active.len() - i,
                    {
                        if active[i] == v {
                            seen = true;
                        }
                        i += 1;
                    }
                    if seen {
                        assert(active@.contains(v));
                        errors.error(ErrorKind::InternalError, range, ErrorMsg::NarrowingCycle);
                        return Type::Any(AnyStyle::Error);
                    }
                    proof {
                        assert(!active@.contains(v));
                        let s2 = active@.push(v);
                        assert(s2.no_duplicates());
                        assert forall|k: int| 0 <= k < s2.len() implies s2[k] < answers.len() by {}
                        lemma_distinct_vars_bounded(s2, answers.len());
                        assert(vars.refers(answers[v as int]));
                        assert(v < answers.len());
                        assert(active@.len() < answers.len());
                        assert(spec_force(answers, SolverType::Var(v), active@)
                            == spec_force(answers, answers[v as int], active@.push(v)));
                    }
                    let n: usize = vars.answers.len();
                    assert(v < n);
                    let vi: usize = v as usize;
                    active.push(v);
                    cur = &vars.answers[vi];
                },
            }
        }
    }
}

/// Forcing that succeeds while some variables are being forced succeeds alike, with the same
/// type, while fewer are.
proof fn lemma_force_frame(answers: Seq<SolverType>, t: SolverType, active: Seq<u64>, fewer: Seq<u64>)
    requires
        spec_force(answers, t, active) is Some,
        forall|x: u64| fewer.contains(x) ==> active.contains(x),
        fewer.len() <= active.len(),
    ensures
        spec_force(answers, t, fewer) == spec_force(answers, t, active),
    decreases answers.len() - active.len(),
{
    match t {
        SolverType::Known(_) => {},
        SolverType::Var(v) => {
            assert(!fewer.contains(v));
            assert forall|x: u64| fewer.push(v).contains(x) implies active.push(v).contains(x) by {
                if x != v {
                    assert(fewer.contains(x)) by {
                        let i = choose|i: int| 0 <= i < fewer.push(v).len() && fewer.push(v)[i] == x;
                        assert(fewer[i] == x);
                    }
                    let j = choose|j: int| 0 <= j < active.len() && active[j] == x;
                    assert(active.push(v)[j] == x);
                } else {
                    assert(active.push(v)[active.len() as int] == v);
                }
            }
            lemma_force_frame(answers, answers[v as int], active.push(v), fewer.push(v));
        },
    }
}

/// Forcing a solver variable gives what forcing its answer gives, whenever forcing the
/// variable meets no cycle.
pub proof fn law_forcing_follows_answers(vars: Variables, v: u64)
    requires
        v < vars.answers@.len(),
        spec_force(vars.answers@, SolverType::Var(v), Seq::empty()) is Some,
    ensures
        spec_force(vars.answers@, vars.answers@[v as int], Seq::empty())
            == spec_force(vars.answers@, SolverType::Var(v), Seq::empty()),
{
    let a = vars.answers@;
    assert(Seq::<u64>::empty().push(v) =~= seq![v]);
    lemma_force_frame(a, a[v as int], seq![v], Seq::empty());
}

} // verus!
