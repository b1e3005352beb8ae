use vstd::prelude::*;
use crate::expression::{derivative, Expression, LimitError};

verus! {

/// How the numerator and denominator, evaluated at the limit point, compare
/// with zero (within the tolerance of the caller's arithmetic).
#[derive(Debug, Clone, Copy, PartialEq, Eq, Structural)]
pub enum Verdict {
    /// Both are zero: the form 0/0.
    Indeterminate,
    /// The denominator is zero and the numerator is not.
    Undefined,
    /// The denominator is not zero.
    Determinate,
}

/// What the caller is to do next.
#[derive(Debug, Clone, Copy, PartialEq, Eq, Structural)]
pub enum Decision {
    /// Evaluate the current numerator and denominator at the point, and hand
    /// the verdict to `step`.
    Evaluate,
    /// The values just evaluated give the limit: numerator over denominator.
    Limit,
    /// No limit: stop with this error.
    Stop(LimitError),
}

/// The verdict on a numerator and denominator, given whether each lies
/// within the tolerance of zero.
pub open spec fn verdict_of(numerator_near_zero: bool, denominator_near_zero: bool) -> Verdict {
    if numerator_near_zero && denominator_near_zero {
        Verdict::Indeterminate
    } else if denominator_near_zero {
        Verdict::Undefined
    } else {
        Verdict::Determinate
    }
}

/// Classifies an evaluated pair: 0/0 is indeterminate, a zero denominator
/// alone leaves the limit undefined, and any other pair is determinate.
pub fn classify(numerator_near_zero: bool, denominator_near_zero: bool) -> (r: Verdict)
    ensures
        r == verdict_of(numerator_near_zero, denominator_near_zero),
{
    if numerator_near_zero && denominator_near_zero {
        Verdict::Indeterminate
    } else if denominator_near_zero {
        Verdict::Undefined
    } else {
        Verdict::Determinate
    }
}

/// The working state of one limit computation: the current numerator and
/// denominator, each replaced whole by its derivative on every 0/0, and the
/// number of evaluations spent out of the budget.
#[derive(Debug)]
pub struct Resolver {
    pub numerator: Expression,
    pub denominator: Expression,
    pub iteration: u32,
    pub max_iterations: u32,
}

impl Resolver {
    /// The spent budget never exceeds the whole.
    pub open spec fn wf(self) -> bool {
        self.iteration <= self.max_iterations
    }

    /// What to do in a state: evaluate while budget is left, else stop.
    pub open spec fn decision_spec(self) -> Decision {
        if self.iteration < self.max_iterations {
            Decision::Evaluate
        } else {
            Decision::Stop(LimitError::MaxIterationsExceeded)
        }
    }

    /// The state after a verdict on the current pair, and what to do next.
    /// On 0/0 both sides are differentiated, independently; if either has no
    /// derivative the computation stops and the state is left as it was.
    pub open spec fn step_spec(self, verdict: Verdict) -> (Resolver, Decision) {
        match verdict {
            Verdict::Determinate => (self, Decision::Limit),
            Verdict::Undefined => (self, Decision::Stop(LimitError::DivisionByZero)),
            Verdict::Indeterminate => match (
                derivative(self.numerator),
                derivative(self.denominator),
            ) {
                (Some(n), Some(d)) => {
                    let next = Resolver {
                        numerator: n,
                        denominator: d,
                        iteration: (self.iteration + 1) as u32,
                        max_iterations: self.max_iterations,
                    };
                    (next, next.decision_spec())
                },
                _ => (self, Decision::Stop(LimitError::DifferentiationUnsupported)),
            },
        }
    }

    /// A computation of the limit of `numerator / denominator` that may
    /// evaluate the pair at most `max_iterations` times.
    pub fn new(numerator: Expression, denominator: Expression, max_iterations: u32) -> (r:
        Resolver)
        ensures
            r == (Resolver { numerator, denominator, iteration: 0, max_iterations }),
            r.wf(),
    {
        Resolver { numerator, denominator, iteration: 0, max_iterations }
    }

    /// What to do in the current state: with no budget left, the computation
    /// stops at once, without evaluating anything.
    pub fn decision(&self) -> (r: Decision)
        ensures
            r == self.decision_spec(),
    {
        if self.iteration < self.max_iterations {
            Decision::Evaluate
        } else {
            Decision::Stop(LimitError::MaxIterationsExceeded)
        }
    }

    /// Takes the verdict on the pair just evaluated and decides: a determinate
    /// pair gives the limit, an undefined one stops with `DivisionByZero`, and
    /// 0/0 replaces both sides by their derivatives, spends one evaluation,
    /// and asks for another while budget is left.
    pub fn step(&mut self, verdict: Verdict) -> (r: Decision)
        requires
            old(self).iteration < old(self).max_iterations,
        ensures
            (*final(self), r) == old(self).step_spec(verdict),
            final(self).wf(),
    {
        match verdict {
            Verdict::Determinate => Decision::Limit,
            Verdict::Undefined => Decision::Stop(LimitError::DivisionByZero),
            Verdict::Indeterminate => {
                let n = match self.numerator.differentiate() {
                    Ok(n) => n,
                    Err(e) => return Decision::Stop(e),
                };
                let d = match self.denominator.differentiate() {
                    Ok(d) => d,
                    Err(e) => return Decision::Stop(e),
                };
                self.numerator = n;
                self.denominator = d;
                self.iteration = self.iteration + 1;
                self.decision()
            },
        }
    }
}

/// The state and decision after the verdicts `verdicts` are handed, one by
/// one, to a computation in state `r`, for as long as it asks for them.
pub open spec fn run(r: Resolver, verdicts: Seq<Verdict>) -> (Resolver, Decision)
    decreases verdicts.len(),
{
    if !(r.decision_spec() is Evaluate) || verdicts.len() == 0 {
        (r, r.decision_spec())
    } else {
        let (next, d) = r.step_spec(verdicts[0]);
        if d is Evaluate {
            run(next, verdicts.drop_first())
        } else {
            (next, d)
        }
    }
}

/// Termination: whatever verdicts come back, a computation has stopped with
/// a limit or an error once it has been handed as many verdicts as its
/// remaining budget; it never asks for more evaluations than that.
pub proof fn lemma_run_stops_within_budget(r: Resolver, verdicts: Seq<Verdict>)
    requires
        r.wf(),
        verdicts.len() >= r.max_iterations - r.iteration,
    ensures
        !(run(r, verdicts).1 is Evaluate),
        run(r, verdicts).0.iteration <= r.max_iterations,
    decreases verdicts.len(),
{
    if r.decision_spec() is Evaluate && verdicts.len() > 0 {
        let (next, d) = r.step_spec(verdicts[0]);
        if d is Evaluate {
            lemma_run_stops_within_budget(next, verdicts.drop_first());
        }
    }
}

} // verus!
