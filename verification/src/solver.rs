//! Iteration bookkeeping for the bounded fixed-point solvers.
//!
//! Two of the post-Newtonian formulations refine an acceleration-dependent
//! term by fixed-point iteration: a per-body velocity iteration, and a
//! global all-pairs iteration.  Both evaluate at most a fixed number of
//! times, stop as soon as an evaluation converges, keep the last iterate
//! either way, and owe a warning exactly when the budget ran out without
//! convergence.  The numerical update itself is floating point and happens
//! elsewhere; this module carries the decisions: whether to evaluate again,
//! and whether a warning is owed.

use vstd::prelude::*;

verus! {

/// The iteration budget of one fixed-point solve.
///
/// The caller alternates [`FixedPointBudget::proceed`] with one numerical
/// evaluation followed by [`FixedPointBudget::record_evaluation`], and asks
/// [`FixedPointBudget::missed`] at the end.  The contracts force the loop to
/// evaluate at most `cap` times and to stop at the first converged
/// evaluation.
#[derive(Clone, Copy, Debug, PartialEq, Eq, Structural)]
pub struct FixedPointBudget {
    /// Largest number of evaluations allowed.
    pub cap: u64,
    /// Evaluations recorded so far.
    pub evaluations: u64,
    /// Whether the last recorded evaluation met the convergence criterion.
    pub converged: bool,
}

impl FixedPointBudget {
    /// A budget never records more evaluations than its cap allows, and
    /// convergence can only have been observed after an evaluation.
    pub open spec fn wf(self) -> bool {
        &&& 1 <= self.cap
        &&& self.evaluations <= self.cap
        &&& (self.converged ==> 1 <= self.evaluations)
    }

    /// A fresh budget of `cap` evaluations, none spent.
    pub fn new(cap: u64) -> (budget: FixedPointBudget)
        requires
            1 <= cap,
        ensures
            budget.wf(),
            budget.cap == cap,
            budget.evaluations == 0,
            !budget.converged,
    {
        FixedPointBudget { cap, evaluations: 0, converged: false }
    }

    /// Whether one more numerical evaluation should run: the last one did
    /// not converge and the budget still has room.
    pub fn proceed(&self) -> (go: bool)
        ensures
            go == (!self.converged && self.evaluations < self.cap),
    {
        !self.converged && self.evaluations < self.cap
    }

    /// Record one numerical evaluation and whether it met the convergence
    /// criterion.
    pub fn record_evaluation(&mut self, converged: bool)
        requires
            old(self).wf(),
            !old(self).converged,
            old(self).evaluations < old(self).cap,
        ensures
            final(self).wf(),
            final(self).cap == old(self).cap,
            final(self).evaluations == old(self).evaluations + 1,
            final(self).converged == converged,
    {
        self.evaluations = self.evaluations + 1;
        self.converged = converged;
    }

    /// Whether the solve exhausted its budget without converging, in which
    /// case the caller owes a warning and keeps the last iterate.
    pub fn missed(&self) -> (miss: bool)
        ensures
            miss == (!self.converged && self.cap <= self.evaluations),
    {
        !self.converged && self.cap <= self.evaluations
    }
}

/// Counted metric of fixed-point solves over a whole run: how many solves
/// happened and how many of them exhausted their budget.
#[derive(Clone, Copy, Debug, PartialEq, Eq, Structural)]
pub struct ConvergenceMonitor {
    /// Fixed-point solves seen so far.
    pub runs: u64,
    /// Among them, those that exhausted their budget without converging.
    pub misses: u64,
}

impl ConvergenceMonitor {
    /// There cannot be more misses than solves.
    pub open spec fn wf(self) -> bool {
        self.misses <= self.runs
    }

    /// A monitor that has seen nothing yet.
    pub fn new() -> (monitor: ConvergenceMonitor)
        ensures
            monitor.wf(),
            monitor.runs == 0,
            monitor.misses == 0,
    {
        ConvergenceMonitor { runs: 0, misses: 0 }
    }

    /// Count one finished solve, a miss or not.
    pub fn record_run(&mut self, missed: bool)
        requires
            old(self).wf(),
            old(self).runs < u64::MAX,
        ensures
            final(self).wf(),
            final(self).runs == old(self).runs + 1,
            missed ==> final(self).misses == old(self).misses + 1,
            !missed ==> final(self).misses == old(self).misses,
    {
        self.runs = self.runs + 1;
        if missed {
            self.misses = self.misses + 1;
        }
    }
}

} // verus!
