//! The outer iteration's decisions: whether to run another forward, backward and
//! update pass, and how a solve ends.
//!
//! The numeric work of one iteration happens outside; what it reports back is a
//! [`Report`], and the controller answers with the next [`Action`].

use vstd::prelude::*;

verus! {

/// How a solve ended.
#[derive(Clone, Copy, Debug, PartialEq, Eq, Structural)]
pub enum Stop {
    /// The correction norm of the last iteration was below the threshold.
    Converged { iterations: usize },
    /// The iteration budget was spent without meeting the threshold.
    IterationLimit { iterations: usize },
    /// In the given iteration (counted from 1) the backward pass found `Quu` not
    /// invertible at the given timestep.
    Singular { iteration: usize, timestep: usize },
}

/// What one iteration reports back.
#[derive(Clone, Copy, Debug, PartialEq, Eq, Structural)]
pub enum Report {
    /// The backward pass found `Quu` not invertible at this timestep.
    Singular { timestep: usize },
    /// The controls were updated; `converged` tells whether the correction norm
    /// was below the threshold.
    Updated { converged: bool },
}

/// What to do next.
#[derive(Clone, Copy, Debug, PartialEq, Eq, Structural)]
pub enum Action {
    /// Run one more iteration and report on it.
    Iterate,
    /// The solve is over.
    Finish(Stop),
}

/// The state of the outer loop: the iteration budget, the number of iterations
/// that completed their update, and how the solve ended, once it has.
#[derive(Clone, Copy, Debug, PartialEq, Eq, Structural)]
pub struct IterationControl {
    pub max_iterations: usize,
    pub completed: usize,
    pub stop: Option<Stop>,
}

impl IterationControl {
    /// Well-formed: no more iterations completed than the budget allows, and a
    /// loop that has not stopped still has budget left.
    pub open spec fn wf(self) -> bool {
        &&& self.completed <= self.max_iterations
        &&& self.stop is None ==> self.completed < self.max_iterations
    }

    pub open spec fn running(self) -> bool {
        self.stop is None
    }

    /// The controller before the first iteration.
    pub open spec fn initial(max_iterations: usize) -> IterationControl {
        IterationControl {
            max_iterations,
            completed: 0,
            stop: if max_iterations == 0 {
                Some(Stop::IterationLimit { iterations: 0 })
            } else {
                None
            },
        }
    }

    /// The action that a controller in this state asks for.
    pub open spec fn action(self) -> Action {
        match self.stop {
            Some(s) => Action::Finish(s),
            None => Action::Iterate,
        }
    }

    /// The controller after a running iteration reports back.
    pub open spec fn step(self, report: Report) -> IterationControl {
        match report {
            Report::Singular { timestep } => IterationControl {
                stop: Some(Stop::Singular { iteration: (self.completed + 1) as usize, timestep }),
                ..self
            },
            Report::Updated { converged } => {
                let done = (self.completed + 1) as usize;
                IterationControl {
                    completed: done,
                    stop: if converged {
                        Some(Stop::Converged { iterations: done })
                    } else if done == self.max_iterations {
                        Some(Stop::IterationLimit { iterations: done })
                    } else {
                        None
                    },
                    ..self
                }
            },
        }
    }

    /// The controller after a sequence of reports; reports that come after the
    /// loop stopped change nothing.
    pub open spec fn run(self, reports: Seq<Report>) -> IterationControl
        decreases reports.len(),
    {
        if reports.len() == 0 || !self.running() {
            self
        } else {
            self.step(reports[0]).run(reports.drop_first())
        }
    }

    /// A controller with a budget of `max_iterations`; with a budget of zero it
    /// has stopped already.
    pub fn new(max_iterations: usize) -> (r: IterationControl)
        ensures
            r == IterationControl::initial(max_iterations),
            r.wf(),
    {
        IterationControl {
            max_iterations,
            completed: 0,
            stop: if max_iterations == 0 {
                Some(Stop::IterationLimit { iterations: 0 })
            } else {
                None
            },
        }
    }

    /// The action that the controller asks for now.
    pub fn next_action(&self) -> (r: Action)
        ensures
            r == self.action(),
    {
        match self.stop {
            Some(s) => Action::Finish(s),
            None => Action::Iterate,
        }
    }

    /// Takes the report of the iteration just run and returns the next action: a
    /// singular `Quu` ends the solve with that failure, a converged update ends it
    /// with success, and spending the last of the budget ends it at the limit.
    pub fn record(&mut self, report: Report) -> (r: Action)
        requires
            old(self).wf(),
            old(self).running(),
        ensures
            *final(self) == old(self).step(report),
            final(self).wf(),
            r == final(self).action(),
    {
        match report {
            Report::Singular { timestep } => {
                self.stop = Some(Stop::Singular { iteration: self.completed + 1, timestep });
            },
            Report::Updated { converged } => {
                self.completed = self.completed + 1;
                if converged {
                    self.stop = Some(Stop::Converged { iterations: self.completed });
                } else if self.completed == self.max_iterations {
                    self.stop = Some(Stop::IterationLimit { iterations: self.completed });
                }
            },
        }
        self.next_action()
    }
}

/// Once the loop has stopped, later reports change nothing.
pub proof fn lemma_stop_is_final(c: IterationControl, reports: Seq<Report>)
    requires
        !c.running(),
    ensures
        c.run(reports) == c,
{
}

/// Whatever the iterations report, the controller stays well-formed: no run
/// completes more iterations than the budget, and the count never goes down.
pub proof fn lemma_run_within_budget(c: IterationControl, reports: Seq<Report>)
    requires
        c.wf(),
    ensures
        c.run(reports).wf(),
        c.completed <= c.run(reports).completed <= c.max_iterations,
        c.run(reports).max_iterations == c.max_iterations,
    decreases reports.len(),
{
    if reports.len() > 0 && c.running() {
        lemma_run_within_budget(c.step(reports[0]), reports.drop_first());
    }
}

/// Every solve ends: once as many reports as the budget has left have come in,
/// the loop has stopped.
pub proof fn lemma_budget_ends_run(c: IterationControl, reports: Seq<Report>)
    requires
        c.wf(),
        reports.len() >= c.max_iterations - c.completed,
    ensures
        !c.run(reports).running(),
    decreases reports.len(),
{
    if c.running() {
        let next = c.step(reports[0]);
        if next.running() {
            lemma_budget_ends_run(next, reports.drop_first());
        } else {
            lemma_stop_is_final(next, reports.drop_first());
        }
    }
}

/// When the first iteration's correction is below the threshold, the solve
/// ends after exactly that one iteration, as converged.
pub proof fn lemma_converged_first_iteration(max_iterations: usize, reports: Seq<Report>)
    requires
        max_iterations > 0,
        reports.len() >= 1,
        reports[0] == (Report::Updated { converged: true }),
    ensures
        IterationControl::initial(max_iterations).run(reports).completed == 1,
        IterationControl::initial(max_iterations).run(reports).stop == Some(
            Stop::Converged { iterations: 1 },
        ),
{
    let c = IterationControl::initial(max_iterations);
    lemma_stop_is_final(c.step(reports[0]), reports.drop_first());
}

/// A singular `Quu` in a running iteration ends the solve with that failure,
/// naming the iteration and the timestep, whatever is reported afterwards.
pub proof fn lemma_singular_surfaces(c: IterationControl, timestep: usize, later: Seq<Report>)
    requires
        c.wf(),
        c.running(),
    ensures
        c.run(seq![Report::Singular { timestep }] + later).stop == Some(
            Stop::Singular { iteration: (c.completed + 1) as usize, timestep },
        ),
{
    let reports = seq![Report::Singular { timestep }] + later;
    assert(reports[0] == Report::Singular { timestep });
    assert(reports.drop_first() =~= later);
    lemma_stop_is_final(c.step(reports[0]), later);
}

} // verus!
