//! One frame in flight: which step the host issues next, and what it does
//! when a step fails.
//!
//! The frame target is a scoped resource. Once it is acquired it has to be
//! presented on every way out of the frame, also when a draw call fails in
//! between: a failed frame is presented first and aborted after.

use crate::pipeline::{scoped_plan, FrameStep};
use vstd::prelude::*;

verus! {

/// How a step ended, as the host reports it.
#[derive(Copy, Clone, Debug, PartialEq, Eq, Structural)]
pub enum StepOutcome {
    /// The GPU took the call.
    Done,
    /// The call failed.
    Failed,
}

/// What the host does next with the frame.
#[derive(Copy, Clone, Debug, PartialEq, Eq, Structural)]
pub enum Directive {
    /// Issue this step and report how it ended.
    Issue(FrameStep),
    /// Every step is done and the frame is presented.
    Complete,
    /// A step failed and no target is held: give the frame up.
    Abort,
}

/// A frame in flight, as contracts see it.
pub struct FrameRunView {
    /// The steps of the frame.
    pub steps: Seq<FrameStep>,
    /// How many of them are done.
    pub position: nat,
    /// Whether the target is acquired and not yet presented.
    pub target_open: bool,
    /// Whether a step has failed.
    pub failed: bool,
}

impl FrameRunView {
    /// A frame of which nothing is issued yet.
    pub open spec fn fresh(steps: Seq<FrameStep>) -> FrameRunView {
        FrameRunView { steps, position: 0, target_open: false, failed: false }
    }

    /// What holds of every frame in flight: its steps hold the target as a
    /// scoped resource, and while no step has failed the target is open
    /// exactly between the first step and the last.
    pub open spec fn consistent(self) -> bool {
        &&& scoped_plan(self.steps)
        &&& self.position <= self.steps.len()
        &&& !self.failed ==> (self.target_open <==> 0 < self.position < self.steps.len())
        &&& self.failed ==> self.position < self.steps.len()
    }

    /// What the host does next. After a failure that is to present the
    /// target if it is open, and to abort if it is not; otherwise it is the
    /// next step of the frame, until none is left.
    pub open spec fn directive(self) -> Directive {
        if self.failed {
            if self.target_open {
                Directive::Issue(FrameStep::Present)
            } else {
                Directive::Abort
            }
        } else if self.position < self.steps.len() {
            Directive::Issue(self.steps[self.position as int])
        } else {
            Directive::Complete
        }
    }

    /// The frame after the host has reported `outcome` for the step it was
    /// told to issue. Acquiring opens the target if it succeeds; presenting
    /// closes it however it ends; a failure stops the frame where it is.
    pub open spec fn report(self, outcome: StepOutcome) -> FrameRunView {
        match self.directive() {
            Directive::Issue(step) => FrameRunView {
                steps: self.steps,
                position: if self.failed || outcome == StepOutcome::Failed {
                    self.position
                } else {
                    self.position + 1
                },
                target_open: if step == FrameStep::Present {
                    false
                } else if step == FrameStep::Acquire {
                    outcome == StepOutcome::Done
                } else {
                    self.target_open
                },
                failed: self.failed || outcome == StepOutcome::Failed,
            },
            _ => self,
        }
    }

    /// An upper bound on the number of reports that the frame still takes.
    pub open spec fn reports_left(self) -> nat {
        if self.failed {
            if self.target_open {
                1
            } else {
                0
            }
        } else {
            (self.steps.len() - self.position + 1) as nat
        }
    }
}

/// A fresh frame over steps that hold the target scoped is consistent.
pub proof fn lemma_fresh_is_consistent(steps: Seq<FrameStep>)
    requires
        scoped_plan(steps),
    ensures
        FrameRunView::fresh(steps).consistent(),
{
}

/// Reporting keeps a frame consistent, whatever the outcome.
pub proof fn lemma_report_keeps_consistent(run: FrameRunView, outcome: StepOutcome)
    requires
        run.consistent(),
    ensures
        run.report(outcome).consistent(),
        run.report(outcome).steps == run.steps,
{
    if !run.failed && run.position < run.steps.len() {
        let step = run.steps[run.position as int];
        if 0 < run.position < run.steps.len() - 1 {
            assert(step != FrameStep::Acquire && step != FrameStep::Present);
        }
    }
}

/// The target is never left open: when the host is told that the frame is
/// complete, or to abort it, no target is held.
pub proof fn lemma_target_closed_at_the_end(run: FrameRunView)
    requires
        run.consistent(),
        run.directive() == Directive::Complete || run.directive() == Directive::Abort,
    ensures
        !run.target_open,
{
}

/// A failure while the target is open is answered by presenting it, and
/// only then by aborting.
pub proof fn lemma_failure_presents_then_aborts(run: FrameRunView, outcome: StepOutcome)
    requires
        run.consistent(),
        run.target_open,
        !run.failed,
        run.directive() != Directive::Issue(FrameStep::Present),
    ensures
        run.report(StepOutcome::Failed).directive() == Directive::Issue(FrameStep::Present),
        run.report(StepOutcome::Failed).report(outcome).directive() == Directive::Abort,
{
    let step = run.steps[run.position as int];
    assert(0 < run.position < run.steps.len() - 1);
    assert(step != FrameStep::Acquire && step != FrameStep::Present);
}

/// Every report brings the frame closer to its end, so the host's loop over
/// the directives terminates.
pub proof fn lemma_report_makes_progress(run: FrameRunView, outcome: StepOutcome)
    requires
        run.consistent(),
        run.directive() is Issue,
    ensures
        run.report(outcome).reports_left() < run.reports_left(),
{
}

/// The frame after `count` steps in a row have been reported done.
pub open spec fn after_done(run: FrameRunView, count: nat) -> FrameRunView
    decreases count,
{
    if count == 0 {
        run
    } else {
        after_done(run, (count - 1) as nat).report(StepOutcome::Done)
    }
}

/// While nothing fails, the steps are issued in their order, one for each
/// report, and after the last of them the frame is complete.
pub proof fn lemma_steps_issued_in_order(steps: Seq<FrameStep>, count: nat)
    requires
        scoped_plan(steps),
        count <= steps.len(),
    ensures
        after_done(FrameRunView::fresh(steps), count).consistent(),
        after_done(FrameRunView::fresh(steps), count).steps == steps,
        after_done(FrameRunView::fresh(steps), count).position == count,
        !after_done(FrameRunView::fresh(steps), count).failed,
        after_done(FrameRunView::fresh(steps), count).directive() == if count < steps.len() {
            Directive::Issue(steps[count as int])
        } else {
            Directive::Complete
        },
    decreases count,
{
    if count > 0 {
        let before = after_done(FrameRunView::fresh(steps), (count - 1) as nat);
        lemma_steps_issued_in_order(steps, (count - 1) as nat);
        lemma_report_keeps_consistent(before, StepOutcome::Done);
    }
}

/// A frame in flight.
#[derive(Debug)]
pub struct FrameRun {
    steps: Vec<FrameStep>,
    position: usize,
    target_open: bool,
    failed: bool,
}

impl View for FrameRun {
    type V = FrameRunView;

    closed spec fn view(&self) -> FrameRunView {
        FrameRunView {
            steps: self.steps@,
            position: self.position as nat,
            target_open: self.target_open,
            failed: self.failed,
        }
    }
}

impl FrameRun {
    #[verifier::type_invariant]
    spec fn well_formed(self) -> bool {
        self@.consistent()
    }

    /// A frame over `steps` of which nothing is issued yet, or `None` where
    /// `steps` do not hold the target as a scoped resource.
    pub fn new(steps: Vec<FrameStep>) -> (made: Option<FrameRun>)
        ensures
            made is Some <==> scoped_plan(steps@),
            made matches Some(run) ==> run@ == FrameRunView::fresh(steps@),
    {
        let len: usize = steps.len();
        if len < 2 {
            return None;
        }
        if steps[0] != FrameStep::Acquire || steps[len - 1] != FrameStep::Present {
            return None;
        }
        let mut at: usize = 1;
        while at < len - 1
            invariant
                len == steps@.len(),
                len >= 2,
                1 <= at <= len - 1,
                forall|i: int|
                    0 < i < at ==> #[trigger] steps@[i] != FrameStep::Acquire && steps@[i]
                        != FrameStep::Present,
            decreases len - at,
        {
            if steps[at] == FrameStep::Acquire || steps[at] == FrameStep::Present {
                return None;
            }
            at = at + 1;
        }
        Some(FrameRun { steps, position: 0, target_open: false, failed: false })
    }

    /// What the host does next. The target is not held when this is
    /// `Complete` or `Abort`.
    pub fn directive(&self) -> (next: Directive)
        ensures
            next == self@.directive(),
            self@.consistent(),
            next == Directive::Complete || next == Directive::Abort ==> !self@.target_open,
    {
        proof {
            use_type_invariant(self);
        }
        if self.failed {
            if self.target_open {
                Directive::Issue(FrameStep::Present)
            } else {
                Directive::Abort
            }
        } else if self.position < self.steps.len() {
            Directive::Issue(self.steps[self.position])
        } else {
            Directive::Complete
        }
    }

    /// The frame after the host has reported `outcome` for the step it was
    /// told to issue. Where nothing was to be issued, nothing changes.
    pub fn report(self, outcome: StepOutcome) -> (next: FrameRun)
        ensures
            next@ == self@.report(outcome),
            next@.consistent(),
    {
        proof {
            use_type_invariant(&self);
            lemma_report_keeps_consistent(self@, outcome);
        }
        match self.directive() {
            Directive::Issue(step) => {
                let target_open = if step == FrameStep::Present {
                    false
                } else if step == FrameStep::Acquire {
                    outcome == StepOutcome::Done
                } else {
                    self.target_open
                };
                let stops = self.failed || outcome == StepOutcome::Failed;
                let len: usize = self.steps.len();
                assert(self.position < len);
                let position: usize = if stops {
                    self.position
                } else {
                    self.position + 1
                };
                FrameRun { steps: self.steps, position, target_open, failed: stops }
            },
            _ => self,
        }
    }

    /// Whether the target is acquired and not yet presented.
    pub fn target_open(&self) -> (open: bool)
        ensures
            open == self@.target_open,
    {
        self.target_open
    }

    /// Whether a step has failed.
    pub fn failed(&self) -> (failed: bool)
        ensures
            failed == self@.failed,
    {
        self.failed
    }
}

} // verus!
