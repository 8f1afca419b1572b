//! The per-step state machine of a time integrator.
//!
//! An integrator is created fresh for each simulation step and asked for
//! substeps until it reports `Done`. Explicit Euler has a single substep: the
//! first request runs it and asks for derivatives, every later one is `Done`
//! and touches nothing.
use vstd::prelude::*;

verus! {

/// What a substep reports to the solver driving it.
#[derive(Clone, Copy, Debug, PartialEq, Eq, Structural)]
pub enum IntegratorState {
    /// The next substep needs constraints and forces solved again first.
    NeedsDerivatives,
    /// The step is complete: request no more substeps.
    Done,
}

/// Progress through one explicit Euler step.
pub struct EulerProgress {
    done: bool,
}

impl EulerProgress {
    /// Whether the single substep has already run.
    pub closed spec fn spec_done(&self) -> bool {
        self.done
    }

    /// What a substep request reports, given whether the substep already ran.
    pub open spec fn outcome(done: bool) -> IntegratorState {
        if done {
            IntegratorState::Done
        } else {
            IntegratorState::NeedsDerivatives
        }
    }

    /// `after` and `r` are the state and report of one substep request made
    /// in state `before`. The update of positions is owed exactly when `r` is
    /// `NeedsDerivatives`.
    pub open spec fn stepped(before: Self, after: Self, r: IntegratorState) -> bool {
        &&& after.spec_done()
        &&& r == Self::outcome(before.spec_done())
    }

    /// The state at the start of a step: the substep has not run yet.
    pub fn begin() -> (r: Self)
        ensures
            !r.spec_done(),
    {
        EulerProgress { done: false }
    }

    /// Whether the single substep has already run.
    pub fn is_done(&self) -> (r: bool)
        ensures
            r == self.spec_done(),
    {
        self.done
    }

    /// Handle one substep request. A result of `NeedsDerivatives` means the
    /// caller applies the Euler update now; `Done` means it changes nothing.
    pub fn substep(&mut self) -> (r: IntegratorState)
        ensures
            Self::stepped(*old(self), *final(self), r),
    {
        if self.done {
            return IntegratorState::Done;
        }
        self.done = true;
        IntegratorState::NeedsDerivatives
    }
}

/// A substep requested after one that reported `NeedsDerivatives` reports
/// `Done` and leaves the state as it was, so nothing is updated twice.
pub proof fn lemma_second_substep_done(
    p0: EulerProgress,
    p1: EulerProgress,
    r1: IntegratorState,
    p2: EulerProgress,
    r2: IntegratorState,
)
    requires
        EulerProgress::stepped(p0, p1, r1),
        EulerProgress::stepped(p1, p2, r2),
        r1 == IntegratorState::NeedsDerivatives,
    ensures
        r2 == IntegratorState::Done,
        p2 == p1,
{
}

/// An Euler step ends: starting from `begin`, the first substep asks for
/// derivatives and the second reports `Done`, whatever happens in between.
pub proof fn lemma_step_terminates(
    p0: EulerProgress,
    p1: EulerProgress,
    r1: IntegratorState,
    p2: EulerProgress,
    r2: IntegratorState,
)
    requires
        !p0.spec_done(),
        EulerProgress::stepped(p0, p1, r1),
        EulerProgress::stepped(p1, p2, r2),
    ensures
        r1 == IntegratorState::NeedsDerivatives,
        r2 == IntegratorState::Done,
{
}

} // verus!
