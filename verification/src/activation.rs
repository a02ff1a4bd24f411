//! One-shot activation of a playback source.
//!
//! A source begins inert. Each play call activates it exactly once, before
//! the session is touched; the outcome is never cached and never retried.

use vstd::prelude::*;
use crate::errors::SessionError;

verus! {

/// Where one activation stands.
#[derive(Clone, Copy, Debug, PartialEq, Eq, Structural)]
pub enum ActivationState {
    /// Nothing has happened yet.
    Inert,
    /// The provider is working; may suspend.
    Activating,
    /// The provider produced a playable input.
    Activated,
    /// The provider failed; the play call is aborted.
    Failed,
}

/// Proof that one activation succeeded. Only `SourceActivator::finish_success`
/// produces a value of this type, and playing consumes it, so an activated
/// input is never reused and never forged.
pub struct ActivatedInput {
    fresh: bool,
}

/// Drives one activation through `Inert -> Activating -> Activated | Failed`.
/// A fresh activator is made for every play call; the transitions can run
/// only once and only in that order.
pub struct SourceActivator {
    state: ActivationState,
}

impl SourceActivator {
    /// Where this activation stands.
    pub closed spec fn state(&self) -> ActivationState {
        self.state
    }

    /// A fresh activation that has not been triggered.
    pub fn inert() -> (r: SourceActivator)
        ensures
            r.state() == ActivationState::Inert,
    {
        SourceActivator { state: ActivationState::Inert }
    }

    /// Hands the source description to the provider. Only an inert
    /// activation can be triggered, so activation happens at most once.
    pub fn begin(&mut self)
        requires
            old(self).state() == ActivationState::Inert,
        ensures
            final(self).state() == ActivationState::Activating,
    {
        self.state = ActivationState::Activating;
    }

    /// Records that the provider produced a playable input, and hands back
    /// the one witness of it.
    pub fn finish_success(&mut self) -> (r: ActivatedInput)
        requires
            old(self).state() == ActivationState::Activating,
        ensures
            final(self).state() == ActivationState::Activated,
            r.is_fresh(),
    {
        self.state = ActivationState::Activated;
        ActivatedInput { fresh: true }
    }

    /// Records that the provider failed, and converts its diagnostic into
    /// the failure the play call surfaces. The session is never touched on
    /// this path.
    pub fn finish_failure(&mut self, diagnostic: String) -> (r: SessionError)
        requires
            old(self).state() == ActivationState::Activating,
        ensures
            final(self).state() == ActivationState::Failed,
            r == SessionError::ActivationFailure(diagnostic),
    {
        self.state = ActivationState::Failed;
        SessionError::ActivationFailure(diagnostic)
    }

    /// Exposes the state to unverified callers.
    pub fn current_state(&self) -> (r: ActivationState)
        ensures
            r == self.state(),
    {
        self.state
    }
}

impl ActivatedInput {
    /// Always true of a value of this type: the only constructor sets it.
    pub closed spec fn is_fresh(&self) -> bool {
        self.fresh
    }
}

} // verus!
