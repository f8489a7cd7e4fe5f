//! The context broker: the one owner of the two shared-namespace GPU
//! contexts.
//!
//! Exactly one context is current on the rendering thread at any instant.
//! The broker records which one, together with the full history of
//! successful make-current changes, so that the per-frame ordering
//! discipline — secondary for the vector draw, then primary for the overlay
//! and the compositing — is stated and checked over that history.

use vstd::prelude::*;

verus! {

/// Which of the two shared-namespace GPU contexts a command stream goes to.
#[derive(Clone, Copy, Debug, PartialEq, Eq, Structural)]
pub enum ContextId {
    /// The context bound to the visible window.
    Primary,
    /// The off-screen context the vector layer draws under.
    Secondary,
}

/// A failed make-current call: fatal, since the ordering invariants of the
/// rendering layers can no longer be guaranteed.
#[derive(Clone, Copy, Debug, PartialEq, Eq, Structural)]
pub enum ContextError {
    MakeCurrentFailed,
}

/// Owns both GPU contexts; the only component permitted to change which one
/// is current.
pub struct ContextBroker {
    /// The context currently receiving GPU commands.
    pub current: ContextId,
    /// Every completed make-current change, oldest first.
    pub switch_log: Vec<ContextId>,
}

impl ContextBroker {
    /// Both contexts exist from startup; the primary, bound to the window,
    /// starts out current.
    pub fn new() -> (b: Self)
        ensures
            b.current == ContextId::Primary,
            b.switch_log@ == Seq::<ContextId>::empty(),
    {
        ContextBroker { current: ContextId::Primary, switch_log: Vec::new() }
    }

    /// Makes `target` the current context.
    ///
    /// `ok` is the driver's verdict on the switch, reported by the caller
    /// that performed the real GPU call: on success the change takes effect
    /// and is logged; on failure nothing is observable except the error,
    /// and the frame must be aborted.
    pub fn make_current(&mut self, target: ContextId, ok: bool) -> (r: Result<(), ContextError>)
        ensures
            ok ==> r == Ok::<(), ContextError>(()),
            ok ==> final(self).current == target,
            ok ==> final(self).switch_log@ == old(self).switch_log@.push(target),
            !ok ==> r == Err::<(), ContextError>(ContextError::MakeCurrentFailed),
            !ok ==> final(self).current == old(self).current,
            !ok ==> final(self).switch_log@ == old(self).switch_log@,
    {
        if ok {
            self.current = target;
            self.switch_log.push(target);
            Ok(())
        } else {
            Err(ContextError::MakeCurrentFailed)
        }
    }
}

} // verus!
