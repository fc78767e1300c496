//! One-time attachment to the host process.
//!
//! Binding the bridge to the host's calling context and installing its
//! diagnostic log sink must happen exactly once, however many times the
//! attach hook runs. The guard here makes that explicit: the first pass asks
//! for the setup work, every later pass is a no-op, and attaching is
//! idempotent by construction.

use vstd::prelude::*;

verus! {

/// The process-wide attachment state, modelled explicitly: `attached` holds
/// once the one-time setup has been performed.
pub struct AttachGuard {
    pub attached: bool,
}

/// The state after one pass of the attach hook.
pub open spec fn spec_after_attach(s: AttachGuard) -> AttachGuard {
    AttachGuard { attached: true }
}

impl AttachGuard {
    /// A fresh, not yet attached guard.
    pub fn new() -> (r: AttachGuard)
        ensures
            !r.attached,
    {
        AttachGuard { attached: false }
    }

    /// One pass of the attach hook: afterwards the bridge is attached, and
    /// the result says whether this pass must perform the one-time setup —
    /// true exactly on the first pass, so the setup is never run twice.
    pub fn ensure_attached(&mut self) -> (run_setup: bool)
        ensures
            *final(self) == spec_after_attach(*old(self)),
            final(self).attached,
            run_setup == !old(self).attached,
    {
        let run_setup = !self.attached;
        self.attached = true;
        run_setup
    }
}

/// Attaching is idempotent: a second pass of the attach hook leaves the
/// state exactly where the first pass put it (and, by the contract of
/// [`AttachGuard::ensure_attached`], asks for no setup work).
pub proof fn lemma_attach_idempotent(s: AttachGuard)
    ensures
        spec_after_attach(spec_after_attach(s)) == spec_after_attach(s),
{
}

/// The fixed version token the attach hook hands back to the host as its
/// handshake.
pub fn attach_token() -> (r: i32)
    ensures
        r == 0x0001_0006,
{
    0x0001_0006
}

} // verus!
