//! A conformance implementor of the scoped-context contract.
//!
//! A [`Probe`] owner acquires a small in-memory context and records, in ghost
//! counters and in an ordinary field, what happened to it: how often setup
//! produced a context, how often cleanup ran, and which context value cleanup
//! consumed last. It is the implementor against which the lifecycle laws in
//! [`crate::laws`] are stated, and it gives tests an owner whose setup can be
//! told to succeed or to fail.

use vstd::prelude::*;

use crate::Context;

verus! {

/// The context a [`Probe`] acquires: one plain value, which an operation run
/// under `with_mut_ref` may overwrite.
pub struct ProbeCtx {
    /// The payload; starts out as the owner's seed.
    pub value: u64,
}

/// An owner whose setup succeeds or fails on command and whose state records
/// the lifecycle events it has seen.
pub struct Probe {
    /// Whether `setup_context` produces a context.
    pub succeed: bool,
    /// The payload a freshly acquired context holds.
    pub seed: u64,
    /// How many times setup has produced a context.
    pub setups: Ghost<nat>,
    /// How many times cleanup has run.
    pub cleanups: Ghost<nat>,
    /// The payload of the context most recently consumed by cleanup.
    pub last_cleaned: Option<u64>,
}

impl Probe {
    /// A fresh owner that has seen no lifecycle events yet.
    pub fn new(succeed: bool, seed: u64) -> (p: Probe)
        ensures
            p.succeed == succeed,
            p.seed == seed,
            p.setups@ == 0,
            p.cleanups@ == 0,
            p.last_cleaned is None,
    {
        Probe { succeed, seed, setups: Ghost(0), cleanups: Ghost(0), last_cleaned: None }
    }
}

impl Context for Probe {
    type Ctx = ProbeCtx;

    /// Setup succeeds exactly when the owner says so; on success it hands out
    /// the seed as the context and counts itself, on failure it changes
    /// nothing.
    open spec fn setup_ens(pre: Probe, post: Probe, r: Option<ProbeCtx>) -> bool {
        if pre.succeed {
            &&& r == Some(ProbeCtx { value: pre.seed })
            &&& post.succeed == pre.succeed
            &&& post.seed == pre.seed
            &&& post.setups@ == pre.setups@ + 1
            &&& post.cleanups@ == pre.cleanups@
            &&& post.last_cleaned == pre.last_cleaned
        } else {
            &&& r is None
            &&& post == pre
        }
    }

    /// Cleanup counts itself and records the payload of the context it
    /// consumed; it changes nothing else.
    open spec fn cleanup_ens(pre: Probe, ctx: ProbeCtx, post: Probe) -> bool {
        &&& post.succeed == pre.succeed
        &&& post.seed == pre.seed
        &&& post.setups@ == pre.setups@
        &&& post.cleanups@ == pre.cleanups@ + 1
        &&& post.last_cleaned == Some(ctx.value)
    }

    fn setup_context(&mut self) -> (r: Option<ProbeCtx>) {
        if self.succeed {
            self.setups = Ghost(self.setups@ + 1);
            Some(ProbeCtx { value: self.seed })
        } else {
            None
        }
    }

    fn cleanup_context(&mut self, ctx: ProbeCtx) {
        self.cleanups = Ghost(self.cleanups@ + 1);
        self.last_cleaned = Some(ctx.value);
    }
}

} // verus!
