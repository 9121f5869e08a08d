//! A scoped-context abstraction: acquire a resource, run exactly one
//! caller-supplied operation against it, and release the resource afterwards.
//!
//! An owner type implements [`Context`] by saying how a context value is
//! produced ([`Context::setup_context`]) and how it is disposed of
//! ([`Context::cleanup_context`]). The two invocation wrappers
//! ([`Context::with_ref`] and [`Context::with_mut_ref`]) tie those together
//! around one caller-supplied operation: setup, then the operation on a
//! reference to the context, then cleanup — or nothing at all when setup
//! fails, which the absent result reports.

use vstd::prelude::*;

pub mod laws;
pub mod probe;

verus! {

/// The scoped acquire/use/release contract.
///
/// An implementer (the owner) knows how to produce a context value and how to
/// dispose of one. The two spec functions describe, abstractly, what the
/// implementer's `setup_context` and `cleanup_context` may do, and the
/// invocation wrappers' contracts are stated over them. An implementation
/// that leaves them at their defaults promises nothing of either step; one
/// that overrides them pins its lifecycle down, and everything the wrappers
/// ensure then speaks in its terms.
pub trait Context: Sized {
    /// The acquired resource or state, scoped to one invocation.
    type Ctx;

    /// Relates the owner before and after `setup_context` with its outcome.
    /// An outcome of `None` means acquisition failed and no context exists.
    open spec fn setup_ens(pre: Self, post: Self, r: Option<Self::Ctx>) -> bool {
        true
    }

    /// Relates the owner before and after `cleanup_context` with the context
    /// value it consumed.
    open spec fn cleanup_ens(pre: Self, ctx: Self::Ctx, post: Self) -> bool {
        true
    }

    /// Acquire a context, or fail silently with `None`.
    fn setup_context(&mut self) -> (r: Option<Self::Ctx>)
        ensures
            Self::setup_ens(*old(self), *final(self), r),
    ;

    /// Release a previously acquired context. Takes it by value, so a context
    /// cannot outlive the invocation that produced it.
    fn cleanup_context(&mut self, ctx: Self::Ctx)
        ensures
            Self::cleanup_ens(*old(self), ctx, *final(self)),
    ;

    /// Run `f` once on a shared reference to a freshly acquired context, then
    /// release the context; the result is `None` exactly when acquisition
    /// failed, and otherwise carries what `f` returned.
    fn with_ref<T, F: Fn(&Self::Ctx) -> T>(self, f: F) -> (r: Option<T>)
        requires
            forall|mid: Self, ctx: Self::Ctx|
                #[trigger] Self::setup_ens(self, mid, Some(ctx)) ==> call_requires(f, (&ctx,)),
        ensures
            r is None ==> exists|failed: Self| Self::setup_ens(self, failed, None),
            r matches Some(t) ==> exists|mid: Self, ctx: Self::Ctx, fin: Self|
                #![auto]
                Self::setup_ens(self, mid, Some(ctx))
                    && call_ensures(f, (&ctx,), t)
                    && Self::cleanup_ens(mid, ctx, fin),
    {
        let mut owner = self;
        let setup = owner.setup_context();
        match setup {
            None => None,
            Some(context) => {
                let ret = f(&context);
                owner.cleanup_context(context);
                Some(ret)
            },
        }
    }

    /// Run `f` once on a mutable reference to a freshly acquired context,
    /// then release the context as `f` left it; the result is `None` exactly
    /// when acquisition failed, and otherwise carries what `f` returned.
    fn with_mut_ref<T, F: Fn(&mut Self::Ctx) -> T>(self, f: F) -> (r: Option<T>)
        requires
            forall|mid: Self, m: &mut Self::Ctx|
                #[trigger] Self::setup_ens(self, mid, Some(mut_ref_current(m)))
                    ==> call_requires(f, (m,)),
        ensures
            r is None ==> exists|failed: Self| Self::setup_ens(self, failed, None),
            r matches Some(t) ==> exists|mid: Self, m: &mut Self::Ctx, fin: Self|
                #![auto]
                Self::setup_ens(self, mid, Some(mut_ref_current(m)))
                    && call_ensures(f, (m,), t)
                    && Self::cleanup_ens(mid, mut_ref_future(m), fin),
    {
        let mut owner = self;
        let setup = owner.setup_context();
        match setup {
            None => None,
            Some(mut context) => {
                let ret = f(&mut context);
                owner.cleanup_context(context);
                Some(ret)
            },
        }
    }
}

} // verus!
