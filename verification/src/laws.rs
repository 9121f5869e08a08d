//! The lifecycle laws of the scoped-context abstraction, as proof functions.
//!
//! Each law takes as a premise exactly what [`Context::with_ref`] or
//! [`Context::with_mut_ref`] ensures of its result, so a caller of either
//! wrapper can invoke the law on what came back, and each law holds of every
//! value the wrappers can return. The laws about recorded side effects are
//! stated over the [`Probe`] owner, whose state says what its setup and
//! cleanup did.

use vstd::prelude::*;

use crate::probe::{Probe, ProbeCtx};
use crate::Context;

verus! {

/// Setup-failure short-circuit: an owner whose setup can only fail makes
/// `with_ref` return an absent result — the operation never contributes one.
pub proof fn lemma_setup_failure_short_circuit<C: Context, T, F: Fn(&C::Ctx) -> T>(
    owner: C,
    f: F,
    r: Option<T>,
)
    requires
        forall|post: C, c: Option<C::Ctx>| #[trigger] C::setup_ens(owner, post, c) ==> c is None,
        r matches Some(t) ==> exists|mid: C, ctx: C::Ctx, fin: C|
            #![auto]
            C::setup_ens(owner, mid, Some(ctx))
                && call_ensures(f, (&ctx,), t)
                && C::cleanup_ens(mid, ctx, fin),
    ensures
        r is None,
{
    if r is Some {
        let (mid, ctx, fin): (C, C::Ctx, C) = choose|mid: C, ctx: C::Ctx, fin: C|
            #![auto]
            C::setup_ens(owner, mid, Some(ctx))
                && call_ensures(f, (&ctx,), r->0)
                && C::cleanup_ens(mid, ctx, fin);
        assert(C::setup_ens(owner, mid, Some(ctx)));
    }
}

/// Setup-failure short-circuit for `with_mut_ref`: an owner whose setup can
/// only fail makes it return an absent result.
pub proof fn lemma_setup_failure_short_circuit_mut<C: Context, T, F: Fn(&mut C::Ctx) -> T>(
    owner: C,
    f: F,
    r: Option<T>,
)
    requires
        forall|post: C, c: Option<C::Ctx>| #[trigger] C::setup_ens(owner, post, c) ==> c is None,
        r matches Some(t) ==> exists|mid: C, m: &mut C::Ctx, fin: C|
            #![auto]
            C::setup_ens(owner, mid, Some(mut_ref_current(m)))
                && call_ensures(f, (m,), t)
                && C::cleanup_ens(mid, mut_ref_future(m), fin),
    ensures
        r is None,
{
    if r is Some {
        let (mid, m, fin): (C, &mut C::Ctx, C) = choose|mid: C, m: &mut C::Ctx, fin: C|
            #![auto]
            C::setup_ens(owner, mid, Some(mut_ref_current(m)))
                && call_ensures(f, (m,), r->0)
                && C::cleanup_ens(mid, mut_ref_future(m), fin);
        assert(C::setup_ens(owner, mid, Some(mut_ref_current(m))));
    }
}

/// Guaranteed cleanup on success: a `Probe` owner whose setup succeeds gives
/// `with_ref` a present result, and every complete run behind such a result
/// records exactly one setup and exactly one cleanup.
pub proof fn lemma_cleanup_once_on_success<T, F: Fn(&ProbeCtx) -> T>(
    owner: Probe,
    f: F,
    r: Option<T>,
)
    requires
        owner.succeed,
        r is None ==> exists|failed: Probe| Probe::setup_ens(owner, failed, None),
    ensures
        r is Some,
        forall|t: T, mid: Probe, ctx: ProbeCtx, fin: Probe|
            #[trigger] Probe::setup_ens(owner, mid, Some(ctx)) && #[trigger] call_ensures(
                f,
                (&ctx,),
                t,
            ) && #[trigger] Probe::cleanup_ens(mid, ctx, fin) ==> fin.setups@ == owner.setups@ + 1
                && fin.cleanups@ == owner.cleanups@ + 1,
{
    if r is None {
        let failed: Probe = choose|failed: Probe| Probe::setup_ens(owner, failed, None);
        assert(Probe::setup_ens(owner, failed, None));
    }
}

/// Result passthrough: when the operation can only return `v`, a present
/// result of `with_ref` is exactly `Some(v)`.
pub proof fn lemma_result_passthrough<C: Context, T, F: Fn(&C::Ctx) -> T>(
    owner: C,
    f: F,
    r: Option<T>,
    v: T,
)
    requires
        forall|ctx: C::Ctx, t: T| #[trigger] call_ensures(f, (&ctx,), t) ==> t == v,
        r matches Some(t) ==> exists|mid: C, ctx: C::Ctx, fin: C|
            #![auto]
            C::setup_ens(owner, mid, Some(ctx))
                && call_ensures(f, (&ctx,), t)
                && C::cleanup_ens(mid, ctx, fin),
    ensures
        r is Some ==> r == Some(v),
{
    if r is Some {
        let (mid, ctx, fin): (C, C::Ctx, C) = choose|mid: C, ctx: C::Ctx, fin: C|
            #![auto]
            C::setup_ens(owner, mid, Some(ctx))
                && call_ensures(f, (&ctx,), r->0)
                && C::cleanup_ens(mid, ctx, fin);
        assert(call_ensures(f, (&ctx,), r->0));
    }
}

/// Result passthrough for `with_mut_ref`: when the operation can only return
/// `v`, a present result is exactly `Some(v)`.
pub proof fn lemma_result_passthrough_mut<C: Context, T, F: Fn(&mut C::Ctx) -> T>(
    owner: C,
    f: F,
    r: Option<T>,
    v: T,
)
    requires
        forall|m: &mut C::Ctx, t: T| #[trigger] call_ensures(f, (m,), t) ==> t == v,
        r matches Some(t) ==> exists|mid: C, m: &mut C::Ctx, fin: C|
            #![auto]
            C::setup_ens(owner, mid, Some(mut_ref_current(m)))
                && call_ensures(f, (m,), t)
                && C::cleanup_ens(mid, mut_ref_future(m), fin),
    ensures
        r is Some ==> r == Some(v),
{
    if r is Some {
        let (mid, m, fin): (C, &mut C::Ctx, C) = choose|mid: C, m: &mut C::Ctx, fin: C|
            #![auto]
            C::setup_ens(owner, mid, Some(mut_ref_current(m)))
                && call_ensures(f, (m,), r->0)
                && C::cleanup_ens(mid, mut_ref_future(m), fin);
        assert(call_ensures(f, (m,), r->0));
    }
}

/// Mutation visibility: when every call of the operation leaves the sentinel
/// in the context, a successful `with_mut_ref` on a `Probe` owner hands
/// cleanup the mutated context — every complete run behind the result records
/// the sentinel as the payload cleanup consumed.
pub proof fn lemma_mutation_visible_to_cleanup<T, F: Fn(&mut ProbeCtx) -> T>(
    owner: Probe,
    f: F,
    r: Option<T>,
    sentinel: u64,
)
    requires
        owner.succeed,
        forall|m: &mut ProbeCtx, t: T| #[trigger] call_ensures(f, (m,), t) ==> mut_ref_future(
            m,
        ).value == sentinel,
        r is None ==> exists|failed: Probe| Probe::setup_ens(owner, failed, None),
    ensures
        r is Some,
        forall|t: T, mid: Probe, m: &mut ProbeCtx, fin: Probe|
            #[trigger] Probe::setup_ens(owner, mid, Some(mut_ref_current(m))) && #[trigger]
            call_ensures(f, (m,), t) && #[trigger] Probe::cleanup_ens(mid, mut_ref_future(m), fin)
                ==> fin.last_cleaned == Some(sentinel),
{
    if r is None {
        let failed: Probe = choose|failed: Probe| Probe::setup_ens(owner, failed, None);
        assert(Probe::setup_ens(owner, failed, None));
    }
}

/// The operation ran on success: a present result of `with_ref` is a value
/// the operation itself produced from an acquired context, so a successful
/// invocation never skips the operation.
pub proof fn lemma_operation_ran_on_success<C: Context, T, F: Fn(&C::Ctx) -> T>(
    owner: C,
    f: F,
    r: Option<T>,
)
    requires
        r matches Some(t) ==> exists|mid: C, ctx: C::Ctx, fin: C|
            #![auto]
            C::setup_ens(owner, mid, Some(ctx))
                && call_ensures(f, (&ctx,), t)
                && C::cleanup_ens(mid, ctx, fin),
        r is Some,
    ensures
        exists|ctx: C::Ctx| #[trigger] call_ensures(f, (&ctx,), r->0),
{
    let (mid, ctx, fin): (C, C::Ctx, C) = choose|mid: C, ctx: C::Ctx, fin: C|
        #![auto]
        C::setup_ens(owner, mid, Some(ctx))
            && call_ensures(f, (&ctx,), r->0)
            && C::cleanup_ens(mid, ctx, fin);
    assert(call_ensures(f, (&ctx,), r->0));
}

/// The operation ran on success, `with_mut_ref` form: a present result is a
/// value the operation itself produced while mutating an acquired context.
pub proof fn lemma_operation_ran_on_success_mut<C: Context, T, F: Fn(&mut C::Ctx) -> T>(
    owner: C,
    f: F,
    r: Option<T>,
)
    requires
        r matches Some(t) ==> exists|mid: C, m: &mut C::Ctx, fin: C|
            #![auto]
            C::setup_ens(owner, mid, Some(mut_ref_current(m)))
                && call_ensures(f, (m,), t)
                && C::cleanup_ens(mid, mut_ref_future(m), fin),
        r is Some,
    ensures
        exists|m: &mut C::Ctx| #[trigger] call_ensures(f, (m,), r->0),
{
    let (mid, m, fin): (C, &mut C::Ctx, C) = choose|mid: C, m: &mut C::Ctx, fin: C|
        #![auto]
        C::setup_ens(owner, mid, Some(mut_ref_current(m)))
            && call_ensures(f, (m,), r->0)
            && C::cleanup_ens(mid, mut_ref_future(m), fin);
    assert(call_ensures(f, (m,), r->0));
}

} // verus!
