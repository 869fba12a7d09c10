//! The per-call behaviour of an interposition wrapper.
//!
//! The exported wrapper for an intercepted symbol runs the same steps on
//! every call: if the symbol's slot already holds an entry point, hand it
//! to the user hook; otherwise run the resolver once, publish its result,
//! and either delegate or take the fatal path. [`wrapper_call`] is that
//! whole flow over caller-supplied resolver and hook closures;
//! [`complete_resolution`] is the slow path alone, for an embedding that
//! runs the resolver itself.

use vstd::prelude::*;
use crate::diag::fatal_diagnostic;
use crate::diag::fatal_message;
use crate::slot::PublishOutcome;
use crate::slot::SlotModel;
use crate::slot::TargetSlot;
use crate::slot::publish_step;
use crate::symbol::InterceptedSymbol;

verus! {

/// What one wrapper call does after the slot has been brought to its
/// post-resolution state.
pub enum WrapperAction {
    /// The slot holds `entry`: run the user hook with it.
    Delegate { entry: usize },
    /// Resolution failed: write `diagnostic` to standard error, raw and
    /// unbuffered, then terminate the process abruptly. Control must not
    /// return to the caller. A failure is not cached: the slot stays
    /// unresolved, which is moot under the abort policy (no later call
    /// exists in this process), and would mean a fresh attempt per call
    /// if that policy were ever relaxed.
    Fatal { diagnostic: Vec<u8> },
}

/// The slow path of a wrapper call: the resolver has just produced
/// `lookup` for `sym`, and the slot takes it by one compare-and-publish
/// step. An already-resolved slot keeps its entry point and `lookup` is
/// discarded (this call lost the race); an unresolved slot accepts a
/// non-null `lookup`; a null `lookup` on an unresolved slot yields the
/// fatal action with the full diagnostic for `sym`.
pub fn complete_resolution(slot: &mut TargetSlot, lookup: usize, sym: &InterceptedSymbol) -> (a:
    WrapperAction)
    ensures
        final(slot)@ == publish_step(old(slot)@, lookup),
        match a {
            WrapperAction::Delegate { entry } => {
                &&& entry != 0
                &&& final(slot)@ == (SlotModel::Resolved { entry })
                &&& (old(slot)@ == SlotModel::Unresolved ==> lookup != 0 && entry == lookup)
                &&& (old(slot)@ is Resolved ==> old(slot)@ == (SlotModel::Resolved { entry }))
            },
            WrapperAction::Fatal { diagnostic } => {
                &&& old(slot)@ == SlotModel::Unresolved
                &&& lookup == 0
                &&& final(slot)@ == SlotModel::Unresolved
                &&& diagnostic@ == fatal_diagnostic(sym@)
            },
        },
{
    match slot.publish(lookup) {
        PublishOutcome::Installed { entry } => WrapperAction::Delegate { entry },
        PublishOutcome::Retained { entry } => WrapperAction::Delegate { entry },
        PublishOutcome::Unresolvable => WrapperAction::Fatal { diagnostic: fatal_message(sym) },
    }
}

/// What a whole wrapper call came to: the user hook's return value,
/// passed through unchanged, or the diagnostic that the fatal path must
/// write before the process terminates.
pub enum CallOutcome<Ret> {
    Returned { value: Ret },
    Aborting { diagnostic: Vec<u8> },
}

/// One complete call of the exported wrapper for `sym`, with `args` the
/// call's original arguments.
///
/// `resolver` stands for the dynamic-loader lookup: it receives the
/// symbol's NUL-terminated name and returns the next entry point in
/// search order, or null. It runs only when the slot is still
/// unresolved, so over the slot's life it runs at most once per call
/// that raced ahead of publication and never after. `hook` is the user
/// hook, invoked with the resolved entry point and exactly `args`; the
/// wrapper's return value is exactly the hook's return value.
pub fn wrapper_call<Args, Ret, Resolver, Hook>(
    slot: &mut TargetSlot,
    sym: &InterceptedSymbol,
    args: Args,
    resolver: Resolver,
    hook: Hook,
) -> (out: CallOutcome<Ret>) where
    Resolver: FnOnce(Vec<u8>) -> usize,
    Hook: FnOnce(usize, Args) -> Ret,

    requires
        forall|cn: Vec<u8>| cn@ == sym@ + seq![0u8] ==> call_requires(resolver, (cn,)),
        forall|e: usize| e != 0 ==> call_requires(hook, (e, args)),
    ensures
        old(slot)@ is Resolved ==> {
            &&& final(slot)@ == old(slot)@
            &&& out matches CallOutcome::Returned { value } && call_ensures(
                hook,
                (old(slot)@->entry, args),
                value,
            )
        },
        old(slot)@ is Unresolved ==> exists|lookup: usize, cn: Vec<u8>|
            {
                &&& cn@ == sym@ + seq![0u8]
                &&& #[trigger] call_ensures(resolver, (cn,), lookup)
                &&& final(slot)@ == publish_step(old(slot)@, lookup)
                &&& match out {
                    CallOutcome::Returned { value } => lookup != 0 && final(slot)@ == (
                    SlotModel::Resolved { entry: lookup }) && call_ensures(
                        hook,
                        (lookup, args),
                        value,
                    ),
                    CallOutcome::Aborting { diagnostic } => lookup == 0 && final(slot)@
                        == SlotModel::Unresolved && diagnostic@ == fatal_diagnostic(sym@),
                }
            },
{
    match slot.entry() {
        Some(entry) => CallOutcome::Returned { value: hook(entry, args) },
        None => {
            let cn = sym.c_name();
            let lookup = resolver(cn);
            match complete_resolution(slot, lookup, sym) {
                WrapperAction::Delegate { entry } => CallOutcome::Returned {
                    value: hook(entry, args),
                },
                WrapperAction::Fatal { diagnostic } => CallOutcome::Aborting { diagnostic },
            }
        },
    }
}

/// Transparent delegation: a user hook that calls the real
/// implementation with unmodified arguments and returns its result
/// unmodified — every return it allows for entry point `entry` and
/// arguments `args` equals `real_impl(entry, args)` — makes a delegating
/// wrapper call on `args` come out at exactly `real_impl(entry, args)`,
/// indistinguishable from a direct, un-interposed call of the real
/// function.
pub proof fn lemma_transparent_delegation<Args, Ret, Hook: FnOnce(usize, Args) -> Ret>(
    hook: Hook,
    real_impl: spec_fn(usize, Args) -> Ret,
    entry: usize,
    args: Args,
    out: CallOutcome<Ret>,
)
    requires
        forall|v: Ret| call_ensures(hook, (entry, args), v) ==> v == real_impl(entry, args),
        out matches CallOutcome::Returned { value } && call_ensures(hook, (entry, args), value),
    ensures
        out == (CallOutcome::Returned { value: real_impl(entry, args) }),
{
}

/// Argument transformation: a user hook that hands the real
/// implementation `shift(args)` in place of the call's own arguments
/// `args` makes a delegating wrapper call on `args` come out at the real
/// function's result for `shift(args)`.
pub proof fn lemma_argument_transformation<Args, Ret, Hook: FnOnce(usize, Args) -> Ret>(
    hook: Hook,
    real_impl: spec_fn(usize, Args) -> Ret,
    shift: spec_fn(Args) -> Args,
    args: Args,
    entry: usize,
    out: CallOutcome<Ret>,
)
    requires
        forall|v: Ret| call_ensures(hook, (entry, args), v) ==> v == real_impl(
            entry,
            shift(args),
        ),
        out matches CallOutcome::Returned { value } && call_ensures(hook, (entry, args), value),
    ensures
        out == (CallOutcome::Returned { value: real_impl(entry, shift(args)) }),
{
}

/// Bypass: a user hook that never consults the resolved target and
/// returns the constant `c` makes every delegating wrapper call return
/// `c`, whatever the arguments were and whatever entry point was
/// published.
pub proof fn lemma_bypass<Args, Ret, Hook: FnOnce(usize, Args) -> Ret>(
    hook: Hook,
    c: Ret,
    entry: usize,
    args: Args,
    out: CallOutcome<Ret>,
)
    requires
        forall|e: usize, a: Args, v: Ret| #[trigger] call_ensures(hook, (e, a), v) ==> v == c,
        out matches CallOutcome::Returned { value } && call_ensures(hook, (entry, args), value),
    ensures
        out == (CallOutcome::Returned { value: c }),
{
}

} // verus!
