//! A ghost model of many threads racing through one unresolved wrapper.
//!
//! The embedding shared object serialises each slot operation (an atomic
//! word or a one-time-initialisation primitive), so a concurrent run of
//! the wrapper is an interleaving of three indivisible steps per thread:
//! observe a resolved slot and delegate, observe an unresolved slot and
//! join the race, or run the resolver and compare-and-publish its result
//! (the same [`publish_step`] the executable slot is proved to
//! implement). The proof functions here state what every interleaving
//! guarantees: the resolver runs at most once per thread that observed
//! the slot unresolved and never after publication, a published entry
//! point never changes, and every delegating thread holds exactly the
//! published entry point.

use vstd::prelude::*;
use crate::slot::SlotModel;
use crate::slot::publish_step;

verus! {

/// Where one thread stands in its first call of the wrapper.
pub enum ThreadPhase {
    /// Has not yet looked at the slot.
    Idle,
    /// Observed the slot unresolved and will run the resolver.
    Racing,
    /// Holds the entry point it delegates to.
    Done { entry: usize },
    /// Observed a failed resolution; the process is terminating.
    Aborted,
}

/// One global state of the race: the slot, each thread's phase, how many
/// times the resolver has run, and how many threads have observed the
/// slot unresolved.
pub struct RaceState {
    pub slot: SlotModel,
    pub threads: Seq<ThreadPhase>,
    pub resolutions: nat,
    pub racers: nat,
}

/// One indivisible step of one thread.
pub enum RaceStep {
    /// `tid` finds the slot resolved and goes straight to delegation.
    ObserveResolved { tid: int },
    /// `tid` finds the slot unresolved and joins the race.
    ObserveUnresolved { tid: int },
    /// `tid` runs the resolver, obtaining `lookup`, and publishes it by
    /// one compare-and-publish step.
    ResolveAndPublish { tid: int, lookup: usize },
}

/// The phase a racing thread ends in once its resolution attempt lands
/// on `slot`: a slot already resolved wins (the attempt's result is
/// discarded), a usable lookup is adopted, a null lookup aborts.
pub open spec fn racer_outcome(slot: SlotModel, lookup: usize) -> ThreadPhase {
    match slot {
        SlotModel::Resolved { entry } => ThreadPhase::Done { entry },
        SlotModel::Unresolved => if lookup != 0 {
            ThreadPhase::Done { entry: lookup }
        } else {
            ThreadPhase::Aborted
        },
    }
}

/// The race model's resolving step is the executable slow path: a
/// racing thread whose phase comes out `Done { entry }` has moved the
/// slot, by the very `publish_step` the slot type's `publish` is proved
/// to implement, to exactly `Resolved { entry }` (delegation), and it
/// aborts precisely when the slot was still unresolved and its lookup
/// was null (the fatal path).
pub proof fn lemma_racer_outcome_matches_slot(slot: SlotModel, lookup: usize)
    ensures
        racer_outcome(slot, lookup) matches ThreadPhase::Done { entry } ==> publish_step(
            slot,
            lookup,
        ) == (SlotModel::Resolved { entry }),
        racer_outcome(slot, lookup) is Aborted <==> (slot is Unresolved && lookup == 0),
        racer_outcome(slot, lookup) is Aborted ==> publish_step(slot, lookup) == slot,
{
}

/// Before any thread has called the wrapper: slot unresolved, every
/// thread idle, no resolution run.
pub open spec fn race_init(s: RaceState) -> bool {
    &&& s.slot == SlotModel::Unresolved
    &&& forall|i: int| 0 <= i < s.threads.len() ==> s.threads[i] is Idle
    &&& s.resolutions == 0
    &&& s.racers == 0
}

/// The transition relation of the race.
pub open spec fn race_next(pre: RaceState, step: RaceStep, post: RaceState) -> bool {
    match step {
        RaceStep::ObserveResolved { tid } => {
            &&& 0 <= tid < pre.threads.len()
            &&& pre.threads[tid] is Idle
            &&& pre.slot is Resolved
            &&& post == (RaceState {
                threads: pre.threads.update(tid, ThreadPhase::Done { entry: pre.slot->entry }),
                ..pre
            })
        },
        RaceStep::ObserveUnresolved { tid } => {
            &&& 0 <= tid < pre.threads.len()
            &&& pre.threads[tid] is Idle
            &&& pre.slot is Unresolved
            &&& post == (RaceState {
                threads: pre.threads.update(tid, ThreadPhase::Racing),
                racers: pre.racers + 1,
                ..pre
            })
        },
        RaceStep::ResolveAndPublish { tid, lookup } => {
            &&& 0 <= tid < pre.threads.len()
            &&& pre.threads[tid] is Racing
            &&& post == (RaceState {
                slot: publish_step(pre.slot, lookup),
                threads: pre.threads.update(tid, racer_outcome(pre.slot, lookup)),
                resolutions: pre.resolutions + 1,
                racers: pre.racers,
            })
        },
    }
}

/// How many threads are in the race right now.
pub open spec fn racing_count(ts: Seq<ThreadPhase>) -> nat
    decreases ts.len(),
{
    if ts.len() == 0 {
        0
    } else {
        racing_count(ts.drop_last()) + if ts.last() is Racing {
            1nat
        } else {
            0nat
        }
    }
}

proof fn lemma_racing_count_all_idle(ts: Seq<ThreadPhase>)
    requires
        forall|i: int| 0 <= i < ts.len() ==> ts[i] is Idle,
    ensures
        racing_count(ts) == 0,
    decreases ts.len(),
{
    if ts.len() > 0 {
        lemma_racing_count_all_idle(ts.drop_last());
    }
}

proof fn lemma_racing_count_update(ts: Seq<ThreadPhase>, i: int, p: ThreadPhase)
    requires
        0 <= i < ts.len(),
    ensures
        racing_count(ts.update(i, p)) + (if ts[i] is Racing {
            1int
        } else {
            0int
        }) == racing_count(ts) + (if p is Racing {
            1int
        } else {
            0int
        }),
    decreases ts.len(),
{
    if i == ts.len() - 1 {
        assert(ts.update(i, p).drop_last() =~= ts.drop_last());
    } else {
        lemma_racing_count_update(ts.drop_last(), i, p);
        assert(ts.update(i, p).drop_last() =~= ts.drop_last().update(i, p));
    }
}

/// What every reachable state of the race satisfies: a published entry
/// point is non-null, every delegating thread holds exactly the
/// published entry point, and the resolver has run once for each thread
/// that joined the race and has finished its attempt.
pub open spec fn race_inv(s: RaceState) -> bool {
    &&& (s.slot is Resolved ==> s.slot->entry != 0)
    &&& (s.slot is Resolved ==> s.resolutions >= 1)
    &&& (forall|i: int|
        0 <= i < s.threads.len() ==> (#[trigger] s.threads[i] matches ThreadPhase::Done { entry }
            ==> s.slot == (SlotModel::Resolved { entry })))
    &&& s.resolutions + racing_count(s.threads) == s.racers
}

/// An initial race state satisfies the invariant.
pub proof fn lemma_race_init_inv(s: RaceState)
    requires
        race_init(s),
    ensures
        race_inv(s),
{
    lemma_racing_count_all_idle(s.threads);
}

/// Every step of the race preserves the invariant.
pub proof fn lemma_race_next_inv(pre: RaceState, step: RaceStep, post: RaceState)
    requires
        race_inv(pre),
        race_next(pre, step, post),
    ensures
        race_inv(post),
{
    match step {
        RaceStep::ObserveResolved { tid } => {
            lemma_racing_count_update(
                pre.threads,
                tid,
                ThreadPhase::Done { entry: pre.slot->entry },
            );
        },
        RaceStep::ObserveUnresolved { tid } => {
            lemma_racing_count_update(pre.threads, tid, ThreadPhase::Racing);
        },
        RaceStep::ResolveAndPublish { tid, lookup } => {
            lemma_racing_count_update(pre.threads, tid, racer_outcome(pre.slot, lookup));
        },
    }
}

/// A step taken after publication changes neither the slot nor the
/// number of threads that ever observed it unresolved: nobody re-runs
/// the first-call race once an entry point is out.
pub proof fn lemma_publication_stable(pre: RaceState, step: RaceStep, post: RaceState)
    requires
        race_next(pre, step, post),
        pre.slot is Resolved,
    ensures
        post.slot == pre.slot,
        post.racers == pre.racers,
{
}

/// A whole interleaved run: `states` is one longer than `steps`, starts
/// in an initial state, and each step relates consecutive states.
pub open spec fn race_trace(states: Seq<RaceState>, steps: Seq<RaceStep>) -> bool {
    &&& states.len() == steps.len() + 1
    &&& race_init(states[0])
    &&& forall|k: int| 0 <= k < steps.len() ==> race_next(states[k], #[trigger] steps[k], states[k + 1])
}

/// Every state of a run satisfies the race invariant.
pub proof fn lemma_race_trace_inv(states: Seq<RaceState>, steps: Seq<RaceStep>, k: int)
    requires
        race_trace(states, steps),
        0 <= k < states.len(),
    ensures
        race_inv(states[k]),
    decreases k,
{
    if k == 0 {
        lemma_race_init_inv(states[0]);
    } else {
        lemma_race_trace_inv(states, steps, k - 1);
        lemma_race_next_inv(states[k - 1], steps[k - 1], states[k]);
    }
}

/// Idempotent publication: in any run, a slot observed resolved stays
/// resolved with the same entry point in every later state.
pub proof fn lemma_idempotent_publication(
    states: Seq<RaceState>,
    steps: Seq<RaceStep>,
    i: int,
    j: int,
)
    requires
        race_trace(states, steps),
        0 <= i <= j < states.len(),
        states[i].slot is Resolved,
    ensures
        states[j].slot == states[i].slot,
    decreases j - i,
{
    if i < j {
        lemma_publication_stable(states[i], steps[i], states[i + 1]);
        lemma_idempotent_publication(states, steps, i + 1, j);
    }
}

/// Resolve-once: in any run, the resolver has run at most once per
/// thread that observed the slot unresolved; and from the moment an
/// entry point is published, no further thread joins the race, so the
/// resolver's lifetime total stays within the number of threads that
/// raced before publication.
pub proof fn lemma_resolve_once(states: Seq<RaceState>, steps: Seq<RaceStep>, i: int, j: int)
    requires
        race_trace(states, steps),
        0 <= i <= j < states.len(),
        states[i].slot is Resolved,
    ensures
        states[j].resolutions <= states[j].racers,
        states[j].racers == states[i].racers,
    decreases j - i,
{
    lemma_race_trace_inv(states, steps, j);
    if i < j {
        lemma_publication_stable(states[i], steps[i], states[i + 1]);
        lemma_resolve_once(states, steps, i + 1, j);
    }
}

/// Exactly once: when the embedding serialises the whole slow path, so
/// that only one thread ever observed the slot unresolved, a published
/// entry point means the resolver ran exactly once.
pub proof fn lemma_single_racer_resolves_exactly_once(
    states: Seq<RaceState>,
    steps: Seq<RaceStep>,
    k: int,
)
    requires
        race_trace(states, steps),
        0 <= k < states.len(),
        states[k].slot is Resolved,
        states[k].racers == 1,
    ensures
        states[k].resolutions == 1,
{
    lemma_race_trace_inv(states, steps, k);
}

/// Agreement: in any state of a run, any two delegating threads hold
/// the same entry point, and it is exactly the published one.
pub proof fn lemma_delegation_agreement(
    states: Seq<RaceState>,
    steps: Seq<RaceStep>,
    k: int,
    t1: int,
    t2: int,
)
    requires
        race_trace(states, steps),
        0 <= k < states.len(),
        0 <= t1 < states[k].threads.len(),
        0 <= t2 < states[k].threads.len(),
        states[k].threads[t1] is Done,
        states[k].threads[t2] is Done,
    ensures
        states[k].slot == (SlotModel::Resolved { entry: states[k].threads[t1]->Done_entry }),
        states[k].threads[t1]->Done_entry == states[k].threads[t2]->Done_entry,
        states[k].threads[t1]->Done_entry != 0,
{
    lemma_race_trace_inv(states, steps, k);
}

} // verus!
