//! The reconciliation cycle: the state machine that turns topology
//! occurrences into committed classifications and change notifications.
//!
//! Each cycle runs `Idle → Settling → Probing → Committing → Idle`: an
//! occurrence starts a fixed settle delay, the delay's end starts a probe,
//! the probe's outcome is committed, and the cycle returns to idle. The
//! surrounding process performs the waiting and the probing; this module
//! decides every transition, and owns the commit itself: the new
//! classification is stored unconditionally, and a change notification is
//! produced if and only if it differs from the previous one.

use crate::probe::{classify, classify_spec, ProbeOutcome};
use crate::state::{ConnectionState, MullvadState};
use vstd::prelude::*;

verus! {

/// How long a cycle waits after a topology occurrence before probing, in
/// milliseconds, to let the network stack finish reconfiguring.
pub const SETTLE_DELAY_MS: u64 = 500;

/// The phase a reconciliation cycle is in.
#[derive(Clone, Copy, PartialEq, Eq, Structural, Debug)]
pub enum Phase {
    /// Waiting for the next topology occurrence.
    Idle,
    /// An occurrence arrived; the settle delay is running.
    Settling,
    /// The probe (with its retries) is in flight.
    Probing,
    /// The probe's outcome is being committed.
    Committing,
}

/// An event that advances a reconciliation cycle.
#[derive(Clone, Copy, PartialEq, Eq, Structural, Debug)]
pub enum CycleEvent {
    OccurrenceArrived,
    SettleElapsed,
    ProbeFinished(ProbeOutcome),
    CommitDone,
}

/// What the driver must do next after an event is taken.
#[derive(Clone, Copy, PartialEq, Eq, Structural, Debug)]
pub enum CycleAction {
    /// Sleep the given number of milliseconds, then report `SettleElapsed`.
    StartSettle(u64),
    /// Run the retrying probe, then report `ProbeFinished`.
    StartProbe,
    /// Commit the outcome, then report `CommitDone`.
    CommitOutcome(ProbeOutcome),
    /// Block until the next occurrence, then report `OccurrenceArrived`.
    AwaitOccurrence,
}

/// Whether an event can arrive in a phase; the driver is single-tasked, so
/// each phase sees only the event it is waiting for.
pub open spec fn event_fits(p: Phase, ev: CycleEvent) -> bool {
    match ev {
        CycleEvent::OccurrenceArrived => p == Phase::Idle,
        CycleEvent::SettleElapsed => p == Phase::Settling,
        CycleEvent::ProbeFinished(_) => p == Phase::Probing,
        CycleEvent::CommitDone => p == Phase::Committing,
    }
}

/// The reconciler: runs one cycle at a time for the life of the process.
pub struct Reconciler {
    pub phase: Phase,
}

impl Reconciler {
    /// Starts in `Idle`; the machine has no terminal phase.
    pub fn new() -> (s: Self)
        ensures
            s.phase == Phase::Idle,
    {
        Reconciler { phase: Phase::Idle }
    }

    /// Advances the cycle on one event and returns the action the driver
    /// must perform next.
    pub fn on_event(&mut self, ev: CycleEvent) -> (r: CycleAction)
        requires
            event_fits(old(self).phase, ev),
        ensures
            ev == CycleEvent::OccurrenceArrived ==> final(self).phase == Phase::Settling && r
                == CycleAction::StartSettle(SETTLE_DELAY_MS),
            ev == CycleEvent::SettleElapsed ==> final(self).phase == Phase::Probing && r
                == CycleAction::StartProbe,
            ev matches CycleEvent::ProbeFinished(o) ==> final(self).phase == Phase::Committing
                && r == CycleAction::CommitOutcome(o),
            ev == CycleEvent::CommitDone ==> final(self).phase == Phase::Idle && r
                == CycleAction::AwaitOccurrence,
    {
        match ev {
            CycleEvent::OccurrenceArrived => {
                self.phase = Phase::Settling;
                CycleAction::StartSettle(SETTLE_DELAY_MS)
            },
            CycleEvent::SettleElapsed => {
                self.phase = Phase::Probing;
                CycleAction::StartProbe
            },
            CycleEvent::ProbeFinished(o) => {
                self.phase = Phase::Committing;
                CycleAction::CommitOutcome(o)
            },
            CycleEvent::CommitDone => {
                self.phase = Phase::Idle;
                CycleAction::AwaitOccurrence
            },
        }
    }
}

/// The notification that committing classification `next` over `prev`
/// yields: the new classification's name exactly when the two differ.
pub open spec fn notification_spec(prev: ConnectionState, next: ConnectionState) -> Option<
    Seq<char>,
> {
    if prev != next {
        Some(next.name_spec())
    } else {
        None
    }
}

/// Computes one cycle's commit: the new classification for the probe's
/// outcome, and the change notification to emit, which is present if and
/// only if the classification changed.
pub fn commit_step(prev: ConnectionState, outcome: &ProbeOutcome) -> (r: (
    ConnectionState,
    Option<String>,
))
    ensures
        r.0 == classify_spec(*outcome),
        (r.1 is Some) <==> prev != r.0,
        r.1 matches Some(n) ==> n@ == r.0.name_spec(),
{
    let next = classify(outcome);
    if prev != next {
        let name = next.name();
        (next, Some(name))
    } else {
        (next, None)
    }
}

/// Commits one cycle against the shared cell: reads the previous
/// classification, stores the new one unconditionally, and hands back the
/// change notification to emit, if any. A failure to deliver the
/// notification is the driver's to log; it never undoes the commit.
pub fn reconcile_commit(store: &MullvadState, outcome: &ProbeOutcome) -> (r: Option<String>)
    requires
        store.wf(),
    ensures
        r matches Some(n) ==> n@ == classify_spec(*outcome).name_spec(),
{
    let prev = store.vpn_connected();
    let (next, note) = commit_step(prev, outcome);
    store.store(next);
    note
}

/// The startup priming cycle: classifies the probe's outcome and stores it.
/// Priming is exempt from notification logic, so nothing is emitted and the
/// first query never observes `Uninitialized`.
pub fn prime(store: &MullvadState, outcome: &ProbeOutcome)
    requires
        store.wf(),
{
    let next = classify(outcome);
    store.store(next);
}

/// Law: a change notification is produced if and only if the newly computed
/// classification differs by value from the preceding one, and it carries
/// the new classification's textual name.
pub proof fn lemma_notification_iff_change(prev: ConnectionState, o: ProbeOutcome)
    ensures
        (notification_spec(prev, classify_spec(o)) is Some) <==> prev != classify_spec(o),
        notification_spec(prev, classify_spec(o)) matches Some(n) ==> n == classify_spec(
            o,
        ).name_spec(),
{
}

/// Law: repeated identical classifications across consecutive cycles emit no
/// notification: if a second cycle's probe classifies the same as the first
/// one's, the second cycle is silent.
pub proof fn lemma_repeated_classification_silent(o1: ProbeOutcome, o2: ProbeOutcome)
    requires
        classify_spec(o1) == classify_spec(o2),
    ensures
        notification_spec(classify_spec(o1), classify_spec(o2)) is None,
{
}

} // verus!
