//! Merging the two topology event sources into one sequence of occurrences.
//!
//! The daemon subscribes to two signal streams on the system bus, one for
//! interfaces appearing and one for them disappearing. The driver polls both
//! fairly and reports each item here; this module decides what an item
//! means: every inbound signal, from either source, yields exactly one
//! topology occurrence, a single source ending quietly yields nothing, and
//! both sources having ended is the fatal `SubscriptionTerminated`
//! condition — the daemon attempts no reconnection.

use vstd::prelude::*;

verus! {

/// Which of the two subscribed signal streams an item came from.
#[derive(Clone, Copy, PartialEq, Eq, Structural, Debug)]
pub enum SourceKind {
    /// The interface-added stream.
    Added,
    /// The interface-removed stream.
    Removed,
}

/// One item polled from a source: a signal arrived (its payload is
/// deliberately ignored), or the stream ended.
#[derive(Clone, Copy, PartialEq, Eq, Structural, Debug)]
pub enum SourceItem {
    Signal,
    Ended,
}

/// What one merged item amounts to.
#[derive(Clone, Copy, PartialEq, Eq, Structural, Debug)]
pub enum WatchStep {
    /// A topology occurrence: something changed; run a reconciliation cycle.
    Occurrence,
    /// Nothing to do; keep polling the remaining sources.
    Waiting,
}

/// The merged topology subscription ended: both underlying streams
/// terminated. Fatal for the daemon.
#[derive(Clone, Copy, PartialEq, Eq, Structural, Debug)]
pub struct SubscriptionTerminated;

/// The merge's state: which sources have ended.
pub struct MergeState {
    pub added_ended: bool,
    pub removed_ended: bool,
}

/// Whether the source a new item came from was still live.
pub open spec fn source_live(s: MergeState, source: SourceKind) -> bool {
    match source {
        SourceKind::Added => !s.added_ended,
        SourceKind::Removed => !s.removed_ended,
    }
}

impl MergeState {
    /// Starts with both sources live.
    pub fn new() -> (s: Self)
        ensures
            !s.added_ended,
            !s.removed_ended,
    {
        MergeState { added_ended: false, removed_ended: false }
    }

    /// Takes one polled item. A signal from either source yields exactly one
    /// occurrence; a stream's end marks that source ended, and once both
    /// have ended the subscription is terminated, which is fatal.
    pub fn on_item(&mut self, source: SourceKind, item: SourceItem) -> (r: Result<
        WatchStep,
        SubscriptionTerminated,
    >)
        requires
            source_live(*old(self), source),
        ensures
            item == SourceItem::Signal ==> r == Ok::<WatchStep, SubscriptionTerminated>(
                WatchStep::Occurrence,
            ) && *final(self) == *old(self),
            item == SourceItem::Ended ==> !source_live(*final(self), source) && (match source {
                SourceKind::Added => final(self).removed_ended == old(self).removed_ended,
                SourceKind::Removed => final(self).added_ended == old(self).added_ended,
            }),
            item == SourceItem::Ended ==> ((r is Err) <==> (final(self).added_ended
                && final(self).removed_ended)),
            item == SourceItem::Ended && !(final(self).added_ended && final(self).removed_ended)
                ==> r == Ok::<WatchStep, SubscriptionTerminated>(WatchStep::Waiting),
    {
        match item {
            SourceItem::Signal => Ok(WatchStep::Occurrence),
            SourceItem::Ended => {
                match source {
                    SourceKind::Added => {
                        self.added_ended = true;
                    },
                    SourceKind::Removed => {
                        self.removed_ended = true;
                    },
                }
                if self.added_ended && self.removed_ended {
                    Err(SubscriptionTerminated)
                } else {
                    Ok(WatchStep::Waiting)
                }
            },
        }
    }
}

} // verus!
