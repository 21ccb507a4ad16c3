//! Merging the two remote signal sources — object added, object removed —
//! into one change-notification feed.
//!
//! Each signal from either source becomes exactly one event; nothing is
//! merged away, deduplicated, or buffered, and the event carries no payload
//! beyond the impulse itself: consumers re-fetch the current state.

use vstd::prelude::*;

verus! {

/// A signal observed on one of the two sources.
#[derive(Clone, Copy, PartialEq, Eq, Structural, Debug)]
pub enum SignalKind {
    /// An object appeared under the root.
    Added,
    /// An object disappeared from under the root.
    Removed,
}

/// The one event the feed carries: the set of pending questions changed,
/// re-fetch it.
#[derive(Clone, Copy, PartialEq, Eq, Structural, Debug)]
pub enum ChangeEvent {
    QuestionsChanged,
}

/// Whether `merged` is an order-preserving interleaving of the two source
/// histories `adds` and `removes`: every signal of either source appears
/// exactly once, each source's own order is kept, and nothing else appears.
pub open spec fn is_interleaving(
    merged: Seq<SignalKind>,
    adds: Seq<SignalKind>,
    removes: Seq<SignalKind>,
) -> bool
    decreases merged.len(),
{
    if merged.len() == 0 {
        adds.len() == 0 && removes.len() == 0
    } else {
        ||| (adds.len() > 0 && merged[0] == adds[0] && is_interleaving(
            merged.drop_first(),
            adds.drop_first(),
            removes,
        ))
        ||| (removes.len() > 0 && merged[0] == removes[0] && is_interleaving(
            merged.drop_first(),
            adds,
            removes.drop_first(),
        ))
    }
}

/// The events the feed yields for a merged signal history: one impulse per
/// signal, in order, carrying no payload.
pub open spec fn events_of(merged: Seq<SignalKind>) -> Seq<ChangeEvent> {
    merged.map_values(|s: SignalKind| ChangeEvent::QuestionsChanged)
}

/// Law: however the two sources interleave, the feed yields exactly one
/// event per add or remove signal — no event is merged away or invented —
/// and every event is the bare impulse.
pub proof fn lemma_one_event_per_signal(
    merged: Seq<SignalKind>,
    adds: Seq<SignalKind>,
    removes: Seq<SignalKind>,
)
    requires
        is_interleaving(merged, adds, removes),
    ensures
        events_of(merged).len() == adds.len() + removes.len(),
        forall|i: int|
            0 <= i < events_of(merged).len() ==> events_of(merged)[i]
                == ChangeEvent::QuestionsChanged,
    decreases merged.len(),
{
    if merged.len() == 0 {
    } else {
        if adds.len() > 0 && merged[0] == adds[0] && is_interleaving(
            merged.drop_first(),
            adds.drop_first(),
            removes,
        ) {
            lemma_one_event_per_signal(merged.drop_first(), adds.drop_first(), removes);
        } else {
            lemma_one_event_per_signal(merged.drop_first(), adds, removes.drop_first());
        }
    }
}

/// The state a running merger carries: nothing but counters of what it has
/// seen and emitted — no question state, no payload buffering.
pub struct Merger {
    /// How many signals the add source has delivered.
    pub adds_seen: u64,
    /// How many signals the remove source has delivered.
    pub removes_seen: u64,
    /// How many events the merged feed has emitted.
    pub emitted: u64,
}

impl Merger {
    /// A merger emits exactly one event per signal seen on either source.
    pub open spec fn wf(&self) -> bool {
        self.emitted == self.adds_seen + self.removes_seen
    }

    /// Opens a merged feed that has seen and emitted nothing.
    pub fn new() -> (m: Merger)
        ensures
            m.wf(),
            m.adds_seen == 0,
            m.removes_seen == 0,
            m.emitted == 0,
    {
        Merger { adds_seen: 0, removes_seen: 0, emitted: 0 }
    }

    /// Turns one signal from either source into exactly one payload-free
    /// event on the merged feed.
    pub fn on_signal(&mut self, signal: SignalKind) -> (e: ChangeEvent)
        requires
            old(self).wf(),
            old(self).emitted < u64::MAX,
        ensures
            final(self).wf(),
            e == ChangeEvent::QuestionsChanged,
            final(self).emitted == old(self).emitted + 1,
            signal is Added ==> final(self).adds_seen == old(self).adds_seen + 1
                && final(self).removes_seen == old(self).removes_seen,
            signal is Removed ==> final(self).removes_seen == old(self).removes_seen + 1
                && final(self).adds_seen == old(self).adds_seen,
    {
        match signal {
            SignalKind::Added => {
                self.adds_seen = self.adds_seen + 1;
            },
            SignalKind::Removed => {
                self.removes_seen = self.removes_seen + 1;
            },
        }
        self.emitted = self.emitted + 1;
        ChangeEvent::QuestionsChanged
    }
}

} // verus!
