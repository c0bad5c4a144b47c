//! The load-state tracker: many tickets in, one readiness edge out.

use vstd::prelude::*;
use crate::collection::AssetCollection;
use crate::registry::{AssetRegistry, AssetTicket, RegistryView};
use crate::state::{AssetLoadingState, Transition};

verus! {

/// Every ticket of the group is resolved. A failed or pending ticket, or one
/// the registry never issued, keeps the group from being ready.
pub open spec fn all_ready_spec(registry: RegistryView, tickets: Seq<AssetTicket>) -> bool {
    forall|i: int| 0 <= i < tickets.len() ==> registry.resolved(#[trigger] tickets[i])
}

/// Some ticket of the group has failed, so the group can never become ready.
pub open spec fn blocked_spec(registry: RegistryView, tickets: Seq<AssetTicket>) -> bool {
    exists|i: int| 0 <= i < tickets.len() && registry.failed(#[trigger] tickets[i])
}

/// Whether every ticket of the collection is resolved.
pub fn all_ready(registry: &AssetRegistry, collection: &AssetCollection) -> (ready: bool)
    ensures
        ready == all_ready_spec(registry@, collection@),
{
    let tickets = collection.tickets();
    let mut i: usize = 0;
    while i < tickets.len()
        invariant
            tickets@ == collection@,
            i <= tickets.len(),
            forall|j: int| 0 <= j < i ==> registry@.resolved(#[trigger] collection@[j]),
        decreases tickets.len() - i,
    {
        if !registry.is_resolved(tickets[i]) {
            return false;
        }
        i = i + 1;
    }
    true
}

/// Whether a failed ticket blocks the collection for good.
pub fn blocked(registry: &AssetRegistry, collection: &AssetCollection) -> (stuck: bool)
    ensures
        stuck == blocked_spec(registry@, collection@),
{
    let tickets = collection.tickets();
    let mut i: usize = 0;
    while i < tickets.len()
        invariant
            tickets@ == collection@,
            i <= tickets.len(),
            forall|j: int| 0 <= j < i ==> !registry@.failed(#[trigger] collection@[j]),
        decreases tickets.len() - i,
    {
        if registry.is_failed(tickets[i]) {
            return true;
        }
        i = i + 1;
    }
    false
}

/// The next readiness state: `Loading` until the collection is ready, `Loaded`
/// from then on. Once `Loaded`, the collection is not looked at again.
pub fn advance(
    state: AssetLoadingState,
    registry: &AssetRegistry,
    collection: &AssetCollection,
) -> (next: AssetLoadingState)
    ensures
        next == state.next(all_ready_spec(registry@, collection@)),
{
    match state {
        AssetLoadingState::Loaded => AssetLoadingState::Loaded,
        AssetLoadingState::Loading => state.step(all_ready(registry, collection)),
    }
}

/// The readiness state together with how long it has been `Loading`.
#[derive(Debug)]
pub struct LoadStateTracker {
    state: AssetLoadingState,
    waited: u64,
}

/// The mathematical content of a `LoadStateTracker`.
pub struct TrackerView {
    pub state: AssetLoadingState,
    /// Cycles that ended in `Loading`, counted up to `u64::MAX`.
    pub waited: nat,
}

impl TrackerView {
    /// The tracker after one cycle in which the collection was `ready` or not.
    pub open spec fn after_cycle(self, ready: bool) -> TrackerView {
        let next = self.state.next(ready);
        TrackerView {
            state: next,
            waited: if next is Loading && self.waited < u64::MAX {
                self.waited + 1
            } else {
                self.waited
            },
        }
    }
}

impl View for LoadStateTracker {
    type V = TrackerView;

    closed spec fn view(&self) -> TrackerView {
        TrackerView { state: self.state, waited: self.waited as nat }
    }
}

impl LoadStateTracker {
    /// A tracker in `Loading` that has not waited yet.
    pub fn new() -> (tracker: LoadStateTracker)
        ensures
            tracker@.state is Loading,
            tracker@.waited == 0,
    {
        LoadStateTracker { state: AssetLoadingState::Loading, waited: 0 }
    }

    /// The readiness state as the last cycle left it.
    pub fn state(&self) -> (state: AssetLoadingState)
        ensures
            state == self@.state,
    {
        self.state
    }

    /// For how many cycles the tracker has found the collection not ready.
    /// A count that keeps growing shows a stall.
    pub fn cycles_in_loading(&self) -> (waited: u64)
        ensures
            waited == self@.waited,
    {
        self.waited
    }

    /// Runs one cycle: steps the state and says whether this cycle entered `Loaded`.
    pub fn advance(&mut self, registry: &AssetRegistry, collection: &AssetCollection) -> (edge:
        Transition)
        ensures
            final(self)@ == old(self)@.after_cycle(all_ready_spec(registry@, collection@)),
            edge == old(self)@.state.edge_to(final(self)@.state),
    {
        let before = self.state;
        let next = advance(before, registry, collection);
        self.state = next;
        if !next.is_loaded() && self.waited < u64::MAX {
            self.waited = self.waited + 1;
        }
        before.transition_to(next)
    }
}

} // verus!
