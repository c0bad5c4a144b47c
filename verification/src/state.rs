//! The readiness state and its single forward edge.

use vstd::prelude::*;

verus! {

/// Whether the gated stage may proceed. `Loaded` is terminal.
#[derive(Clone, Copy, Debug, PartialEq, Eq, Hash, Structural)]
pub enum AssetLoadingState {
    /// Some asset of the gating collection has not resolved yet.
    Loading,
    /// Every asset of the gating collection has resolved.
    Loaded,
}

/// What one evaluation of the readiness state did.
#[derive(Clone, Copy, Debug, PartialEq, Eq, Hash, Structural)]
pub enum Transition {
    /// The state is what it was.
    NoChange,
    /// The state was `Loading` and is `Loaded` now.
    EnteredLoaded,
}

impl Default for AssetLoadingState {
    fn default() -> (state: Self)
        ensures
            state == AssetLoadingState::Loading,
    {
        AssetLoadingState::Loading
    }
}

impl AssetLoadingState {
    /// The state that follows `self` when the gating collection is `ready`.
    pub open spec fn next(self, ready: bool) -> AssetLoadingState {
        if self is Loaded || ready {
            AssetLoadingState::Loaded
        } else {
            AssetLoadingState::Loading
        }
    }

    /// The edge, if any, between `self` and the state that follows it.
    pub open spec fn edge_to(self, next: AssetLoadingState) -> Transition {
        if self is Loading && next is Loaded {
            Transition::EnteredLoaded
        } else {
            Transition::NoChange
        }
    }

    /// The state after a whole run of evaluations, one readiness value per cycle.
    pub open spec fn run(self, readiness: Seq<bool>) -> AssetLoadingState
        decreases readiness.len(),
    {
        if readiness.len() == 0 {
            self
        } else {
            self.run(readiness.drop_last()).next(readiness.last())
        }
    }

    /// How many cycles of a run entered `Loaded`.
    pub open spec fn edges(self, readiness: Seq<bool>) -> nat
        decreases readiness.len(),
    {
        if readiness.len() == 0 {
            0
        } else {
            let before = self.run(readiness.drop_last());
            let here: nat = if before.edge_to(before.next(readiness.last())) is EnteredLoaded {
                1
            } else {
                0
            };
            self.edges(readiness.drop_last()) + here
        }
    }

    /// Whether the state is `Loaded`.
    pub fn is_loaded(self) -> (loaded: bool)
        ensures
            loaded == (self is Loaded),
    {
        match self {
            AssetLoadingState::Loaded => true,
            AssetLoadingState::Loading => false,
        }
    }

    /// Steps the state by one cycle.
    pub fn step(self, ready: bool) -> (next: AssetLoadingState)
        ensures
            next == self.next(ready),
    {
        match self {
            AssetLoadingState::Loaded => AssetLoadingState::Loaded,
            AssetLoadingState::Loading => if ready {
                AssetLoadingState::Loaded
            } else {
                AssetLoadingState::Loading
            },
        }
    }

    /// Compares the state of the previous cycle with that of this one.
    pub fn transition_to(self, next: AssetLoadingState) -> (edge: Transition)
        ensures
            edge == self.edge_to(next),
    {
        match (self, next) {
            (AssetLoadingState::Loading, AssetLoadingState::Loaded) => Transition::EnteredLoaded,
            _ => Transition::NoChange,
        }
    }
}

} // verus!
