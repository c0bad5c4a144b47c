//! The animation driver: binds each animated object to its clip, once.

use std::collections::HashSet;
use vstd::prelude::*;
use crate::error::AssetError;
use crate::object::ObjectId;
use crate::registry::{AssetKind, AssetRegistry, AssetTicket, RegistryView};

verus! {

/// What playback does when the clip ends.
#[derive(Clone, Copy, Debug, PartialEq, Eq, Hash, Structural)]
pub enum RepeatPolicy {
    /// Play the clip through and stop.
    Once,
    /// Start the clip over, without end.
    Loop,
}

/// An object's animation player tied to a clip.
#[derive(Clone, Copy, Debug, PartialEq, Eq, Hash, Structural)]
pub struct AnimationBinding {
    pub object: ObjectId,
    pub clip: AssetTicket,
    pub repeat: RepeatPolicy,
}

/// What the host is to do for one object that has just become animated.
#[derive(Clone, Copy, Debug, PartialEq, Eq, Hash, Structural)]
pub enum DriverAction {
    /// Start playback as the binding says.
    Play(AnimationBinding),
    /// Start nothing: the binding could not be made.
    Skip { object: ObjectId, error: AssetError },
}

impl DriverAction {
    /// The object that the action is for.
    pub open spec fn target(self) -> ObjectId {
        match self {
            DriverAction::Play(binding) => binding.object,
            DriverAction::Skip { object, .. } => object,
        }
    }

    /// The object that the action is for.
    pub fn object(&self) -> (object: ObjectId)
        ensures
            object == self.target(),
    {
        match self {
            DriverAction::Play(binding) => binding.object,
            DriverAction::Skip { object, .. } => *object,
        }
    }
}

/// The objects of `observed` that are not in `seen`, each at its first
/// place in `observed`, in that order.
pub open spec fn newly_appeared(seen: Set<ObjectId>, observed: Seq<ObjectId>) -> Seq<ObjectId>
    decreases observed.len(),
{
    if observed.len() == 0 {
        Seq::empty()
    } else {
        let earlier = observed.drop_last();
        let last = observed.last();
        if seen.contains(last) || earlier.contains(last) {
            newly_appeared(seen, earlier)
        } else {
            newly_appeared(seen, earlier).push(last)
        }
    }
}

/// Binds newly animated objects to one clip. An object is bound when it is
/// first observed and never again.
#[derive(Debug)]
pub struct AnimationDriver {
    clip: AssetTicket,
    repeat: RepeatPolicy,
    seen: HashSet<u64>,
}

/// The mathematical content of an `AnimationDriver`.
pub struct DriverView {
    pub clip: AssetTicket,
    pub repeat: RepeatPolicy,
    /// The objects that were observed in some earlier cycle.
    pub seen: Set<ObjectId>,
}

impl DriverView {
    /// The clip can be bound: its ticket is one for a clip and is resolved.
    pub open spec fn clip_ready(self, registry: RegistryView) -> bool {
        self.clip.kind is AnimationClip && registry.resolved(self.clip)
    }

    /// The action for one newly animated object.
    pub open spec fn action(self, ready: bool, object: ObjectId) -> DriverAction {
        if ready {
            DriverAction::Play(AnimationBinding { object, clip: self.clip, repeat: self.repeat })
        } else {
            DriverAction::Skip { object, error: AssetError::InvariantViolation }
        }
    }

    /// The actions of one cycle in which `observed` are the animated objects.
    pub open spec fn actions(self, ready: bool, observed: Seq<ObjectId>) -> Seq<DriverAction> {
        newly_appeared(self.seen, observed).map_values(|object: ObjectId| self.action(ready, object))
    }

    /// The driver after that cycle.
    pub open spec fn after(self, observed: Seq<ObjectId>) -> DriverView {
        DriverView { clip: self.clip, repeat: self.repeat, seen: self.seen.union(observed.to_set()) }
    }

    /// The driver after a run of cycles, one list of animated objects per cycle.
    pub open spec fn after_all(self, cycles: Seq<Seq<ObjectId>>) -> DriverView
        decreases cycles.len(),
    {
        if cycles.len() == 0 {
            self
        } else {
            self.after_all(cycles.drop_last()).after(cycles.last())
        }
    }

    /// The actions of a whole run, cycle after cycle. `ready` says for each
    /// cycle whether the clip could be bound in it.
    pub open spec fn actions_over(self, ready: Seq<bool>, cycles: Seq<Seq<ObjectId>>) -> Seq<
        DriverAction,
    >
        decreases cycles.len(),
    {
        if cycles.len() == 0 {
            Seq::empty()
        } else {
            self.actions_over(ready.drop_last(), cycles.drop_last()) + self.after_all(
                cycles.drop_last(),
            ).actions(ready.last(), cycles.last())
        }
    }
}

impl View for AnimationDriver {
    type V = DriverView;

    closed spec fn view(&self) -> DriverView {
        DriverView {
            clip: self.clip,
            repeat: self.repeat,
            seen: Set::new(|object: ObjectId| self.seen@.contains(object.raw)),
        }
    }
}

impl AnimationDriver {
    /// A driver that binds objects to `clip` and has seen no object yet.
    pub fn new(clip: AssetTicket, repeat: RepeatPolicy) -> (driver: AnimationDriver)
        ensures
            driver@.clip == clip,
            driver@.repeat == repeat,
            driver@.seen == Set::<ObjectId>::empty(),
    {
        let driver = AnimationDriver { clip, repeat, seen: HashSet::new() };
        assert(driver@.seen =~= Set::<ObjectId>::empty());
        driver
    }

    /// The ticket of the clip that objects are bound to.
    pub fn clip(&self) -> (clip: AssetTicket)
        ensures
            clip == self@.clip,
    {
        self.clip
    }

    /// What playback does when the clip ends.
    pub fn repeat(&self) -> (repeat: RepeatPolicy)
        ensures
            repeat == self@.repeat,
    {
        self.repeat
    }

    /// Whether `object` was bound, or passed over, in an earlier cycle.
    pub fn has_seen(&self, object: ObjectId) -> (seen: bool)
        ensures
            seen == self@.seen.contains(object),
    {
        broadcast use vstd::std_specs::hash::group_hash_axioms;

        self.seen.contains(&object.raw)
    }

    /// Runs the driver for one cycle. `observed` are the objects that have an
    /// animation player in this cycle. Each one not seen before gets one
    /// action, in the order of `observed`: playback if the clip is resolved,
    /// and otherwise a skip that reports the broken invariant. Objects seen
    /// before get none.
    pub fn drive(&mut self, registry: &AssetRegistry, observed: &Vec<ObjectId>) -> (actions: Vec<
        DriverAction,
    >)
        ensures
            final(self)@ == old(self)@.after(observed@),
            actions@ == old(self)@.actions(old(self)@.clip_ready(registry@), observed@),
    {
        broadcast use vstd::std_specs::hash::group_hash_axioms;

        let ready = match self.clip.kind {
            AssetKind::AnimationClip => registry.is_resolved(self.clip),
            AssetKind::SceneGraph => false,
        };
        let ghost before = self@;
        let mut actions: Vec<DriverAction> = Vec::new();
        let mut i: usize = 0;
        assert(observed@.take(0) =~= Seq::<ObjectId>::empty());
        assert(before.after(observed@.take(0)).seen =~= before.seen);
        while i < observed.len()
            invariant
                i <= observed.len(),
                ready == before.clip_ready(registry@),
                self@ == before.after(observed@.take(i as int)),
                actions@ == before.actions(ready, observed@.take(i as int)),
            decreases observed.len() - i,
        {
            let object = observed[i];
            let ghost earlier = observed@.take(i as int);
            let ghost upto = observed@.take(i + 1);
            let ghost known = self.seen@;
            let fresh = self.seen.insert(object.raw);
            proof {
                assert(upto.drop_last() =~= earlier);
                assert(upto.last() == object);
                assert(upto.to_set() =~= earlier.to_set().insert(object));
                assert forall|o: ObjectId|
                    self@.seen.contains(o) <==> before.after(upto).seen.contains(o) by {
                    assert(known.contains(o.raw) <==> before.after(earlier).seen.contains(o));
                }
                assert(self@.seen =~= before.after(upto).seen);
                assert(known.contains(object.raw) <==> before.after(earlier).seen.contains(object));
            }
            if fresh {
                let action = if ready {
                    DriverAction::Play(
                        AnimationBinding { object, clip: self.clip, repeat: self.repeat },
                    )
                } else {
                    DriverAction::Skip { object, error: AssetError::InvariantViolation }
                };
                actions.push(action);
                assert(actions@ =~= before.actions(ready, upto));
            }
            i = i + 1;
        }
        assert(observed@.take(observed@.len() as int) =~= observed@);
        actions
    }
}

} // verus!
