//! One owned context that the host steps once per cycle.

use vstd::prelude::*;
use crate::activation::{ActivationController, ControllerView, SceneSelector, SpawnRequest};
use crate::animation::{AnimationDriver, DriverAction, DriverView, RepeatPolicy};
use crate::collection::AssetCollection;
use crate::error::AssetError;
use crate::object::{ObjectId, ObservedObject, SceneObjectTag};
use crate::overlay::{lines_for, sample, OverlayLine};
use crate::registry::{AssetRegistry, AssetTicket, RegistryView};
use crate::state::{AssetLoadingState, Transition};
use crate::tracker::{all_ready_spec, LoadStateTracker, TrackerView};

verus! {

/// What the start of a cycle asks of the host.
#[derive(Debug)]
pub struct CycleStart {
    pub edge: Transition,
    pub spawn: Option<Result<SpawnRequest, AssetError>>,
}

/// What one whole cycle asks of the host, in the order in which the host is
/// to do it: the spawn, then the animation actions, then the overlay lines.
#[derive(Debug)]
pub struct CycleReport {
    pub edge: Transition,
    pub spawn: Option<Result<SpawnRequest, AssetError>>,
    pub animation: Vec<DriverAction>,
    pub overlay: Vec<OverlayLine>,
}

/// The readiness state and the components that react to it.
#[derive(Debug)]
pub struct CycleContext {
    tracker: LoadStateTracker,
    collection: AssetCollection,
    controller: ActivationController,
    driver: AnimationDriver,
    driven: bool,
}

/// The mathematical content of a `CycleContext`.
pub struct ContextView {
    pub tracker: TrackerView,
    pub collection: Seq<AssetTicket>,
    pub controller: ControllerView,
    pub driver: DriverView,
    /// The animation driver has had its turn in the current cycle.
    pub driven: bool,
}

impl ContextView {
    /// The context after the start of a cycle: the state is stepped and the
    /// driver has not had its turn yet.
    pub open spec fn begun(self, registry: RegistryView) -> ContextView {
        ContextView {
            tracker: self.tracker.after_cycle(all_ready_spec(registry, self.collection)),
            collection: self.collection,
            controller: self.controller,
            driver: self.driver,
            driven: false,
        }
    }

    /// `start` is what the start of a cycle asks of the host: the edge of the
    /// cycle and the controller's answer to it.
    pub open spec fn starts(self, registry: RegistryView, start: CycleStart) -> bool {
        &&& start.edge == self.tracker.state.edge_to(self.begun(registry).tracker.state)
        &&& self.controller.answers(start.edge, registry, start.spawn)
    }

    /// The context after the driver's turn. While `Loading` the driver does not run.
    pub open spec fn animated_with(self, animated: Seq<ObjectId>) -> ContextView {
        if self.tracker.state is Loaded {
            ContextView {
                tracker: self.tracker,
                collection: self.collection,
                controller: self.controller,
                driver: self.driver.after(animated),
                driven: true,
            }
        } else {
            self
        }
    }

    /// The actions of the driver's turn.
    pub open spec fn animation(self, registry: RegistryView, animated: Seq<ObjectId>) -> Seq<
        DriverAction,
    > {
        if self.tracker.state is Loaded {
            self.driver.actions(self.driver.clip_ready(registry), animated)
        } else {
            Seq::empty()
        }
    }

    /// The overlay of the cycle: nothing while `Loading`; while `Loaded`, the
    /// lines of the tagged objects once the driver has had its turn, and a
    /// broken invariant before that.
    pub open spec fn overlay(self, objects: Seq<ObservedObject>) -> Result<
        Seq<OverlayLine>,
        AssetError,
    > {
        if self.tracker.state is Loading {
            Ok(Seq::empty())
        } else if self.driven {
            Ok(lines_for(self.controller.tag(), objects))
        } else {
            Err(AssetError::InvariantViolation)
        }
    }

    /// The context after one whole cycle.
    pub open spec fn after_cycle(self, registry: RegistryView, animated: Seq<ObjectId>) -> ContextView {
        self.begun(registry).animated_with(animated)
    }

    /// The context after a run of cycles: `registries` holds the registry as
    /// each cycle found it, `animated` the animated objects of each cycle.
    pub open spec fn after_cycles(
        self,
        registries: Seq<RegistryView>,
        animated: Seq<Seq<ObjectId>>,
    ) -> ContextView
        decreases registries.len(),
    {
        if registries.len() == 0 {
            self
        } else {
            self.after_cycles(registries.drop_last(), animated.drop_last()).after_cycle(
                registries.last(),
                animated.last(),
            )
        }
    }

    /// What cycle `k` of a run does to the readiness state.
    pub open spec fn edge_in(
        self,
        registries: Seq<RegistryView>,
        animated: Seq<Seq<ObjectId>>,
        k: int,
    ) -> Transition {
        let before = self.after_cycles(registries.take(k), animated.take(k));
        let after = before.after_cycle(registries[k], animated[k]);
        before.tracker.state.edge_to(after.tracker.state)
    }

    /// Whether the collection is ready, cycle by cycle.
    pub open spec fn readiness(self, registries: Seq<RegistryView>) -> Seq<bool> {
        Seq::new(registries.len(), |k: int| all_ready_spec(registries[k], self.collection))
    }

    /// `report` is what one whole cycle asks of the host.
    pub open spec fn reports(
        self,
        registry: RegistryView,
        animated: Seq<ObjectId>,
        objects: Seq<ObservedObject>,
        report: CycleReport,
    ) -> bool {
        &&& self.starts(registry, CycleStart { edge: report.edge, spawn: report.spawn })
        &&& report.animation@ == self.begun(registry).animation(registry, animated)
        &&& Ok::<Seq<OverlayLine>, AssetError>(report.overlay@) == self.after_cycle(
            registry,
            animated,
        ).overlay(objects)
    }
}

impl View for CycleContext {
    type V = ContextView;

    closed spec fn view(&self) -> ContextView {
        ContextView {
            tracker: self.tracker@,
            collection: self.collection@,
            controller: self.controller@,
            driver: self.driver@,
            driven: self.driven,
        }
    }
}

impl CycleContext {
    /// A context in `Loading` that waits for `collection`, then spawns the
    /// selected scene of `scene` and binds animated objects to `clip`.
    pub fn new(
        collection: AssetCollection,
        scene: AssetTicket,
        selector: SceneSelector,
        clip: AssetTicket,
        repeat: RepeatPolicy,
    ) -> (context: CycleContext)
        ensures
            context@.tracker.state is Loading,
            context@.tracker.waited == 0,
            context@.collection == collection@,
            context@.controller.source == scene,
            context@.controller.selector == selector@,
            context@.driver.clip == clip,
            context@.driver.repeat == repeat,
            context@.driver.seen == Set::<ObjectId>::empty(),
            !context@.driven,
    {
        CycleContext {
            tracker: LoadStateTracker::new(),
            collection,
            controller: ActivationController::new(scene, selector),
            driver: AnimationDriver::new(clip, repeat),
            driven: false,
        }
    }

    /// The readiness state as the last cycle left it.
    pub fn state(&self) -> (state: AssetLoadingState)
        ensures
            state == self@.tracker.state,
    {
        self.tracker.state()
    }

    /// For how many cycles the context has found its collection not ready.
    pub fn cycles_in_loading(&self) -> (waited: u64)
        ensures
            waited == self@.tracker.waited,
    {
        self.tracker.cycles_in_loading()
    }

    /// The tag that objects spawned by this context carry.
    pub fn tag(&self) -> (tag: SceneObjectTag)
        ensures
            tag == self@.controller.tag(),
    {
        self.controller.tag()
    }

    /// Starts a cycle: steps the state and, in the cycle that enters
    /// `Loaded` and in no other, asks for the spawn.
    pub fn begin_cycle(&mut self, registry: &AssetRegistry) -> (start: CycleStart)
        ensures
            final(self)@ == old(self)@.begun(registry@),
            old(self)@.starts(registry@, start),
    {
        let edge = self.tracker.advance(registry, &self.collection);
        self.driven = false;
        CycleStart { edge, spawn: self.controller.activate(edge, registry) }
    }

    /// The driver's turn. `animated` are the objects that have an animation
    /// player now. While `Loading` nothing is bound and nothing is noted.
    pub fn drive_animation(&mut self, registry: &AssetRegistry, animated: &Vec<ObjectId>) -> (actions:
        Vec<DriverAction>)
        ensures
            final(self)@ == old(self)@.animated_with(animated@),
            actions@ == old(self)@.animation(registry@, animated@),
    {
        if self.tracker.state().is_loaded() {
            self.driven = true;
            self.driver.drive(registry, animated)
        } else {
            Vec::new()
        }
    }

    /// The overlay feed's turn: one line for each of `objects` that carries
    /// the context's tag. It comes after the driver's turn: while `Loaded`,
    /// a call before the driver has run in this cycle gives
    /// `InvariantViolation`. Reads only.
    pub fn sample_overlay(&self, objects: &Vec<ObservedObject>) -> (lines: Result<
        Vec<OverlayLine>,
        AssetError,
    >)
        ensures
            match lines {
                Ok(lines) => self@.overlay(objects@) == Ok::<Seq<OverlayLine>, AssetError>(lines@),
                Err(error) => self@.overlay(objects@) == Err::<Seq<OverlayLine>, AssetError>(error),
            },
    {
        if !self.tracker.state().is_loaded() {
            Ok(Vec::new())
        } else if self.driven {
            Ok(sample(self.controller.tag(), objects))
        } else {
            Err(AssetError::InvariantViolation)
        }
    }

    /// Runs one whole cycle for a host that has made its observations
    /// beforehand: the start, the driver's turn, the overlay feed's turn.
    pub fn run_cycle(
        &mut self,
        registry: &AssetRegistry,
        animated: &Vec<ObjectId>,
        objects: &Vec<ObservedObject>,
    ) -> (report: CycleReport)
        ensures
            final(self)@ == old(self)@.after_cycle(registry@, animated@),
            old(self)@.reports(registry@, animated@, objects@, report),
    {
        let start = self.begin_cycle(registry);
        let animation = self.drive_animation(registry, animated);
        let overlay = match self.sample_overlay(objects) {
            Ok(lines) => lines,
            Err(_) => Vec::new(),
        };
        CycleReport { edge: start.edge, spawn: start.spawn, animation, overlay }
    }
}

} // verus!
