//! What holds of the core over whole runs, proved from the contracts of its parts.

use vstd::prelude::*;
use crate::activation::{ControllerView, SpawnRequest};
use crate::animation::{newly_appeared, DriverAction, DriverView};
use crate::cycle::ContextView;
use crate::error::AssetError;
use crate::object::{ObjectId, ObservedObject};
use crate::overlay::OverlayLine;
use crate::registry::{AssetKind, AssetTicket, AssetView, RegistryView, StateView};
use crate::state::{AssetLoadingState, Transition};
use crate::tracker::{all_ready_spec, blocked_spec};

verus! {

/// Every registry can be reached from itself.
pub proof fn leads_to_is_reflexive(registry: RegistryView)
    ensures
        registry.leads_to(registry),
{
}

/// What can be reached in two stretches can be reached.
pub proof fn leads_to_is_transitive(first: RegistryView, second: RegistryView, third: RegistryView)
    requires
        first.leads_to(second),
        second.leads_to(third),
    ensures
        first.leads_to(third),
{
    assert forall|i: int| 0 <= i < first.records.len() implies {
        &&& (#[trigger] third.records[i]).name == first.records[i].name
        &&& third.records[i].kind == first.records[i].kind
        &&& (first.records[i].state is Pending || third.records[i].state == first.records[i].state)
    } by {
        assert(second.records[i].name == first.records[i].name);
    }
}

/// Requesting a load, and ending a pending one, lead from a registry to a later one.
pub proof fn registry_steps_lead_on(
    registry: RegistryView,
    name: Seq<char>,
    kind: AssetKind,
    ticket: AssetTicket,
    state: StateView,
)
    ensures
        registry.leads_to(registry.with_request(name, kind)),
        registry.pending(ticket) ==> registry.leads_to(registry.with_state(ticket, state)),
{
}

/// A load that has ended stays as it ended: a resolved ticket stays resolved
/// with the payload it has, and a failed ticket stays failed.
pub proof fn ended_loads_stay(before: RegistryView, after: RegistryView, ticket: AssetTicket)
    requires
        before.leads_to(after),
    ensures
        before.issued(ticket) ==> after.issued(ticket),
        before.resolved(ticket) ==> after.resolved(ticket) && after.payload(ticket)
            == before.payload(ticket),
        before.failed(ticket) ==> after.failed(ticket),
{
}

/// While one ticket of a group is not resolved, the group is not ready.
pub proof fn unresolved_ticket_holds_back(
    registry: RegistryView,
    tickets: Seq<AssetTicket>,
    index: int,
)
    requires
        0 <= index < tickets.len(),
        !registry.resolved(tickets[index]),
    ensures
        !all_ready_spec(registry, tickets),
{
}

/// Readiness is monotone: a group that is ready stays ready in every later registry.
pub proof fn readiness_is_monotone(
    before: RegistryView,
    after: RegistryView,
    tickets: Seq<AssetTicket>,
)
    requires
        before.leads_to(after),
        all_ready_spec(before, tickets),
    ensures
        all_ready_spec(after, tickets),
{
    assert forall|i: int| 0 <= i < tickets.len() implies after.resolved(#[trigger] tickets[i]) by {
        ended_loads_stay(before, after, tickets[i]);
    }
}

/// A pending ticket in a group keeps the group from being ready, and when
/// the last unresolved ticket of a group resolves, the group is ready.
pub proof fn last_resolution_makes_ready(
    before: RegistryView,
    tickets: Seq<AssetTicket>,
    last: AssetTicket,
    asset: AssetView,
)
    requires
        before.pending(last),
        forall|i: int|
            0 <= i < tickets.len() && tickets[i] != last ==> before.resolved(#[trigger] tickets[i]),
    ensures
        !tickets.contains(last) <==> all_ready_spec(before, tickets),
        all_ready_spec(before.with_state(last, StateView::Resolved(asset)), tickets),
{
    let after = before.with_state(last, StateView::Resolved(asset));
    assert forall|i: int| 0 <= i < tickets.len() implies after.resolved(#[trigger] tickets[i]) by {
        if tickets[i] != last {
            ended_loads_stay(before, after, tickets[i]);
        }
    }
}

/// A group without tickets is ready in every registry, so a state that
/// waits for it is `Loaded` after its first cycle.
pub proof fn empty_collection_is_ready(registry: RegistryView, state: AssetLoadingState)
    ensures
        all_ready_spec(registry, Seq::<AssetTicket>::empty()),
        state.next(all_ready_spec(registry, Seq::<AssetTicket>::empty())) is Loaded,
{
}

/// `Loaded` is terminal: whatever the readiness in later cycles, the state
/// stays `Loaded` and no cycle enters it again.
pub proof fn loaded_is_terminal(readiness: Seq<bool>)
    ensures
        AssetLoadingState::Loaded.run(readiness) is Loaded,
        AssetLoadingState::Loaded.edges(readiness) == 0,
    decreases readiness.len(),
{
    if readiness.len() > 0 {
        loaded_is_terminal(readiness.drop_last());
    }
}

/// Over any run, `Loaded` is entered at most once: exactly once if the run
/// starts in `Loading` and the group is ready in some cycle, and never
/// otherwise. The run ends in `Loaded` if it started there or entered it.
pub proof fn loaded_is_entered_once(state: AssetLoadingState, readiness: Seq<bool>)
    ensures
        state.edges(readiness) <= 1,
        state.edges(readiness) == 1 <==> state is Loading && readiness.contains(true),
        state.run(readiness) is Loaded <==> state is Loaded || readiness.contains(true),
    decreases readiness.len(),
{
    if readiness.len() > 0 {
        let earlier = readiness.drop_last();
        loaded_is_entered_once(state, earlier);
        lemma_contains_last_or_earlier(readiness, true);
    }
}

/// A failed ticket blocks its group for good: in no later registry is the group ready.
pub proof fn failed_ticket_blocks_for_good(
    before: RegistryView,
    after: RegistryView,
    tickets: Seq<AssetTicket>,
)
    requires
        before.leads_to(after),
        blocked_spec(before, tickets),
    ensures
        blocked_spec(after, tickets),
        !all_ready_spec(after, tickets),
{
    let i = choose|i: int| 0 <= i < tickets.len() && before.failed(#[trigger] tickets[i]);
    ended_loads_stay(before, after, tickets[i]);
}

/// Failures are isolated: how the load behind one ticket ends does not
/// change the readiness of a group that the ticket is not in.
pub proof fn other_loads_do_not_matter(
    registry: RegistryView,
    ticket: AssetTicket,
    state: StateView,
    tickets: Seq<AssetTicket>,
)
    requires
        registry.issued(ticket),
        !tickets.contains(ticket),
    ensures
        all_ready_spec(registry.with_state(ticket, state), tickets) == all_ready_spec(
            registry,
            tickets,
        ),
{
    let after = registry.with_state(ticket, state);
    assert forall|i: int| 0 <= i < tickets.len() implies after.resolved(#[trigger] tickets[i])
        == registry.resolved(tickets[i]) by {
        assert(tickets[i] != ticket);
    }
}

/// `object` is among the animated objects of some cycle of the run.
pub open spec fn observed_in(cycles: Seq<Seq<ObjectId>>, object: ObjectId) -> bool {
    exists|k: int| 0 <= k < cycles.len() && (#[trigger] cycles[k]).contains(object)
}

/// Some action of `actions` is for `object`.
pub open spec fn acted_on(actions: Seq<DriverAction>, object: ObjectId) -> bool {
    exists|i: int| 0 <= i < actions.len() && (#[trigger] actions[i]).target() == object
}

/// The objects that become animated in one cycle are those observed in it
/// and not seen before, each of them once.
pub proof fn newly_appeared_are_new(seen: Set<ObjectId>, observed: Seq<ObjectId>)
    ensures
        newly_appeared(seen, observed).no_duplicates(),
        forall|object: ObjectId| #[trigger]
            newly_appeared(seen, observed).contains(object) <==> !seen.contains(object)
                && observed.contains(object),
    decreases observed.len(),
{
    let fresh = newly_appeared(seen, observed);
    if observed.len() > 0 {
        let earlier = observed.drop_last();
        let last = observed.last();
        let before = newly_appeared(seen, earlier);
        newly_appeared_are_new(seen, earlier);
        assert forall|object: ObjectId| #[trigger]
            fresh.contains(object) <==> !seen.contains(object) && observed.contains(
                object,
            ) by {
            lemma_contains_last_or_earlier(observed, object);
            if fresh != before {
                lemma_contains_last_or_earlier(fresh, object);
                assert(fresh.drop_last() =~= before);
            }
        }
        if fresh != before {
            assert forall|i: int, j: int|
                0 <= i < fresh.len() && 0 <= j < fresh.len() && i != j implies fresh[i]
                != fresh[j] by {
                if i < before.len() {
                    assert(before.contains(before[i]));
                }
                if j < before.len() {
                    assert(before.contains(before[j]));
                }
            }
        }
    }
}

/// After a run the driver has seen what it had seen before and every object
/// observed in the run. Its clip and its repeat policy are as they were.
pub proof fn driver_remembers(driver: DriverView, cycles: Seq<Seq<ObjectId>>)
    ensures
        driver.after_all(cycles).clip == driver.clip,
        driver.after_all(cycles).repeat == driver.repeat,
        forall|object: ObjectId| #[trigger]
            driver.after_all(cycles).seen.contains(object) <==> driver.seen.contains(object)
                || observed_in(cycles, object),
    decreases cycles.len(),
{
    if cycles.len() > 0 {
        let earlier = cycles.drop_last();
        driver_remembers(driver, earlier);
        assert forall|object: ObjectId| #[trigger]
            driver.after_all(cycles).seen.contains(object) <==> driver.seen.contains(object)
                || observed_in(cycles, object) by {
            lemma_observed_last_or_earlier(cycles, object);
        }
    }
}

/// Each object is acted on at most once over a run, whatever the cycles
/// hold and however often the object is observed: no two actions of the run
/// are for the same object. An object gets its action if and only if the
/// driver had not seen it before the run and some cycle observed it.
pub proof fn each_object_is_bound_once(
    driver: DriverView,
    ready: Seq<bool>,
    cycles: Seq<Seq<ObjectId>>,
)
    requires
        ready.len() == cycles.len(),
    ensures
        forall|i: int, j: int|
            #![trigger driver.actions_over(ready, cycles)[i], driver.actions_over(ready, cycles)[j]]
            0 <= i < j < driver.actions_over(ready, cycles).len() ==> driver.actions_over(
                ready,
                cycles,
            )[i].target() != driver.actions_over(ready, cycles)[j].target(),
        forall|object: ObjectId| #[trigger]
            acted_on(driver.actions_over(ready, cycles), object) <==> !driver.seen.contains(object)
                && observed_in(cycles, object),
    decreases cycles.len(),
{
    let all = driver.actions_over(ready, cycles);
    if cycles.len() > 0 {
        let earlier = cycles.drop_last();
        let head = driver.actions_over(ready.drop_last(), earlier);
        let then = driver.after_all(earlier);
        let fresh = newly_appeared(then.seen, cycles.last());
        let tail = then.actions(ready.last(), cycles.last());
        each_object_is_bound_once(driver, ready.drop_last(), earlier);
        driver_remembers(driver, earlier);
        driver_remembers(driver, cycles);
        newly_appeared_are_new(then.seen, cycles.last());
        assert forall|k: int| 0 <= k < tail.len() implies (#[trigger] tail[k]).target()
            == fresh[k] by {}
        assert forall|object: ObjectId| #[trigger]
            acted_on(all, object) <==> !driver.seen.contains(object) && observed_in(
                cycles,
                object,
            ) by {
            lemma_observed_last_or_earlier(cycles, object);
            if acted_on(head, object) {
                let i = choose|i: int| 0 <= i < head.len() && (#[trigger] head[i]).target() == object;
                assert(all[i].target() == object);
            }
            if fresh.contains(object) {
                let k = choose|k: int| 0 <= k < fresh.len() && fresh[k] == object;
                assert(all[head.len() + k].target() == object);
            }
            if acted_on(all, object) {
                let i = choose|i: int| 0 <= i < all.len() && (#[trigger] all[i]).target() == object;
                if i < head.len() {
                    assert(head[i].target() == object);
                } else {
                    assert(fresh[i - head.len()] == object);
                }
            }
        }
        assert forall|i: int, j: int| 0 <= i < j < all.len() implies all[i].target()
            != all[j].target() by {
            if j < head.len() {
                assert(all[i] == head[i] && all[j] == head[j]);
            } else if i < head.len() {
                assert(acted_on(head, head[i].target()));
                assert(fresh.contains(fresh[j - head.len()]));
            }
        }
    }
}

/// With the clip bound in every cycle, an object that the driver had not
/// seen and that some cycle of the run observes is played exactly once,
/// however many cycles observe it: one action of the run is its playback and
/// no other action is for it.
pub proof fn one_play_per_object(
    driver: DriverView,
    ready: Seq<bool>,
    cycles: Seq<Seq<ObjectId>>,
    object: ObjectId,
)
    requires
        ready.len() == cycles.len(),
        forall|k: int| 0 <= k < ready.len() ==> ready[k],
        !driver.seen.contains(object),
        observed_in(cycles, object),
    ensures
        exists|i: int|
            {
                &&& 0 <= i < driver.actions_over(ready, cycles).len()
                &&& #[trigger] driver.actions_over(ready, cycles)[i] == driver.action(true, object)
                &&& forall|j: int|
                    0 <= j < driver.actions_over(ready, cycles).len() && j != i ==> (
                    #[trigger] driver.actions_over(ready, cycles)[j]).target() != object
            },
{
    let all = driver.actions_over(ready, cycles);
    each_object_is_bound_once(driver, ready, cycles);
    every_action_plays(driver, ready, cycles);
    assert(acted_on(all, object));
    let i = choose|i: int| 0 <= i < all.len() && (#[trigger] all[i]).target() == object;
    assert(all[i] == driver.action(true, object));
}

/// With the clip bound in every cycle of a run, every action of the run is a playback.
pub proof fn every_action_plays(driver: DriverView, ready: Seq<bool>, cycles: Seq<Seq<ObjectId>>)
    requires
        ready.len() == cycles.len(),
        forall|k: int| 0 <= k < ready.len() ==> ready[k],
    ensures
        forall|i: int|
            0 <= i < driver.actions_over(ready, cycles).len() ==> #[trigger] driver.actions_over(
                ready,
                cycles,
            )[i] == driver.action(true, driver.actions_over(ready, cycles)[i].target()),
    decreases cycles.len(),
{
    if cycles.len() > 0 {
        let earlier = cycles.drop_last();
        let all = driver.actions_over(ready, cycles);
        let head = driver.actions_over(ready.drop_last(), earlier);
        let then = driver.after_all(earlier);
        let tail = then.actions(ready.last(), cycles.last());
        every_action_plays(driver, ready.drop_last(), earlier);
        driver_remembers(driver, earlier);
        assert forall|i: int| 0 <= i < all.len() implies #[trigger] all[i] == driver.action(
            true,
            all[i].target(),
        ) by {
            if i < head.len() {
                assert(all[i] == head[i]);
            } else {
                assert(all[i] == tail[i - head.len()]);
            }
        }
    }
}

/// A context steps its state as the state machine says, and keeps its
/// collection, its controller and what its driver binds to.
pub proof fn context_follows_the_state(
    context: ContextView,
    registries: Seq<RegistryView>,
    animated: Seq<Seq<ObjectId>>,
)
    requires
        registries.len() == animated.len(),
    ensures
        context.after_cycles(registries, animated).tracker.state == context.tracker.state.run(
            context.readiness(registries),
        ),
        context.after_cycles(registries, animated).collection == context.collection,
        context.after_cycles(registries, animated).controller == context.controller,
        context.after_cycles(registries, animated).driver.clip == context.driver.clip,
        context.after_cycles(registries, animated).driver.repeat == context.driver.repeat,
    decreases registries.len(),
{
    if registries.len() > 0 {
        context_follows_the_state(context, registries.drop_last(), animated.drop_last());
        assert(context.readiness(registries).drop_last() =~= context.readiness(
            registries.drop_last(),
        ));
    }
}

/// The controller acts on the edge and only there: it answers a cycle if and
/// only if the cycle entered `Loaded`.
pub proof fn activation_only_on_the_edge(
    controller: ControllerView,
    edge: Transition,
    registry: RegistryView,
    outcome: Option<Result<SpawnRequest, AssetError>>,
)
    requires
        controller.answers(edge, registry, outcome),
    ensures
        outcome is Some <==> edge is EnteredLoaded,
{
}

/// The overlay feed comes after the driver: in a cycle of `Loaded` it has no
/// lines before the driver's turn, and after a whole cycle it has them. While
/// `Loading` it has none to give.
pub proof fn overlay_follows_the_driver(
    context: ContextView,
    registry: RegistryView,
    animated: Seq<ObjectId>,
    objects: Seq<ObservedObject>,
)
    ensures
        context.begun(registry).tracker.state is Loaded ==> context.begun(registry).overlay(
            objects,
        ) is Err,
        context.after_cycle(registry, animated).overlay(objects) is Ok,
        context.after_cycle(registry, animated).tracker.state is Loading ==> context.after_cycle(
            registry,
            animated,
        ).overlay(objects) == Ok::<Seq<OverlayLine>, AssetError>(Seq::empty()),
{
}

/// Once a cycle of a run has left the context in `Loaded`, every later cycle does.
pub proof fn context_stays_loaded(
    context: ContextView,
    registries: Seq<RegistryView>,
    animated: Seq<Seq<ObjectId>>,
    i: int,
    j: int,
)
    requires
        registries.len() == animated.len(),
        0 <= i <= j <= registries.len(),
        context.after_cycles(registries.take(i), animated.take(i)).tracker.state is Loaded,
    ensures
        context.after_cycles(registries.take(j), animated.take(j)).tracker.state is Loaded,
    decreases j - i,
{
    if i < j {
        context_stays_loaded(context, registries, animated, i, j - 1);
        assert(registries.take(j).drop_last() =~= registries.take(j - 1));
        assert(animated.take(j).drop_last() =~= animated.take(j - 1));
    }
}

/// At most one cycle of a run enters `Loaded`, so at most one cycle of a run
/// spawns: after the cycle that entered `Loaded`, no later cycle has an edge.
pub proof fn only_one_cycle_enters_loaded(
    context: ContextView,
    registries: Seq<RegistryView>,
    animated: Seq<Seq<ObjectId>>,
    i: int,
    j: int,
)
    requires
        registries.len() == animated.len(),
        0 <= i < j < registries.len(),
        context.edge_in(registries, animated, i) is EnteredLoaded,
    ensures
        context.edge_in(registries, animated, j) is NoChange,
{
    assert(registries.take(i + 1).drop_last() =~= registries.take(i));
    assert(animated.take(i + 1).drop_last() =~= animated.take(i));
    context_stays_loaded(context, registries, animated, i + 1, j);
}

/// A context that starts in `Loading` and is stepped against one registry as
/// it grows finds its collection ready in every cycle that ends in `Loaded`.
/// So the tickets of the collection are resolved whenever the controller or
/// the driver reads them.
pub proof fn loaded_cycles_find_the_collection_ready(
    context: ContextView,
    registries: Seq<RegistryView>,
    animated: Seq<Seq<ObjectId>>,
)
    requires
        context.tracker.state is Loading,
        registries.len() == animated.len(),
        registries.len() > 0,
        forall|i: int, j: int|
            0 <= i <= j < registries.len() ==> (#[trigger] registries[i]).leads_to(
                #[trigger] registries[j],
            ),
        context.after_cycles(registries, animated).tracker.state is Loaded,
    ensures
        all_ready_spec(registries.last(), context.collection),
    decreases registries.len(),
{
    let earlier = registries.drop_last();
    let then = context.after_cycles(earlier, animated.drop_last());
    context_follows_the_state(context, earlier, animated.drop_last());
    if !all_ready_spec(registries.last(), context.collection) {
        // The state was `Loaded` before this cycle, so an earlier cycle found
        // the collection ready, and ready it stays.
        assert(then.tracker.state is Loaded);
        assert forall|i: int, j: int| 0 <= i <= j < earlier.len() implies (#[trigger] earlier[i]).leads_to(
            #[trigger] earlier[j],
        ) by {
            assert(registries[i].leads_to(registries[j]));
        }
        loaded_cycles_find_the_collection_ready(context, earlier, animated.drop_last());
        assert(registries[earlier.len() - 1].leads_to(registries[registries.len() - 1]));
        readiness_is_monotone(earlier.last(), registries.last(), context.collection);
    }
}

/// Every binding is to a resolved clip. Let the clip be a member of the
/// collection, the context start in `Loading`, and the cycles run against
/// one registry as it grows. Then in every cycle that ends in `Loaded` the
/// clip is resolved, so each action of the driver in that cycle is a
/// playback. The scene asset is resolved too if it is a member.
pub proof fn bindings_are_to_resolved_clips(
    context: ContextView,
    registries: Seq<RegistryView>,
    animated: Seq<Seq<ObjectId>>,
)
    requires
        context.tracker.state is Loading,
        context.driver.clip.kind is AnimationClip,
        context.collection.contains(context.driver.clip),
        registries.len() == animated.len(),
        registries.len() > 0,
        forall|i: int, j: int|
            0 <= i <= j < registries.len() ==> (#[trigger] registries[i]).leads_to(
                #[trigger] registries[j],
            ),
        context.after_cycles(registries, animated).tracker.state is Loaded,
    ensures
        ({
            let before = context.after_cycles(registries.drop_last(), animated.drop_last());
            let actions = before.begun(registries.last()).animation(
                registries.last(),
                animated.last(),
            );
            &&& before.driver.clip_ready(registries.last())
            &&& forall|k: int| 0 <= k < actions.len() ==> (#[trigger] actions[k]) is Play
            &&& context.collection.contains(context.controller.source)
                ==> registries.last().resolved(context.controller.source)
        }),
{
    let before = context.after_cycles(registries.drop_last(), animated.drop_last());
    loaded_cycles_find_the_collection_ready(context, registries, animated);
    context_follows_the_state(context, registries.drop_last(), animated.drop_last());
    let clip = context.driver.clip;
    let k = choose|k: int| 0 <= k < context.collection.len() && context.collection[k] == clip;
    assert(registries.last().resolved(context.collection[k]));
    if context.collection.contains(context.controller.source) {
        let source = context.controller.source;
        let n = choose|n: int| 0 <= n < context.collection.len() && context.collection[n] == source;
        assert(registries.last().resolved(context.collection[n]));
    }
}

/// A sequence holds a value where its last place or an earlier place holds it.
proof fn lemma_contains_last_or_earlier<T>(s: Seq<T>, value: T)
    requires
        s.len() > 0,
    ensures
        s.contains(value) <==> s.drop_last().contains(value) || s.last() == value,
{
    let earlier = s.drop_last();
    if s.contains(value) {
        let i = choose|i: int| 0 <= i < s.len() && s[i] == value;
        if i < earlier.len() {
            assert(earlier[i] == value);
        }
    }
    if earlier.contains(value) {
        let i = choose|i: int| 0 <= i < earlier.len() && earlier[i] == value;
        assert(s[i] == value);
    }
    assert(s[s.len() - 1] == s.last());
}

/// A run observes an object where its last cycle or an earlier cycle does.
proof fn lemma_observed_last_or_earlier(cycles: Seq<Seq<ObjectId>>, object: ObjectId)
    requires
        cycles.len() > 0,
    ensures
        observed_in(cycles, object) <==> observed_in(cycles.drop_last(), object)
            || cycles.last().contains(object),
{
    let earlier = cycles.drop_last();
    if observed_in(cycles, object) {
        let k = choose|k: int| 0 <= k < cycles.len() && (#[trigger] cycles[k]).contains(object);
        if k < earlier.len() {
            assert(earlier[k].contains(object));
        }
    }
    if observed_in(earlier, object) {
        let k = choose|k: int| 0 <= k < earlier.len() && (#[trigger] earlier[k]).contains(object);
        assert(cycles[k].contains(object));
    }
    assert(cycles[cycles.len() - 1] == cycles.last());
}

} // verus!
