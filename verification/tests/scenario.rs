use scene_activation::activation::{SceneSelector, SpawnRequest};
use scene_activation::animation::{AnimationBinding, DriverAction, RepeatPolicy};
use scene_activation::collection::AssetCollection;
use scene_activation::cycle::CycleContext;
use scene_activation::error::AssetError;
use scene_activation::object::{ObjectId, ObservedObject, Scale, SceneObjectTag, Visibility};
use scene_activation::overlay::OverlayLine;
use scene_activation::registry::{AssetKind, AssetRegistry, DecodedAsset};
use scene_activation::state::{AssetLoadingState, Transition};
use scene_activation::tracker::advance;

fn scale(x: f32, y: f32, z: f32) -> Scale {
    Scale { x: x.to_bits(), y: y.to_bits(), z: z.to_bits() }
}

fn gltf() -> DecodedAsset {
    DecodedAsset { scenes: vec!["Scene".to_string()], clips: vec!["Animation0".to_string()] }
}

#[test]
fn two_tickets_load_spawn_animate_and_show() {
    let mut registry = AssetRegistry::new();
    let s = registry.request("S".to_string(), AssetKind::SceneGraph);
    let a = registry.request("A".to_string(), AssetKind::AnimationClip);
    let mut context = CycleContext::new(
        AssetCollection::new("C".to_string(), vec![s, a]),
        s,
        SceneSelector::First,
        a,
        RepeatPolicy::Loop,
    );
    let tag = SceneObjectTag { source: s };

    // Nothing has resolved: the cycle asks nothing of the host.
    let waiting = context.run_cycle(&registry, &Vec::new(), &Vec::new());
    assert_eq!(waiting.edge, Transition::NoChange);
    assert_eq!(waiting.spawn, None);
    assert!(waiting.animation.is_empty());
    assert!(waiting.overlay.is_empty());
    assert_eq!(context.state(), AssetLoadingState::Loading);

    assert!(registry.resolve(s, gltf()));
    let half = context.run_cycle(&registry, &Vec::new(), &Vec::new());
    assert_eq!(half.edge, Transition::NoChange);
    assert_eq!(half.spawn, None);
    assert_eq!(context.cycles_in_loading(), 2);

    assert!(registry.resolve(a, gltf()));
    assert_eq!(
        advance(
            AssetLoadingState::Loading,
            &registry,
            &AssetCollection::new("C".to_string(), vec![s, a])
        ),
        AssetLoadingState::Loaded
    );

    // The cycle that enters Loaded spawns the scene, hidden and tagged.
    let entered = context.run_cycle(&registry, &Vec::new(), &Vec::new());
    assert_eq!(entered.edge, Transition::EnteredLoaded);
    assert_eq!(
        entered.spawn,
        Some(Ok(SpawnRequest { source: s, scene: 0, tag, visibility: Visibility::Hidden }))
    );
    assert!(entered.animation.is_empty());
    assert!(entered.overlay.is_empty());
    assert_eq!(context.state(), AssetLoadingState::Loaded);

    // The host has spawned the object; its animation player shows up now.
    let object = ObjectId { raw: 42 };
    let seen_by_host =
        vec![ObservedObject { id: object, tag: Some(tag), scale: scale(1.0, 1.0, 1.0) }];
    let bound = context.run_cycle(&registry, &vec![object], &seen_by_host);
    assert_eq!(bound.edge, Transition::NoChange);
    assert_eq!(bound.spawn, None);
    assert_eq!(
        bound.animation,
        vec![DriverAction::Play(AnimationBinding {
            object,
            clip: a,
            repeat: RepeatPolicy::Loop,
        })]
    );
    assert_eq!(bound.overlay, vec![OverlayLine { object, scale: scale(1.0, 1.0, 1.0) }]);

    // Later cycles: no second spawn, no second play, one line each cycle.
    for step in 0..6 {
        let grown = scale(1.0 + step as f32, 1.0, 2.0);
        let objects = vec![ObservedObject { id: object, tag: Some(tag), scale: grown }];
        let report = context.run_cycle(&registry, &vec![object], &objects);
        assert_eq!(report.edge, Transition::NoChange);
        assert_eq!(report.spawn, None);
        assert!(report.animation.is_empty());
        assert_eq!(report.overlay, vec![OverlayLine { object, scale: grown }]);
        assert_eq!(f32::from_bits(report.overlay[0].scale.x), 1.0 + step as f32);
    }
    assert_eq!(context.state(), AssetLoadingState::Loaded);
    assert_eq!(context.cycles_in_loading(), 2);
}

#[test]
fn spawn_fires_once_over_many_cycles() {
    let mut registry = AssetRegistry::new();
    let s = registry.request("S".to_string(), AssetKind::SceneGraph);
    let a = registry.request("A".to_string(), AssetKind::AnimationClip);
    assert!(registry.resolve(s, gltf()));
    assert!(registry.resolve(a, gltf()));
    let mut context = CycleContext::new(
        AssetCollection::new("C".to_string(), vec![s, a]),
        s,
        SceneSelector::First,
        a,
        RepeatPolicy::Loop,
    );
    let mut spawns = 0;
    let mut edges = 0;
    for _ in 0..50 {
        let report = context.run_cycle(&registry, &Vec::new(), &Vec::new());
        if report.spawn.is_some() {
            spawns += 1;
        }
        if report.edge == Transition::EnteredLoaded {
            edges += 1;
        }
    }
    assert_eq!(spawns, 1);
    assert_eq!(edges, 1);
}

#[test]
fn nothing_runs_while_loading() {
    let mut registry = AssetRegistry::new();
    let s = registry.request("S".to_string(), AssetKind::SceneGraph);
    let a = registry.request("A".to_string(), AssetKind::AnimationClip);
    assert!(registry.resolve(a, gltf()));
    let mut context = CycleContext::new(
        AssetCollection::new("C".to_string(), vec![s, a]),
        s,
        SceneSelector::First,
        a,
        RepeatPolicy::Loop,
    );
    let tag = SceneObjectTag { source: s };
    let object = ObjectId { raw: 1 };
    let objects = vec![ObservedObject { id: object, tag: Some(tag), scale: scale(2.0, 2.0, 2.0) }];
    for _ in 0..3 {
        let report = context.run_cycle(&registry, &vec![object], &objects);
        assert_eq!(report.edge, Transition::NoChange);
        assert_eq!(report.spawn, None);
        assert!(report.animation.is_empty());
        assert!(report.overlay.is_empty());
    }
    // An object that was there while loading is bound in the first Loaded cycle.
    assert!(registry.resolve(s, gltf()));
    let report = context.run_cycle(&registry, &vec![object], &objects);
    assert_eq!(report.edge, Transition::EnteredLoaded);
    assert!(matches!(report.spawn, Some(Ok(_))));
    assert_eq!(
        report.animation,
        vec![DriverAction::Play(AnimationBinding {
            object,
            clip: a,
            repeat: RepeatPolicy::Loop,
        })]
    );
    assert_eq!(report.overlay.len(), 1);
}

#[test]
fn failed_scene_never_spawns() {
    let mut registry = AssetRegistry::new();
    let s = registry.request("S".to_string(), AssetKind::SceneGraph);
    let a = registry.request("A".to_string(), AssetKind::AnimationClip);
    assert!(registry.fail(s));
    assert!(registry.resolve(a, gltf()));
    let mut context = CycleContext::new(
        AssetCollection::new("C".to_string(), vec![s, a]),
        s,
        SceneSelector::First,
        a,
        RepeatPolicy::Loop,
    );
    for cycle in 1..=20u64 {
        let report = context.run_cycle(&registry, &vec![ObjectId { raw: 1 }], &Vec::new());
        assert_eq!(report.edge, Transition::NoChange);
        assert_eq!(report.spawn, None);
        assert!(report.animation.is_empty());
        assert_eq!(context.state(), AssetLoadingState::Loading);
        assert_eq!(context.cycles_in_loading(), cycle);
    }
}

#[test]
fn missing_scene_is_reported_on_the_edge() {
    let mut registry = AssetRegistry::new();
    let s = registry.request("S".to_string(), AssetKind::SceneGraph);
    let a = registry.request("A".to_string(), AssetKind::AnimationClip);
    assert!(registry.resolve(s, gltf()));
    assert!(registry.resolve(a, gltf()));
    let mut context = CycleContext::new(
        AssetCollection::new("C".to_string(), vec![s, a]),
        s,
        SceneSelector::Named("CubeAction".to_string()),
        a,
        RepeatPolicy::Loop,
    );
    let first = context.run_cycle(&registry, &Vec::new(), &Vec::new());
    assert_eq!(first.edge, Transition::EnteredLoaded);
    assert_eq!(first.spawn, Some(Err(AssetError::MissingNamedElement)));
    let second = context.run_cycle(&registry, &Vec::new(), &Vec::new());
    assert_eq!(second.spawn, None);
}

#[test]
fn phases_of_a_cycle_run_in_order() {
    let mut registry = AssetRegistry::new();
    let s = registry.request("S".to_string(), AssetKind::SceneGraph);
    let a = registry.request("A".to_string(), AssetKind::AnimationClip);
    let mut context = CycleContext::new(
        AssetCollection::new("C".to_string(), vec![s, a]),
        s,
        SceneSelector::First,
        a,
        RepeatPolicy::Loop,
    );
    let tag = context.tag();
    assert_eq!(tag, SceneObjectTag { source: s });
    let object = ObjectId { raw: 3 };
    let objects = vec![ObservedObject { id: object, tag: Some(tag), scale: scale(1.0, 1.5, 2.0) }];

    // While loading, the driver and the feed have nothing to give.
    let start = context.begin_cycle(&registry);
    assert_eq!(start.edge, Transition::NoChange);
    assert_eq!(start.spawn, None);
    assert_eq!(context.sample_overlay(&objects), Ok(Vec::new()));
    assert_eq!(context.drive_animation(&registry, &vec![object]), Vec::new());
    assert_eq!(context.sample_overlay(&objects), Ok(Vec::new()));

    assert!(registry.resolve(s, gltf()));
    assert!(registry.resolve(a, gltf()));
    let start = context.begin_cycle(&registry);
    assert_eq!(start.edge, Transition::EnteredLoaded);
    assert_eq!(
        start.spawn,
        Some(Ok(SpawnRequest { source: s, scene: 0, tag, visibility: Visibility::Hidden }))
    );
    // The feed may not run before the driver has had its turn.
    assert_eq!(context.sample_overlay(&objects), Err(AssetError::InvariantViolation));
    assert_eq!(
        context.drive_animation(&registry, &vec![object]),
        vec![DriverAction::Play(AnimationBinding {
            object,
            clip: a,
            repeat: RepeatPolicy::Loop,
        })]
    );
    let line = OverlayLine { object, scale: scale(1.0, 1.5, 2.0) };
    assert_eq!(context.sample_overlay(&objects), Ok(vec![line]));
    // The driver may run again in the same cycle; it binds nothing twice.
    assert_eq!(context.drive_animation(&registry, &vec![object]), Vec::new());
    assert_eq!(context.sample_overlay(&objects), Ok(vec![line]));

    // Each cycle starts over.
    let start = context.begin_cycle(&registry);
    assert_eq!(start.edge, Transition::NoChange);
    assert_eq!(start.spawn, None);
    assert_eq!(context.sample_overlay(&objects), Err(AssetError::InvariantViolation));
    assert_eq!(context.drive_animation(&registry, &Vec::new()), Vec::new());
    assert_eq!(context.sample_overlay(&Vec::new()), Ok(Vec::new()));
}
