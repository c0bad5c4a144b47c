use scene_activation::activation::{index_of_name, ActivationController, SceneSelector, SpawnRequest};
use scene_activation::error::AssetError;
use scene_activation::object::{SceneObjectTag, Visibility};
use scene_activation::registry::{AssetKind, AssetRegistry, AssetTicket, DecodedAsset};
use scene_activation::state::Transition;

fn names(list: &[&str]) -> Vec<String> {
    list.iter().map(|s| s.to_string()).collect()
}

fn asset(scenes: &[&str], clips: &[&str]) -> DecodedAsset {
    DecodedAsset { scenes: names(scenes), clips: names(clips) }
}

#[test]
fn index_of_name_finds_the_first_match() {
    let list = names(&["Cube", "CubeAction", "Cube"]);
    assert_eq!(index_of_name(&list, &"Cube".to_string()), Some(0));
    assert_eq!(index_of_name(&list, &"CubeAction".to_string()), Some(1));
    assert_eq!(index_of_name(&list, &"cube".to_string()), None);
    assert_eq!(index_of_name(&Vec::new(), &"Cube".to_string()), None);
}

#[test]
fn first_scene_is_scene_zero() {
    let decoded = asset(&["Scene", "CubeAction"], &[]);
    assert_eq!(decoded.scene_index(&SceneSelector::First), Ok(0));
}

#[test]
fn first_scene_of_an_asset_without_scenes_is_missing() {
    let decoded = asset(&[], &["Animation0"]);
    assert_eq!(decoded.scene_index(&SceneSelector::First), Err(AssetError::MissingNamedElement));
}

#[test]
fn named_scene_is_found_by_name() {
    let decoded = asset(&["Scene", "CubeAction", "CubeAction"], &[]);
    let selector = SceneSelector::Named("CubeAction".to_string());
    assert_eq!(decoded.scene_index(&selector), Ok(1));
    let absent = SceneSelector::Named("Sphere".to_string());
    assert_eq!(decoded.scene_index(&absent), Err(AssetError::MissingNamedElement));
}

#[test]
fn clip_is_found_by_name() {
    let decoded = asset(&["Scene"], &["Animation0", "Animation1"]);
    assert_eq!(decoded.clip_index(&"Animation1".to_string()), Ok(1));
    assert_eq!(decoded.clip_index(&"Animation0".to_string()), Ok(0));
    assert_eq!(decoded.clip_index(&"Scene".to_string()), Err(AssetError::MissingNamedElement));
}

#[test]
fn controller_answers_only_the_edge() {
    let mut registry = AssetRegistry::new();
    let scene = registry.request("test_scale.gltf".to_string(), AssetKind::SceneGraph);
    assert!(registry.resolve(scene, asset(&["Scene"], &["Animation0"])));
    let controller = ActivationController::new(scene, SceneSelector::First);
    assert_eq!(controller.source(), scene);
    assert_eq!(controller.tag(), SceneObjectTag { source: scene });
    assert_eq!(controller.activate(Transition::NoChange, &registry), None);
    assert_eq!(
        controller.activate(Transition::EnteredLoaded, &registry),
        Some(Ok(SpawnRequest {
            source: scene,
            scene: 0,
            tag: SceneObjectTag { source: scene },
            visibility: Visibility::Hidden,
        }))
    );
}

#[test]
fn controller_spawns_the_named_scene() {
    let mut registry = AssetRegistry::new();
    let _other = registry.request("other.gltf".to_string(), AssetKind::SceneGraph);
    let scene = registry.request("test_scale.gltf".to_string(), AssetKind::SceneGraph);
    assert!(registry.resolve(scene, asset(&["Scene", "CubeAction"], &[])));
    let controller =
        ActivationController::new(scene, SceneSelector::Named("CubeAction".to_string()));
    match controller.activate(Transition::EnteredLoaded, &registry) {
        Some(Ok(request)) => {
            assert_eq!(request.scene, 1);
            assert_eq!(request.source, scene);
            assert_eq!(request.visibility, Visibility::Hidden);
        }
        other => panic!("unexpected answer {:?}", other),
    }
}

#[test]
fn controller_reports_a_missing_scene() {
    let mut registry = AssetRegistry::new();
    let scene = registry.request("test_scale.gltf".to_string(), AssetKind::SceneGraph);
    assert!(registry.resolve(scene, asset(&["Scene"], &[])));
    let controller = ActivationController::new(scene, SceneSelector::Named("Nope".to_string()));
    assert_eq!(
        controller.activate(Transition::EnteredLoaded, &registry),
        Some(Err(AssetError::MissingNamedElement))
    );
    let mut empty = AssetRegistry::new();
    let bare = empty.request("bare.gltf".to_string(), AssetKind::SceneGraph);
    assert!(empty.resolve(bare, asset(&[], &[])));
    let first = ActivationController::new(bare, SceneSelector::First);
    assert_eq!(
        first.activate(Transition::EnteredLoaded, &empty),
        Some(Err(AssetError::MissingNamedElement))
    );
}

#[test]
fn controller_reports_an_unresolved_asset() {
    let mut registry = AssetRegistry::new();
    let scene = registry.request("test_scale.gltf".to_string(), AssetKind::SceneGraph);
    let controller = ActivationController::new(scene, SceneSelector::First);
    assert_eq!(
        controller.activate(Transition::EnteredLoaded, &registry),
        Some(Err(AssetError::InvariantViolation))
    );
    assert!(registry.fail(scene));
    assert_eq!(
        controller.activate(Transition::EnteredLoaded, &registry),
        Some(Err(AssetError::InvariantViolation))
    );
    let forged = ActivationController::new(
        AssetTicket { id: 5, kind: AssetKind::SceneGraph },
        SceneSelector::First,
    );
    assert_eq!(
        forged.activate(Transition::EnteredLoaded, &registry),
        Some(Err(AssetError::InvariantViolation))
    );
    assert_eq!(forged.activate(Transition::NoChange, &registry), None);
}
