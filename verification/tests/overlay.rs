use scene_activation::object::{ObjectId, ObservedObject, Scale, SceneObjectTag};
use scene_activation::overlay::{sample, OverlayLine};
use scene_activation::registry::{AssetKind, AssetTicket};

fn scale(x: f32, y: f32, z: f32) -> Scale {
    Scale { x: x.to_bits(), y: y.to_bits(), z: z.to_bits() }
}

fn tag(id: usize) -> SceneObjectTag {
    SceneObjectTag { source: AssetTicket { id, kind: AssetKind::SceneGraph } }
}

#[test]
fn no_tagged_object_gives_no_line() {
    assert_eq!(sample(tag(0), &Vec::new()), Vec::new());
    let untagged = ObservedObject { id: ObjectId { raw: 1 }, tag: None, scale: scale(1.0, 1.0, 1.0) };
    assert_eq!(sample(tag(0), &vec![untagged]), Vec::new());
}

#[test]
fn one_line_per_tagged_object_in_order() {
    let objects = vec![
        ObservedObject { id: ObjectId { raw: 4 }, tag: Some(tag(0)), scale: scale(1.0, 2.0, 3.0) },
        ObservedObject { id: ObjectId { raw: 5 }, tag: None, scale: scale(9.0, 9.0, 9.0) },
        ObservedObject { id: ObjectId { raw: 6 }, tag: Some(tag(1)), scale: scale(8.0, 8.0, 8.0) },
        ObservedObject { id: ObjectId { raw: 2 }, tag: Some(tag(0)), scale: scale(0.5, 0.25, 4.0) },
    ];
    let lines = sample(tag(0), &objects);
    assert_eq!(
        lines,
        vec![
            OverlayLine { object: ObjectId { raw: 4 }, scale: scale(1.0, 2.0, 3.0) },
            OverlayLine { object: ObjectId { raw: 2 }, scale: scale(0.5, 0.25, 4.0) },
        ]
    );
    assert_eq!(f32::from_bits(lines[1].scale.y), 0.25);
    assert_eq!(f32::from_bits(lines[0].scale.z), 3.0);
}

#[test]
fn sampling_reads_only() {
    let objects = vec![ObservedObject {
        id: ObjectId { raw: 4 },
        tag: Some(tag(0)),
        scale: scale(1.0, 2.0, 3.0),
    }];
    let before = objects.clone();
    let first = sample(tag(0), &objects);
    let second = sample(tag(0), &objects);
    assert_eq!(first, second);
    assert_eq!(objects, before);
}
