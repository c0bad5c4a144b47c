//! What the core knows of the host's objects.

use vstd::prelude::*;
use crate::registry::AssetTicket;

verus! {

/// Names one object of the host's object space.
#[derive(Clone, Copy, Debug, PartialEq, Eq, Hash, Structural)]
pub struct ObjectId {
    pub raw: u64,
}

/// Marks an object as spawned from the asset behind `source`.
#[derive(Clone, Copy, Debug, PartialEq, Eq, Hash, Structural)]
pub struct SceneObjectTag {
    pub source: AssetTicket,
}

/// Whether a spawned object is shown.
#[derive(Clone, Copy, Debug, PartialEq, Eq, Hash, Structural)]
pub enum Visibility {
    Hidden,
    Visible,
}

/// The scale of an object along its three axes. Each axis is carried as the
/// bit pattern of a 32-bit float: the core hands scales on and never
/// computes with them.
#[derive(Clone, Copy, Debug, PartialEq, Eq, Hash, Structural)]
pub struct Scale {
    pub x: u32,
    pub y: u32,
    pub z: u32,
}

/// One object as the host sees it in the current cycle.
#[derive(Clone, Copy, Debug, PartialEq, Eq, Hash, Structural)]
pub struct ObservedObject {
    pub id: ObjectId,
    pub tag: Option<SceneObjectTag>,
    pub scale: Scale,
}

} // verus!
