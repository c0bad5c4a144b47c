//! The scene activation controller: one spawn on the readiness edge.

use vstd::prelude::*;
use crate::error::AssetError;
use crate::object::{SceneObjectTag, Visibility};
use crate::registry::{AssetRegistry, AssetTicket, AssetView, DecodedAsset, RegistryView};
use crate::state::Transition;

verus! {

/// Which scene of a decoded asset is activated.
#[derive(Debug)]
pub enum SceneSelector {
    /// The scene at position 0 of the file.
    First,
    /// The first scene of that name.
    Named(String),
}

/// The mathematical content of a `SceneSelector`.
pub enum SelectorView {
    First,
    Named(Seq<char>),
}

impl View for SceneSelector {
    type V = SelectorView;

    open spec fn view(&self) -> SelectorView {
        match self {
            SceneSelector::First => SelectorView::First,
            SceneSelector::Named(name) => SelectorView::Named(name@),
        }
    }
}

/// What the host is to spawn: scene `scene` of the asset behind `source`,
/// carrying `tag`, in the given visibility.
#[derive(Clone, Copy, Debug, PartialEq, Eq, Hash, Structural)]
pub struct SpawnRequest {
    pub source: AssetTicket,
    pub scene: usize,
    pub tag: SceneObjectTag,
    pub visibility: Visibility,
}

/// `index` is the first place at which `names` holds `name`.
pub open spec fn first_named(names: Seq<Seq<char>>, name: Seq<char>, index: int) -> bool {
    &&& 0 <= index < names.len()
    &&& names[index] == name
    &&& forall|j: int| 0 <= j < index ==> #[trigger] names[j] != name
}

/// `names` does not hold `name`.
pub open spec fn not_named(names: Seq<Seq<char>>, name: Seq<char>) -> bool {
    forall|j: int| 0 <= j < names.len() ==> #[trigger] names[j] != name
}

/// The first place at which `names` holds `name`.
pub fn index_of_name(names: &Vec<String>, name: &String) -> (found: Option<usize>)
    ensures
        match found {
            Some(index) => first_named(names.deep_view(), name@, index as int),
            None => not_named(names.deep_view(), name@),
        },
{
    let mut i: usize = 0;
    while i < names.len()
        invariant
            i <= names.len(),
            forall|j: int| 0 <= j < i ==> #[trigger] names.deep_view()[j] != name@,
        decreases names.len() - i,
    {
        if names[i] == *name {
            return Some(i);
        }
        i = i + 1;
    }
    None
}

impl AssetView {
    /// `selector` picks the scene at `index`.
    pub open spec fn selects(self, selector: SelectorView, index: int) -> bool {
        match selector {
            SelectorView::First => index == 0 && self.scenes.len() > 0,
            SelectorView::Named(name) => first_named(self.scenes, name, index),
        }
    }

    /// `selector` picks no scene.
    pub open spec fn lacks(self, selector: SelectorView) -> bool {
        match selector {
            SelectorView::First => self.scenes.len() == 0,
            SelectorView::Named(name) => not_named(self.scenes, name),
        }
    }
}

impl DecodedAsset {
    /// The position of the scene that `selector` picks. An asset without
    /// such a scene gives `MissingNamedElement`.
    pub fn scene_index(&self, selector: &SceneSelector) -> (picked: Result<usize, AssetError>)
        ensures
            match picked {
                Ok(index) => self@.selects(selector@, index as int),
                Err(error) => error is MissingNamedElement && self@.lacks(selector@),
            },
    {
        let found = match selector {
            SceneSelector::First => if self.scenes.len() > 0 {
                Some(0)
            } else {
                None
            },
            SceneSelector::Named(name) => index_of_name(&self.scenes, name),
        };
        match found {
            Some(index) => Ok(index),
            None => Err(AssetError::MissingNamedElement),
        }
    }

    /// The position of the first clip of that name. An asset without such a
    /// clip gives `MissingNamedElement`.
    pub fn clip_index(&self, name: &String) -> (picked: Result<usize, AssetError>)
        ensures
            match picked {
                Ok(index) => first_named(self@.clips, name@, index as int),
                Err(error) => error is MissingNamedElement && not_named(self@.clips, name@),
            },
    {
        match index_of_name(&self.clips, name) {
            Some(index) => Ok(index),
            None => Err(AssetError::MissingNamedElement),
        }
    }
}

/// Spawns the scene of one asset when readiness is reached.
#[derive(Debug)]
pub struct ActivationController {
    source: AssetTicket,
    selector: SceneSelector,
}

/// The mathematical content of an `ActivationController`.
pub struct ControllerView {
    pub source: AssetTicket,
    pub selector: SelectorView,
}

impl ControllerView {
    /// The tag that objects spawned by this controller carry.
    pub open spec fn tag(self) -> SceneObjectTag {
        SceneObjectTag { source: self.source }
    }

    /// `outcome` is what the controller answers to `edge`.
    ///
    /// Without an edge it answers nothing. On the edge it asks for one hidden,
    /// tagged spawn of the selected scene; if the asset is not resolved it
    /// reports the broken invariant, and if the asset lacks the scene it
    /// reports the missing element.
    pub open spec fn answers(
        self,
        edge: Transition,
        registry: RegistryView,
        outcome: Option<Result<SpawnRequest, AssetError>>,
    ) -> bool {
        match edge {
            Transition::NoChange => outcome is None,
            Transition::EnteredLoaded => match outcome {
                None => false,
                Some(Ok(request)) => {
                    &&& registry.payload(self.source) matches Some(asset)
                    &&& asset.selects(self.selector, request.scene as int)
                    &&& request.source == self.source
                    &&& request.tag == self.tag()
                    &&& request.visibility is Hidden
                },
                Some(Err(error)) => match registry.payload(self.source) {
                    None => error is InvariantViolation,
                    Some(asset) => error is MissingNamedElement && asset.lacks(self.selector),
                },
            },
        }
    }
}

impl View for ActivationController {
    type V = ControllerView;

    closed spec fn view(&self) -> ControllerView {
        ControllerView { source: self.source, selector: self.selector@ }
    }
}

impl ActivationController {
    /// A controller that spawns the scene that `selector` picks of the asset behind `source`.
    pub fn new(source: AssetTicket, selector: SceneSelector) -> (controller: ActivationController)
        ensures
            controller@.source == source,
            controller@.selector == selector@,
    {
        ActivationController { source, selector }
    }

    /// The ticket of the asset whose scene is spawned.
    pub fn source(&self) -> (source: AssetTicket)
        ensures
            source == self@.source,
    {
        self.source
    }

    /// The tag that objects spawned by this controller carry.
    pub fn tag(&self) -> (tag: SceneObjectTag)
        ensures
            tag == self@.tag(),
    {
        SceneObjectTag { source: self.source }
    }

    /// Answers one cycle's edge. Only `EnteredLoaded` makes the controller act.
    pub fn activate(&self, edge: Transition, registry: &AssetRegistry) -> (outcome: Option<
        Result<SpawnRequest, AssetError>,
    >)
        ensures
            self@.answers(edge, registry@, outcome),
    {
        match edge {
            Transition::NoChange => None,
            Transition::EnteredLoaded => match registry.get(self.source) {
                None => Some(Err(AssetError::InvariantViolation)),
                Some(asset) => match asset.scene_index(&self.selector) {
                    Ok(scene) => Some(
                        Ok(
                            SpawnRequest {
                                source: self.source,
                                scene,
                                tag: SceneObjectTag { source: self.source },
                                visibility: Visibility::Hidden,
                            },
                        ),
                    ),
                    Err(error) => Some(Err(error)),
                },
            },
        }
    }
}

} // verus!
