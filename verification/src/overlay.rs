//! The telemetry overlay feed: one line per tagged object per cycle.

use vstd::prelude::*;
use crate::object::{ObjectId, ObservedObject, Scale, SceneObjectTag};

verus! {

/// One line of the overlay: an object and its scale in this cycle. The host
/// renders it as text.
#[derive(Clone, Copy, Debug, PartialEq, Eq, Hash, Structural)]
pub struct OverlayLine {
    pub object: ObjectId,
    pub scale: Scale,
}

/// The line for `object`, if it carries `tag`.
pub open spec fn line_for(tag: SceneObjectTag, object: ObservedObject) -> Option<OverlayLine> {
    if object.tag == Some(tag) {
        Some(OverlayLine { object: object.id, scale: object.scale })
    } else {
        None
    }
}

/// The lines of one cycle: one for each object that carries `tag`, in the
/// order of `objects`.
pub open spec fn lines_for(tag: SceneObjectTag, objects: Seq<ObservedObject>) -> Seq<OverlayLine> {
    objects.filter_map(|object: ObservedObject| line_for(tag, object))
}

/// Samples the objects that carry `tag`. Reads only; no tagged object, no line.
pub fn sample(tag: SceneObjectTag, objects: &Vec<ObservedObject>) -> (lines: Vec<OverlayLine>)
    ensures
        lines@ == lines_for(tag, objects@),
{
    let ghost pick = |object: ObservedObject| line_for(tag, object);
    let mut lines: Vec<OverlayLine> = Vec::new();
    let mut i: usize = 0;
    assert(objects@.take(0) =~= Seq::<ObservedObject>::empty());
    while i < objects.len()
        invariant
            i <= objects.len(),
            pick == |object: ObservedObject| line_for(tag, object),
            lines@ == objects@.take(i as int).filter_map(pick),
        decreases objects.len() - i,
    {
        let object = objects[i];
        proof {
            objects@.lemma_filter_map_take_succ(pick, i as int);
        }
        match object.tag {
            Some(found) => {
                if found == tag {
                    lines.push(OverlayLine { object: object.id, scale: object.scale });
                }
            },
            None => {},
        }
        i = i + 1;
    }
    assert(objects@.take(objects@.len() as int) =~= objects@);
    lines
}

} // verus!
