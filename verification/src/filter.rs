//! The collision filter: the predicate the geometry query evaluates for
//! every object a cast considers.  An object is accepted only when the
//! marker gate, the render-layer match, and the pickability check all hold.

use vstd::prelude::*;

use crate::types::ObjectProps;
use crate::types::PickPolicy;
use crate::types::RapierBackendSettings;

verus! {

/// The layer mask a camera uses when it carries no explicit mask: every
/// layer.
pub const ALL_LAYERS: u32 = 0xFFFF_FFFF;

/// The layer mask an object uses when it carries no explicit mask: the
/// default layer (layer zero) alone.
pub const DEFAULT_LAYER: u32 = 1;

/// A camera's effective render-layer mask.
pub open spec fn camera_mask(layers: Option<u32>) -> u32 {
    match layers {
        None => ALL_LAYERS,
        Some(m) => m,
    }
}

/// An object's effective render-layer mask.
pub open spec fn object_mask(layers: Option<u32>) -> u32 {
    match layers {
        None => DEFAULT_LAYER,
        Some(m) => m,
    }
}

/// Whether a camera's and an object's effective layer masks share a layer.
pub open spec fn layers_intersect(cam_layers: Option<u32>, obj_layers: Option<u32>) -> bool {
    camera_mask(cam_layers) & object_mask(obj_layers) != 0
}

/// The marker gate: when markers are required, only marked participants
/// qualify; otherwise everything does.
pub open spec fn marker_gate(require_markers: bool, marked: bool) -> bool {
    !require_markers || marked
}

/// An object is pickable unless it explicitly opts out.  The explicit
/// opt-out takes precedence over every other signal.
pub open spec fn is_pickable(pickability: Option<PickPolicy>) -> bool {
    !(pickability matches Some(PickPolicy::Ignore))
}

/// The filter's verdict for one object under the tick's settings and the
/// casting camera's layer mask.
pub open spec fn object_accepted_spec(
    settings: RapierBackendSettings,
    cam_layers: Option<u32>,
    props: ObjectProps,
) -> bool {
    &&& marker_gate(settings.require_markers, props.marked)
    &&& layers_intersect(cam_layers, props.layers)
    &&& is_pickable(props.pickability)
}

/// The properties of an object the snapshot does not list: no layer mask,
/// unmarked, no pickability flag.
pub open spec fn default_props(id: u64) -> ObjectProps {
    ObjectProps { id, layers: None, marked: false, pickability: None }
}

/// The listed properties of the object `id`, scanning from index `i`;
/// the defaults when no entry names it.
pub open spec fn props_of_from(objects: Seq<ObjectProps>, i: int, id: u64) -> ObjectProps
    decreases objects.len() - i,
{
    if i < 0 || i >= objects.len() {
        default_props(id)
    } else if objects[i].id == id {
        objects[i]
    } else {
        props_of_from(objects, i + 1, id)
    }
}

/// The properties the filter reads for the object `id`.
pub open spec fn props_of(objects: Seq<ObjectProps>, id: u64) -> ObjectProps {
    props_of_from(objects, 0, id)
}

/// Looks up the filter-relevant properties of the object `id`, falling back
/// to the defaults when the snapshot does not list it.
pub fn lookup_props(objects: &Vec<ObjectProps>, id: u64) -> (r: ObjectProps)
    ensures
        r == props_of(objects@, id),
{
    let mut i: usize = 0;
    while i < objects.len()
        invariant
            i <= objects@.len(),
            props_of(objects@, id) == props_of_from(objects@, i as int, id),
        decreases objects@.len() - i,
    {
        if objects[i].id == id {
            return objects[i];
        }
        i += 1;
    }
    ObjectProps { id, layers: None, marked: false, pickability: None }
}

/// Evaluates the collision filter for one object: the marker gate, the
/// render-layer match, and the pickability check must all hold.
pub fn object_accepted(
    settings: &RapierBackendSettings,
    cam_layers: Option<u32>,
    props: &ObjectProps,
) -> (r: bool)
    ensures
        r == object_accepted_spec(*settings, cam_layers, *props),
{
    let marker_ok = !settings.require_markers || props.marked;
    let cam_mask: u32 = match cam_layers {
        None => ALL_LAYERS,
        Some(m) => m,
    };
    let obj_mask: u32 = match props.layers {
        None => DEFAULT_LAYER,
        Some(m) => m,
    };
    let layers_ok = (cam_mask & obj_mask) != 0;
    let pickable = match props.pickability {
        Some(PickPolicy::Ignore) => false,
        _ => true,
    };
    marker_ok && layers_ok && pickable
}

} // verus!
