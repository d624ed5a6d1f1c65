//! The candidate selector: which cameras cast for a pointer this tick, and
//! the viewport-local offset handed to the projector for each of them.

use vstd::prelude::*;

use crate::filter::marker_gate;
use crate::types::CameraState;
use crate::types::Point2;
use crate::types::RapierBackendSettings;
use crate::types::Rect;

verus! {

/// Whether a point lies within a rectangle, bounds included.
pub open spec fn in_rect(p: Point2, r: Rect) -> bool {
    &&& r.min.x <= p.x <= r.max.x
    &&& r.min.y <= p.y <= r.max.y
}

/// The viewport bounds a camera is tested against: its own rectangle when it
/// has one, the primary window otherwise.
pub open spec fn camera_viewport(cam: CameraState, primary: Rect) -> Rect {
    match cam.viewport {
        Some(v) => v,
        None => primary,
    }
}

/// Whether a camera casts for a pointer at `loc`: the camera is active, the
/// pointer lies within the camera's viewport bounds, and the camera passes
/// the marker gate.
pub open spec fn camera_eligible_spec(
    settings: RapierBackendSettings,
    cam: CameraState,
    loc: Point2,
    primary: Rect,
) -> bool {
    &&& cam.active
    &&& in_rect(loc, camera_viewport(cam, primary))
    &&& marker_gate(settings.require_markers, cam.marked)
}

/// Decides whether `cam` is eligible to cast for a pointer at `loc`.
pub fn camera_eligible(
    settings: &RapierBackendSettings,
    cam: &CameraState,
    loc: Point2,
    primary: &Rect,
) -> (r: bool)
    ensures
        r == camera_eligible_spec(*settings, *cam, loc, *primary),
{
    if !cam.active {
        return false;
    }
    let bounds: Rect = match cam.viewport {
        Some(v) => v,
        None => *primary,
    };
    let inside = bounds.min.x <= loc.x && loc.x <= bounds.max.x && bounds.min.y <= loc.y
        && loc.y <= bounds.max.y;
    inside && (!settings.require_markers || cam.marked)
}

/// The pointer position translated into the camera's logical viewport
/// space: the viewport origin is subtracted when the camera has an explicit
/// viewport, and the raw position is used otherwise.
pub open spec fn viewport_local_spec(cam: CameraState, loc: Point2) -> Point2 {
    match cam.viewport {
        Some(v) => Point2 { x: (loc.x - v.min.x) as i64, y: (loc.y - v.min.y) as i64 },
        None => loc,
    }
}

/// Translates a pointer position into the camera's logical viewport space
/// before projection.
pub fn viewport_local(cam: &CameraState, loc: Point2) -> (r: Point2)
    requires
        cam.wf(),
        cam.viewport matches Some(v) ==> in_rect(loc, v),
    ensures
        r == viewport_local_spec(*cam, loc),
{
    match cam.viewport {
        Some(v) => Point2 { x: loc.x - v.min.x, y: loc.y - v.min.y },
        None => loc,
    }
}

} // verus!
