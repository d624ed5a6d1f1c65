//! The data the resolution pass reads and produces, as plain values.
//!
//! Coordinates and distances are fixed-point integers: a 2D point is a
//! position in logical-viewport units, and a surface's `dist` is its travel
//! distance along a ray from the ray's origin.  The caller chooses the unit;
//! the pass only compares and subtracts within one tick's snapshot.

use vstd::prelude::*;

verus! {

/// Bound on viewport rectangle coordinates, so that offsets inside a
/// rectangle can be computed without overflow.
pub const COORD_LIMIT: i64 = 0x4000_0000_0000;

/// A 2D point in logical-viewport units.
#[derive(Clone, Copy, Debug, PartialEq, Eq, Structural)]
pub struct Point2 {
    pub x: i64,
    pub y: i64,
}

/// A 3D point or direction in world units.
#[derive(Clone, Copy, Debug, PartialEq, Eq, Structural)]
pub struct Point3 {
    pub x: i64,
    pub y: i64,
    pub z: i64,
}

/// An axis-aligned rectangle in logical-viewport units, bounds included.
#[derive(Clone, Copy, Debug, PartialEq, Eq, Structural)]
pub struct Rect {
    pub min: Point2,
    pub max: Point2,
}

impl Rect {
    /// A rectangle is well formed when it is not inverted and its corners
    /// stay within [`COORD_LIMIT`], so differences of coordinates fit `i64`.
    pub open spec fn wf(self) -> bool {
        &&& self.min.x <= self.max.x
        &&& self.min.y <= self.max.y
        &&& -COORD_LIMIT <= self.min.x
        &&& self.max.x <= COORD_LIMIT
        &&& -COORD_LIMIT <= self.min.y
        &&& self.max.y <= COORD_LIMIT
    }
}

/// An input pointer (mouse, touch, pen).  A pointer without a location is
/// inactive this tick and produces nothing.
#[derive(Clone, Copy, Debug, PartialEq)]
pub struct PointerState {
    pub id: u64,
    pub location: Option<Point2>,
}

/// A camera, as the pass reads it from the scene: identity, activity,
/// draw order, an optional explicit viewport rectangle (the primary window
/// stands in when absent), an optional render-layer mask, and whether the
/// camera carries the opt-in picking marker.
#[derive(Clone, Copy, Debug, PartialEq)]
pub struct CameraState {
    pub id: u64,
    pub active: bool,
    pub order: i64,
    pub viewport: Option<Rect>,
    pub layers: Option<u32>,
    pub marked: bool,
}

impl CameraState {
    pub open spec fn wf(self) -> bool {
        self.viewport matches Some(v) ==> v.wf()
    }
}

/// Process-wide backend configuration, read once per tick.
#[derive(Clone, Copy, Debug, Default, PartialEq)]
pub struct RapierBackendSettings {
    /// When `true`, only cameras and objects carrying the opt-in marker take
    /// part in picking.
    pub require_markers: bool,
}

/// An explicit pickability flag on a scene object.  `Ignore` opts the object
/// out of picking entirely; an object with no flag is pickable by default.
#[derive(Clone, Copy, Debug, PartialEq, Eq, Structural)]
pub enum PickPolicy {
    Pickable,
    Ignore,
}

/// What the collision filter reads of one scene object.  An object the
/// snapshot does not list gets the defaults: no layer mask, unmarked, no
/// pickability flag.
#[derive(Clone, Copy, Debug, PartialEq)]
pub struct ObjectProps {
    pub id: u64,
    pub layers: Option<u32>,
    pub marked: bool,
    pub pickability: Option<PickPolicy>,
}

/// How a struck surface faces the ray, as the exact surface-normal query
/// answers it.  `Unknown` means the object exposes no queryable surface
/// geometry: the coarse hit is accepted without a backface check.
#[derive(Clone, Copy, Debug, PartialEq, Eq, Structural)]
pub enum Facing {
    Unknown,
    Front,
    Back,
}

/// One surface along a projected ray: the object it belongs to, its travel
/// distance from the ray origin, the world-space hit point and coarse
/// normal, and how it faces the ray.
#[derive(Clone, Copy, Debug, PartialEq, Eq, Structural)]
pub struct SurfaceHit {
    pub object: u64,
    pub dist: u64,
    pub point: Point3,
    pub normal: Point3,
    pub facing: Facing,
}

/// The surfaces of a sequence are ordered by travel distance, nearest first.
pub open spec fn sorted_by_dist(s: Seq<SurfaceHit>) -> bool {
    forall|i: int, j: int|
        #![trigger s[i], s[j]]
        0 <= i < j < s.len() ==> s[i].dist <= s[j].dist
}

/// The outcome of projecting one pointer location through one camera:
/// either the projection is undefined (degenerate viewport, inversion
/// failure) and the camera is skipped, or a ray, given as the ordered list
/// of surfaces it would meet.
#[derive(Debug, PartialEq)]
pub enum Projection {
    Failed,
    Ray(Vec<SurfaceHit>),
}

impl Projection {
    pub open spec fn wf(self) -> bool {
        self matches Projection::Ray(s) ==> sorted_by_dist(s@)
    }
}

/// The result of one accepted cast: the owning camera, the total travel
/// distance from the ray origin, and the world-space hit point and normal.
#[derive(Clone, Copy, Debug, PartialEq, Eq, Structural)]
pub struct HitRecord {
    pub camera: u64,
    pub distance: u64,
    pub point: Point3,
    pub normal: Point3,
}

/// One output event: a pointer, the single object it hit, the hit record,
/// and the owning camera's draw order as a ranking key.  This backend only
/// ever reports the closest accepted hit, so an event names exactly one
/// object.
#[derive(Clone, Copy, Debug, PartialEq, Eq, Structural)]
pub struct HitEvent {
    pub pointer: u64,
    pub object: u64,
    pub record: HitRecord,
    pub order: i64,
}

/// Everything the pass reads in one tick: pointers, cameras, the objects'
/// filter-relevant properties, the primary window rectangle, and for each
/// (pointer, camera) pair the outcome of projecting that pointer through
/// that camera.
#[derive(Debug)]
pub struct WorldSnapshot {
    pub pointers: Vec<PointerState>,
    pub cameras: Vec<CameraState>,
    pub objects: Vec<ObjectProps>,
    pub primary_window: Rect,
    pub projections: Vec<Vec<Projection>>,
}

impl WorldSnapshot {
    /// Pointer, camera and object identities are unique within a tick.
    pub open spec fn unique_ids(self) -> bool {
        &&& forall|i: int, j: int|
            #![trigger self.pointers@[i], self.pointers@[j]]
            0 <= i < j < self.pointers@.len() ==> self.pointers@[i].id != self.pointers@[j].id
        &&& forall|i: int, j: int|
            #![trigger self.cameras@[i], self.cameras@[j]]
            0 <= i < j < self.cameras@.len() ==> self.cameras@[i].id != self.cameras@[j].id
        &&& forall|i: int, j: int|
            #![trigger self.objects@[i], self.objects@[j]]
            0 <= i < j < self.objects@.len() ==> self.objects@[i].id != self.objects@[j].id
    }

    /// The projection table has one row per pointer and one entry per camera
    /// in each row, every listed ray is sorted nearest-first, and all
    /// rectangles are well formed.
    pub open spec fn wf(self) -> bool {
        &&& self.primary_window.wf()
        &&& forall|i: int|
            0 <= i < self.cameras@.len() ==> (#[trigger] self.cameras@[i]).wf()
        &&& self.projections@.len() == self.pointers@.len()
        &&& forall|i: int|
            0 <= i < self.projections@.len() ==> (#[trigger] self.projections@[i])@.len()
                == self.cameras@.len()
        &&& forall|i: int, j: int|
            #![trigger self.projections@[i]@[j]]
            0 <= i < self.projections@.len() && 0 <= j < self.projections@[i]@.len()
                ==> self.projections@[i]@[j].wf()
        &&& self.unique_ids()
    }
}

} // verus!
