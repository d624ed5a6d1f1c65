//! The backface-skipping caster, the core of the resolution pass.
//!
//! A cast walks a ray's surface list nearest-first and returns the first
//! surface past the current start that the collision filter accepts — the
//! nearest accepted surface, exactly as the intersection engine answers a
//! filtered nearest-hit query.  The caster drives up to [`CAST_LIMIT`] such
//! casts: a hit facing the viewer (or one whose facing cannot be queried) is
//! accepted at once; a backfacing hit advances the start just past the
//! struck surface and retries; a miss, or a backfacing hit with the budget
//! spent, ends the search with no result.

use vstd::prelude::*;

use crate::filter::lookup_props;
use crate::filter::object_accepted;
use crate::filter::object_accepted_spec;
use crate::filter::props_of;
use crate::types::Facing;
use crate::types::HitRecord;
use crate::types::ObjectProps;
use crate::types::RapierBackendSettings;
use crate::types::SurfaceHit;
use crate::types::sorted_by_dist;

verus! {

/// Geometry queries spent per camera ray per tick, at most: one initial
/// cast plus one backface retry.
pub const CAST_LIMIT: u32 = 2;

/// Whether a surface lies beyond the caster's current start.  `None` is the
/// ray origin and excludes nothing; `Some(d)` admits only surfaces struck
/// strictly past `d`, so a retry cannot strike the surface it just skipped.
pub open spec fn beyond(start: Option<u64>, dist: u64) -> bool {
    match start {
        None => true,
        Some(d) => dist > d,
    }
}

/// Whether a cast starting at `start` may return this surface: it lies
/// beyond the start and its object passes the collision filter.
pub open spec fn candidate(
    settings: RapierBackendSettings,
    cam_layers: Option<u32>,
    objects: Seq<ObjectProps>,
    start: Option<u64>,
    h: SurfaceHit,
) -> bool {
    &&& beyond(start, h.dist)
    &&& object_accepted_spec(settings, cam_layers, props_of(objects, h.object))
}

/// The first candidate surface at or after index `i` of the list.
pub open spec fn cast_from(
    scene: Seq<SurfaceHit>,
    i: int,
    settings: RapierBackendSettings,
    cam_layers: Option<u32>,
    objects: Seq<ObjectProps>,
    start: Option<u64>,
) -> Option<SurfaceHit>
    decreases scene.len() - i,
{
    if i < 0 || i >= scene.len() {
        None
    } else if candidate(settings, cam_layers, objects, start, scene[i]) {
        Some(scene[i])
    } else {
        cast_from(scene, i + 1, settings, cam_layers, objects, start)
    }
}

/// What a filtered nearest-hit cast from `start` returns on this ray.
pub open spec fn cast_spec(
    scene: Seq<SurfaceHit>,
    settings: RapierBackendSettings,
    cam_layers: Option<u32>,
    objects: Seq<ObjectProps>,
    start: Option<u64>,
) -> Option<SurfaceHit> {
    cast_from(scene, 0, settings, cam_layers, objects, start)
}

/// A cast's answer is a candidate from the list; a miss means the list
/// holds no candidate.
pub proof fn lemma_cast_from_found(
    scene: Seq<SurfaceHit>,
    i: int,
    settings: RapierBackendSettings,
    cam_layers: Option<u32>,
    objects: Seq<ObjectProps>,
    start: Option<u64>,
)
    requires
        0 <= i,
    ensures
        cast_from(scene, i, settings, cam_layers, objects, start) matches Some(h) ==> exists|k: int|
            #![trigger scene[k]]
            i <= k < scene.len() && scene[k] == h && candidate(
                settings,
                cam_layers,
                objects,
                start,
                h,
            ),
        cast_from(scene, i, settings, cam_layers, objects, start) is None ==> forall|k: int|
            i <= k < scene.len() ==> !candidate(
                settings,
                cam_layers,
                objects,
                start,
                #[trigger] scene[k],
            ),
    decreases scene.len() - i,
{
    if i < scene.len() && !candidate(settings, cam_layers, objects, start, scene[i]) {
        lemma_cast_from_found(scene, i + 1, settings, cam_layers, objects, start);
    }
}

/// On a list sorted nearest-first, the cast's answer is nearest among the
/// candidates.
pub proof fn lemma_cast_from_nearest(
    scene: Seq<SurfaceHit>,
    i: int,
    settings: RapierBackendSettings,
    cam_layers: Option<u32>,
    objects: Seq<ObjectProps>,
    start: Option<u64>,
)
    requires
        0 <= i,
        sorted_by_dist(scene),
    ensures
        cast_from(scene, i, settings, cam_layers, objects, start) matches Some(h) ==> forall|
            k: int,
        |
            i <= k < scene.len() && candidate(settings, cam_layers, objects, start, #[trigger] scene[k])
                ==> h.dist <= scene[k].dist,
    decreases scene.len() - i,
{
    if i < scene.len() && !candidate(settings, cam_layers, objects, start, scene[i]) {
        lemma_cast_from_nearest(scene, i + 1, settings, cam_layers, objects, start);
    }
}

/// Walks the ray's surface list nearest-first and returns the nearest
/// surface past `start` whose object the collision filter accepts.
pub fn cast_nearest(
    scene: &Vec<SurfaceHit>,
    settings: &RapierBackendSettings,
    cam_layers: Option<u32>,
    objects: &Vec<ObjectProps>,
    start: Option<u64>,
) -> (r: Option<SurfaceHit>)
    ensures
        r == cast_spec(scene@, *settings, cam_layers, objects@, start),
{
    let mut i: usize = 0;
    while i < scene.len()
        invariant
            i <= scene@.len(),
            cast_spec(scene@, *settings, cam_layers, objects@, start) == cast_from(
                scene@,
                i as int,
                *settings,
                cam_layers,
                objects@,
                start,
            ),
        decreases scene@.len() - i,
    {
        let h = scene[i];
        let past_start = match start {
            None => true,
            Some(d) => h.dist > d,
        };
        if past_start {
            let props = lookup_props(objects, h.object);
            if object_accepted(settings, cam_layers, &props) {
                return Some(h);
            }
        }
        i += 1;
    }
    None
}

/// The caster's running state: how many casts are already spent, and where
/// the next cast starts (`None` while still at the ray origin).
#[derive(Clone, Copy, Debug, PartialEq)]
pub struct CasterState {
    pub casts_done: u32,
    pub start: Option<u64>,
}

/// The state the caster begins a ray with.
pub open spec fn initial_state() -> CasterState {
    CasterState { casts_done: 0, start: None }
}

/// The caster's verdict on one cast outcome.
#[derive(Clone, Copy, Debug, PartialEq)]
pub enum StepVerdict {
    /// Report this object with this record and stop.
    Accept(u64, HitRecord),
    /// The struck surface was backfacing and budget remains: cast again from
    /// the updated state.
    Retry,
    /// Stop with no result: the cast missed, or a backfacing surface was
    /// struck with the retry budget spent.
    GiveUp,
}

/// The caster's decision on the outcome of one cast, for the camera `cam`.
pub open spec fn step_spec(state: CasterState, cam: u64, outcome: Option<SurfaceHit>) -> (
    CasterState,
    StepVerdict,
) {
    match outcome {
        None => (state, StepVerdict::GiveUp),
        Some(h) => if h.facing != Facing::Back {
            (
                state,
                StepVerdict::Accept(
                    h.object,
                    HitRecord { camera: cam, distance: h.dist, point: h.point, normal: h.normal },
                ),
            )
        } else if state.casts_done + 1 < CAST_LIMIT {
            (CasterState { casts_done: (state.casts_done + 1) as u32, start: Some(h.dist) }, StepVerdict::Retry)
        } else {
            (state, StepVerdict::GiveUp)
        },
    }
}

/// Decides what to do with one cast outcome: accept a front-facing (or
/// unqueryable) hit, retry past a backfacing one while budget remains, and
/// give up otherwise.  The accepted record's distance is the surface's total
/// travel distance from the ray origin.
pub fn caster_step(state: CasterState, cam: u64, outcome: Option<SurfaceHit>) -> (r: (
    CasterState,
    StepVerdict,
))
    requires
        state.casts_done < CAST_LIMIT,
    ensures
        r == step_spec(state, cam, outcome),
{
    match outcome {
        None => (state, StepVerdict::GiveUp),
        Some(h) => {
            match h.facing {
                Facing::Back => {
                    if state.casts_done + 1 < CAST_LIMIT {
                        (
                            CasterState { casts_done: state.casts_done + 1, start: Some(h.dist) },
                            StepVerdict::Retry,
                        )
                    } else {
                        (state, StepVerdict::GiveUp)
                    }
                },
                _ => (
                    state,
                    StepVerdict::Accept(
                        h.object,
                        HitRecord {
                            camera: cam,
                            distance: h.dist,
                            point: h.point,
                            normal: h.normal,
                        },
                    ),
                ),
            }
        },
    }
}

/// What the caster resolves to from a given state: the decision on the next
/// cast's outcome, followed through retries until it accepts or gives up.
pub open spec fn resolve_from(
    scene: Seq<SurfaceHit>,
    settings: RapierBackendSettings,
    cam_layers: Option<u32>,
    objects: Seq<ObjectProps>,
    cam: u64,
    state: CasterState,
) -> Option<(u64, HitRecord)>
    decreases CAST_LIMIT - state.casts_done,
{
    if state.casts_done >= CAST_LIMIT {
        None
    } else {
        let outcome = cast_spec(scene, settings, cam_layers, objects, state.start);
        match step_spec(state, cam, outcome) {
            (_, StepVerdict::Accept(object, record)) => Some((object, record)),
            (_, StepVerdict::GiveUp) => None,
            (next, StepVerdict::Retry) => resolve_from(
                scene,
                settings,
                cam_layers,
                objects,
                cam,
                next,
            ),
        }
    }
}

/// What the backface-skipping caster reports for one camera ray: the
/// nearest accepted front-facing surface within the retry budget, if any.
pub open spec fn resolve_spec(
    scene: Seq<SurfaceHit>,
    settings: RapierBackendSettings,
    cam_layers: Option<u32>,
    objects: Seq<ObjectProps>,
    cam: u64,
) -> Option<(u64, HitRecord)> {
    resolve_from(scene, settings, cam_layers, objects, cam, initial_state())
}

/// Whatever the caster reports came from a surface on the ray: one that is
/// not backfacing, whose object the filter accepts, tagged with the owning
/// camera and the surface's own travel distance, point and normal.
pub proof fn lemma_resolve_from_reported(
    scene: Seq<SurfaceHit>,
    settings: RapierBackendSettings,
    cam_layers: Option<u32>,
    objects: Seq<ObjectProps>,
    cam: u64,
    state: CasterState,
)
    ensures
        resolve_from(scene, settings, cam_layers, objects, cam, state) matches Some((object, record))
            ==> exists|k: int|
            #![trigger scene[k]]
            0 <= k < scene.len() && scene[k].object == object && scene[k].facing != Facing::Back
                && object_accepted_spec(settings, cam_layers, props_of(objects, object)) && record
                == (HitRecord {
                camera: cam,
                distance: scene[k].dist,
                point: scene[k].point,
                normal: scene[k].normal,
            }),
    decreases CAST_LIMIT - state.casts_done,
{
    if state.casts_done < CAST_LIMIT {
        let outcome = cast_spec(scene, settings, cam_layers, objects, state.start);
        lemma_cast_from_found(scene, 0, settings, cam_layers, objects, state.start);
        match step_spec(state, cam, outcome) {
            (next, StepVerdict::Retry) => {
                lemma_resolve_from_reported(scene, settings, cam_layers, objects, cam, next);
            },
            _ => {},
        }
    }
}

/// Runs the backface-skipping caster over one camera ray: casts, skips
/// backfacing surfaces within the retry budget, and returns the accepted
/// object and its hit record, or nothing.
pub fn resolve_ray(
    scene: &Vec<SurfaceHit>,
    settings: &RapierBackendSettings,
    cam_layers: Option<u32>,
    objects: &Vec<ObjectProps>,
    cam: u64,
) -> (r: Option<(u64, HitRecord)>)
    ensures
        r == resolve_spec(scene@, *settings, cam_layers, objects@, cam),
{
    let mut state = CasterState { casts_done: 0, start: None };
    loop
        invariant
            state.casts_done < CAST_LIMIT,
            resolve_spec(scene@, *settings, cam_layers, objects@, cam) == resolve_from(
                scene@,
                *settings,
                cam_layers,
                objects@,
                cam,
                state,
            ),
        decreases CAST_LIMIT - state.casts_done,
    {
        let outcome = cast_nearest(scene, settings, cam_layers, objects, state.start);
        let (next, verdict) = caster_step(state, cam, outcome);
        match verdict {
            StepVerdict::Accept(object, record) => {
                return Some((object, record));
            },
            StepVerdict::GiveUp => {
                return None;
            },
            StepVerdict::Retry => {
                state = next;
            },
        }
    }
}

} // verus!
