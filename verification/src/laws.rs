//! The guarantees the resolution pass gives, stated and proved once over
//! every snapshot: where events can come from, which pointers, cameras and
//! objects can never appear in one, and how the backface retry behaves at
//! and beyond its budget.

use vstd::prelude::*;

use crate::caster::CasterState;
use crate::caster::cast_spec;
use crate::caster::initial_state;
use crate::caster::lemma_cast_from_found;
use crate::caster::lemma_resolve_from_reported;
use crate::caster::resolve_from;
use crate::caster::resolve_spec;
use crate::filter::is_pickable;
use crate::filter::layers_intersect;
use crate::filter::marker_gate;
use crate::filter::object_accepted_spec;
use crate::filter::props_of;
use crate::pass::camera_events_upto;
use crate::pass::events_for;
use crate::pass::events_upto;
use crate::pass::pair_events;
use crate::pass::pointer_events;
use crate::select::camera_eligible_spec;
use crate::types::Facing;
use crate::types::HitEvent;
use crate::types::HitRecord;
use crate::types::ObjectProps;
use crate::types::PickPolicy;
use crate::types::Projection;
use crate::types::RapierBackendSettings;
use crate::types::SurfaceHit;
use crate::types::WorldSnapshot;

verus! {

/// The pair (`pi`, `ci`) contributes exactly the event `e`.
pub open spec fn pair_yields(
    settings: RapierBackendSettings,
    world: WorldSnapshot,
    pi: int,
    ci: int,
    e: HitEvent,
) -> bool {
    pair_events(settings, world, pi, ci) == seq![e]
}

proof fn camera_source_at(
    settings: RapierBackendSettings,
    world: WorldSnapshot,
    pi: int,
    n: int,
    k: int,
) -> (ci: int)
    requires
        0 <= n,
        0 <= k < camera_events_upto(settings, world, pi, n).len(),
    ensures
        0 <= ci < n,
        pair_yields(settings, world, pi, ci, camera_events_upto(settings, world, pi, n)[k]),
    decreases n,
{
    let prev = camera_events_upto(settings, world, pi, n - 1);
    let pe = pair_events(settings, world, pi, n - 1);
    assert(camera_events_upto(settings, world, pi, n) == prev + pe);
    if k < prev.len() {
        let ci = camera_source_at(settings, world, pi, n - 1, k);
        assert(camera_events_upto(settings, world, pi, n)[k] == prev[k]);
        ci
    } else {
        assert(pe.len() <= 1);
        assert(camera_events_upto(settings, world, pi, n)[k] == pe[k - prev.len()]);
        assert(pe =~= seq![pe[0]]);
        n - 1
    }
}

proof fn source_at(settings: RapierBackendSettings, world: WorldSnapshot, n: int, k: int) -> (r: (
    int,
    int,
))
    requires
        0 <= n,
        0 <= k < events_upto(settings, world, n).len(),
    ensures
        0 <= r.0 < n,
        0 <= r.1 < world.cameras@.len(),
        pair_yields(settings, world, r.0, r.1, events_upto(settings, world, n)[k]),
    decreases n,
{
    let prev = events_upto(settings, world, n - 1);
    let pe = pointer_events(settings, world, n - 1);
    assert(events_upto(settings, world, n) == prev + pe);
    if k < prev.len() {
        let r = source_at(settings, world, n - 1, k);
        assert(events_upto(settings, world, n)[k] == prev[k]);
        r
    } else {
        assert(pe == camera_events_upto(settings, world, n - 1, world.cameras@.len() as int));
        let ci = camera_source_at(
            settings,
            world,
            n - 1,
            world.cameras@.len() as int,
            k - prev.len(),
        );
        assert(events_upto(settings, world, n)[k] == pe[k - prev.len()]);
        (n - 1, ci)
    }
}

/// Every emitted event is the contribution of one (pointer, camera) pair of
/// the snapshot: this names the pair for the event at index `k`.
pub proof fn lemma_event_source(
    settings: RapierBackendSettings,
    world: WorldSnapshot,
    k: int,
) -> (r: (int, int))
    requires
        0 <= k < events_for(settings, world).len(),
    ensures
        0 <= r.0 < world.pointers@.len(),
        0 <= r.1 < world.cameras@.len(),
        pair_yields(settings, world, r.0, r.1, events_for(settings, world)[k]),
{
    source_at(settings, world, world.pointers@.len() as int, k)
}

/// What must have held of a pair for it to contribute an event: its pointer
/// had a location, its camera was eligible for that location, and the event
/// carries that pointer's identity, that camera's identity and draw order,
/// and an object the collision filter accepted under that camera's layers.
pub proof fn lemma_pair_yields_shape(
    settings: RapierBackendSettings,
    world: WorldSnapshot,
    pi: int,
    ci: int,
    e: HitEvent,
)
    requires
        0 <= pi < world.pointers@.len(),
        0 <= ci < world.cameras@.len(),
        pair_yields(settings, world, pi, ci, e),
    ensures
        world.pointers@[pi].location is Some,
        world.pointers@[pi].location matches Some(loc) ==> camera_eligible_spec(
            settings,
            world.cameras@[ci],
            loc,
            world.primary_window,
        ),
        e.pointer == world.pointers@[pi].id,
        e.order == world.cameras@[ci].order,
        e.record.camera == world.cameras@[ci].id,
        object_accepted_spec(
            settings,
            world.cameras@[ci].layers,
            props_of(world.objects@, e.object),
        ),
{
    let pe = pair_events(settings, world, pi, ci);
    assert(pe.len() == 1);
    assert(pe[0] == e);
    match world.projections@[pi]@[ci] {
        Projection::Failed => {
            assert(false);
        },
        Projection::Ray(scene) => {
            let cam = world.cameras@[ci];
            lemma_resolve_from_reported(
                scene@,
                settings,
                cam.layers,
                world.objects@,
                cam.id,
                initial_state(),
            );
        },
    }
}

/// A pointer with no location this tick produces no event: nothing in the
/// output carries its identity.
pub proof fn lemma_pointer_without_location_no_events(
    settings: RapierBackendSettings,
    world: WorldSnapshot,
    pointer: u64,
)
    requires
        forall|i: int|
            0 <= i < world.pointers@.len() && (#[trigger] world.pointers@[i]).id == pointer
                ==> world.pointers@[i].location is None,
    ensures
        forall|k: int|
            0 <= k < events_for(settings, world).len() ==> (#[trigger] events_for(
                settings,
                world,
            )[k]).pointer != pointer,
{
    assert forall|k: int| 0 <= k < events_for(settings, world).len() implies (#[trigger] events_for(
        settings,
        world,
    )[k]).pointer != pointer by {
        let (pi, ci) = lemma_event_source(settings, world, k);
        lemma_pair_yields_shape(settings, world, pi, ci, events_for(settings, world)[k]);
    };
}

/// For a given pointer and tick, at most one event arises per camera; each
/// event names exactly one object by construction.
pub proof fn lemma_at_most_one_event_per_pair(
    settings: RapierBackendSettings,
    world: WorldSnapshot,
    pi: int,
    ci: int,
)
    ensures
        pair_events(settings, world, pi, ci).len() <= 1,
{
}

/// A camera that is inactive casts no ray for any pointer: its pair
/// contributes nothing, whatever the projection table holds for it.
pub proof fn lemma_inactive_camera_casts_nothing(
    settings: RapierBackendSettings,
    world: WorldSnapshot,
    pi: int,
    ci: int,
)
    requires
        0 <= pi < world.pointers@.len(),
        0 <= ci < world.cameras@.len(),
        !world.cameras@[ci].active,
    ensures
        pair_events(settings, world, pi, ci) =~= Seq::empty(),
{
}

/// No emitted record names an inactive camera.
pub proof fn lemma_inactive_camera_no_events(
    settings: RapierBackendSettings,
    world: WorldSnapshot,
    camera: u64,
)
    requires
        forall|i: int|
            0 <= i < world.cameras@.len() && (#[trigger] world.cameras@[i]).id == camera
                ==> !world.cameras@[i].active,
    ensures
        forall|k: int|
            0 <= k < events_for(settings, world).len() ==> (#[trigger] events_for(
                settings,
                world,
            )[k]).record.camera != camera,
{
    assert forall|k: int| 0 <= k < events_for(settings, world).len() implies (#[trigger] events_for(
        settings,
        world,
    )[k]).record.camera != camera by {
        let (pi, ci) = lemma_event_source(settings, world, k);
        lemma_pair_yields_shape(settings, world, pi, ci, events_for(settings, world)[k]);
    };
}

/// Two snapshots that agree on everything except what the projection table
/// holds for camera `ci`.
pub open spec fn agree_except_camera_rays(w1: WorldSnapshot, w2: WorldSnapshot, ci: int) -> bool {
    &&& w2.pointers == w1.pointers
    &&& w2.cameras == w1.cameras
    &&& w2.objects == w1.objects
    &&& w2.primary_window == w1.primary_window
    &&& forall|i: int, j: int|
        #![trigger w2.projections@[i]@[j]]
        0 <= i < w1.projections@.len() && 0 <= j < w1.projections@[i]@.len() && j != ci
            ==> w2.projections@[i]@[j] == w1.projections@[i]@[j]
}

proof fn pair_events_agree(
    settings: RapierBackendSettings,
    w1: WorldSnapshot,
    w2: WorldSnapshot,
    ci: int,
    pi: int,
    j: int,
)
    requires
        w1.wf(),
        w2.wf(),
        agree_except_camera_rays(w1, w2, ci),
        !w1.cameras@[ci].active,
        0 <= pi < w1.pointers@.len(),
        0 <= j < w1.cameras@.len(),
    ensures
        pair_events(settings, w1, pi, j) == pair_events(settings, w2, pi, j),
{
    if j == ci {
        lemma_inactive_camera_casts_nothing(settings, w1, pi, ci);
        lemma_inactive_camera_casts_nothing(settings, w2, pi, ci);
    } else {
        assert(w2.projections@[pi]@[j] == w1.projections@[pi]@[j]);
    }
}

proof fn camera_events_agree_upto(
    settings: RapierBackendSettings,
    w1: WorldSnapshot,
    w2: WorldSnapshot,
    ci: int,
    pi: int,
    n: int,
)
    requires
        w1.wf(),
        w2.wf(),
        agree_except_camera_rays(w1, w2, ci),
        !w1.cameras@[ci].active,
        0 <= pi < w1.pointers@.len(),
        0 <= n <= w1.cameras@.len(),
    ensures
        camera_events_upto(settings, w1, pi, n) == camera_events_upto(settings, w2, pi, n),
    decreases n,
{
    if n > 0 {
        camera_events_agree_upto(settings, w1, w2, ci, pi, n - 1);
        pair_events_agree(settings, w1, w2, ci, pi, n - 1);
    }
}

proof fn events_agree_upto(
    settings: RapierBackendSettings,
    w1: WorldSnapshot,
    w2: WorldSnapshot,
    ci: int,
    n: int,
)
    requires
        w1.wf(),
        w2.wf(),
        agree_except_camera_rays(w1, w2, ci),
        0 <= ci < w1.cameras@.len(),
        !w1.cameras@[ci].active,
        0 <= n <= w1.pointers@.len(),
    ensures
        events_upto(settings, w1, n) == events_upto(settings, w2, n),
    decreases n,
{
    if n > 0 {
        events_agree_upto(settings, w1, w2, ci, n - 1);
        if w1.pointers@[n - 1].location is Some {
            camera_events_agree_upto(settings, w1, w2, ci, n - 1, w1.cameras@.len() as int);
        }
    }
}

/// No ray is ever projected from an inactive camera, stated over the whole
/// pass: two snapshots that agree on everything except what the projection
/// table holds for one inactive camera produce identical events.
pub proof fn lemma_inactive_camera_ray_irrelevant(
    settings: RapierBackendSettings,
    w1: WorldSnapshot,
    w2: WorldSnapshot,
    ci: int,
)
    requires
        w1.wf(),
        w2.wf(),
        agree_except_camera_rays(w1, w2, ci),
        0 <= ci < w1.cameras@.len(),
        !w1.cameras@[ci].active,
    ensures
        events_for(settings, w1) == events_for(settings, w2),
{
    events_agree_upto(settings, w1, w2, ci, w1.pointers@.len() as int);
}

/// When markers are required, every emitted hit names a marked object, and
/// every camera a hit is reported through is marked as well.
pub proof fn lemma_require_markers_respected(
    settings: RapierBackendSettings,
    world: WorldSnapshot,
)
    requires
        world.wf(),
        settings.require_markers,
    ensures
        forall|k: int|
            0 <= k < events_for(settings, world).len() ==> props_of(
                world.objects@,
                (#[trigger] events_for(settings, world)[k]).object,
            ).marked,
        forall|k: int, ci: int|
            #![trigger events_for(settings, world)[k], world.cameras@[ci]]
            0 <= k < events_for(settings, world).len() && 0 <= ci < world.cameras@.len()
                && world.cameras@[ci].id == events_for(settings, world)[k].record.camera
                ==> world.cameras@[ci].marked,
{
    assert forall|k: int| 0 <= k < events_for(settings, world).len() implies props_of(
        world.objects@,
        (#[trigger] events_for(settings, world)[k]).object,
    ).marked by {
        let (pi, ci) = lemma_event_source(settings, world, k);
        lemma_pair_yields_shape(settings, world, pi, ci, events_for(settings, world)[k]);
    };
    assert forall|k: int, ci: int|
        #![trigger events_for(settings, world)[k], world.cameras@[ci]]
        0 <= k < events_for(settings, world).len() && 0 <= ci < world.cameras@.len()
            && world.cameras@[ci].id == events_for(settings, world)[k].record.camera implies world
        .cameras@[ci].marked by {
        let (pi, ci0) = lemma_event_source(settings, world, k);
        lemma_pair_yields_shape(settings, world, pi, ci0, events_for(settings, world)[k]);
        assert(world.cameras@[ci0].marked);
        if ci != ci0 {
            assert(world.cameras@[ci].id != world.cameras@[ci0].id);
        }
    };
}

/// A camera and an object that both lack explicit layer masks always share
/// a layer: the defaults intersect.
pub proof fn lemma_default_layers_intersect()
    ensures
        layers_intersect(None, None),
{
    assert((0xFFFF_FFFFu32 & 1u32) != 0u32) by (bit_vector);
}

/// An object with no explicit layer mask passes the filter of a camera with
/// no explicit mask as soon as the marker gate and the pickability check
/// hold.
pub proof fn lemma_default_layers_accept(settings: RapierBackendSettings, props: ObjectProps)
    requires
        props.layers is None,
        marker_gate(settings.require_markers, props.marked),
        is_pickable(props.pickability),
    ensures
        object_accepted_spec(settings, None, props),
{
    lemma_default_layers_intersect();
}

/// An object that explicitly opts out of picking never appears in any
/// emitted hit, however near it lies.
pub proof fn lemma_ignored_object_never_hit(
    settings: RapierBackendSettings,
    world: WorldSnapshot,
    object: u64,
)
    requires
        props_of(world.objects@, object).pickability == Some(PickPolicy::Ignore),
    ensures
        forall|k: int|
            0 <= k < events_for(settings, world).len() ==> (#[trigger] events_for(
                settings,
                world,
            )[k]).object != object,
{
    assert forall|k: int| 0 <= k < events_for(settings, world).len() implies (#[trigger] events_for(
        settings,
        world,
    )[k]).object != object by {
        let (pi, ci) = lemma_event_source(settings, world, k);
        lemma_pair_yields_shape(settings, world, pi, ci, events_for(settings, world)[k]);
    };
}

/// The backface skip: when the first cast strikes a backfacing surface and
/// the retry finds an accepted surface that is not backfacing, the caster
/// reports the second surface, at the first leg's distance plus the second
/// leg's — the second surface's total travel distance.
pub proof fn lemma_backface_skip(
    scene: Seq<SurfaceHit>,
    settings: RapierBackendSettings,
    cam_layers: Option<u32>,
    objects: Seq<ObjectProps>,
    cam: u64,
    h1: SurfaceHit,
    h2: SurfaceHit,
)
    requires
        cast_spec(scene, settings, cam_layers, objects, None) == Some(h1),
        h1.facing == Facing::Back,
        cast_spec(scene, settings, cam_layers, objects, Some(h1.dist)) == Some(h2),
        h2.facing != Facing::Back,
    ensures
        h2.dist > h1.dist,
        resolve_spec(scene, settings, cam_layers, objects, cam) == Some(
            (
                h2.object,
                (HitRecord {
                    camera: cam,
                    distance: (h1.dist + (h2.dist - h1.dist)) as u64,
                    point: h2.point,
                    normal: h2.normal,
                }),
            ),
        ),
{
    lemma_cast_from_found(scene, 0, settings, cam_layers, objects, Some(h1.dist));
    assert(h2.dist > h1.dist);
    let st1 = CasterState { casts_done: 1u32, start: Some(h1.dist) };
    assert(resolve_spec(scene, settings, cam_layers, objects, cam) == resolve_from(
        scene,
        settings,
        cam_layers,
        objects,
        cam,
        st1,
    ));
}

/// The retry budget is a hard boundary: when the first two casts both
/// strike backfacing surfaces, the caster gives up and no hit is reported,
/// even if a front-facing surface lies farther along the ray.
pub proof fn lemma_backface_chain_gives_up(
    scene: Seq<SurfaceHit>,
    settings: RapierBackendSettings,
    cam_layers: Option<u32>,
    objects: Seq<ObjectProps>,
    cam: u64,
    h1: SurfaceHit,
    h2: SurfaceHit,
)
    requires
        cast_spec(scene, settings, cam_layers, objects, None) == Some(h1),
        h1.facing == Facing::Back,
        cast_spec(scene, settings, cam_layers, objects, Some(h1.dist)) == Some(h2),
        h2.facing == Facing::Back,
    ensures
        resolve_spec(scene, settings, cam_layers, objects, cam) is None,
{
    let st1 = CasterState { casts_done: 1u32, start: Some(h1.dist) };
    assert(resolve_spec(scene, settings, cam_layers, objects, cam) == resolve_from(
        scene,
        settings,
        cam_layers,
        objects,
        cam,
        st1,
    ));
}

} // verus!
