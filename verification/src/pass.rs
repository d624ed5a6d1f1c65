//! The whole per-tick resolution pass: for each pointer with a location,
//! each eligible camera's ray is resolved and every accepted hit becomes one
//! event.  The pass retains nothing between ticks; its output is a function
//! of the snapshot and the settings alone.

use vstd::prelude::*;

use crate::caster::resolve_ray;
use crate::caster::resolve_spec;
use crate::select::camera_eligible;
use crate::select::camera_eligible_spec;
use crate::types::HitEvent;
use crate::types::Projection;
use crate::types::RapierBackendSettings;
use crate::types::WorldSnapshot;

verus! {

/// The events one (pointer, camera) pair contributes: one event when the
/// pointer has a location, the camera is eligible for it, the projection
/// succeeded and the caster accepted a hit; none otherwise.
pub open spec fn pair_events(
    settings: RapierBackendSettings,
    world: WorldSnapshot,
    pi: int,
    ci: int,
) -> Seq<HitEvent> {
    let p = world.pointers@[pi];
    let cam = world.cameras@[ci];
    match p.location {
        None => Seq::empty(),
        Some(loc) => if camera_eligible_spec(settings, cam, loc, world.primary_window) {
            match world.projections@[pi]@[ci] {
                Projection::Failed => Seq::empty(),
                Projection::Ray(scene) => match resolve_spec(
                    scene@,
                    settings,
                    cam.layers,
                    world.objects@,
                    cam.id,
                ) {
                    None => Seq::empty(),
                    Some((object, record)) => seq![
                        HitEvent { pointer: p.id, object, record, order: cam.order },
                    ],
                },
            }
        } else {
            Seq::empty()
        },
    }
}

/// The events pointer `pi` gathers from the first `n` cameras.
pub open spec fn camera_events_upto(
    settings: RapierBackendSettings,
    world: WorldSnapshot,
    pi: int,
    n: int,
) -> Seq<HitEvent>
    decreases n,
{
    if n <= 0 {
        Seq::empty()
    } else {
        camera_events_upto(settings, world, pi, n - 1) + pair_events(settings, world, pi, n - 1)
    }
}

/// The events pointer `pi` contributes this tick: nothing when it has no
/// location, its events across all cameras otherwise.
pub open spec fn pointer_events(
    settings: RapierBackendSettings,
    world: WorldSnapshot,
    pi: int,
) -> Seq<HitEvent> {
    if world.pointers@[pi].location is Some {
        camera_events_upto(settings, world, pi, world.cameras@.len() as int)
    } else {
        Seq::empty()
    }
}

/// The events the first `n` pointers contribute, in pointer order.
pub open spec fn events_upto(
    settings: RapierBackendSettings,
    world: WorldSnapshot,
    n: int,
) -> Seq<HitEvent>
    decreases n,
{
    if n <= 0 {
        Seq::empty()
    } else {
        events_upto(settings, world, n - 1) + pointer_events(settings, world, n - 1)
    }
}

/// Every event the resolution pass emits for this snapshot, in order.
pub open spec fn events_for(settings: RapierBackendSettings, world: WorldSnapshot) -> Seq<
    HitEvent,
> {
    events_upto(settings, world, world.pointers@.len() as int)
}

/// Runs the resolution pass once: for every pointer with a location and
/// every camera eligible for it, resolves the projected ray with the
/// backface-skipping caster and emits one event per accepted hit.
///
/// The output is exactly [`events_for`], a function of the settings and the
/// snapshot alone: re-running the pass on an unchanged snapshot yields
/// identical events.
#[verifier::loop_isolation(false)]
pub fn update_hits(settings: &RapierBackendSettings, world: &WorldSnapshot) -> (events: Vec<
    HitEvent,
>)
    requires
        world.wf(),
    ensures
        events@ == events_for(*settings, *world),
{
    let mut events: Vec<HitEvent> = Vec::new();
    let mut pi: usize = 0;
    while pi < world.pointers.len()
        invariant
            pi <= world.pointers@.len(),
            events@ == events_upto(*settings, *world, pi as int),
        decreases world.pointers@.len() - pi,
    {
        match world.pointers[pi].location {
            None => {
                proof {
                    assert(pointer_events(*settings, *world, pi as int) =~= Seq::empty());
                    assert(events_upto(*settings, *world, pi as int + 1) =~= events@);
                }
            },
            Some(loc) => {
                let mut ci: usize = 0;
                while ci < world.cameras.len()
                    invariant
                        pi < world.pointers@.len(),
                        world.pointers@[pi as int].location == Some(loc),
                        ci <= world.cameras@.len(),
                        events@ == events_upto(*settings, *world, pi as int)
                            + camera_events_upto(*settings, *world, pi as int, ci as int),
                    decreases world.cameras@.len() - ci,
                {
                    let cam = world.cameras[ci];
                    if camera_eligible(settings, &cam, loc, &world.primary_window) {
                        match &world.projections[pi][ci] {
                            Projection::Failed => {},
                            Projection::Ray(scene) => {
                                match resolve_ray(
                                    scene,
                                    settings,
                                    cam.layers,
                                    &world.objects,
                                    cam.id,
                                ) {
                                    None => {},
                                    Some((object, record)) => {
                                        events.push(
                                            HitEvent {
                                                pointer: world.pointers[pi].id,
                                                object,
                                                record,
                                                order: cam.order,
                                            },
                                        );
                                    },
                                }
                            },
                        }
                    }
                    proof {
                        assert(events@ == events_upto(*settings, *world, pi as int)
                            + camera_events_upto(*settings, *world, pi as int, ci as int)
                            + pair_events(*settings, *world, pi as int, ci as int));
                        assert(events@ =~= events_upto(*settings, *world, pi as int)
                            + camera_events_upto(*settings, *world, pi as int, ci as int + 1));
                    }
                    ci += 1;
                }
                proof {
                    assert(pointer_events(*settings, *world, pi as int) == camera_events_upto(
                        *settings,
                        *world,
                        pi as int,
                        world.cameras@.len() as int,
                    ));
                    assert(events@ =~= events_upto(*settings, *world, pi as int + 1));
                }
            },
        }
        pi += 1;
    }
    events
}

} // verus!
