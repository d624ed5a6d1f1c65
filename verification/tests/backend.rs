//! Scenario tests for the resolution pass, with small helper builders for
//! snapshots: one pointer row per pointer, one projection entry per camera.

use bevy_picking_rapier::caster::cast_nearest;
use bevy_picking_rapier::caster::caster_step;
use bevy_picking_rapier::caster::CasterState;
use bevy_picking_rapier::caster::StepVerdict;
use bevy_picking_rapier::filter::lookup_props;
use bevy_picking_rapier::filter::object_accepted;
use bevy_picking_rapier::pass::update_hits;
use bevy_picking_rapier::select::camera_eligible;
use bevy_picking_rapier::select::viewport_local;
use bevy_picking_rapier::types::CameraState;
use bevy_picking_rapier::types::Facing;
use bevy_picking_rapier::types::HitRecord;
use bevy_picking_rapier::types::ObjectProps;
use bevy_picking_rapier::types::PickPolicy;
use bevy_picking_rapier::types::Point2;
use bevy_picking_rapier::types::Point3;
use bevy_picking_rapier::types::PointerState;
use bevy_picking_rapier::types::Projection;
use bevy_picking_rapier::types::RapierBackendSettings;
use bevy_picking_rapier::types::Rect;
use bevy_picking_rapier::types::SurfaceHit;
use bevy_picking_rapier::types::WorldSnapshot;

fn p2(x: i64, y: i64) -> Point2 {
    Point2 { x, y }
}

fn p3(x: i64, y: i64, z: i64) -> Point3 {
    Point3 { x, y, z }
}

fn window() -> Rect {
    Rect { min: p2(0, 0), max: p2(800, 600) }
}

fn pointer(id: u64, location: Option<Point2>) -> PointerState {
    PointerState { id, location }
}

fn camera(id: u64) -> CameraState {
    CameraState { id, active: true, order: 0, viewport: None, layers: None, marked: false }
}

fn object(id: u64) -> ObjectProps {
    ObjectProps { id, layers: None, marked: false, pickability: None }
}

fn surface(object: u64, dist: u64, facing: Facing) -> SurfaceHit {
    SurfaceHit { object, dist, point: p3(0, 0, dist as i64), normal: p3(0, 0, -1), facing }
}

fn settings(require_markers: bool) -> RapierBackendSettings {
    RapierBackendSettings { require_markers }
}

/// One pointer at the viewport center, one camera, one ray.
fn single_ray_world(surfaces: Vec<SurfaceHit>, objects: Vec<ObjectProps>) -> WorldSnapshot {
    WorldSnapshot {
        pointers: vec![pointer(1, Some(p2(400, 300)))],
        cameras: vec![camera(10)],
        objects,
        primary_window: window(),
        projections: vec![vec![Projection::Ray(surfaces)]],
    }
}

#[test]
fn pointer_center_single_camera_sphere() {
    // An active unmarked camera, an unflagged sphere directly ahead: exactly
    // one event naming the sphere, hit on the near side of the shell.
    let world = single_ray_world(
        vec![surface(100, 5, Facing::Front), surface(100, 7, Facing::Back)],
        vec![object(100)],
    );
    let events = update_hits(&settings(false), &world);
    assert_eq!(events.len(), 1);
    assert_eq!(events[0].pointer, 1);
    assert_eq!(events[0].object, 100);
    assert_eq!(events[0].record.camera, 10);
    assert_eq!(events[0].record.distance, 5);
    assert_eq!(events[0].record.point, p3(0, 0, 5));
    assert_eq!(events[0].order, 0);
}

#[test]
fn backface_entry_reports_far_surface() {
    // The ray enters a double-sided shell through a backface: the retry
    // reports the far, front-facing surface at the combined distance.
    let world = single_ray_world(
        vec![surface(100, 4, Facing::Back), surface(100, 6, Facing::Front)],
        vec![object(100)],
    );
    let events = update_hits(&settings(false), &world);
    assert_eq!(events.len(), 1);
    assert_eq!(events[0].object, 100);
    assert_eq!(events[0].record.distance, 4 + (6 - 4));
    assert_eq!(events[0].record.point, p3(0, 0, 6));
}

#[test]
fn backface_entry_unmarked_sphere_with_markers_required() {
    // Same shell, but markers are required and the sphere is unmarked: the
    // filter rejects it and nothing is emitted, even through a marked camera.
    let mut world = single_ray_world(
        vec![surface(100, 4, Facing::Back), surface(100, 6, Facing::Front)],
        vec![object(100)],
    );
    world.cameras[0].marked = true;
    let events = update_hits(&settings(true), &world);
    assert_eq!(events.len(), 0);
}

#[test]
fn pointer_without_location_no_events() {
    let mut world = single_ray_world(vec![surface(100, 5, Facing::Front)], vec![object(100)]);
    world.pointers = vec![pointer(1, None)];
    let events = update_hits(&settings(false), &world);
    assert_eq!(events.len(), 0);
}

#[test]
fn located_pointer_hits_while_unlocated_is_skipped() {
    let world = WorldSnapshot {
        pointers: vec![pointer(1, None), pointer(2, Some(p2(10, 10)))],
        cameras: vec![camera(10)],
        objects: vec![object(100)],
        primary_window: window(),
        projections: vec![
            vec![Projection::Ray(vec![surface(100, 3, Facing::Front)])],
            vec![Projection::Ray(vec![surface(100, 3, Facing::Front)])],
        ],
    };
    let events = update_hits(&settings(false), &world);
    assert_eq!(events.len(), 1);
    assert_eq!(events[0].pointer, 2);
}

#[test]
fn inactive_camera_no_events() {
    let mut world = single_ray_world(vec![surface(100, 5, Facing::Front)], vec![object(100)]);
    world.cameras[0].active = false;
    let events = update_hits(&settings(false), &world);
    assert_eq!(events.len(), 0);
}

#[test]
fn unmarked_camera_skipped_when_markers_required() {
    let mut world = single_ray_world(vec![surface(100, 5, Facing::Front)], vec![object(100)]);
    world.objects[0].marked = true;
    let events = update_hits(&settings(true), &world);
    assert_eq!(events.len(), 0);
}

#[test]
fn marked_camera_and_object_hit_when_markers_required() {
    let mut world = single_ray_world(vec![surface(100, 5, Facing::Front)], vec![object(100)]);
    world.cameras[0].marked = true;
    world.objects[0].marked = true;
    let events = update_hits(&settings(true), &world);
    assert_eq!(events.len(), 1);
    assert_eq!(events[0].object, 100);
}

#[test]
fn default_layers_intersect_hit() {
    // Camera and object both without explicit layer masks: the defaults
    // intersect and the hit goes through.
    let world = single_ray_world(vec![surface(100, 5, Facing::Front)], vec![object(100)]);
    let events = update_hits(&settings(false), &world);
    assert_eq!(events.len(), 1);
}

#[test]
fn disjoint_layers_no_hit() {
    let mut world = single_ray_world(vec![surface(100, 5, Facing::Front)], vec![object(100)]);
    world.cameras[0].layers = Some(0b10);
    world.objects[0].layers = Some(0b01);
    let events = update_hits(&settings(false), &world);
    assert_eq!(events.len(), 0);
}

#[test]
fn ignored_object_invisible() {
    // The explicitly ignored object neither appears nor blocks: the cast
    // reports the accepted object behind it.
    let near_ignored = ObjectProps {
        id: 50,
        layers: None,
        marked: false,
        pickability: Some(PickPolicy::Ignore),
    };
    let world = single_ray_world(
        vec![surface(50, 3, Facing::Front), surface(100, 8, Facing::Front)],
        vec![near_ignored, object(100)],
    );
    let events = update_hits(&settings(false), &world);
    assert_eq!(events.len(), 1);
    assert_eq!(events[0].object, 100);
    assert_eq!(events[0].record.distance, 8);
}

#[test]
fn only_ignored_object_no_events() {
    let near_ignored = ObjectProps {
        id: 50,
        layers: None,
        marked: false,
        pickability: Some(PickPolicy::Ignore),
    };
    let world = single_ray_world(vec![surface(50, 3, Facing::Front)], vec![near_ignored]);
    let events = update_hits(&settings(false), &world);
    assert_eq!(events.len(), 0);
}

#[test]
fn two_backfaces_no_event() {
    // Two consecutive backfaces exhaust the retry budget: no event, even
    // with a front-facing surface farther along the ray.
    let world = single_ray_world(
        vec![
            surface(100, 3, Facing::Back),
            surface(100, 5, Facing::Back),
            surface(100, 9, Facing::Front),
        ],
        vec![object(100)],
    );
    let events = update_hits(&settings(false), &world);
    assert_eq!(events.len(), 0);
}

#[test]
fn unqueryable_normal_accepted() {
    // An object without queryable surface geometry is accepted on the
    // coarse hit, without a backface check.
    let world = single_ray_world(vec![surface(100, 5, Facing::Unknown)], vec![object(100)]);
    let events = update_hits(&settings(false), &world);
    assert_eq!(events.len(), 1);
    assert_eq!(events[0].record.distance, 5);
}

#[test]
fn rerun_unchanged_snapshot_identical() {
    let world = single_ray_world(
        vec![surface(100, 4, Facing::Back), surface(100, 6, Facing::Front)],
        vec![object(100)],
    );
    let cfg = settings(false);
    let first = update_hits(&cfg, &world);
    let second = update_hits(&cfg, &world);
    assert_eq!(first, second);
}

#[test]
fn two_cameras_two_events() {
    // Hits are emitted per camera; the consumer arbitrates by the draw-order
    // ranking key.
    let mut far_camera = camera(11);
    far_camera.order = 7;
    let world = WorldSnapshot {
        pointers: vec![pointer(1, Some(p2(100, 100)))],
        cameras: vec![camera(10), far_camera],
        objects: vec![object(100)],
        primary_window: window(),
        projections: vec![vec![
            Projection::Ray(vec![surface(100, 2, Facing::Front)]),
            Projection::Ray(vec![surface(100, 9, Facing::Front)]),
        ]],
    };
    let events = update_hits(&settings(false), &world);
    assert_eq!(events.len(), 2);
    assert_eq!(events[0].record.camera, 10);
    assert_eq!(events[0].order, 0);
    assert_eq!(events[1].record.camera, 11);
    assert_eq!(events[1].order, 7);
    assert_eq!(events[1].record.distance, 9);
}

#[test]
fn projection_failure_camera_dropped() {
    let world = WorldSnapshot {
        pointers: vec![pointer(1, Some(p2(100, 100)))],
        cameras: vec![camera(10), camera(11)],
        objects: vec![object(100)],
        primary_window: window(),
        projections: vec![vec![
            Projection::Failed,
            Projection::Ray(vec![surface(100, 9, Facing::Front)]),
        ]],
    };
    let events = update_hits(&settings(false), &world);
    assert_eq!(events.len(), 1);
    assert_eq!(events[0].record.camera, 11);
}

#[test]
fn empty_world_no_events() {
    let world = WorldSnapshot {
        pointers: vec![],
        cameras: vec![],
        objects: vec![],
        primary_window: window(),
        projections: vec![],
    };
    let events = update_hits(&settings(false), &world);
    assert_eq!(events.len(), 0);
}

#[test]
fn pointer_outside_viewport_not_eligible() {
    let mut cam = camera(10);
    cam.viewport = Some(Rect { min: p2(100, 50), max: p2(300, 250) });
    assert!(!camera_eligible(&settings(false), &cam, p2(99, 60), &window()));
    // Bounds are inclusive on all four edges.
    assert!(camera_eligible(&settings(false), &cam, p2(100, 50), &window()));
    assert!(camera_eligible(&settings(false), &cam, p2(300, 250), &window()));
    assert!(!camera_eligible(&settings(false), &cam, p2(301, 250), &window()));
}

#[test]
fn viewport_local_subtracts_viewport_origin() {
    let mut cam = camera(10);
    cam.viewport = Some(Rect { min: p2(100, 50), max: p2(300, 250) });
    assert_eq!(viewport_local(&cam, p2(160, 90)), p2(60, 40));
    let plain = camera(11);
    assert_eq!(viewport_local(&plain, p2(160, 90)), p2(160, 90));
}

#[test]
fn filter_marker_requirement() {
    let cfg = settings(true);
    assert!(!object_accepted(&cfg, None, &object(100)));
    let mut marked = object(100);
    marked.marked = true;
    assert!(object_accepted(&cfg, None, &marked));
}

#[test]
fn lookup_props_defaults_for_unlisted_object() {
    let objects = vec![object(100)];
    let got = lookup_props(&objects, 999);
    assert_eq!(got.id, 999);
    assert_eq!(got.layers, None);
    assert!(!got.marked);
    assert_eq!(got.pickability, None);
}

#[test]
fn cast_excludes_surfaces_at_or_before_start() {
    let scene = vec![
        surface(100, 3, Facing::Front),
        surface(101, 5, Facing::Front),
        surface(102, 5, Facing::Front),
    ];
    let objects = vec![object(100), object(101), object(102)];
    let cfg = settings(false);
    let first = cast_nearest(&scene, &cfg, None, &objects, None);
    assert_eq!(first.map(|h| h.object), Some(100));
    // A start at distance 3 excludes the surface struck there; of the two
    // equally distant surfaces, the one listed first wins.
    let second = cast_nearest(&scene, &cfg, None, &objects, Some(3));
    assert_eq!(second.map(|h| h.object), Some(101));
    let none = cast_nearest(&scene, &cfg, None, &objects, Some(5));
    assert!(none.is_none());
}

#[test]
fn inactive_camera_projection_row_irrelevant() {
    // Whatever the projection table holds for an inactive camera, the
    // output is the same: no ray is ever projected from it.
    let mut inactive = camera(11);
    inactive.active = false;
    let base = |entry: Projection| WorldSnapshot {
        pointers: vec![pointer(1, Some(p2(100, 100)))],
        cameras: vec![camera(10), inactive],
        objects: vec![object(100)],
        primary_window: window(),
        projections: vec![vec![Projection::Ray(vec![surface(100, 2, Facing::Front)]), entry]],
    };
    let w1 = base(Projection::Ray(vec![surface(100, 1, Facing::Front)]));
    let w2 = base(Projection::Failed);
    let cfg = settings(false);
    assert_eq!(update_hits(&cfg, &w1), update_hits(&cfg, &w2));
}

#[test]
fn caster_step_verdicts() {
    let fresh = CasterState { casts_done: 0, start: None };

    // A miss gives up at once.
    let (_, verdict) = caster_step(fresh, 10, None);
    assert_eq!(verdict, StepVerdict::GiveUp);

    // A front-facing hit is accepted with the surface's total distance.
    let (_, verdict) = caster_step(fresh, 10, Some(surface(100, 5, Facing::Front)));
    assert_eq!(
        verdict,
        StepVerdict::Accept(
            100,
            HitRecord { camera: 10, distance: 5, point: p3(0, 0, 5), normal: p3(0, 0, -1) },
        ),
    );

    // A backfacing hit with budget left advances past the surface.
    let (next, verdict) = caster_step(fresh, 10, Some(surface(100, 5, Facing::Back)));
    assert_eq!(verdict, StepVerdict::Retry);
    assert_eq!(next, CasterState { casts_done: 1, start: Some(5) });

    // A backfacing hit on the last cast gives up.
    let (_, verdict) = caster_step(next, 10, Some(surface(100, 9, Facing::Back)));
    assert_eq!(verdict, StepVerdict::GiveUp);
}
