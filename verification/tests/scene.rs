//! Tests for the scene side: proxy cache, pickability binding, spawning,
//! and drag manipulation.

use model_viewer::fixed::{Vec3Fx, add_sat, clamp_i64, min_i64, mul_fx};
use model_viewer::manipulate::{
    DragButton, DragDelta, DragGesture, GestureWarning, SceneStage, YawFrame, apply_gesture,
    SCALE_STEP_MAX,
};
use model_viewer::picking::{ColorFx, Geometry, HighlightState, bind_pickability, highlight_tint};
use model_viewer::proxy::{Aabb, ProxyMeshCache};
use model_viewer::spawn::{
    CameraPose, InstanceTransform, ModelVisual, SpawnError, spawn_instance,
};

fn v3(x: i64, y: i64, z: i64) -> Vec3Fx {
    Vec3Fx { x, y, z }
}

fn aabb(cx: i64, cy: i64, cz: i64, hx: i64, hy: i64, hz: i64) -> Aabb {
    Aabb { center: v3(cx, cy, cz), half_extents: v3(hx, hy, hz) }
}

fn yaw_zero() -> YawFrame {
    YawFrame { sin: 0, cos: 1000 }
}

#[test]
fn fixed_point_multiply_truncates_toward_zero() {
    assert_eq!(mul_fx(1500, 1000), 1500);
    assert_eq!(mul_fx(1, 1), 0);
    assert_eq!(mul_fx(-1999, 1), -1);
    assert_eq!(mul_fx(-1500, 500), -750);
    assert_eq!(mul_fx(10_000, 50), 500);
}

#[test]
fn saturating_add_stops_at_the_ends() {
    assert_eq!(add_sat(1, 2), 3);
    assert_eq!(add_sat(i64::MAX, 1), i64::MAX);
    assert_eq!(add_sat(i64::MIN, -1), i64::MIN);
    assert_eq!(add_sat(i64::MIN, 5), i64::MIN + 5);
}

#[test]
fn clamp_and_min_behave() {
    assert_eq!(clamp_i64(5, -10, 0), 0);
    assert_eq!(clamp_i64(-15, -10, 0), -10);
    assert_eq!(clamp_i64(-7, -10, 0), -7);
    assert_eq!(min_i64(3, 4), 3);
    assert_eq!(min_i64(4, 3), 3);
}

#[test]
fn proxy_is_stable_per_source_mesh() {
    let mut cache = ProxyMeshCache::new();
    let first = cache.get_or_create(42, aabb(0, 0, 0, 1000, 1000, 1000));
    let second = cache.get_or_create(42, aabb(5, 5, 5, 9, 9, 9));
    assert_eq!(first, second);
    assert_eq!(cache.entries.len(), 1);
}

#[test]
fn distinct_sources_get_distinct_proxies() {
    let mut cache = ProxyMeshCache::new();
    let a = cache.get_or_create(1, aabb(0, 0, 0, 1, 1, 1));
    let b = cache.get_or_create(2, aabb(0, 0, 0, 1, 1, 1));
    assert_ne!(a, b);
}

#[test]
fn proxy_box_spans_the_bounding_volume() {
    let mut cache = ProxyMeshCache::new();
    cache.get_or_create(7, aabb(1000, 2000, 3000, 100, 200, 300));
    let mesh = cache.entries[0].mesh;
    assert_eq!(mesh.min, v3(900, 1800, 2700));
    assert_eq!(mesh.max, v3(1100, 2200, 3300));
}

#[test]
fn binding_is_idempotent_per_instance() {
    let mut cache = ProxyMeshCache::new();
    let mut geometry = vec![
        Geometry { entity: 1, mesh: 10, bounds: aabb(0, 0, 0, 1, 1, 1), pickability: None },
        Geometry { entity: 2, mesh: 10, bounds: aabb(0, 0, 0, 1, 1, 1), pickability: None },
        Geometry { entity: 3, mesh: 11, bounds: aabb(0, 0, 0, 2, 2, 2), pickability: None },
    ];
    bind_pickability(&mut geometry, &mut cache);
    // Shared geometry shares its proxy; different geometry does not.
    let p0 = geometry[0].pickability.unwrap();
    let p1 = geometry[1].pickability.unwrap();
    let p2 = geometry[2].pickability.unwrap();
    assert_eq!(p0, p1);
    assert_ne!(p0, p2);
    assert_eq!(cache.entries.len(), 2);
    // A second pass neither rebinds nor grows the cache.
    bind_pickability(&mut geometry, &mut cache);
    assert_eq!(geometry[0].pickability.unwrap(), p0);
    assert_eq!(geometry[2].pickability.unwrap(), p2);
    assert_eq!(cache.entries.len(), 2);
}

#[test]
fn highlight_tints_are_exact() {
    let base = ColorFx { r: 600, g: 600, b: 600, a: 1000 };
    let hovered = highlight_tint(HighlightState::Hovered, base);
    assert_eq!(hovered, ColorFx { r: 100, g: 300, b: 1500, a: 1800 });
    let pressed = highlight_tint(HighlightState::Pressed, base);
    assert_eq!(pressed, ColorFx { r: 200, g: 200, b: 1400, a: 1800 });
    let selected = highlight_tint(HighlightState::Selected, base);
    assert_eq!(selected, ColorFx { r: 200, g: 1400, b: 200, a: 1000 });
}

#[test]
fn spawn_without_any_scene_reports_data_integrity_error() {
    let visual = ModelVisual { default_scene: None, scenes: vec![] };
    let camera = CameraPose { position: v3(0, 2000, 0), look: v3(0, 0, 1000), yaw: 0 };
    let r = spawn_instance(1, 0, &visual, &camera);
    assert_eq!(r, Err(SpawnError::MissingScene));
}

#[test]
fn spawn_prefers_default_scene_and_falls_back_to_first() {
    let camera = CameraPose { position: v3(0, 0, 0), look: v3(0, 0, 1000), yaw: 0 };
    let with_default = ModelVisual { default_scene: Some(8), scenes: vec![5, 6] };
    assert_eq!(spawn_instance(1, 0, &with_default, &camera).unwrap().scene, 8);
    let without_default = ModelVisual { default_scene: None, scenes: vec![5, 6] };
    assert_eq!(spawn_instance(1, 0, &without_default, &camera).unwrap().scene, 5);
}

#[test]
fn spawn_grounds_the_instance_in_front_of_the_camera() {
    // Camera 2 units up at the origin, looking along +z: the instance lands
    // 3 units back along z (1.5 times the height), on the ground, upright.
    let visual = ModelVisual { default_scene: Some(1), scenes: vec![] };
    let camera = CameraPose { position: v3(10_000, 2000, 0), look: v3(0, 0, 1000), yaw: 777 };
    let inst = spawn_instance(4, 9, &visual, &camera).unwrap();
    assert_eq!(inst.model_id, 4);
    assert_eq!(inst.entity, 9);
    assert_eq!(inst.transform.position, v3(10_000, 0, -3000));
    assert_eq!(inst.transform.yaw, 777);
    assert_eq!(inst.transform.log_scale, 0);
    assert!(inst.manipulable);
}

#[test]
fn primary_drag_at_zero_yaw_moves_only_along_x() {
    // Drag (10 px, 0) with the primary button at yaw 0: x gains
    // 10 px * 0.05 = 0.5 units; z does not move.
    let mut t = InstanceTransform { position: v3(0, 0, 0), yaw: 0, log_scale: 0 };
    apply_gesture(&mut t, DragButton::Primary, DragDelta { x: 10_000, y: 0 }, yaw_zero());
    assert_eq!(t.position, v3(500, 0, 0));
    assert_eq!(t.yaw, 0);
    assert_eq!(t.log_scale, 0);
}

#[test]
fn secondary_drag_scales_by_e_per_hundred_pixels() {
    // Drag (0, -100 px) with the secondary button multiplies the scale by
    // exp(1): one whole unit in the logarithm, under the tenfold cap.
    let mut t = InstanceTransform { position: v3(0, 0, 0), yaw: 0, log_scale: 0 };
    apply_gesture(&mut t, DragButton::Secondary, DragDelta { x: 0, y: -100_000 }, yaw_zero());
    assert_eq!(t.log_scale, 1000);
    assert_eq!(t.position, v3(0, 0, 0));
    assert_eq!(t.yaw, 0);
}

#[test]
fn secondary_drag_scale_step_is_capped_at_tenfold() {
    let mut t = InstanceTransform { position: v3(0, 0, 0), yaw: 0, log_scale: 0 };
    apply_gesture(&mut t, DragButton::Secondary, DragDelta { x: 0, y: -1_000_000 }, yaw_zero());
    assert_eq!(t.log_scale, SCALE_STEP_MAX);
}

#[test]
fn secondary_drag_spins_with_horizontal_delta() {
    // 50 px of horizontal drag turn the yaw by one radian.
    let mut t = InstanceTransform { position: v3(0, 0, 0), yaw: 0, log_scale: 0 };
    apply_gesture(&mut t, DragButton::Secondary, DragDelta { x: 50_000, y: 0 }, yaw_zero());
    assert_eq!(t.yaw, 1000);
}

#[test]
fn middle_drag_lifts_against_vertical_delta() {
    let mut t = InstanceTransform { position: v3(0, 0, 0), yaw: 0, log_scale: 0 };
    apply_gesture(&mut t, DragButton::Middle, DragDelta { x: 0, y: -10_000 }, yaw_zero());
    assert_eq!(t.position, v3(0, 500, 0));
}

#[test]
fn primary_drag_follows_the_camera_yaw_frame() {
    // With the camera turned a quarter circle (sin 1, cos 0), a horizontal
    // drag moves the instance along z, not x.
    let frame = YawFrame { sin: 1000, cos: 0 };
    let mut t = InstanceTransform { position: v3(0, 0, 0), yaw: 0, log_scale: 0 };
    apply_gesture(&mut t, DragButton::Primary, DragDelta { x: 10_000, y: 0 }, frame);
    assert_eq!(t.position.x, 0);
    assert_eq!(t.position.z, -300);
}

#[test]
fn drag_routed_to_its_instance_only() {
    let mut stage = SceneStage::new();
    stage.instances.push(sample_instance(0));
    stage.instances.push(sample_instance(1));
    stage.next_entity = 2;
    let gesture = DragGesture {
        entity: 1,
        button: DragButton::Primary,
        delta: DragDelta { x: 10_000, y: 0 },
    };
    let r = stage.apply_drag(gesture, yaw_zero());
    assert!(r.is_ok());
    assert_eq!(stage.instances[0].transform.position, v3(0, 0, 0));
    assert_eq!(stage.instances[1].transform.position, v3(500, 0, 0));
}

#[test]
fn drag_for_missing_instance_is_a_warning() {
    let mut stage = SceneStage::new();
    stage.instances.push(sample_instance(0));
    stage.next_entity = 1;
    let gesture = DragGesture {
        entity: 42,
        button: DragButton::Middle,
        delta: DragDelta { x: 0, y: -1000 },
    };
    let r = stage.apply_drag(gesture, yaw_zero());
    assert_eq!(r, Err(GestureWarning::UnknownInstance));
    assert_eq!(stage.instances[0].transform.position, v3(0, 0, 0));
}

fn sample_instance(entity: u64) -> model_viewer::spawn::SceneInstance {
    model_viewer::spawn::SceneInstance {
        entity,
        model_id: 1,
        scene: 1,
        transform: InstanceTransform { position: v3(0, 0, 0), yaw: 0, log_scale: 0 },
        manipulable: true,
    }
}
