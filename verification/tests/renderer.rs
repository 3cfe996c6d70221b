use render_core::controller::{CameraController, CameraKey};
use render_core::instances::{make_grid, Instance, RotationKind, INSTANCES_PER_ROW};
use render_core::model::{MaterialDesc, MeshSource, ModelDesc};
use render_core::state::{classify_frame, RenderOutcome, State, SurfaceIssue};

fn sample_model() -> ModelDesc {
    let sources = vec![
        MeshSource {
            name: String::from("body"),
            num_elements: 36,
            material_id: Some(0),
        },
        MeshSource {
            name: String::from("lid"),
            num_elements: 12,
            material_id: None,
        },
    ];
    ModelDesc::assemble(sources, Vec::new())
}

#[test]
fn grid_has_one_instance_per_cell() {
    let n = INSTANCES_PER_ROW;
    let grid = make_grid(n);
    assert_eq!(grid.len(), (n * n) as usize);
}

#[test]
fn grid_center_is_identity_all_others_rotated() {
    let n = INSTANCES_PER_ROW;
    let grid = make_grid(n);
    for row in 0..n {
        for col in 0..n {
            let inst = &grid[(row * n + col) as usize];
            if 2 * col == n && 2 * row == n {
                assert_eq!(inst.rotation, RotationKind::Identity);
                assert_eq!((inst.x2, inst.y2, inst.z2), (0, 0, 0));
            } else {
                assert_eq!(inst.rotation, RotationKind::AboutPosition);
                assert!(inst.x2 != 0 || inst.z2 != 0);
            }
        }
    }
}

#[test]
fn grid_positions_are_spaced_and_centered() {
    let n = INSTANCES_PER_ROW;
    let grid = make_grid(n);
    for row in 0..n {
        for col in 0..n {
            let inst = &grid[(row * n + col) as usize];
            // Doubled integer coordinates halve to the world positions
            // 3.0 * (index - n/2) the grid is laid out with.
            let x = inst.x2 as f32 / 2.0;
            let z = inst.z2 as f32 / 2.0;
            assert_eq!(x, 3.0 * (col as f32 - n as f32 / 2.0));
            assert_eq!(z, 3.0 * (row as f32 - n as f32 / 2.0));
            assert_eq!(inst.y2, 0);
        }
    }
    let first = &grid[0];
    assert_eq!((first.x2, first.z2), (-30, -30));
}

#[test]
fn grid_generation_is_deterministic() {
    let a: Vec<Instance> = make_grid(7);
    let b: Vec<Instance> = make_grid(7);
    assert_eq!(a, b);
    // An odd-sized grid has no cell at the exact origin, so no identity
    // rotation appears.
    assert!(a.iter().all(|i| i.rotation == RotationKind::AboutPosition));
}

#[test]
fn press_sets_flag_and_consumes() {
    let mut c = CameraController::new(200);
    assert!(!c.forward_pressed);
    assert!(c.process_key(CameraKey::Forward, true));
    assert!(c.forward_pressed);
    assert!(c.process_key(CameraKey::Left, true));
    assert!(c.left_pressed && c.forward_pressed);
}

#[test]
fn release_stops_movement() {
    let mut c = CameraController::new(200);
    c.process_key(CameraKey::Forward, true);
    assert!(c.movement_plan(true).move_forward);
    c.process_key(CameraKey::Forward, false);
    let plan = c.movement_plan(true);
    assert!(!plan.move_forward);
    assert!(!plan.move_backward && !plan.strafe_left && !plan.strafe_right);
}

#[test]
fn backward_is_blocked_near_target() {
    let mut c = CameraController::new(200);
    c.process_key(CameraKey::Backward, true);
    // Caller reports the eye's distance to the target does not exceed the
    // movement step: no backward motion is planned.
    assert!(!c.movement_plan(false).move_backward);
    assert!(c.movement_plan(true).move_backward);
}

#[test]
fn plan_carries_speed_and_strafes() {
    let mut c = CameraController::new(150);
    c.process_key(CameraKey::Left, true);
    c.process_key(CameraKey::Right, true);
    let plan = c.movement_plan(true);
    assert_eq!(plan.speed_milli, 150);
    assert!(plan.strafe_left && plan.strafe_right);
    assert!(!plan.move_forward);
}

#[test]
fn empty_materials_get_single_fallback() {
    let model = sample_model();
    assert_eq!(model.materials.len(), 1);
    assert_eq!(model.materials[0].name, "no_material");
    for mesh in &model.meshes {
        assert!(mesh.material < model.materials.len());
    }
}

#[test]
fn absent_material_id_defaults_to_first() {
    let model = sample_model();
    assert_eq!(model.meshes.len(), 2);
    assert_eq!(model.meshes[0].name, "body");
    assert_eq!(model.meshes[0].num_elements, 36);
    assert_eq!(model.meshes[0].material, 0);
    assert_eq!(model.meshes[1].material, 0);
}

#[test]
fn supplied_materials_are_kept_and_ids_resolve() {
    let sources = vec![
        MeshSource {
            name: String::from("a"),
            num_elements: 3,
            material_id: Some(1),
        },
        MeshSource {
            name: String::from("b"),
            num_elements: 6,
            material_id: Some(9),
        },
    ];
    let materials = vec![
        MaterialDesc { name: String::from("stone") },
        MaterialDesc { name: String::from("wood") },
    ];
    let model = ModelDesc::assemble(sources, materials);
    assert_eq!(model.materials.len(), 2);
    assert_eq!(model.materials[0].name, "stone");
    assert_eq!(model.materials[1].name, "wood");
    // A valid id is kept; an id beyond the material sequence is clamped to
    // the first entry instead of indexing out of bounds.
    assert_eq!(model.meshes[0].material, 1);
    assert_eq!(model.meshes[1].material, 0);
    assert_eq!(model.resolved_material(0), 1);
    assert_eq!(model.resolved_material(1), 0);
}

#[test]
fn resize_rejects_degenerate_sizes() {
    let mut s = State::new(800, 600, 200, sample_model());
    assert!(!s.resize(0, 600));
    assert_eq!((s.config.width, s.config.height), (800, 600));
    assert!(!s.resize(800, 0));
    assert_eq!((s.config.width, s.config.height), (800, 600));
}

#[test]
fn resize_is_idempotent() {
    let mut s = State::new(800, 600, 200, sample_model());
    assert!(s.resize(1024, 768));
    let first = s.config;
    assert!(s.resize(1024, 768));
    assert_eq!(s.config, first);
    assert_eq!((s.config.width, s.config.height), (1024, 768));
}

#[test]
fn resize_accepts_the_largest_size() {
    let mut s = State::new(800, 600, 200, sample_model());
    assert!(s.resize(u32::MAX, u32::MAX));
    assert_eq!((s.config.width, s.config.height), (u32::MAX, u32::MAX));
}

#[test]
fn empty_grid_has_no_instances() {
    assert_eq!(make_grid(0).len(), 0);
    assert_eq!(make_grid(1).len(), 1);
    // A single-cell grid sits off the origin (its one cell is displaced by
    // half the grid width), so it is rotated.
    assert_eq!(make_grid(1)[0].rotation, RotationKind::AboutPosition);
}

#[test]
fn input_routes_movement_keys_only() {
    let mut s = State::new(800, 600, 200, sample_model());
    assert!(s.input(Some(CameraKey::Forward), true));
    assert!(s.controller.forward_pressed);
    assert!(!s.input(None, true));
    assert!(s.controller.forward_pressed);
    assert!(s.input(Some(CameraKey::Forward), false));
    assert!(!s.controller.forward_pressed);
}

#[test]
fn draw_plan_covers_every_mesh_and_instance() {
    let s = State::new(800, 600, 200, sample_model());
    let calls = s.draw_plan();
    assert_eq!(calls.len(), s.model.meshes.len());
    for (i, call) in calls.iter().enumerate() {
        assert_eq!(call.mesh_index, i);
        assert_eq!(call.material_index, s.model.meshes[i].material);
        assert!(call.material_index < s.model.materials.len());
        assert_eq!(call.instance_start, 0);
        assert_eq!(call.instance_end, s.instances.len() as u32);
    }
    assert_eq!(
        calls[0].instance_end,
        INSTANCES_PER_ROW * INSTANCES_PER_ROW
    );
}

#[test]
fn frame_outcomes_are_classified() {
    assert_eq!(classify_frame(None), RenderOutcome::Completed);
    assert_eq!(
        classify_frame(Some(SurfaceIssue::Lost)),
        RenderOutcome::Recoverable(SurfaceIssue::Lost)
    );
    assert_eq!(
        classify_frame(Some(SurfaceIssue::OutOfMemory)),
        RenderOutcome::Fatal(SurfaceIssue::OutOfMemory)
    );
    assert_eq!(
        classify_frame(Some(SurfaceIssue::Outdated)),
        RenderOutcome::Dropped(SurfaceIssue::Outdated)
    );
    assert_eq!(
        classify_frame(Some(SurfaceIssue::Timeout)),
        RenderOutcome::Dropped(SurfaceIssue::Timeout)
    );
}
