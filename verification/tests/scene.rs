use wiremesh::driver::{FrameEvent, FramePlan, Policy};
use wiremesh::error::{ConfigError, DeviceError};
use wiremesh::indices::build_indices;
use wiremesh::mesh::MeshSize;
use wiremesh::layout::{generate, generate_with, Edge, NormalSign, VertexSlot};
use wiremesh::scene::{FlushReport, Scene};
use wiremesh::sync::{DeviceStatus, FlushAction};

fn demo_policy(regenerate_every: u64, shuffle_every: u64) -> Policy {
    Policy { mesh: MeshSize::new(2, 3).unwrap(), regenerate_every, shuffle_every }
}

fn tag(slot: VertexSlot) -> (usize, usize, i8) {
    let corner = match slot.edge {
        Edge::AB => 0,
        Edge::BC => 1,
        Edge::CA => 2,
    };
    let sign = match slot.normal {
        NormalSign::Zero => 0,
        NormalSign::Plus => 1,
        NormalSign::Minus => -1,
    };
    (slot.triangle * 3 + corner, slot.step, sign)
}

#[test]
fn generate_with_calls_the_maker_slot_by_slot() {
    let made = generate_with(1, 4, &tag).unwrap();
    assert_eq!(
        made,
        vec![
            (0, 0, 0),
            (0, 1, -1),
            (0, 2, 1),
            (0, 3, -1),
            (1, 0, 0),
            (1, 1, -1),
            (1, 2, 1),
            (1, 3, -1),
            (2, 0, 0),
            (2, 1, -1),
            (2, 2, 1),
            (2, 3, -1),
        ]
    );
    let slots = generate(3, 5).unwrap();
    let copied = generate_with(3, 5, &|slot: VertexSlot| slot).unwrap();
    assert_eq!(copied, slots);
}

#[test]
fn generate_with_refuses_zero_steps_without_calling() {
    let never = |_: VertexSlot| -> u8 { panic!("called") };
    assert_eq!(generate_with(5, 0, &never), Err(ConfigError::ZeroSubdivisions));
    let made: Vec<u8> = generate_with(0, 5, &never).unwrap();
    assert!(made.is_empty());
}

#[test]
fn new_scene_holds_the_built_lists_all_dirty() {
    let mut scene = Scene::new(demo_policy(30, 0), true, &tag);
    assert_eq!(scene.frame_count(), 0);
    assert!(scene.is_paused());
    assert_eq!(scene.vertices(), &generate_with(2, 3, &tag).unwrap());
    let (lines, triangles) = build_indices(2, 3).unwrap();
    assert_eq!(scene.lines(), &lines);
    assert_eq!(scene.triangles_list(), &triangles);
    let all = FlushReport {
        vertices: FlushAction::Upload,
        lines: FlushAction::Upload,
        triangles: FlushAction::Upload,
    };
    assert_eq!(scene.flush(DeviceStatus::Ready), Ok(all));
    let none = FlushReport {
        vertices: FlushAction::Skip,
        lines: FlushAction::Skip,
        triangles: FlushAction::Skip,
    };
    assert_eq!(scene.flush(DeviceStatus::Ready), Ok(none));
    assert_eq!(scene.flush(DeviceStatus::Lost), Ok(none));
}

#[test]
fn scene_flush_fails_on_a_lost_device_and_retries() {
    let mut scene = Scene::new(demo_policy(1, 0), false, &tag);
    assert_eq!(scene.flush(DeviceStatus::Lost), Err(DeviceError::InvalidHandle));
    assert_eq!(scene.flush(DeviceStatus::Lost), Err(DeviceError::InvalidHandle));
    let all = FlushReport {
        vertices: FlushAction::Upload,
        lines: FlushAction::Upload,
        triangles: FlushAction::Upload,
    };
    assert_eq!(scene.flush(DeviceStatus::Ready), Ok(all));
    let plan = scene.tick(FrameEvent::Render, &tag);
    assert!(plan.regenerate);
    assert_eq!(scene.flush(DeviceStatus::Lost), Err(DeviceError::InvalidHandle));
    let only_vertices = FlushReport {
        vertices: FlushAction::Upload,
        lines: FlushAction::Skip,
        triangles: FlushAction::Skip,
    };
    assert_eq!(scene.flush(DeviceStatus::Ready), Ok(only_vertices));
}

#[test]
fn scene_regenerates_on_its_period_only_while_running() {
    let calls = std::cell::Cell::new(0usize);
    let counting = |slot: VertexSlot| {
        calls.set(calls.get() + 1);
        tag(slot)
    };
    let mut scene = Scene::new(demo_policy(3, 0), true, &counting);
    assert_eq!(calls.get(), 18);
    scene.flush(DeviceStatus::Ready).unwrap();
    for _ in 0..6 {
        let plan = scene.tick(FrameEvent::Render, &counting);
        assert_eq!(
            plan,
            FramePlan { draw: true, regenerate: false, shuffle: false, resize_to: None }
        );
    }
    assert_eq!(calls.get(), 18);
    assert_eq!(scene.frame_count(), 6);
    scene.tick(FrameEvent::PauseKey, &counting);
    assert!(!scene.is_paused());
    let mut regenerated = Vec::new();
    for _ in 0..6 {
        let plan = scene.tick(FrameEvent::Render, &counting);
        if plan.regenerate {
            regenerated.push(scene.frame_count());
            let report = scene.flush(DeviceStatus::Ready).unwrap();
            assert_eq!(report.vertices, FlushAction::Upload);
            assert_eq!(report.lines, FlushAction::Skip);
            assert_eq!(report.triangles, FlushAction::Skip);
        } else {
            let report = scene.flush(DeviceStatus::Ready).unwrap();
            assert_eq!(report.vertices, FlushAction::Skip);
        }
    }
    assert_eq!(regenerated, vec![9, 12]);
    assert_eq!(calls.get(), 18 * 3);
    assert_eq!(scene.vertices().len(), 18);
}

#[test]
fn scene_shuffle_keeps_indices_inside_the_vertex_list() {
    let policy = Policy { mesh: MeshSize::new(4, 32).unwrap(), regenerate_every: 0, shuffle_every: 2 };
    let mut scene = Scene::new(policy, false, &tag);
    scene.flush(DeviceStatus::Ready).unwrap();
    let built = scene.lines().clone();
    assert!(!scene.tick(FrameEvent::Render, &tag).shuffle);
    assert_eq!(scene.lines(), &built);
    assert!(scene.tick(FrameEvent::Render, &tag).shuffle);
    assert_ne!(scene.lines(), &built);
    let mut sorted = scene.lines().clone();
    sorted.sort();
    let mut expected = built.clone();
    expected.sort();
    assert_eq!(sorted, expected);
    assert!(scene.lines().iter().all(|&i| (i as usize) < scene.vertices().len()));
    let report = scene.flush(DeviceStatus::Ready).unwrap();
    assert_eq!(
        report,
        FlushReport {
            vertices: FlushAction::Skip,
            lines: FlushAction::Upload,
            triangles: FlushAction::Skip,
        }
    );
    assert_eq!(scene.triangles_list(), &build_indices(4, 32).unwrap().1);
}

#[test]
fn scene_resize_changes_no_list() {
    let mut scene = Scene::new(demo_policy(1, 1), false, &tag);
    scene.flush(DeviceStatus::Ready).unwrap();
    let plan = scene.tick(FrameEvent::Resize { width: 1024, height: 768 }, &tag);
    assert_eq!(plan.resize_to, Some((1024, 768)));
    assert!(!plan.draw);
    assert_eq!(scene.frame_count(), 0);
    let none = FlushReport {
        vertices: FlushAction::Skip,
        lines: FlushAction::Skip,
        triangles: FlushAction::Skip,
    };
    assert_eq!(scene.flush(DeviceStatus::Ready), Ok(none));
}

#[test]
fn empty_scene_has_nothing_to_draw() {
    let policy = Policy { mesh: MeshSize::new(0, 4).unwrap(), regenerate_every: 1, shuffle_every: 1 };
    let mut scene = Scene::new(policy, false, &tag);
    assert!(scene.vertices().is_empty());
    assert!(scene.lines().is_empty());
    assert!(scene.triangles_list().is_empty());
    let plan = scene.tick(FrameEvent::Render, &tag);
    assert!(plan.draw && plan.regenerate && plan.shuffle);
    assert!(scene.vertices().is_empty());
    assert!(scene.lines().is_empty());
}

#[test]
fn scene_mark_dirty_uploads_one_list_again() {
    let mut scene = Scene::new(demo_policy(0, 0), false, &tag);
    scene.flush(DeviceStatus::Ready).unwrap();
    scene.mark_dirty(wiremesh::scene::List::Lines);
    assert_eq!(
        scene.flush(DeviceStatus::Ready),
        Ok(FlushReport {
            vertices: FlushAction::Skip,
            lines: FlushAction::Upload,
            triangles: FlushAction::Skip,
        })
    );
    scene.mark_dirty(wiremesh::scene::List::Vertices);
    scene.mark_dirty(wiremesh::scene::List::Triangles);
    assert_eq!(scene.flush(DeviceStatus::Lost), Err(DeviceError::InvalidHandle));
    assert_eq!(
        scene.flush(DeviceStatus::Ready),
        Ok(FlushReport {
            vertices: FlushAction::Upload,
            lines: FlushAction::Skip,
            triangles: FlushAction::Upload,
        })
    );
    assert_eq!(scene.vertices(), &generate_with(2, 3, &tag).unwrap());
}
