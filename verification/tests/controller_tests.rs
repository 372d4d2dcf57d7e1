use orbit_points::controller::AppState;
use orbit_points::controller::FrameAction;
use orbit_points::controller::PointerButton;
use orbit_points::controller::SceneEvent;
use orbit_points::controller::handle_event;
use orbit_points::controller::prepare_frame;
use orbit_points::fixed::FX_ONE;

#[test]
fn initial_scene_is_the_unit_circle() {
    let s = AppState::new();
    assert_eq!(s.scene.len(), 50);
    assert_eq!(s.aspect_fx, FX_ONE);
    assert_eq!(s.camera.angle_raw, 0);
    let one = FX_ONE as f64;
    for (i, v) in s.scene.iter().enumerate() {
        let ang = 2.0 * std::f64::consts::PI * (i as f64) / 50.0;
        assert!((v.pos_x as f64 / one - ang.cos()).abs() < 0.002);
        assert!((v.pos_y as f64 / one - ang.sin()).abs() < 0.002);
        assert_eq!(v.pos_z, 1038090);
        assert!(0 <= v.col_r && v.col_r < FX_ONE);
        assert!(0 <= v.col_g && v.col_g < FX_ONE);
        assert!(0 <= v.col_b && v.col_b < FX_ONE);
        assert_eq!(v.col_a, FX_ONE);
    }
    // The first point and the half-turn point are exact.
    assert_eq!(s.scene[0].pos_x, FX_ONE);
    assert_eq!(s.scene[0].pos_y, 0);
    assert_eq!(s.scene[25].pos_x, -FX_ONE);
    assert_eq!(s.scene[25].pos_y, 0);
}

#[test]
fn secondary_click_regenerates_the_scene() {
    let mut s = AppState::new();
    let action = handle_event(
        &mut s,
        &SceneEvent::MouseButtonDown { button: PointerButton::Secondary },
    );
    assert_eq!(action, FrameAction::Redraw);
    assert_eq!(s.scene.len(), 20);
    for v in s.scene.iter() {
        assert!(-FX_ONE <= v.pos_x && v.pos_x < FX_ONE);
        assert!(-FX_ONE <= v.pos_y && v.pos_y < FX_ONE);
        assert!(-FX_ONE <= v.pos_z && v.pos_z < FX_ONE);
        assert!(0 <= v.col_r && v.col_r < FX_ONE);
        assert!(0 <= v.col_g && v.col_g < FX_ONE);
        assert!(0 <= v.col_b && v.col_b < FX_ONE);
        assert_eq!(v.col_a, FX_ONE);
    }
    // Camera and aspect ratio are untouched by a regeneration.
    assert_eq!(s.camera.angle_raw, 0);
    assert_eq!(s.aspect_fx, FX_ONE);
}

#[test]
fn primary_click_does_nothing() {
    let mut s = AppState::new();
    let action = handle_event(
        &mut s,
        &SceneEvent::MouseButtonDown { button: PointerButton::Primary },
    );
    assert_eq!(action, FrameAction::Nothing);
    assert_eq!(s.scene.len(), 50);
}

#[test]
fn resize_updates_the_aspect_ratio() {
    let mut s = AppState::new();
    let action = handle_event(&mut s, &SceneEvent::Resized { width: 800, height: 600 });
    assert_eq!(action, FrameAction::Reconfigure);
    assert_eq!(s.aspect_fx, 1398101);
    handle_event(&mut s, &SceneEvent::Resized { width: 1920, height: 1080 });
    assert_eq!(s.aspect_fx, 1864135);
}

#[test]
fn degenerate_resize_keeps_the_old_aspect() {
    let mut s = AppState::new();
    handle_event(&mut s, &SceneEvent::Resized { width: 800, height: 600 });
    let action = handle_event(&mut s, &SceneEvent::Resized { width: 800, height: 0 });
    assert_eq!(action, FrameAction::Reconfigure);
    assert_eq!(s.aspect_fx, 1398101);
    handle_event(&mut s, &SceneEvent::Resized { width: 0, height: 600 });
    assert_eq!(s.aspect_fx, 1398101);
    // An extremely thin window still yields a positive ratio.
    handle_event(&mut s, &SceneEvent::Resized { width: 1, height: u32::MAX });
    assert!(s.aspect_fx > 0);
}

#[test]
fn cursor_move_turns_the_camera_exactly() {
    let mut s = AppState::new();
    let action = handle_event(&mut s, &SceneEvent::CursorMoved { cursor_x: 12_345, cursor_y: 77 });
    assert_eq!(action, FrameAction::Redraw);
    assert_eq!(s.camera.angle_raw, 12_345);
    handle_event(&mut s, &SceneEvent::CursorMoved { cursor_x: 655, cursor_y: -9 });
    assert_eq!(s.camera.angle_raw, 13_000);
    // The y coordinate and the rest of the state are ignored.
    assert_eq!(s.camera.axis_offset, -4 * FX_ONE);
    assert_eq!(s.scene.len(), 50);
    assert_eq!(s.aspect_fx, FX_ONE);
}

#[test]
fn two_redraws_yield_identical_frames() {
    let mut s = AppState::new();
    handle_event(&mut s, &SceneEvent::Resized { width: 640, height: 480 });
    handle_event(&mut s, &SceneEvent::CursorMoved { cursor_x: 31_416, cursor_y: 0 });
    let a1 = handle_event(&mut s, &SceneEvent::RedrawRequested);
    let f1 = prepare_frame(&s);
    let a2 = handle_event(&mut s, &SceneEvent::RedrawRequested);
    let f2 = prepare_frame(&s);
    assert_eq!(a1, FrameAction::Redraw);
    assert_eq!(a2, FrameAction::Redraw);
    assert_eq!(f1.transform, f2.transform);
    assert_eq!(f1.vertices, f2.vertices);
    assert_eq!(f1.vertex_count, f2.vertex_count);
}

#[test]
fn close_and_other_events_change_nothing() {
    let mut s = AppState::new();
    let before = prepare_frame(&s);
    assert_eq!(handle_event(&mut s, &SceneEvent::CloseRequested), FrameAction::Exit);
    assert_eq!(handle_event(&mut s, &SceneEvent::Other), FrameAction::Nothing);
    let after = prepare_frame(&s);
    assert_eq!(before.transform, after.transform);
    assert_eq!(before.vertices, after.vertices);
}

#[test]
fn frame_snapshot_matches_the_scene() {
    let mut s = AppState::new();
    handle_event(
        &mut s,
        &SceneEvent::MouseButtonDown { button: PointerButton::Secondary },
    );
    let f = prepare_frame(&s);
    assert_eq!(f.vertex_count, 20);
    assert_eq!(f.vertices, s.scene);
}

#[test]
fn regenerated_positions_actually_vary() {
    // With a constant generator every component would be equal; uniform
    // samples make that astronomically unlikely.
    let mut s = AppState::new();
    handle_event(
        &mut s,
        &SceneEvent::MouseButtonDown { button: PointerButton::Secondary },
    );
    let first = s.scene[0].pos_x;
    let all_same = s
        .scene
        .iter()
        .all(|v| v.pos_x == first && v.pos_y == first && v.pos_z == first);
    assert!(!all_same);
}
