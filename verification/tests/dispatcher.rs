use frame_pipeline::config::{StateConfigs, UNIT, ZOOM_STEP};
use frame_pipeline::input::dispatcher::{ActionDispatcher, Controls, DispatchOutcome, Movement};
use frame_pipeline::input::handler::{Action, InputFlags};

fn controls() -> Controls {
    let config = StateConfigs::default();
    Controls { config, flags: InputFlags::default(), fov: config.base_fov(), quit: false }
}

const STILL: Movement = Movement { forward: 0, back: 0, right: 0, left: 0, up: 0, down: 0 };

#[test]
fn default_settings() {
    let c = StateConfigs::default();
    assert_eq!(c.base_zoom, 15_000);
    assert_eq!(c.speed, 400);
    assert_eq!(c.focal, 10_000);
    assert_eq!(c.fov, 15_708);
    assert_eq!(c.sensitivity, 1_000);
    assert_eq!(UNIT, 10_000);
    assert_eq!(ZOOM_STEP, 100);
    // The fixed-point values stand for these numbers.
    assert_eq!(c.base_zoom as f32 / UNIT as f32, 1.5);
    assert_eq!(c.speed as f32 / UNIT as f32, 0.04);
    assert_eq!(c.focal as f32 / UNIT as f32, 1.0);
    assert_eq!(c.fov as f32 / UNIT as f32, 1.5708);
    assert_eq!(c.sensitivity as f32 / UNIT as f32, 0.1);
}

#[test]
fn effective_fov_is_base_fov_times_zoom_factor() {
    let c = StateConfigs::default();
    assert_eq!(c.base_fov(), 157_080_000);
    assert_eq!(c.effective_fov(0), 15_708 * 15_000);
    assert_eq!(c.effective_fov(100), 15_708 * 15_100);
    assert_eq!(c.effective_fov(-100), 15_708 * 14_900);
    assert_eq!(c.effective_fov(-15_000), 0);
    assert_eq!(c.effective_fov(-20_000), 15_708 * -5_000);
    // 1.5708 * (1.5 + 0.01) in units of 1e-8.
    assert_eq!(c.effective_fov(100), 237_190_800);
}

#[test]
fn effective_fov_has_room_for_every_setting() {
    let c = StateConfigs { fov: u32::MAX, base_zoom: u32::MAX, ..StateConfigs::default() };
    assert_eq!(c.effective_fov(i32::MAX), 4_294_967_295i128 * (4_294_967_295 + 2_147_483_647));
    assert_eq!(c.base_fov(), 42_949_672_950_000);
    let d = StateConfigs { fov: u32::MAX, base_zoom: 0, ..StateConfigs::default() };
    assert_eq!(d.effective_fov(i32::MIN), 4_294_967_295i128 * -2_147_483_648);
}

#[test]
fn one_move_forward_for_one_tick_advances_by_the_speed() {
    let mut d = ActionDispatcher::new();
    let mut c = controls();
    let out = d.dispatch(vec![Action::MoveForward], &mut c);
    assert_eq!(out.movement, Movement { forward: 1, ..STILL });
    assert!(out.movement.is_moving());
    assert!(c.flags.camera_has_moved);
    assert_eq!(c.config.speed, 400);

    // The step itself, as the host takes it: along the sum of the directions
    // asked for, normalised, by the speed.
    let forward = [0.0f32, 0.0, -1.0];
    let right = [-1.0f32, 0.0, 0.0];
    let down = [0.0f32, 1.0, 0.0];
    let f = out.movement.forward as f32 - out.movement.back as f32;
    let r = out.movement.right as f32 - out.movement.left as f32;
    let v = out.movement.down as f32 - out.movement.up as f32;
    let dir = [
        f * forward[0] + r * right[0] + v * down[0],
        f * forward[1] + r * right[1] + v * down[1],
        f * forward[2] + r * right[2] + v * down[2],
    ];
    let len = (dir[0] * dir[0] + dir[1] * dir[1] + dir[2] * dir[2]).sqrt();
    let speed = c.config.speed as f32 / UNIT as f32;
    let position = [
        0.0 + dir[0] / len * speed,
        0.0 + dir[1] / len * speed,
        0.0 + dir[2] / len * speed,
    ];
    assert_eq!(position, [0.0, 0.0, -0.04]);
}

#[test]
fn zoom_in_ten_times_then_release_restores_the_base_fov() {
    let mut d = ActionDispatcher::new();
    let mut c = controls();
    let base = c.config.base_fov();
    d.dispatch(vec![Action::Zoom], &mut c);
    assert!(c.flags.is_zoomed);
    assert_eq!(c.fov, 15_708 * 15_000);
    for step in 1..=10 {
        d.dispatch(vec![Action::ZoomIn], &mut c);
        assert_eq!(d.zoom, 100 * step);
        assert_eq!(c.fov, 15_708 * (15_000 + 100 * step as i128));
    }
    d.dispatch(vec![Action::UnZoom], &mut c);
    assert_eq!(c.fov, base);
    assert_eq!(c.fov, 157_080_000);
    assert_eq!(d.zoom, 0);
    assert!(!c.flags.is_zoomed);
}

#[test]
fn zoom_in_and_release_within_one_tick() {
    let mut d = ActionDispatcher::new();
    let mut c = controls();
    let mut actions = vec![Action::ZoomIn; 10];
    actions.push(Action::UnZoom);
    d.dispatch(actions, &mut c);
    assert_eq!(c.fov, 157_080_000);
    assert_eq!(d.zoom, 0);
}

#[test]
fn zoom_out_steps_back() {
    let mut d = ActionDispatcher::new();
    let mut c = controls();
    d.dispatch(vec![Action::ZoomOut, Action::ZoomOut, Action::ZoomIn], &mut c);
    assert_eq!(d.zoom, -100);
    assert_eq!(c.fov, 15_708 * 14_900);
    assert!(c.flags.camera_has_moved);
    assert!(!c.flags.is_zoomed);
}

#[test]
fn zoom_offset_saturates() {
    let mut c = controls();
    let mut d = ActionDispatcher { zoom: i32::MAX - 50 };
    d.dispatch(vec![Action::ZoomIn], &mut c);
    assert_eq!(d.zoom, i32::MAX);
    assert_eq!(c.fov, 15_708 * (15_000 + i32::MAX as i128));
    let mut d = ActionDispatcher { zoom: i32::MAX - 100 };
    d.dispatch(vec![Action::ZoomIn], &mut c);
    assert_eq!(d.zoom, i32::MAX);
    let mut d = ActionDispatcher { zoom: i32::MIN + 99 };
    d.dispatch(vec![Action::ZoomOut], &mut c);
    assert_eq!(d.zoom, i32::MIN);
    let mut d = ActionDispatcher { zoom: i32::MIN + 100 };
    d.dispatch(vec![Action::ZoomOut], &mut c);
    assert_eq!(d.zoom, i32::MIN);
}

#[test]
fn zoom_uses_the_offset_kept_from_earlier_ticks() {
    let mut c = controls();
    let mut d = ActionDispatcher { zoom: 300 };
    d.dispatch(vec![Action::Zoom], &mut c);
    assert_eq!(c.fov, 15_708 * 15_300);
    assert_eq!(d.zoom, 300);
}

#[test]
fn opposite_directions_cancel_out() {
    let mut d = ActionDispatcher::new();
    let mut c = controls();
    let out = d.dispatch(vec![Action::MoveForward, Action::MoveBack], &mut c);
    assert_eq!(out.movement, Movement { forward: 1, back: 1, ..STILL });
    assert!(!out.movement.is_moving());
    assert!(!c.flags.camera_has_moved);
    let out = d.dispatch(
        vec![Action::MoveLeft, Action::MoveRight, Action::MoveUp, Action::MoveDown],
        &mut c,
    );
    assert_eq!(out.movement, Movement { right: 1, left: 1, up: 1, down: 1, ..STILL });
    assert!(!c.flags.camera_has_moved);
}

#[test]
fn every_direction_is_counted() {
    let mut d = ActionDispatcher::new();
    let mut c = controls();
    let out = d.dispatch(
        vec![
            Action::MoveUp,
            Action::MoveLeft,
            Action::MoveUp,
            Action::MoveDown,
            Action::MoveBack,
            Action::MoveRight,
            Action::MoveLeft,
            Action::MoveLeft,
        ],
        &mut c,
    );
    assert_eq!(out.movement, Movement { forward: 0, back: 1, right: 1, left: 3, up: 2, down: 1 });
    assert!(c.flags.camera_has_moved);
}

#[test]
fn actions_that_do_not_touch_the_view_leave_the_mark() {
    let mut d = ActionDispatcher::new();
    let mut c = controls();
    let out = d.dispatch(
        vec![Action::NoAction, Action::SetFlySpeed(1_000), Action::ExitProgram],
        &mut c,
    );
    assert_eq!(
        out,
        DispatchOutcome { movement: STILL, fullscreen_toggles: 0, scene_regenerations: 0 }
    );
    assert!(!c.flags.camera_has_moved);
    assert_eq!(c.config.speed, 1_000);
    assert!(c.quit);
    assert_eq!(c.fov, 157_080_000);
}

#[test]
fn the_last_fly_speed_wins() {
    let mut d = ActionDispatcher::new();
    let mut c = controls();
    d.dispatch(vec![Action::SetFlySpeed(1_000), Action::SetFlySpeed(400), Action::SetFlySpeed(7)], &mut c);
    assert_eq!(c.config.speed, 7);
    assert_eq!(c.config.fov, 15_708);
}

#[test]
fn full_screen_and_scene_requests_are_handed_back() {
    let mut d = ActionDispatcher::new();
    let mut c = controls();
    let out = d.dispatch(vec![Action::Fullscreen, Action::Test, Action::Fullscreen], &mut c);
    assert_eq!(out.fullscreen_toggles, 2);
    assert_eq!(out.scene_regenerations, 1);
    assert!(c.flags.camera_has_moved);
    let mut c = controls();
    d.dispatch(vec![Action::Test], &mut c);
    assert!(c.flags.camera_has_moved);
    let mut c = controls();
    d.dispatch(vec![Action::Fullscreen], &mut c);
    assert!(c.flags.camera_has_moved);
}

#[test]
fn an_empty_tick_changes_nothing() {
    let mut d = ActionDispatcher { zoom: 7 };
    let mut c = controls();
    c.flags.camera_has_moved = true;
    let before = c;
    let out = d.dispatch(vec![], &mut c);
    assert_eq!(c, before);
    assert_eq!(d.zoom, 7);
    assert_eq!(
        out,
        DispatchOutcome { movement: STILL, fullscreen_toggles: 0, scene_regenerations: 0 }
    );
}
