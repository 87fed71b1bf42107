use raycaster::camera::PlayerCamera;
use raycaster::input::{command_for, stride, Command, Key, Stride};
use raycaster::params::{FRAME_DELAY_NANOS, MOVE_SPEED, TURN_INCREMENT};
use raycaster::ray::Ray;

const UNIT: i64 = 1_000_000;

fn start() -> PlayerCamera {
    PlayerCamera { x: 3 * UNIT, y: 5 * UNIT, angle: 0 }
}

#[test]
fn the_camera_starts_at_the_origin_by_default() {
    assert_eq!(PlayerCamera::default(), PlayerCamera { x: 0, y: 0, angle: 0 });
}

#[test]
fn the_movement_tunables_have_their_values() {
    assert_eq!(MOVE_SPEED, 1_000_000);
    assert_eq!(TURN_INCREMENT, 100_000);
    assert_eq!(FRAME_DELAY_NANOS, 7_000_000);
}

#[test]
fn keys_are_bound_to_their_commands() {
    assert_eq!(command_for(Key::Char('q')), Command::Quit);
    assert_eq!(command_for(Key::Char(',')), Command::Forward);
    assert_eq!(command_for(Key::Char('o')), Command::Back);
    assert_eq!(command_for(Key::Char('a')), Command::StrafeLeft);
    assert_eq!(command_for(Key::Char('e')), Command::StrafeRight);
    assert_eq!(command_for(Key::Left), Command::TurnLeft);
    assert_eq!(command_for(Key::Right), Command::TurnRight);
}

#[test]
fn other_keys_are_bound_to_nothing() {
    assert_eq!(command_for(Key::Other), Command::Stay);
    for c in ['Q', 'w', 's', 'd', ' ', '.', '\n'] {
        assert_eq!(command_for(Key::Char(c)), Command::Stay);
    }
}

#[test]
fn the_stride_is_heading_times_speed_times_time() {
    let ahead = Ray { eye_x: 0, eye_y: UNIT };
    assert_eq!(stride(&ahead, 500_000), Stride { dx: 0, dy: 500_000 });
    assert_eq!(stride(&ahead, 0), Stride { dx: 0, dy: 0 });
    let slanted = Ray { eye_x: 600_000, eye_y: -800_000 };
    assert_eq!(stride(&slanted, 7_000), Stride { dx: 4_200, dy: -5_600 });
    assert_eq!(stride(&slanted, 1_000_000), Stride { dx: 600_000, dy: -800_000 });
}

#[test]
fn the_stride_is_rounded_toward_zero() {
    let almost = Ray { eye_x: 999_999, eye_y: -999_999 };
    assert_eq!(stride(&almost, 1), Stride { dx: 0, dy: 0 });
    assert_eq!(stride(&almost, 3), Stride { dx: 2, dy: -2 });
}

#[test]
fn the_stride_saturates() {
    let huge = Ray { eye_x: i64::MAX, eye_y: i64::MIN };
    assert_eq!(stride(&huge, u32::MAX), Stride { dx: i64::MAX, dy: i64::MIN });
    assert_eq!(stride(&huge, 1_000_000), Stride { dx: i64::MAX, dy: i64::MIN });
    assert_eq!(
        stride(&huge, 1_000),
        Stride { dx: 9_223_372_036_854_775, dy: -9_223_372_036_854_775 }
    );
}

#[test]
fn commands_move_the_camera() {
    let step = Stride { dx: 30, dy: 400 };
    let mut camera = start();
    camera.apply(Command::Forward, step);
    assert_eq!(camera, PlayerCamera { x: 3_000_030, y: 5_000_400, angle: 0 });
    let mut camera = start();
    camera.apply(Command::Back, step);
    assert_eq!(camera, PlayerCamera { x: 2_999_970, y: 4_999_600, angle: 0 });
    let mut camera = start();
    camera.apply(Command::StrafeLeft, step);
    assert_eq!(camera, PlayerCamera { x: 3_000_030, y: 4_999_600, angle: 0 });
    let mut camera = start();
    camera.apply(Command::StrafeRight, step);
    assert_eq!(camera, PlayerCamera { x: 2_999_970, y: 5_000_400, angle: 0 });
}

#[test]
fn commands_turn_the_camera() {
    let step = Stride { dx: 30, dy: 400 };
    let mut camera = start();
    camera.apply(Command::TurnLeft, step);
    assert_eq!(camera, PlayerCamera { x: 3 * UNIT, y: 5 * UNIT, angle: -100_000 });
    camera.apply(Command::TurnRight, step);
    camera.apply(Command::TurnRight, step);
    assert_eq!(camera, PlayerCamera { x: 3 * UNIT, y: 5 * UNIT, angle: 100_000 });
}

#[test]
fn quitting_and_staying_leave_the_camera() {
    let step = Stride { dx: 30, dy: 400 };
    let mut camera = start();
    camera.apply(Command::Quit, step);
    assert_eq!(camera, start());
    camera.apply(Command::Stay, step);
    assert_eq!(camera, start());
}

#[test]
fn positions_and_angles_saturate() {
    let mut camera = PlayerCamera { x: i64::MAX - 5, y: i64::MIN + 5, angle: i64::MAX - 5 };
    camera.apply(Command::StrafeLeft, Stride { dx: 10, dy: 10 });
    assert_eq!(camera, PlayerCamera { x: i64::MAX, y: i64::MIN, angle: i64::MAX - 5 });
    camera.apply(Command::TurnRight, Stride { dx: 0, dy: 0 });
    assert_eq!(camera.angle, i64::MAX);
    let mut camera = PlayerCamera { x: 0, y: 0, angle: i64::MIN + 5 };
    camera.apply(Command::TurnLeft, Stride { dx: 0, dy: 0 });
    assert_eq!(camera.angle, i64::MIN);
    camera.apply(Command::Back, Stride { dx: i64::MIN, dy: i64::MIN });
    assert_eq!(camera, PlayerCamera { x: i64::MAX, y: i64::MAX, angle: i64::MIN });
}

#[test]
fn a_frame_handles_one_key() {
    let ahead = Ray { eye_x: 0, eye_y: UNIT };
    let mut camera = start();
    assert!(camera.step(Key::Char(','), &ahead, 250_000));
    assert_eq!(camera, PlayerCamera { x: 3 * UNIT, y: 5_250_000, angle: 0 });
    assert!(camera.step(Key::Char('o'), &ahead, 250_000));
    assert_eq!(camera, start());
    assert!(camera.step(Key::Right, &ahead, 250_000));
    assert_eq!(camera, PlayerCamera { x: 3 * UNIT, y: 5 * UNIT, angle: 100_000 });
    assert!(camera.step(Key::Left, &ahead, 250_000));
    assert_eq!(camera, start());
}

#[test]
fn a_key_that_is_not_bound_changes_nothing() {
    let ahead = Ray { eye_x: 0, eye_y: UNIT };
    let mut camera = start();
    assert!(camera.step(Key::Other, &ahead, 250_000));
    assert!(camera.step(Key::Char('z'), &ahead, 250_000));
    assert_eq!(camera, start());
}

#[test]
fn the_quit_key_ends_the_session() {
    let ahead = Ray { eye_x: 0, eye_y: UNIT };
    let mut camera = start();
    assert!(!camera.step(Key::Char('q'), &ahead, 250_000));
    assert_eq!(camera, start());
}

#[test]
fn the_first_frame_has_taken_no_time_and_moves_nothing() {
    let ahead = Ray { eye_x: 707_107, eye_y: 707_107 };
    let mut camera = start();
    assert!(camera.step(Key::Char(','), &ahead, 0));
    assert_eq!(camera, start());
}
