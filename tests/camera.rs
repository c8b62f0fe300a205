use reclaim::camera::{clamp_pitch_value, world_up, Basis, Camera, Command, FrameAction, FrameInput, Heading, Vec3i, PITCH_LIMIT};
use reclaim::level::GridCoord;

fn v(x: i64, y: i64, z: i64) -> Vec3i {
    Vec3i { x, y, z }
}

fn origin_camera() -> Camera {
    Camera::new(GridCoord { column: 0, row: 0 })
}

fn no_input() -> FrameInput {
    FrameInput { quit: false, forward: false, backward: false, turn_left: false, turn_right: false }
}

#[test]
fn new_camera_looks_east_and_level() {
    let c = Camera::new(GridCoord { column: 3, row: 5 });
    assert_eq!(c, Camera { column: 3, row: 5, yaw: 0, pitch: 0 });
    assert_eq!(c.front(), v(1, 0, 0));
    assert_eq!(c.heading(), Heading::East);
}

#[test]
fn turn_right_from_yaw_zero_faces_south() {
    let mut c = origin_camera();
    assert_eq!(c.front(), v(1, 0, 0));
    c.apply(Command::TurnRight);
    assert_eq!(c.yaw, 1);
    assert_eq!(c.front(), v(0, 0, 1));
    assert_eq!(c.heading(), Heading::South);
}

#[test]
fn turn_left_from_yaw_zero_faces_north() {
    let mut c = origin_camera();
    c.apply(Command::TurnLeft);
    assert_eq!(c.yaw, 3);
    assert_eq!(c.front(), v(0, 0, -1));
    assert_eq!(c.heading(), Heading::North);
}

#[test]
fn four_right_turns_come_back() {
    let mut c = origin_camera();
    let fronts = [v(0, 0, 1), v(-1, 0, 0), v(0, 0, -1), v(1, 0, 0)];
    for f in fronts {
        c.apply(Command::TurnRight);
        assert_eq!(c.front(), f);
    }
    assert_eq!(c, origin_camera());
}

#[test]
fn move_forward_along_east() {
    let mut c = origin_camera();
    c.apply(Command::MoveForward);
    assert_eq!((c.column, c.row), (1, 0));
    c.apply(Command::MoveBackward);
    c.apply(Command::MoveBackward);
    assert_eq!((c.column, c.row), (-1, 0));
}

#[test]
fn moves_follow_the_heading() {
    let mut c = Camera::new(GridCoord { column: 4, row: 4 });
    c.apply(Command::TurnLeft);
    c.apply(Command::MoveForward);
    assert_eq!((c.column, c.row), (4, 3));
    c.apply(Command::TurnLeft);
    c.apply(Command::MoveForward);
    assert_eq!((c.column, c.row), (3, 3));
    c.apply(Command::TurnLeft);
    c.apply(Command::MoveBackward);
    assert_eq!((c.column, c.row), (3, 2));
}

#[test]
fn quit_command_changes_nothing() {
    let mut c = Camera { column: 2, row: 7, yaw: 2, pitch: 10 };
    c.apply(Command::Quit);
    assert_eq!(c, Camera { column: 2, row: 7, yaw: 2, pitch: 10 });
}

#[test]
fn pitch_is_clamped_after_every_update() {
    let mut c = Camera { column: 0, row: 0, yaw: 0, pitch: 2000 };
    c.apply(Command::TurnRight);
    assert_eq!(c.pitch, PITCH_LIMIT);
    let mut d = Camera { column: 0, row: 0, yaw: 0, pitch: -9000 };
    d.apply(Command::Quit);
    assert_eq!(d.pitch, -1500);
    let mut e = Camera { column: 0, row: 0, yaw: 0, pitch: 1499 };
    for cmd in [Command::TurnLeft, Command::TurnRight, Command::Quit, Command::TurnLeft] {
        e.apply(cmd);
        assert_eq!(e.pitch, 1499);
    }
}

#[test]
fn clamp_pitch_bounds() {
    assert_eq!(clamp_pitch_value(0), 0);
    assert_eq!(clamp_pitch_value(1500), 1500);
    assert_eq!(clamp_pitch_value(1501), 1500);
    assert_eq!(clamp_pitch_value(-1500), -1500);
    assert_eq!(clamp_pitch_value(-1501), -1500);
    assert_eq!(clamp_pitch_value(i64::MIN), -1500);
    assert_eq!(clamp_pitch_value(i64::MAX), 1500);
}

#[test]
fn basis_at_yaw_zero() {
    let c = origin_camera();
    assert_eq!(c.basis(), Basis { front: v(1, 0, 0), right: v(0, 0, 1), up: v(0, 1, 0) });
}

#[test]
fn basis_is_orthonormal_for_every_yaw() {
    let dot = |a: Vec3i, b: Vec3i| a.x * b.x + a.y * b.y + a.z * b.z;
    for yaw in 0..8u8 {
        let c = Camera { column: 0, row: 0, yaw, pitch: 0 };
        let b = c.basis();
        assert_eq!(b.front, c.front());
        for w in [b.front, b.right, b.up] {
            assert_eq!(dot(w, w), 1);
        }
        assert_eq!(dot(b.front, b.right), 0);
        assert_eq!(dot(b.front, b.up), 0);
        assert_eq!(dot(b.right, b.up), 0);
        assert_eq!(b.front.cross(&b.up), b.right);
        assert_eq!(b.up, world_up());
    }
}

#[test]
fn cross_product_values() {
    assert_eq!(v(1, 0, 0).cross(&v(0, 1, 0)), v(0, 0, 1));
    assert_eq!(v(2, 3, 4).cross(&v(5, 6, 7)), v(-3, 6, -3));
}

#[test]
fn frame_quit_stops_without_moving() {
    let mut c = origin_camera();
    let input = FrameInput { quit: true, forward: true, ..no_input() };
    assert_eq!(c.frame(input), FrameAction::Quit);
    assert_eq!(c, origin_camera());
}

#[test]
fn frame_moves_before_turning() {
    let mut c = origin_camera();
    let input = FrameInput { forward: true, turn_right: true, ..no_input() };
    assert_eq!(c.frame(input), FrameAction::Draw);
    assert_eq!(c, Camera { column: 1, row: 0, yaw: 1, pitch: 0 });
    let input = FrameInput { forward: true, backward: true, turn_left: true, turn_right: true, ..no_input() };
    assert_eq!(c.frame(input), FrameAction::Draw);
    assert_eq!(c, Camera { column: 1, row: 0, yaw: 1, pitch: 0 });
    assert_eq!(c.frame(no_input()), FrameAction::Draw);
    assert_eq!(c, Camera { column: 1, row: 0, yaw: 1, pitch: 0 });
}

#[test]
fn heading_names() {
    assert_eq!(Heading::North.name(), "North");
    assert_eq!(Heading::East.name(), "East");
    assert_eq!(Heading::South.name(), "South");
    assert_eq!(Heading::West.name(), "West");
}
