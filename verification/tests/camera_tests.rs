use lava::camera::Camera;
use lava::camera::DEFAULT_MOVE_SPEED_MILLI;
use lava::camera::DEFAULT_ROTATION_SENSITIVITY_MDEG;
use lava::input::InputEvent;
use lava::input::Key;

#[test]
fn new_camera_defaults() {
    let c = Camera::new();
    assert_eq!(c.yaw_mdeg, 0);
    assert_eq!(c.pitch_mdeg, 0);
    assert_eq!(c.rotation_sensitivity_mdeg, DEFAULT_ROTATION_SENSITIVITY_MDEG);
    assert_eq!(c.move_speed_milli, DEFAULT_MOVE_SPEED_MILLI);
    assert!(!c.moving_forward);
    assert!(!c.moving_backward);
    assert!(!c.moving_left);
    assert!(!c.moving_right);
}

#[test]
fn key_press_and_release_latch_flags() {
    let mut c = Camera::new();
    c.process_device_event(&InputEvent::KeyChanged { key: Key::W, pressed: true });
    assert!(c.moving_forward);
    c.process_device_event(&InputEvent::KeyChanged { key: Key::A, pressed: true });
    assert!(c.moving_left);
    c.process_device_event(&InputEvent::KeyChanged { key: Key::S, pressed: true });
    assert!(c.moving_backward);
    c.process_device_event(&InputEvent::KeyChanged { key: Key::D, pressed: true });
    assert!(c.moving_right);
    c.process_device_event(&InputEvent::KeyChanged { key: Key::W, pressed: false });
    assert!(!c.moving_forward);
    assert!(c.moving_backward && c.moving_left && c.moving_right);
}

#[test]
fn unknown_keys_are_ignored() {
    let mut c = Camera::new();
    c.process_device_event(&InputEvent::KeyChanged { key: Key::Other, pressed: true });
    c.process_device_event(&InputEvent::KeyChanged { key: Key::Escape, pressed: true });
    c.process_device_event(&InputEvent::WindowCloseRequested);
    c.process_device_event(&InputEvent::Other);
    let fresh = Camera::new();
    assert_eq!(c.yaw_mdeg, fresh.yaw_mdeg);
    assert_eq!(c.pitch_mdeg, fresh.pitch_mdeg);
    assert!(!c.moving_forward && !c.moving_backward && !c.moving_left && !c.moving_right);
}

#[test]
fn mouse_motion_turns_at_sensitivity() {
    let mut c = Camera::new();
    // 40 counts right, 30 counts down: 4 deg of yaw, -3 deg of pitch.
    c.process_device_event(&InputEvent::MouseMoved { dx: 40, dy: 30 });
    assert_eq!(c.yaw_mdeg, 4_000);
    assert_eq!(c.pitch_mdeg, -3_000);
}

#[test]
fn pitch_clamped_looking_up() {
    let mut c = Camera::new();
    c.process_device_event(&InputEvent::MouseMoved { dx: 0, dy: -2_000_000 });
    assert_eq!(c.pitch_mdeg, 89_000);
}

#[test]
fn pitch_clamped_looking_down() {
    let mut c = Camera::new();
    c.process_device_event(&InputEvent::MouseMoved { dx: 0, dy: 2_000_000 });
    assert_eq!(c.pitch_mdeg, -89_000);
}

#[test]
fn pitch_clamped_after_every_event_of_a_sequence() {
    let mut c = Camera::new();
    let deltas: [(i32, i32); 7] = [
        (0, 500),
        (120, 500),
        (0, -1500),
        (-3, 7),
        (0, 2_000_000_000),
        (5, -2_000_000_000),
        (0, 880),
    ];
    for (dx, dy) in deltas {
        c.process_device_event(&InputEvent::MouseMoved { dx, dy });
        assert!(-89_000 <= c.pitch_mdeg && c.pitch_mdeg <= 89_000);
    }
}

#[test]
fn full_turn_wraps_yaw_to_zero() {
    // 360 deg at 0.1 deg per count is 3600 counts.
    let mut c = Camera::new();
    c.process_device_event(&InputEvent::MouseMoved { dx: 3600, dy: 0 });
    assert_eq!(c.yaw_mdeg, 0);
}

#[test]
fn negative_yaw_wraps_with_its_sign() {
    let mut c = Camera::new();
    c.process_device_event(&InputEvent::MouseMoved { dx: -3650, dy: 0 });
    assert_eq!(c.yaw_mdeg, -5_000);
}

#[test]
fn forward_alone_moves_forward() {
    let mut c = Camera::new();
    c.process_device_event(&InputEvent::KeyChanged { key: Key::W, pressed: true });
    let m = c.update();
    assert_eq!(m.forward_sign, -1);
    assert_eq!(m.strafe_sign, 0);
    assert!(!m.diagonal);
}

#[test]
fn backward_alone_moves_backward() {
    let mut c = Camera::new();
    c.process_device_event(&InputEvent::KeyChanged { key: Key::S, pressed: true });
    let m = c.update();
    assert_eq!(m.forward_sign, 1);
    assert_eq!(m.strafe_sign, 0);
    assert!(!m.diagonal);
}

#[test]
fn opposed_keys_cancel_out() {
    let mut c = Camera::new();
    c.process_device_event(&InputEvent::KeyChanged { key: Key::W, pressed: true });
    c.process_device_event(&InputEvent::KeyChanged { key: Key::S, pressed: true });
    c.process_device_event(&InputEvent::KeyChanged { key: Key::A, pressed: true });
    c.process_device_event(&InputEvent::KeyChanged { key: Key::D, pressed: true });
    let m = c.update();
    assert_eq!(m.forward_sign, 0);
    assert_eq!(m.strafe_sign, 0);
    assert!(!m.diagonal);
}

#[test]
fn forward_and_right_move_diagonally() {
    let mut c = Camera::new();
    c.process_device_event(&InputEvent::KeyChanged { key: Key::W, pressed: true });
    c.process_device_event(&InputEvent::KeyChanged { key: Key::D, pressed: true });
    let m = c.update();
    assert_eq!(m.forward_sign, -1);
    assert_eq!(m.strafe_sign, 1);
    assert!(m.diagonal);
}

#[test]
fn left_alone_strafes_left() {
    let mut c = Camera::new();
    c.process_device_event(&InputEvent::KeyChanged { key: Key::A, pressed: true });
    let m = c.update();
    assert_eq!(m.forward_sign, 0);
    assert_eq!(m.strafe_sign, -1);
    assert!(!m.diagonal);
}

#[test]
fn held_forward_for_one_second_covers_one_unit() {
    // Holding only the forward key: the decision is the full per-frame
    // distance along the forward axis, with no diagonal reduction, so one
    // simulated second at the default speed covers exactly one world unit.
    let mut c = Camera::new();
    c.process_device_event(&InputEvent::KeyChanged { key: Key::W, pressed: true });
    let m = c.update();
    let dt = 1.0f32;
    let dist = c.move_speed_milli as f32 / 1000.0 * dt;
    let mut forward_dist = m.forward_sign as f32 * dist;
    let mut strafe_dist = m.strafe_sign as f32 * dist;
    if m.diagonal {
        forward_dist /= 2.0f32.sqrt();
        strafe_dist /= 2.0f32.sqrt();
    }
    // Facing -Z at yaw 0, the displacement is (0, 0, forward_dist).
    assert_eq!(c.yaw_mdeg, 0);
    assert_eq!(c.pitch_mdeg, 0);
    assert!((forward_dist - (-1.0)).abs() < 1e-6);
    assert_eq!(strafe_dist, 0.0);
}

#[test]
fn view_axes_orthonormal_for_many_orientations() {
    // The facing direction derived from the camera's yaw and pitch, and
    // the two axes crossed from it as the view matrix does, are mutually
    // orthogonal and unit length within 1e-5 — here checked numerically
    // for a spread of orientations reached through mouse events.
    let deltas: [(i32, i32); 5] = [(0, 0), (450, -300), (-1234, 567), (3100, 880), (177, 890)];
    for (dx, dy) in deltas {
        let mut c = Camera::new();
        c.process_device_event(&InputEvent::MouseMoved { dx, dy });
        let yaw = (c.yaw_mdeg as f32 / 1000.0).to_radians();
        let pitch = (c.pitch_mdeg as f32 / 1000.0).to_radians();
        let dir = (pitch.cos() * yaw.sin(), pitch.sin(), -pitch.cos() * yaw.cos());
        let z = normalize(dir);
        let x = normalize(cross(z, (0.0, 1.0, 0.0)));
        let y = normalize(cross(x, z));
        for v in [x, y, z] {
            let len = dot(v, v).sqrt();
            assert!((len - 1.0).abs() < 1e-5);
        }
        assert!(dot(x, z).abs() < 1e-5);
        assert!(dot(y, x).abs() < 1e-5);
        assert!(dot(y, z).abs() < 1e-5);
    }
}

fn normalize(v: (f32, f32, f32)) -> (f32, f32, f32) {
    let len = dot(v, v).sqrt();
    (v.0 / len, v.1 / len, v.2 / len)
}

fn cross(a: (f32, f32, f32), b: (f32, f32, f32)) -> (f32, f32, f32) {
    (
        a.1 * b.2 - a.2 * b.1,
        a.2 * b.0 - a.0 * b.2,
        a.0 * b.1 - a.1 * b.0,
    )
}

fn dot(a: (f32, f32, f32), b: (f32, f32, f32)) -> f32 {
    a.0 * b.0 + a.1 * b.1 + a.2 * b.2
}

#[test]
fn diagonal_magnitude_equals_axial_speed() {
    // With forward and right both held, each axis gets dist / sqrt(2), so
    // the combined magnitude is the axial speed, not sqrt(2) times it.
    let mut c = Camera::new();
    c.process_device_event(&InputEvent::KeyChanged { key: Key::W, pressed: true });
    c.process_device_event(&InputEvent::KeyChanged { key: Key::D, pressed: true });
    let m = c.update();
    let dist = 1.0f32;
    let mut forward_dist = m.forward_sign as f32 * dist;
    let mut strafe_dist = m.strafe_sign as f32 * dist;
    if m.diagonal {
        forward_dist /= 2.0f32.sqrt();
        strafe_dist /= 2.0f32.sqrt();
    }
    let magnitude = (forward_dist * forward_dist + strafe_dist * strafe_dist).sqrt();
    assert!((magnitude - dist).abs() < 1e-5);
}
