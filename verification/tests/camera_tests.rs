use cubecam::camera::{Basis, Camera};
use cubecam::input_handler::{InputHandler, Key};
use cubecam::vec3::Vec3;

const DIR_SCALE: i64 = 1_000_000;
const POS_SCALE: i64 = 100_000_000;

/// The basis the rendering host derives from yaw and pitch, exactly as the
/// demo computes it: front from the spherical-coordinate formulas, right and
/// up from normalized cross products against the previous up vector.
fn trig_basis(yaw_tdeg: i64, pitch_tdeg: i64, prev_up: [f64; 3]) -> Basis {
    let yaw = (yaw_tdeg as f64 / 10.0).to_radians();
    let pitch = (pitch_tdeg as f64 / 10.0).to_radians();
    let front = normalize([
        yaw.cos() * pitch.cos(),
        pitch.sin(),
        yaw.sin() * pitch.cos(),
    ]);
    let right = normalize(cross(front, prev_up));
    let up = normalize(cross(right, front));
    Basis {
        front: to_dir(front),
        right: to_dir(right),
        up: to_dir(up),
    }
}

fn cross(a: [f64; 3], b: [f64; 3]) -> [f64; 3] {
    [
        a[1] * b[2] - a[2] * b[1],
        a[2] * b[0] - a[0] * b[2],
        a[0] * b[1] - a[1] * b[0],
    ]
}

fn normalize(v: [f64; 3]) -> [f64; 3] {
    let n = (v[0] * v[0] + v[1] * v[1] + v[2] * v[2]).sqrt();
    [v[0] / n, v[1] / n, v[2] / n]
}

fn to_dir(v: [f64; 3]) -> Vec3 {
    Vec3::new(
        (v[0] * DIR_SCALE as f64).round() as i64,
        (v[1] * DIR_SCALE as f64).round() as i64,
        (v[2] * DIR_SCALE as f64).round() as i64,
    )
}

fn fresh_camera() -> Camera {
    Camera::new(Vec3::new(0, 0, 3 * POS_SCALE))
}

#[test]
fn fresh_camera_faces_negative_z() {
    let cam = fresh_camera();
    assert_eq!(cam.yaw, -900);
    assert_eq!(cam.pitch, 0);
    assert_eq!(cam.front, Vec3::new(0, 0, -DIR_SCALE));
    assert_eq!(cam.up, Vec3::new(0, DIR_SCALE, 0));
    assert_eq!(cam.right, Vec3::new(DIR_SCALE, 0, 0));
    assert_eq!(cam.speed, 5);
    assert_eq!(cam.sensitivity, 1);
    assert_eq!(cam.zoom, 450);
}

#[test]
fn fresh_camera_view_matrix_is_translation() {
    // look_at((0,0,3), (0,0,2), (0,1,0)): identity rotation, translation -3
    // along z. Rotation entries carry DIR_SCALE, translation entries carry
    // DIR_SCALE * POS_SCALE.
    let cam = fresh_camera();
    let m = cam.view_matrix();
    let e = m.entries();
    assert_eq!(
        e,
        vec![
            DIR_SCALE, 0, 0, 0, // first column
            0, DIR_SCALE, 0, 0, // second column
            0, 0, DIR_SCALE, 0, // third column
            0, 0, -3 * DIR_SCALE * POS_SCALE, 1, // translation column
        ]
    );
}

#[test]
fn view_matrix_is_idempotent() {
    let mut cam = fresh_camera();
    let mut input = InputHandler::new();
    input.mouse_move(0, 0);
    input.mouse_move(25, -12);
    cam.process_mouse(&input);
    let basis = trig_basis(cam.yaw, cam.pitch, [0.0, 1.0, 0.0]);
    assert!(basis.is_valid());
    cam.set_basis(basis);
    let m1 = cam.view_matrix();
    let m2 = cam.view_matrix();
    assert_eq!(m1, m2);
    assert_eq!(m1.entries(), m2.entries());
}

#[test]
fn forward_once_decreases_z_by_speed() {
    // 0.05 world units is exactly 5_000_000 position units.
    let mut cam = fresh_camera();
    let mut input = InputHandler::new();
    input.key_down(Key::Forward);
    cam.process_keys(&input);
    assert_eq!(cam.position, Vec3::new(0, 0, 3 * POS_SCALE - 5_000_000));
}

#[test]
fn backward_and_strafing_move_along_the_basis() {
    let mut input = InputHandler::new();

    let mut cam = fresh_camera();
    input.key_down(Key::Backward);
    cam.process_keys(&input);
    assert_eq!(cam.position, Vec3::new(0, 0, 3 * POS_SCALE + 5_000_000));
    input.key_up(Key::Backward);

    let mut cam = fresh_camera();
    input.key_down(Key::Left);
    cam.process_keys(&input);
    assert_eq!(cam.position, Vec3::new(-5_000_000, 0, 3 * POS_SCALE));
    input.key_up(Key::Left);

    let mut cam = fresh_camera();
    input.key_down(Key::Right);
    cam.process_keys(&input);
    assert_eq!(cam.position, Vec3::new(5_000_000, 0, 3 * POS_SCALE));
}

#[test]
fn diagonal_move_is_the_vector_sum() {
    // Forward+Right composes additively: front*speed + right*speed, and the
    // squared step length is exactly twice that of a single-direction step.
    let mut cam = fresh_camera();
    let mut input = InputHandler::new();
    input.key_down(Key::Forward);
    input.key_down(Key::Right);
    cam.process_keys(&input);
    assert_eq!(cam.position, Vec3::new(5_000_000, 0, 3 * POS_SCALE - 5_000_000));

    let step = [5_000_000i128, 0, -5_000_000];
    let sq: i128 = step.iter().map(|c| c * c).sum();
    let single = [0i128, 0, -5_000_000];
    let sq_single: i128 = single.iter().map(|c| c * c).sum();
    assert_eq!(sq, 2 * sq_single);
}

#[test]
fn opposite_keys_cancel() {
    let mut cam = fresh_camera();
    let mut input = InputHandler::new();
    input.key_down(Key::Forward);
    input.key_down(Key::Backward);
    cam.process_keys(&input);
    assert_eq!(cam.position, Vec3::new(0, 0, 3 * POS_SCALE));
}

#[test]
fn key_released_before_poll_means_no_move() {
    let mut cam = fresh_camera();
    let mut input = InputHandler::new();
    input.key_down(Key::Forward);
    input.key_up(Key::Forward);
    cam.process_keys(&input);
    assert_eq!(cam.position, Vec3::new(0, 0, 3 * POS_SCALE));
}

#[test]
fn mouse_delta_turns_yaw_by_sensitivity() {
    // dx of 10 pixels at 0.1 degrees per pixel is one degree: ten tenths.
    let mut cam = fresh_camera();
    let mut input = InputHandler::new();
    input.mouse_move(0, 0);
    input.mouse_move(10, 0);
    assert_eq!(input.dx, 10);
    assert_eq!(input.dy, 0);
    cam.process_mouse(&input);
    assert_eq!(cam.yaw, -890);
    assert_eq!(cam.pitch, 0);
}

#[test]
fn pitch_is_clamped_both_ways() {
    let mut cam = fresh_camera();
    let mut input = InputHandler::new();
    input.mouse_move(0, 0);
    input.mouse_move(0, 2000);
    cam.process_mouse(&input);
    assert_eq!(cam.pitch, 890);

    let mut cam = fresh_camera();
    let mut input = InputHandler::new();
    input.mouse_move(0, 0);
    input.mouse_move(0, -2000);
    cam.process_mouse(&input);
    assert_eq!(cam.pitch, -890);
}

#[test]
fn stale_mouse_delta_is_reapplied() {
    // The delta is never zeroed after being consumed: a frame without a new
    // move event turns the camera again by the previous delta.
    let mut cam = fresh_camera();
    let mut input = InputHandler::new();
    input.mouse_move(0, 0);
    input.mouse_move(10, 0);
    cam.process_mouse(&input);
    cam.process_mouse(&input);
    assert_eq!(cam.yaw, -880);
}

#[test]
fn trig_basis_passes_the_orthonormality_check() {
    let basis = trig_basis(-600, 300, [0.0, 1.0, 0.0]);
    assert!(basis.is_valid());
    let basis = trig_basis(-900, 0, [0.0, 1.0, 0.0]);
    assert!(basis.is_valid());
    assert_eq!(basis.front, Vec3::new(0, 0, -DIR_SCALE));
}

#[test]
fn degenerate_basis_is_rejected() {
    let v = Vec3::new(DIR_SCALE, 0, 0);
    let bad = Basis {
        front: v,
        right: v,
        up: Vec3::new(0, DIR_SCALE, 0),
    };
    assert!(!bad.is_valid());

    let out_of_range = Basis {
        front: Vec3::new(3_000_000, 0, 0),
        right: Vec3::new(0, DIR_SCALE, 0),
        up: Vec3::new(0, 0, DIR_SCALE),
    };
    assert!(!out_of_range.is_valid());
}

#[test]
fn trig_yaw_reduces_to_one_turn() {
    let cam = fresh_camera();
    assert_eq!(cam.yaw, -900);
    assert_eq!(cam.trig_yaw(), 2700);

    // A full extra turn leaves the reduced angle unchanged.
    let mut cam = fresh_camera();
    let mut input = InputHandler::new();
    input.mouse_move(0, 0);
    input.mouse_move(3600, 0);
    cam.process_mouse(&input);
    assert_eq!(cam.yaw, -900 + 3600);
    assert_eq!(cam.trig_yaw(), 2700);
}

#[test]
fn yaw_wraps_through_the_trigonometry() {
    // A full turn of 3600 tenths of a degree leaves the derived basis
    // unchanged up to rounding.
    let a = trig_basis(-600, 150, [0.0, 1.0, 0.0]);
    let b = trig_basis(-600 + 3600, 150, [0.0, 1.0, 0.0]);
    assert!((a.front.x - b.front.x).abs() <= 1);
    assert!((a.front.y - b.front.y).abs() <= 1);
    assert!((a.front.z - b.front.z).abs() <= 1);
    assert!((a.right.x - b.right.x).abs() <= 1);
    assert!((a.up.y - b.up.y).abs() <= 1);
}

#[test]
fn basis_at_the_pitch_clamp_is_still_valid() {
    // At the clamped pitch of 89 degrees the front vector is nearly
    // vertical and the cross product against the previous up is short, yet
    // the normalized, scaled basis still passes the orthonormality check.
    let mut cam = fresh_camera();
    let mut input = InputHandler::new();
    input.mouse_move(0, 0);
    input.mouse_move(0, 5000);
    cam.process_mouse(&input);
    assert_eq!(cam.pitch, 890);
    let basis = trig_basis(cam.yaw, cam.pitch, [0.0, 1.0, 0.0]);
    assert!(basis.is_valid());
    cam.set_basis(basis);
    let m = cam.view_matrix();
    assert_eq!(m.entries().len(), 16);
}

#[test]
fn frame_cycle_preserves_the_orientation_invariant() {
    // One simulated frame loop: keys, then mouse, then the host-derived
    // basis, then the view matrix, as the demo runs it. The stored basis
    // stays orthonormal within the library's tolerance throughout.
    let mut cam = fresh_camera();
    let mut input = InputHandler::new();
    input.mouse_move(100, 50);
    input.key_down(Key::Forward);
    input.key_down(Key::Left);
    let mut up = [0.0, 1.0, 0.0];
    for frame in 0..32 {
        input.mouse_move(100 + 7 * frame, 50 - 3 * frame);
        cam.process_keys(&input);
        cam.process_mouse(&input);
        let basis = trig_basis(cam.yaw, cam.pitch, up);
        assert!(basis.is_valid());
        cam.set_basis(basis);
        up = [
            basis.up.x as f64 / DIR_SCALE as f64,
            basis.up.y as f64 / DIR_SCALE as f64,
            basis.up.z as f64 / DIR_SCALE as f64,
        ];
        let stored = Basis {
            front: cam.front,
            right: cam.right,
            up: cam.up,
        };
        assert!(stored.is_valid());
        let m = cam.view_matrix();
        assert_eq!(m.entries().len(), 16);
        assert!(cam.pitch.abs() <= 890);
    }
}
