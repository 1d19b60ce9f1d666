//! First-person camera state: orientation angles, movement, view matrix.
//!
//! Angles are kept in tenths of a degree, so the fixed mouse sensitivity of
//! one tenth of a degree per pixel makes the yaw and pitch updates exact
//! integer arithmetic. Positions and direction vectors use the scales of
//! [`crate::vec3`]; the fixed movement speed of `0.05` world units per frame
//! is exactly [`SPEED_STEP`] position units per direction unit.
//!
//! The camera never evaluates sine or cosine itself: deriving the orthonormal
//! basis from yaw and pitch is floating-point work done by the rendering
//! host, which hands the result back as a [`Basis`] of scaled integers. The
//! camera checks it ([`Basis::is_valid`]) and keeps, as an invariant, that
//! its stored basis is orthonormal within the documented tolerance.

use vstd::arithmetic::div_mod::lemma_mod_add_multiples_vanish;
use vstd::prelude::*;

use crate::input_handler::{InputHandler, Key};
use crate::vec3::{dot3, in_range, lemma_mul_bound, Vec3, DIR_LIMIT, DIR_SCALE, POS_LIMIT};

verus! {

/// Movement per frame and held key, in position units per direction unit:
/// `0.05` world units, exactly, under the two scales of [`crate::vec3`].
pub const SPEED_STEP: i64 = 5;

/// Mouse sensitivity: tenths of a degree per pixel of mouse movement
/// (`0.1` degrees per pixel).
pub const SENSITIVITY_TDEG: i64 = 1;

/// Field-of-view angle handed to the host for its projection matrix, in
/// tenths of a degree (45 degrees).
pub const ZOOM_TDEG: i64 = 450;

/// Pitch is clamped to this bound in tenths of a degree (89 degrees), which
/// keeps the view direction away from the vertical and the look-at basis
/// non-degenerate.
pub const PITCH_LIMIT: i64 = 890;

/// Initial yaw in tenths of a degree: -90 degrees, facing along negative z.
pub const YAW_START: i64 = -900;

/// Tolerance on the dot product of two distinct basis vectors (scaled unit
/// vectors have squared length `10^12`; this allows a relative error of
/// `10^-3`, far above anything single-precision rounding produces).
pub const DOT_TOL: i64 = 1_000_000_000;

/// Tolerance on the squared length of a basis vector, around
/// `DIR_SCALE * DIR_SCALE`.
pub const NORM_TOL: i64 = 1_000_000_000;

/// Squared length of an exactly unit basis vector.
pub const DIR_SCALE_SQ: i64 = 1_000_000_000_000;

/// An orientation basis supplied by the rendering host: the camera's front,
/// right and up unit vectors, scaled by [`DIR_SCALE`].
#[derive(Clone, Copy, PartialEq, Eq, Structural, Debug)]
pub struct Basis {
    pub front: Vec3,
    pub right: Vec3,
    pub up: Vec3,
}

impl Basis {
    /// The three vectors are in range and mutually orthonormal within
    /// tolerance: pairwise dot products near zero, squared lengths near
    /// `DIR_SCALE * DIR_SCALE`.
    pub open spec fn valid(self) -> bool {
        &&& in_range(self.front, DIR_LIMIT as int)
        &&& in_range(self.right, DIR_LIMIT as int)
        &&& in_range(self.up, DIR_LIMIT as int)
        &&& -DOT_TOL <= dot3(self.front, self.right) <= DOT_TOL
        &&& -DOT_TOL <= dot3(self.front, self.up) <= DOT_TOL
        &&& -DOT_TOL <= dot3(self.right, self.up) <= DOT_TOL
        &&& -NORM_TOL <= dot3(self.front, self.front) - DIR_SCALE_SQ <= NORM_TOL
        &&& -NORM_TOL <= dot3(self.right, self.right) - DIR_SCALE_SQ <= NORM_TOL
        &&& -NORM_TOL <= dot3(self.up, self.up) - DIR_SCALE_SQ <= NORM_TOL
    }

    /// Decides [`Basis::valid`], so an unverified caller can test a basis it
    /// computed before handing it to [`Camera::set_basis`].
    pub fn is_valid(&self) -> (b: bool)
        ensures
            b == self.valid(),
    {
        let f = self.front;
        let r = self.right;
        let u = self.up;
        if !(within_dir(f) && within_dir(r) && within_dir(u)) {
            return false;
        }
        proof {
            lemma_dot_in_dir_range(f, r);
            lemma_dot_in_dir_range(f, u);
            lemma_dot_in_dir_range(r, u);
            lemma_dot_in_dir_range(f, f);
            lemma_dot_in_dir_range(r, r);
            lemma_dot_in_dir_range(u, u);
        }
        let dfr = f.dot(r);
        let dfu = f.dot(u);
        let dru = r.dot(u);
        let dff = f.dot(f);
        let drr = r.dot(r);
        let duu = u.dot(u);
        -DOT_TOL <= dfr && dfr <= DOT_TOL && -DOT_TOL <= dfu && dfu <= DOT_TOL
            && -DOT_TOL <= dru && dru <= DOT_TOL
            && -NORM_TOL <= dff - DIR_SCALE_SQ && dff - DIR_SCALE_SQ <= NORM_TOL
            && -NORM_TOL <= drr - DIR_SCALE_SQ && drr - DIR_SCALE_SQ <= NORM_TOL
            && -NORM_TOL <= duu - DIR_SCALE_SQ && duu - DIR_SCALE_SQ <= NORM_TOL
    }
}

/// Decides `in_range(v, DIR_LIMIT)`.
fn within_dir(v: Vec3) -> (b: bool)
    ensures
        b == in_range(v, DIR_LIMIT as int),
{
    -DIR_LIMIT <= v.x && v.x <= DIR_LIMIT && -DIR_LIMIT <= v.y && v.y <= DIR_LIMIT
        && -DIR_LIMIT <= v.z && v.z <= DIR_LIMIT
}

/// Multiplying by a factor of one changes nothing; stated for the
/// sensitivity factor, which the camera invariant pins to one.
proof fn lemma_one_mul(x: int, s: int)
    by (nonlinear_arith)
    requires
        s == 1,
    ensures
        x * s == x,
{
}

/// A product with a zero factor vanishes.
proof fn lemma_zero_mul(a: int, b: int)
    by (nonlinear_arith)
    requires
        a == 0,
    ensures
        a * b == 0,
        b * a == 0,
{
}

/// The square of an exactly unit scaled coordinate.
proof fn lemma_unit_sq(a: int)
    by (nonlinear_arith)
    requires
        a == 1_000_000 || a == -1_000_000,
    ensures
        a * a == 1_000_000_000_000,
{
}

/// The dot product of two direction-range vectors fits comfortably in `i64`.
proof fn lemma_dot_in_dir_range(a: Vec3, b: Vec3)
    requires
        in_range(a, DIR_LIMIT as int),
        in_range(b, DIR_LIMIT as int),
    ensures
        i64::MIN <= a.x * b.x <= i64::MAX,
        i64::MIN <= a.y * b.y <= i64::MAX,
        i64::MIN <= a.z * b.z <= i64::MAX,
        i64::MIN <= a.x * b.x + a.y * b.y <= i64::MAX,
        i64::MIN <= dot3(a, b) <= i64::MAX,
        -12_000_000_000_000 <= dot3(a, b) <= 12_000_000_000_000,
{
    lemma_mul_bound(a.x as int, b.x as int, DIR_LIMIT as int, DIR_LIMIT as int);
    lemma_mul_bound(a.y as int, b.y as int, DIR_LIMIT as int, DIR_LIMIT as int);
    lemma_mul_bound(a.z as int, b.z as int, DIR_LIMIT as int, DIR_LIMIT as int);
}

/// Pitch update rule: the proposed new pitch, clamped to
/// `[-PITCH_LIMIT, PITCH_LIMIT]`.
pub open spec fn clamp_pitch(p: int) -> int {
    if p > PITCH_LIMIT {
        PITCH_LIMIT as int
    } else if p < -PITCH_LIMIT {
        -PITCH_LIMIT as int
    } else {
        p
    }
}

/// The angle, in tenths of a degree within one turn, that a trigonometric
/// evaluation of an unbounded yaw actually depends on.
pub open spec fn trig_angle(a: int) -> int {
    a % 3600
}

/// Movement of one `process_keys` call along x: each held direction key
/// contributes its full scaled direction vector, so simultaneous keys
/// compose additively.
pub open spec fn step_x(c: Camera, i: InputHandler) -> int {
    (if i.key_held(Key::Forward) {
        c.front.x * c.speed
    } else {
        0
    }) - (if i.key_held(Key::Backward) {
        c.front.x * c.speed
    } else {
        0
    }) - (if i.key_held(Key::Left) {
        c.right.x * c.speed
    } else {
        0
    }) + (if i.key_held(Key::Right) {
        c.right.x * c.speed
    } else {
        0
    })
}

/// Movement of one `process_keys` call along y.
pub open spec fn step_y(c: Camera, i: InputHandler) -> int {
    (if i.key_held(Key::Forward) {
        c.front.y * c.speed
    } else {
        0
    }) - (if i.key_held(Key::Backward) {
        c.front.y * c.speed
    } else {
        0
    }) - (if i.key_held(Key::Left) {
        c.right.y * c.speed
    } else {
        0
    }) + (if i.key_held(Key::Right) {
        c.right.y * c.speed
    } else {
        0
    })
}

/// Movement of one `process_keys` call along z.
pub open spec fn step_z(c: Camera, i: InputHandler) -> int {
    (if i.key_held(Key::Forward) {
        c.front.z * c.speed
    } else {
        0
    }) - (if i.key_held(Key::Backward) {
        c.front.z * c.speed
    } else {
        0
    }) - (if i.key_held(Key::Left) {
        c.right.z * c.speed
    } else {
        0
    }) + (if i.key_held(Key::Right) {
        c.right.z * c.speed
    } else {
        0
    })
}

/// A column of a four-by-four matrix.
#[derive(Clone, Copy, PartialEq, Eq, Structural, Debug)]
pub struct Vec4 {
    pub x: i64,
    pub y: i64,
    pub z: i64,
    pub w: i64,
}

/// A four-by-four matrix in column-major order. In a view matrix produced by
/// [`Camera::view_matrix`], the rotation entries (upper-left three by three)
/// carry [`DIR_SCALE`], the three translation entries of the last column
/// carry `DIR_SCALE * POS_SCALE`, and the bottom row is the exact
/// `(0, 0, 0, 1)`.
#[derive(Clone, Copy, PartialEq, Eq, Structural, Debug)]
pub struct Mat4 {
    pub c0: Vec4,
    pub c1: Vec4,
    pub c2: Vec4,
    pub c3: Vec4,
}

/// `m` is the right-handed look-at matrix of camera `c`: rows are the right,
/// up and reversed front vectors, and the last column carries the position
/// projected on them. For an orthonormal basis this is exactly
/// `look_at(position, position + front, up)`.
pub open spec fn view_matches(c: Camera, m: Mat4) -> bool {
    &&& m.c0.x == c.right.x
    &&& m.c0.y == c.up.x
    &&& m.c0.z == -c.front.x
    &&& m.c0.w == 0
    &&& m.c1.x == c.right.y
    &&& m.c1.y == c.up.y
    &&& m.c1.z == -c.front.y
    &&& m.c1.w == 0
    &&& m.c2.x == c.right.z
    &&& m.c2.y == c.up.z
    &&& m.c2.z == -c.front.z
    &&& m.c2.w == 0
    &&& m.c3.x == -dot3(c.right, c.position)
    &&& m.c3.y == -dot3(c.up, c.position)
    &&& m.c3.z == dot3(c.front, c.position)
    &&& m.c3.w == 1
}

impl Mat4 {
    /// The sixteen entries in column-major order, as a rendering host
    /// uploads them.
    pub fn entries(&self) -> (v: Vec<i64>)
        ensures
            v@.len() == 16,
            v@[0] == self.c0.x && v@[1] == self.c0.y && v@[2] == self.c0.z && v@[3] == self.c0.w,
            v@[4] == self.c1.x && v@[5] == self.c1.y && v@[6] == self.c1.z && v@[7] == self.c1.w,
            v@[8] == self.c2.x && v@[9] == self.c2.y && v@[10] == self.c2.z && v@[11] == self.c2.w,
            v@[12] == self.c3.x && v@[13] == self.c3.y && v@[14] == self.c3.z && v@[15] == self.c3.w,
    {
        let mut v: Vec<i64> = Vec::new();
        v.push(self.c0.x);
        v.push(self.c0.y);
        v.push(self.c0.z);
        v.push(self.c0.w);
        v.push(self.c1.x);
        v.push(self.c1.y);
        v.push(self.c1.z);
        v.push(self.c1.w);
        v.push(self.c2.x);
        v.push(self.c2.y);
        v.push(self.c2.z);
        v.push(self.c2.w);
        v.push(self.c3.x);
        v.push(self.c3.y);
        v.push(self.c3.z);
        v.push(self.c3.w);
        v
    }
}

/// Camera state: position, orientation basis, Euler angles and the fixed
/// configuration constants.
pub struct Camera {
    /// World position, scaled by [`crate::vec3::POS_SCALE`].
    pub position: Vec3,
    /// Unit view direction, scaled by [`DIR_SCALE`].
    pub front: Vec3,
    /// Unit up vector, scaled by [`DIR_SCALE`].
    pub up: Vec3,
    /// Unit right vector, scaled by [`DIR_SCALE`].
    pub right: Vec3,
    /// Horizontal look angle in tenths of a degree; unbounded.
    pub yaw: i64,
    /// Vertical look angle in tenths of a degree; always clamped to
    /// `[-PITCH_LIMIT, PITCH_LIMIT]`.
    pub pitch: i64,
    /// Always [`SPEED_STEP`].
    pub speed: i64,
    /// Always [`SENSITIVITY_TDEG`].
    pub sensitivity: i64,
    /// Always [`ZOOM_TDEG`].
    pub zoom: i64,
}

impl Camera {
    /// Invariant of every reachable camera state: pitch clamped, position in
    /// range, basis orthonormal within tolerance, constants fixed.
    pub open spec fn wf(self) -> bool {
        &&& -PITCH_LIMIT <= self.pitch <= PITCH_LIMIT
        &&& in_range(self.position, POS_LIMIT as int)
        &&& Basis { front: self.front, right: self.right, up: self.up }.valid()
        &&& self.speed == SPEED_STEP
        &&& self.sensitivity == SENSITIVITY_TDEG
        &&& self.zoom == ZOOM_TDEG
    }

    /// A camera at `position` facing along negative z: yaw -90 degrees,
    /// pitch zero, exactly axis-aligned basis.
    pub fn new(position: Vec3) -> (r: Camera)
        requires
            in_range(position, POS_LIMIT as int),
        ensures
            r.wf(),
            r.position == position,
            r.yaw == YAW_START,
            r.pitch == 0,
            r.front.x == 0 && r.front.y == 0 && r.front.z == -DIR_SCALE,
            r.up.x == 0 && r.up.y == DIR_SCALE && r.up.z == 0,
            r.right.x == DIR_SCALE && r.right.y == 0 && r.right.z == 0,
            r.speed == SPEED_STEP,
            r.sensitivity == SENSITIVITY_TDEG,
            r.zoom == ZOOM_TDEG,
    {
        let r = Camera {
            position,
            yaw: YAW_START,
            pitch: 0,
            speed: SPEED_STEP,
            sensitivity: SENSITIVITY_TDEG,
            zoom: ZOOM_TDEG,
            front: Vec3 { x: 0, y: 0, z: -DIR_SCALE },
            up: Vec3 { x: 0, y: DIR_SCALE, z: 0 },
            right: Vec3 { x: DIR_SCALE, y: 0, z: 0 },
        };
        proof {
            let f = r.front;
            let s = r.right;
            let u = r.up;
            lemma_unit_sq(f.z as int);
            lemma_unit_sq(s.x as int);
            lemma_unit_sq(u.y as int);
            lemma_zero_mul(f.x as int, s.x as int);
            lemma_zero_mul(f.x as int, u.x as int);
            lemma_zero_mul(f.x as int, f.x as int);
            lemma_zero_mul(f.y as int, s.y as int);
            lemma_zero_mul(f.y as int, u.y as int);
            lemma_zero_mul(f.y as int, f.y as int);
            lemma_zero_mul(s.z as int, f.z as int);
            lemma_zero_mul(u.z as int, f.z as int);
            lemma_zero_mul(s.y as int, u.y as int);
            lemma_zero_mul(u.x as int, s.x as int);
            lemma_zero_mul(s.z as int, u.z as int);
            lemma_zero_mul(s.y as int, s.y as int);
            lemma_zero_mul(s.z as int, s.z as int);
            lemma_zero_mul(u.x as int, u.x as int);
            lemma_zero_mul(u.z as int, u.z as int);
        }
        r
    }

    /// Turns the camera by the latest mouse delta: yaw moves freely by
    /// `dx` times the sensitivity, pitch by `dy` times the sensitivity and
    /// is then clamped. The delta is read, not consumed: a second call with
    /// the same handler state turns again by the same amount. The stored
    /// basis is untouched; the host derives the new basis from the new
    /// angles and hands it back through [`Camera::set_basis`].
    pub fn process_mouse(&mut self, handler: &InputHandler)
        requires
            old(self).wf(),
            handler.wf(),
            i64::MIN <= old(self).yaw + handler.dx <= i64::MAX,
        ensures
            final(self).wf(),
            final(self).yaw == old(self).yaw + handler.dx,
            final(self).pitch == clamp_pitch(old(self).pitch + handler.dy),
            final(self).position == old(self).position,
            final(self).front == old(self).front,
            final(self).right == old(self).right,
            final(self).up == old(self).up,
            final(self).speed == old(self).speed,
            final(self).sensitivity == old(self).sensitivity,
            final(self).zoom == old(self).zoom,
    {
        proof {
            lemma_one_mul(handler.dx as int, self.sensitivity as int);
            lemma_one_mul(handler.dy as int, self.sensitivity as int);
        }
        self.yaw = self.yaw + handler.dx * self.sensitivity;
        let mut pitch = self.pitch + handler.dy * self.sensitivity;
        if pitch > PITCH_LIMIT {
            pitch = PITCH_LIMIT;
        }
        if pitch < -PITCH_LIMIT {
            pitch = -PITCH_LIMIT;
        }
        self.pitch = pitch;
    }

    /// Installs the orientation basis the host derived from the current yaw
    /// and pitch. Only bases that are orthonormal within tolerance are
    /// accepted, so the orientation invariant survives every update.
    pub fn set_basis(&mut self, basis: Basis)
        requires
            old(self).wf(),
            basis.valid(),
        ensures
            final(self).wf(),
            final(self).front == basis.front,
            final(self).right == basis.right,
            final(self).up == basis.up,
            final(self).position == old(self).position,
            final(self).yaw == old(self).yaw,
            final(self).pitch == old(self).pitch,
            final(self).speed == old(self).speed,
            final(self).sensitivity == old(self).sensitivity,
            final(self).zoom == old(self).zoom,
    {
        self.front = basis.front;
        self.right = basis.right;
        self.up = basis.up;
    }

    /// Moves the position by the sum of the scaled direction vectors of all
    /// held keys: forward and backward along the front vector, strafing
    /// along the right vector. Simultaneous keys compose additively, so a
    /// diagonal move is longer than a single-direction move.
    pub fn process_keys(&mut self, input: &InputHandler)
        requires
            old(self).wf(),
            input.wf(),
            in_range(old(self).position, POS_LIMIT - 4 * DIR_LIMIT * SPEED_STEP),
        ensures
            final(self).wf(),
            final(self).position.x == old(self).position.x + step_x(*old(self), *input),
            final(self).position.y == old(self).position.y + step_y(*old(self), *input),
            final(self).position.z == old(self).position.z + step_z(*old(self), *input),
            final(self).front == old(self).front,
            final(self).right == old(self).right,
            final(self).up == old(self).up,
            final(self).yaw == old(self).yaw,
            final(self).pitch == old(self).pitch,
            final(self).speed == old(self).speed,
            final(self).sensitivity == old(self).sensitivity,
            final(self).zoom == old(self).zoom,
    {
        proof {
            lemma_mul_bound(self.front.x as int, self.speed as int, DIR_LIMIT as int, SPEED_STEP as int);
            lemma_mul_bound(self.front.y as int, self.speed as int, DIR_LIMIT as int, SPEED_STEP as int);
            lemma_mul_bound(self.front.z as int, self.speed as int, DIR_LIMIT as int, SPEED_STEP as int);
            lemma_mul_bound(self.right.x as int, self.speed as int, DIR_LIMIT as int, SPEED_STEP as int);
            lemma_mul_bound(self.right.y as int, self.speed as int, DIR_LIMIT as int, SPEED_STEP as int);
            lemma_mul_bound(self.right.z as int, self.speed as int, DIR_LIMIT as int, SPEED_STEP as int);
        }
        if input.is_key_down(Key::Forward) {
            self.position = self.position.plus(self.front.scale(self.speed));
        }
        if input.is_key_down(Key::Backward) {
            self.position = self.position.minus(self.front.scale(self.speed));
        }
        if input.is_key_down(Key::Left) {
            self.position = self.position.minus(self.right.scale(self.speed));
        }
        if input.is_key_down(Key::Right) {
            self.position = self.position.plus(self.right.scale(self.speed));
        }
    }

    /// The yaw reduced to one turn: the angle a trigonometric evaluation of
    /// the unbounded yaw actually depends on, in tenths of a degree in
    /// `[0, 3600)`. By [`lemma_trig_angle_period`], a full turn of yaw leaves
    /// it unchanged, so the basis the host derives from it wraps correctly.
    pub fn trig_yaw(&self) -> (a: i64)
        ensures
            a == trig_angle(self.yaw as int),
            0 <= a < 3600,
    {
        let m = self.yaw % 3600;
        if m < 0 {
            m + 3600
        } else {
            m
        }
    }

    /// The right-handed look-at matrix from the current position toward
    /// `position + front` with the current up vector, as a function of the
    /// camera state alone (see [`view_matches`]).
    pub fn view_matrix(&self) -> (m: Mat4)
        requires
            self.wf(),
        ensures
            view_matches(*self, m),
    {
        proof {
            lemma_view_dot_in_range(self.right, self.position);
            lemma_view_dot_in_range(self.up, self.position);
            lemma_view_dot_in_range(self.front, self.position);
        }
        let tr = self.right.dot(self.position);
        let tu = self.up.dot(self.position);
        let tf = self.front.dot(self.position);
        Mat4 {
            c0: Vec4 { x: self.right.x, y: self.up.x, z: -self.front.x, w: 0 },
            c1: Vec4 { x: self.right.y, y: self.up.y, z: -self.front.y, w: 0 },
            c2: Vec4 { x: self.right.z, y: self.up.z, z: -self.front.z, w: 0 },
            c3: Vec4 { x: -tr, y: -tu, z: tf, w: 1 },
        }
    }
}

/// Law: the orientation basis of every reachable camera state is mutually
/// orthonormal within tolerance. [`Camera::new`] establishes the invariant
/// with an exactly orthonormal basis and every mutating method preserves it,
/// so this holds after any sequence of mouse and key updates.
pub proof fn lemma_orientation_orthonormal(c: Camera)
    requires
        c.wf(),
    ensures
        -DOT_TOL <= dot3(c.front, c.right) <= DOT_TOL,
        -DOT_TOL <= dot3(c.front, c.up) <= DOT_TOL,
        -DOT_TOL <= dot3(c.right, c.up) <= DOT_TOL,
        -NORM_TOL <= dot3(c.front, c.front) - DIR_SCALE_SQ <= NORM_TOL,
        -NORM_TOL <= dot3(c.right, c.right) - DIR_SCALE_SQ <= NORM_TOL,
        -NORM_TOL <= dot3(c.up, c.up) - DIR_SCALE_SQ <= NORM_TOL,
{
}

/// Law: the pitch of every reachable camera state lies in
/// `[-PITCH_LIMIT, PITCH_LIMIT]`, whatever sequence of mouse deltas was
/// applied: [`Camera::new`] starts at zero and [`Camera::process_mouse`]
/// clamps every update.
pub proof fn lemma_pitch_always_clamped(c: Camera)
    requires
        c.wf(),
    ensures
        -PITCH_LIMIT <= c.pitch <= PITCH_LIMIT,
{
}

/// Law: the angle a trigonometric evaluation sees is periodic in the yaw
/// with period one full turn, so a basis derived at yaw `a` and one derived
/// at yaw `a + 3600` tenths of a degree coincide: the unbounded yaw wraps
/// through the trigonometry.
pub proof fn lemma_trig_angle_period(a: int)
    ensures
        trig_angle(a + 3600) == trig_angle(a),
{
    lemma_mod_add_multiples_vanish(a, 3600);
}

/// Law: with forward and right held and the other keys released, one
/// [`Camera::process_keys`] call moves the position by exactly the vector
/// sum `front * speed + right * speed`, not re-normalized; and when the two
/// directions are exactly orthogonal and of equal length, the squared length
/// of that diagonal step is exactly twice the squared length of a
/// single-direction step.
pub proof fn lemma_diagonal_move(c: Camera, i: InputHandler)
    requires
        c.wf(),
        i.key_held(Key::Forward),
        i.key_held(Key::Right),
        !i.key_held(Key::Backward),
        !i.key_held(Key::Left),
    ensures
        step_x(c, i) == c.front.x * c.speed + c.right.x * c.speed,
        step_y(c, i) == c.front.y * c.speed + c.right.y * c.speed,
        step_z(c, i) == c.front.z * c.speed + c.right.z * c.speed,
        dot3(c.front, c.right) == 0 && dot3(c.front, c.front) == dot3(c.right, c.right)
            ==> step_x(c, i) * step_x(c, i) + step_y(c, i) * step_y(c, i) + step_z(c, i) * step_z(
            c,
            i,
        ) == 2 * (c.speed * c.speed * dot3(c.front, c.front)),
{
    if dot3(c.front, c.right) == 0 && dot3(c.front, c.front) == dot3(c.right, c.right) {
        lemma_diagonal_sq(
            c.front.x as int,
            c.front.y as int,
            c.front.z as int,
            c.right.x as int,
            c.right.y as int,
            c.right.z as int,
            c.speed as int,
        );
    }
}

/// Ring identity behind the diagonal-speed claim: if `f` and `r` are
/// orthogonal and of equal squared length, the squared length of
/// `s*f + s*r` is twice `s*s` times the squared length of `f`.
proof fn lemma_diagonal_sq(fx: int, fy: int, fz: int, rx: int, ry: int, rz: int, s: int)
    requires
        fx * rx + fy * ry + fz * rz == 0,
        fx * fx + fy * fy + fz * fz == rx * rx + ry * ry + rz * rz,
    ensures
        (fx * s + rx * s) * (fx * s + rx * s) + (fy * s + ry * s) * (fy * s + ry * s) + (fz * s
            + rz * s) * (fz * s + rz * s) == 2 * (s * s * (fx * fx + fy * fy + fz * fz)),
{
    lemma_sq_factor(fx, rx, s);
    lemma_sq_factor(fy, ry, s);
    lemma_sq_factor(fz, rz, s);
    lemma_sum_of_squares(fx, fy, fz, rx, ry, rz);
    lemma_scale_sum(
        s,
        (fx + rx) * (fx + rx),
        (fy + ry) * (fy + ry),
        (fz + rz) * (fz + rz),
        fx * fx + fy * fy + fz * fz,
    );
}

/// One component of the step, squared: the scalar factors out.
proof fn lemma_sq_factor(a: int, b: int, s: int)
    by (nonlinear_arith)
    ensures
        (a * s + b * s) * (a * s + b * s) == s * s * ((a + b) * (a + b)),
{
}

/// Squared length of the sum of two orthogonal vectors of equal length.
proof fn lemma_sum_of_squares(fx: int, fy: int, fz: int, rx: int, ry: int, rz: int)
    by (nonlinear_arith)
    requires
        fx * rx + fy * ry + fz * rz == 0,
        fx * fx + fy * fy + fz * fz == rx * rx + ry * ry + rz * rz,
    ensures
        (fx + rx) * (fx + rx) + (fy + ry) * (fy + ry) + (fz + rz) * (fz + rz) == 2 * (fx * fx + fy
            * fy + fz * fz),
{
}

/// Distributing the squared scalar over the component sum.
proof fn lemma_scale_sum(s: int, a: int, b: int, c: int, f: int)
    by (nonlinear_arith)
    requires
        a + b + c == 2 * f,
    ensures
        s * s * a + s * s * b + s * s * c == 2 * (s * s * f),
{
}

/// Law: the view matrix is a function of the camera state alone, so two
/// calls of [`Camera::view_matrix`] with no update in between return
/// identical matrices.
pub proof fn lemma_view_matrix_deterministic(c: Camera, m1: Mat4, m2: Mat4)
    requires
        view_matches(c, m1),
        view_matches(c, m2),
    ensures
        m1 == m2,
{
}

/// The dot product of a direction-range vector with a position-range vector
/// fits in `i64`, with room to negate it.
proof fn lemma_view_dot_in_range(d: Vec3, p: Vec3)
    requires
        in_range(d, DIR_LIMIT as int),
        in_range(p, POS_LIMIT as int),
    ensures
        i64::MIN <= d.x * p.x <= i64::MAX,
        i64::MIN <= d.y * p.y <= i64::MAX,
        i64::MIN <= d.z * p.z <= i64::MAX,
        i64::MIN <= d.x * p.x + d.y * p.y <= i64::MAX,
        i64::MIN < dot3(d, p) <= i64::MAX,
        -6_000_000_000_000_000_000 <= dot3(d, p) <= 6_000_000_000_000_000_000,
{
    lemma_mul_bound(d.x as int, p.x as int, DIR_LIMIT as int, POS_LIMIT as int);
    lemma_mul_bound(d.y as int, p.y as int, DIR_LIMIT as int, POS_LIMIT as int);
    lemma_mul_bound(d.z as int, p.z as int, DIR_LIMIT as int, POS_LIMIT as int);
}

} // verus!
