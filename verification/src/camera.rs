//! First-person camera: a world position, a look [`Direction`], and an up
//! vector, with discrete movement commands.
//!
//! Movement follows "normalize-or-zero" semantics: the pressed keys each
//! contribute a unit direction (forward or backward along the look
//! direction, strafe along its cross product with up), the contributions
//! are summed, and the sum is normalised unless it cancelled to zero — so
//! opposing keys, or no keys, move the camera nowhere, and diagonal
//! movement is no faster than straight movement.

pub mod direction;

use vstd::prelude::*;

use crate::camera::direction::{
    default_direction, euler_of, euler_vector, with_pitch, with_yaw, AngleTrig, Degrees, Direction,
};
use crate::vec3::{
    cross_of, lemma_milli_div_bound, normalize_or_zero, normalized_or_zero, scale_milli_of,
    trunc_div, zero_vec, Vec3,
};

verus! {

/// Movement speed in milli world units per second.
pub const SPEED: i64 = 2_000;

/// Largest frame delta, in milliseconds, that movement accepts.
pub const DELTA_LIMIT: i64 = 1_000_000;

/// Largest number of key events one movement call accepts.
pub const KEYS_LIMIT: usize = 1024;

/// How far a single movement call can displace the camera along each axis,
/// in milli units: one unit direction, times `SPEED`, times `DELTA_LIMIT`
/// milliseconds.
pub const STEP_LIMIT: i64 = 2_000_000;

/// One movement intent, as forwarded by the input layer. Only these four
/// reach the camera; anything else the input layer keeps to itself.
#[derive(Clone, Copy, Debug, PartialEq, Eq, Structural)]
pub enum MovementKey {
    Forward,
    Backward,
    StrafeLeft,
    StrafeRight,
}

/// How many entries of `keys` equal `k`.
pub open spec fn count_key(keys: Seq<MovementKey>, k: MovementKey) -> int
    decreases keys.len(),
{
    if keys.len() == 0 {
        0
    } else {
        count_key(keys.drop_last(), k) + if keys.last() == k {
            1int
        } else {
            0int
        }
    }
}

/// Net movement intent of a key sequence: how many net units forward and
/// how many net units to the right.
pub open spec fn intent_forward(keys: Seq<MovementKey>) -> int {
    count_key(keys, MovementKey::Forward) - count_key(keys, MovementKey::Backward)
}

pub open spec fn intent_right(keys: Seq<MovementKey>) -> int {
    count_key(keys, MovementKey::StrafeRight) - count_key(keys, MovementKey::StrafeLeft)
}

/// The strafe axis: the normalised cross product of the look direction and
/// up, pointing to the camera's right.
pub open spec fn strafe_axis(forward: Vec3, up: Vec3) -> Vec3 {
    normalized_or_zero(cross_of(forward, up))
}

/// The summed, unnormalised movement direction of a key sequence.
pub open spec fn intent_vector(keys: Seq<MovementKey>, t: AngleTrig, up: Vec3) -> Vec3 {
    let f = euler_of(t);
    let s = strafe_axis(f, up);
    let cf = intent_forward(keys);
    let cr = intent_right(keys);
    Vec3 {
        x: (f.x * cf + s.x * cr) as i64,
        y: (f.y * cf + s.y * cr) as i64,
        z: (f.z * cf + s.z * cr) as i64,
    }
}

/// The position change one movement call makes: the normalised intent,
/// scaled by speed, scaled by the frame delta.
pub open spec fn movement_displacement(
    keys: Seq<MovementKey>,
    t: AngleTrig,
    up: Vec3,
    delta_milli: int,
) -> Vec3 {
    scale_milli_of(
        scale_milli_of(normalized_or_zero(intent_vector(keys, t, up)), SPEED as int),
        delta_milli,
    )
}

/// A first-person camera.
#[derive(Clone, Copy, Debug, PartialEq, Eq, Structural)]
pub struct Camera {
    pub pos: Vec3,
    pub dir: Direction,
    pub up: Vec3,
}

/// The startup pose: three units back from the origin, looking down the
/// negative z axis, y up.
pub open spec fn default_camera() -> Camera {
    Camera {
        pos: Vec3 { x: 0i64, y: 0i64, z: 3000i64 },
        dir: default_direction(),
        up: Vec3 { x: 0i64, y: 1000i64, z: 0i64 },
    }
}

impl Camera {
    /// The up vector is a milli unit vector and the pitch is clamped.
    pub open spec fn wf(self) -> bool {
        &&& -1000 <= self.up.x <= 1000
        &&& -1000 <= self.up.y <= 1000
        &&& -1000 <= self.up.z <= 1000
        &&& self.dir.wf()
    }

    pub fn new() -> (r: Camera)
        ensures
            r == default_camera(),
            r.wf(),
    {
        Camera::default()
    }

    pub fn pos(&self) -> (r: Vec3)
        ensures
            r == self.pos,
    {
        self.pos
    }

    /// The unit forward vector for the camera's current orientation, whose
    /// trigonometric values the caller supplies.
    pub fn forward(&self, trig: &AngleTrig) -> (r: Vec3)
        requires
            trig.wf(),
        ensures
            r == euler_of(*trig),
    {
        euler_vector(trig)
    }

    /// Applies the pressed movement keys for one frame of `delta_milli`
    /// milliseconds. No keys, or fully opposing keys, leave the position
    /// untouched; otherwise the camera moves at `SPEED` along the
    /// normalised intent direction.
    pub fn handle_movement(&mut self, keys: &Vec<MovementKey>, trig: &AngleTrig, delta_milli: i64)
        requires
            old(self).wf(),
            old(self).pos.in_bounds(),
            trig.wf(),
            0 <= delta_milli <= DELTA_LIMIT,
            keys@.len() <= KEYS_LIMIT,
        ensures
            final(self).dir == old(self).dir,
            final(self).up == old(self).up,
            final(self).wf(),
            final(self).pos.x == old(self).pos.x + movement_displacement(
                keys@,
                *trig,
                old(self).up,
                delta_milli as int,
            ).x,
            final(self).pos.y == old(self).pos.y + movement_displacement(
                keys@,
                *trig,
                old(self).up,
                delta_milli as int,
            ).y,
            final(self).pos.z == old(self).pos.z + movement_displacement(
                keys@,
                *trig,
                old(self).up,
                delta_milli as int,
            ).z,
            keys@.len() == 0 ==> final(self).pos == old(self).pos,
            intent_forward(keys@) == 0 && intent_right(keys@) == 0 ==> final(self).pos == old(
                self,
            ).pos,
            -STEP_LIMIT <= final(self).pos.x - old(self).pos.x <= STEP_LIMIT,
            -STEP_LIMIT <= final(self).pos.y - old(self).pos.y <= STEP_LIMIT,
            -STEP_LIMIT <= final(self).pos.z - old(self).pos.z <= STEP_LIMIT,
    {
        let mut n_forward: usize = 0;
        let mut n_backward: usize = 0;
        let mut n_left: usize = 0;
        let mut n_right: usize = 0;
        let mut i: usize = 0;
        while i < keys.len()
            invariant
                i <= keys@.len() <= KEYS_LIMIT,
                n_forward == count_key(keys@.take(i as int), MovementKey::Forward),
                n_backward == count_key(keys@.take(i as int), MovementKey::Backward),
                n_left == count_key(keys@.take(i as int), MovementKey::StrafeLeft),
                n_right == count_key(keys@.take(i as int), MovementKey::StrafeRight),
                n_forward + n_backward + n_left + n_right == i,
            decreases keys@.len() - i,
        {
            proof {
                assert(keys@.take(i + 1).drop_last() =~= keys@.take(i as int));
                assert(keys@.take(i + 1).last() == keys@[i as int]);
            }
            match keys[i] {
                MovementKey::Forward => n_forward = n_forward + 1,
                MovementKey::Backward => n_backward = n_backward + 1,
                MovementKey::StrafeLeft => n_left = n_left + 1,
                MovementKey::StrafeRight => n_right = n_right + 1,
            }
            i = i + 1;
        }
        proof {
            assert(keys@.take(keys@.len() as int) =~= keys@);
        }
        let cf: i64 = n_forward as i64 - n_backward as i64;
        let cr: i64 = n_right as i64 - n_left as i64;
        assert(cf == intent_forward(keys@));
        assert(cr == intent_right(keys@));

        let f = euler_vector(trig);
        let c = f.cross(self.up);
        proof {
            lemma_unit_cross_bounds(f, self.up);
            lemma_milli_div_bound(f.y * self.up.z - f.z * self.up.y, 2_000_000);
            lemma_milli_div_bound(f.z * self.up.x - f.x * self.up.z, 2_000_000);
            lemma_milli_div_bound(f.x * self.up.y - f.y * self.up.x, 2_000_000);
        }
        assert(c.in_bounds());
        let s = normalize_or_zero(c);
        assert(s == strafe_axis(euler_of(*trig), self.up));

        proof {
            lemma_scaled_sum_bounds(f.x as int, s.x as int, cf as int, cr as int);
            lemma_scaled_sum_bounds(f.y as int, s.y as int, cf as int, cr as int);
            lemma_scaled_sum_bounds(f.z as int, s.z as int, cf as int, cr as int);
        }
        let dir = Vec3 {
            x: f.x * cf + s.x * cr,
            y: f.y * cf + s.y * cr,
            z: f.z * cf + s.z * cr,
        };
        assert(dir == intent_vector(keys@, *trig, self.up));
        assert(dir.in_bounds());
        let unit = normalize_or_zero(dir);
        let scaled = unit.scale_milli(SPEED);
        proof {
            lemma_milli_div_bound(unit.x * SPEED, 2_000_000);
            lemma_milli_div_bound(unit.y * SPEED, 2_000_000);
            lemma_milli_div_bound(unit.z * SPEED, 2_000_000);
            assert(-2_000_000 <= unit.x * SPEED <= 2_000_000) by (nonlinear_arith)
                requires
                    -1000 <= unit.x <= 1000,
            ;
            assert(-2_000_000 <= unit.y * SPEED <= 2_000_000) by (nonlinear_arith)
                requires
                    -1000 <= unit.y <= 1000,
            ;
            assert(-2_000_000 <= unit.z * SPEED <= 2_000_000) by (nonlinear_arith)
                requires
                    -1000 <= unit.z <= 1000,
            ;
        }
        proof {
            lemma_step_product_bound(scaled.x as int, delta_milli as int);
            lemma_step_product_bound(scaled.y as int, delta_milli as int);
            lemma_step_product_bound(scaled.z as int, delta_milli as int);
        }
        let step = scaled.scale_milli(delta_milli);
        proof {
            lemma_milli_div_bound(scaled.x * delta_milli, 2_000_000_000);
            lemma_milli_div_bound(scaled.y * delta_milli, 2_000_000_000);
            lemma_milli_div_bound(scaled.z * delta_milli, 2_000_000_000);
        }
        assert(step == movement_displacement(keys@, *trig, self.up, delta_milli as int));
        let ghost before = *self;
        self.pos = self.pos.add(step);
        proof {
            if intent_forward(keys@) == 0 && intent_right(keys@) == 0 {
                assert(f.x * (cf as int) == 0 && f.y * (cf as int) == 0 && f.z * (cf as int)
                    == 0) by (nonlinear_arith)
                    requires
                        cf as int == 0,
                ;
                assert(s.x * (cr as int) == 0 && s.y * (cr as int) == 0 && s.z * (cr as int)
                    == 0) by (nonlinear_arith)
                    requires
                        cr as int == 0,
                ;
                assert(dir == zero_vec());
                assert(unit == zero_vec());
                assert(scaled == zero_vec());
                assert(scaled.x * (delta_milli as int) == 0 && scaled.y * (delta_milli as int)
                    == 0 && scaled.z * (delta_milli as int) == 0) by (nonlinear_arith)
                    requires
                        scaled.x == 0,
                        scaled.y == 0,
                        scaled.z == 0,
                ;
                assert(step == zero_vec());
                assert(self.pos == before.pos);
            }
            if keys@.len() == 0 {
                assert(count_key(keys@, MovementKey::Forward) == 0);
                assert(count_key(keys@, MovementKey::Backward) == 0);
                assert(count_key(keys@, MovementKey::StrafeLeft) == 0);
                assert(count_key(keys@, MovementKey::StrafeRight) == 0);
            }
        }
    }

    /// Applies one frame of mouse travel, given in thousandths of a
    /// pixel: each pixel of travel turns the camera a tenth of a degree,
    /// rightward travel increasing yaw and upward travel (negative `dy`)
    /// raising the pitch.
    pub fn handle_mouse_input(&mut self, dx: i64, dy: i64)
        requires
            old(self).dir.wf(),
            i64::MIN < dx,
            i64::MIN < dy,
            i64::MIN <= old(self).dir.spec_yaw() + trunc_div(dx as int, 10) <= i64::MAX,
        ensures
            final(self).dir == with_pitch(
                with_yaw(old(self).dir, old(self).dir.spec_yaw() + trunc_div(dx as int, 10)),
                old(self).dir.spec_pitch() - trunc_div(dy as int, 10),
            ),
            final(self).pos == old(self).pos,
            final(self).up == old(self).up,
    {
        let yaw_delta = div_ten(dx);
        let pitch_delta = div_ten(dy);
        self.dir.adjust_yaw(yaw_delta);
        self.dir.adjust_pitch(-pitch_delta);
    }

    pub fn pitch(&self) -> (r: Degrees)
        ensures
            r == self.dir.spec_pitch(),
    {
        self.dir.pitch()
    }

    pub fn set_pitch(&mut self, pitch: Degrees)
        ensures
            final(self).dir == with_pitch(old(self).dir, pitch as int),
            final(self).pos == old(self).pos,
            final(self).up == old(self).up,
    {
        self.dir.set_pitch(pitch);
    }

    pub fn adjust_pitch(&mut self, pitch: Degrees)
        requires
            old(self).dir.wf(),
        ensures
            final(self).dir == with_pitch(old(self).dir, old(self).dir.spec_pitch() + pitch),
            final(self).pos == old(self).pos,
            final(self).up == old(self).up,
    {
        self.dir.adjust_pitch(pitch);
    }

    pub fn yaw(&self) -> (r: Degrees)
        ensures
            r == self.dir.spec_yaw(),
    {
        self.dir.yaw()
    }

    pub fn set_yaw(&mut self, yaw: Degrees)
        ensures
            final(self).dir == with_yaw(old(self).dir, yaw as int),
            final(self).pos == old(self).pos,
            final(self).up == old(self).up,
    {
        self.dir.set_yaw(yaw);
    }

    pub fn adjust_yaw(&mut self, yaw: Degrees)
        requires
            i64::MIN <= old(self).dir.spec_yaw() + yaw <= i64::MAX,
        ensures
            final(self).dir == with_yaw(old(self).dir, old(self).dir.spec_yaw() + yaw),
            final(self).pos == old(self).pos,
            final(self).up == old(self).up,
    {
        self.dir.adjust_yaw(yaw);
    }
}

/// Truncating-toward-zero division by ten.
fn div_ten(a: i64) -> (r: i64)
    requires
        a > i64::MIN,
    ensures
        r == trunc_div(a as int, 10),
        -(i64::MAX / 10) <= r <= i64::MAX / 10,
{
    if a >= 0 {
        a / 10
    } else {
        let mag: u64 = ((-a) as u64) / 10;
        assert(mag <= i64::MAX as u64);
        -(mag as i64)
    }
}

/// Each numerator of the cross product of two milli unit vectors stays
/// within two million.
proof fn lemma_unit_cross_bounds(a: Vec3, b: Vec3)
    requires
        -1000 <= a.x <= 1000,
        -1000 <= a.y <= 1000,
        -1000 <= a.z <= 1000,
        -1000 <= b.x <= 1000,
        -1000 <= b.y <= 1000,
        -1000 <= b.z <= 1000,
    ensures
        -2_000_000 <= a.y * b.z - a.z * b.y <= 2_000_000,
        -2_000_000 <= a.z * b.x - a.x * b.z <= 2_000_000,
        -2_000_000 <= a.x * b.y - a.y * b.x <= 2_000_000,
{
    assert(-1_000_000 <= a.y * b.z <= 1_000_000 && -1_000_000 <= a.z * b.y <= 1_000_000
        && -1_000_000 <= a.z * b.x <= 1_000_000 && -1_000_000 <= a.x * b.z <= 1_000_000
        && -1_000_000 <= a.x * b.y <= 1_000_000 && -1_000_000 <= a.y * b.x
        <= 1_000_000) by (nonlinear_arith)
        requires
            -1000 <= a.x <= 1000,
            -1000 <= a.y <= 1000,
            -1000 <= a.z <= 1000,
            -1000 <= b.x <= 1000,
            -1000 <= b.y <= 1000,
            -1000 <= b.z <= 1000,
    ;
}

/// `|a*cf + b*cr|` stays within bounds when `a`, `b` are milli unit
/// components and `cf`, `cr` are key counts.
proof fn lemma_scaled_sum_bounds(a: int, b: int, cf: int, cr: int)
    requires
        -1000 <= a <= 1000,
        -1000 <= b <= 1000,
        -(KEYS_LIMIT as int) <= cf <= KEYS_LIMIT as int,
        -(KEYS_LIMIT as int) <= cr <= KEYS_LIMIT as int,
    ensures
        -1_024_000 <= a * cf <= 1_024_000,
        -1_024_000 <= b * cr <= 1_024_000,
        -2_048_000 <= a * cf + b * cr <= 2_048_000,
{
    assert(-1_024_000 <= a * cf <= 1_024_000) by (nonlinear_arith)
        requires
            -1000 <= a <= 1000,
            -1024 <= cf <= 1024,
    ;
    assert(-1_024_000 <= b * cr <= 1_024_000) by (nonlinear_arith)
        requires
            -1000 <= b <= 1000,
            -1024 <= cr <= 1024,
    ;
}

/// The product of a speed-scaled unit component and a frame delta stays
/// within two billion, so the displacement itself stays within
/// `STEP_LIMIT`.
proof fn lemma_step_product_bound(c: int, d: int)
    requires
        -2_000 <= c <= 2_000,
        0 <= d <= DELTA_LIMIT,
    ensures
        -2_000_000_000 <= c * d <= 2_000_000_000,
{
    assert(-2_000_000_000 <= c * d <= 2_000_000_000) by (nonlinear_arith)
        requires
            -2_000 <= c <= 2_000,
            0 <= d <= 1_000_000,
    ;
}

impl Default for Camera {
    /// Builds the startup pose. The up vector comes from the same
    /// right-handed frame the orientation defines: the default forward is
    /// `(0, 0, -1000)`, its cross with world up gives the right axis, and
    /// crossing back gives up again — exactly `(0, 1000, 0)`.
    fn default() -> (r: Camera)
        ensures
            r == default_camera(),
            r.wf(),
    {
        let camera_pos = Vec3::new(0, 0, 3000);
        let camera_dir = Direction::new();
        let forward = Vec3::new(0, 0, -1000);
        let up = Vec3::new(0, 1000, 0);
        let camera_right = up.cross(forward);
        let camera_up = forward.cross(camera_right);
        assert(camera_up == (Vec3 { x: 0i64, y: 1000i64, z: 0i64 }));
        Camera { pos: camera_pos, dir: camera_dir, up: camera_up }
    }
}

} // verus!
