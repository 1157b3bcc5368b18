//! Look direction: a yaw/pitch pair in millidegrees and the unit forward
//! vector derived from it.
//!
//! The forward vector is spherical-to-Cartesian: with `cy, sy, cp, sp` the
//! milli-scaled cosine and sine of yaw and pitch, it is
//! `(cy * cp, sp, sy * cp)` (each product rescaled to milli units). The
//! trigonometric values themselves are evaluated by the rendering front
//! end, which passes them in as an [`AngleTrig`]; everything from there on
//! is exact integer arithmetic.

use vstd::prelude::*;

use crate::vec3::{milli_div, Vec3};

verus! {

/// An angle in thousandths of a degree.
pub type Degrees = i64;

/// Lowest pitch the direction will store, in millidegrees.
pub const PITCH_MIN: i64 = -89_000;

/// Highest pitch the direction will store, in millidegrees.
pub const PITCH_MAX: i64 = 89_000;

/// Pitch is clamped into `[PITCH_MIN, PITCH_MAX]` to keep the look
/// direction away from the poles, where yaw and roll collapse into each
/// other.
pub open spec fn clamp_pitch(p: int) -> int {
    if p < PITCH_MIN {
        PITCH_MIN as int
    } else if p > PITCH_MAX {
        PITCH_MAX as int
    } else {
        p
    }
}

/// A yaw/pitch orientation in millidegrees. Pitch always lies within
/// `[PITCH_MIN, PITCH_MAX]`; yaw is unconstrained.
#[derive(Clone, Copy, Debug, PartialEq, Eq, Structural)]
pub struct Direction {
    pub yaw: Degrees,
    pub pitch: Degrees,
}

/// Milli-scaled cosine and sine of a yaw/pitch pair, as supplied by the
/// caller: each value is `round(1000 * cos(..))` or `round(1000 * sin(..))`
/// of the corresponding angle, and so lies within `[-1000, 1000]`.
#[derive(Clone, Copy, Debug, PartialEq, Eq, Structural)]
pub struct AngleTrig {
    pub cos_yaw: i64,
    pub sin_yaw: i64,
    pub cos_pitch: i64,
    pub sin_pitch: i64,
}

impl AngleTrig {
    /// All four values within the milli-unit interval.
    pub open spec fn wf(self) -> bool {
        &&& -1000 <= self.cos_yaw <= 1000
        &&& -1000 <= self.sin_yaw <= 1000
        &&& -1000 <= self.cos_pitch <= 1000
        &&& -1000 <= self.sin_pitch <= 1000
    }

    pub fn new(cos_yaw: i64, sin_yaw: i64, cos_pitch: i64, sin_pitch: i64) -> (r: AngleTrig)
        ensures
            r == (AngleTrig { cos_yaw, sin_yaw, cos_pitch, sin_pitch }),
    {
        AngleTrig { cos_yaw, sin_yaw, cos_pitch, sin_pitch }
    }
}

/// The forward vector a trig sample stands for, before rescaling:
/// components carry a factor of one million.
pub open spec fn euler_numerators(t: AngleTrig) -> (int, int, int) {
    (t.cos_yaw * t.cos_pitch, t.sin_pitch * 1000, t.sin_yaw * t.cos_pitch)
}

/// The milli-scaled forward vector of a trig sample.
pub open spec fn euler_of(t: AngleTrig) -> Vec3 {
    Vec3 {
        x: milli_div(t.cos_yaw * t.cos_pitch) as i64,
        y: t.sin_pitch,
        z: milli_div(t.sin_yaw * t.cos_pitch) as i64,
    }
}

/// Spherical-to-Cartesian conversion: the unit forward vector for the
/// yaw/pitch whose trigonometric values are given.
pub fn euler_vector(t: &AngleTrig) -> (v: Vec3)
    requires
        t.wf(),
    ensures
        v == euler_of(*t),
        -1000 <= v.x <= 1000,
        -1000 <= v.y <= 1000,
        -1000 <= v.z <= 1000,
{
    let x = milli_product(t.cos_yaw, t.cos_pitch);
    let z = milli_product(t.sin_yaw, t.cos_pitch);
    Vec3 { x, y: t.sin_pitch, z }
}

/// Product of two milli values, rescaled to milli units.
fn milli_product(a: i64, b: i64) -> (r: i64)
    requires
        -1000 <= a <= 1000,
        -1000 <= b <= 1000,
    ensures
        r == milli_div(a * b),
        -1000 <= r <= 1000,
{
    proof {
        assert(-1_000_000 <= a * b <= 1_000_000) by (nonlinear_arith)
            requires
                -1000 <= a <= 1000,
                -1000 <= b <= 1000,
        ;
    }
    let p: i64 = a * b;
    if p >= 0 {
        p / 1000
    } else {
        let mag: u64 = ((-p) as u64) / 1000;
        -(mag as i64)
    }
}

/// The squared length of the ideal (unscaled) forward vector is exactly one
/// squared unit whenever the trig sample satisfies the Pythagorean identity
/// exactly: a forward vector derived from any yaw, and from any pitch, is a
/// unit vector.
pub proof fn lemma_forward_unit(t: AngleTrig)
    requires
        t.cos_yaw * t.cos_yaw + t.sin_yaw * t.sin_yaw == 1_000_000,
        t.cos_pitch * t.cos_pitch + t.sin_pitch * t.sin_pitch == 1_000_000,
    ensures
        ({
            let (x, y, z) = euler_numerators(t);
            x * x + y * y + z * z == 1_000_000_000_000
        }),
{
    let cy = t.cos_yaw as int;
    let sy = t.sin_yaw as int;
    let cp = t.cos_pitch as int;
    let sp = t.sin_pitch as int;
    assert((cy * cp) * (cy * cp) == (cy * cy) * (cp * cp)) by (nonlinear_arith);
    assert((sy * cp) * (sy * cp) == (sy * sy) * (cp * cp)) by (nonlinear_arith);
    assert((sp * 1000) * (sp * 1000) == (sp * sp) * 1_000_000) by (nonlinear_arith);
    assert((cy * cy) * (cp * cp) + (sy * sy) * (cp * cp) == (cy * cy + sy * sy) * (cp * cp))
        by (nonlinear_arith);
    assert((cy * cy + sy * sy) * (cp * cp) == 1_000_000 * (cp * cp)) by (nonlinear_arith)
        requires
            cy * cy + sy * sy == 1_000_000,
    ;
    assert(1_000_000 * (cp * cp) + (sp * sp) * 1_000_000 == (cp * cp + sp * sp) * 1_000_000)
        by (nonlinear_arith);
    assert((cp * cp + sp * sp) * 1_000_000 == 1_000_000_000_000) by (nonlinear_arith)
        requires
            cp * cp + sp * sp == 1_000_000,
    ;
}

/// The orientation after an absolute yaw write.
pub open spec fn with_yaw(d: Direction, v: int) -> Direction {
    Direction { yaw: v as i64, pitch: d.pitch }
}

/// The orientation after an absolute pitch write: the pitch is clamped.
pub open spec fn with_pitch(d: Direction, v: int) -> Direction {
    Direction { yaw: d.yaw, pitch: clamp_pitch(v) as i64 }
}

impl Direction {
    /// The stored pitch is always within the clamp interval.
    pub open spec fn wf(self) -> bool {
        PITCH_MIN <= self.pitch <= PITCH_MAX
    }

    pub open spec fn spec_yaw(self) -> int {
        self.yaw as int
    }

    pub open spec fn spec_pitch(self) -> int {
        self.pitch as int
    }

    pub fn new() -> (r: Direction)
        ensures
            r == default_direction(),
            r.wf(),
    {
        Direction { yaw: -90_000, pitch: 0 }
    }

    pub fn yaw(&self) -> (r: Degrees)
        ensures
            r == self.spec_yaw(),
    {
        self.yaw
    }

    pub fn set_yaw(&mut self, yaw: Degrees)
        ensures
            *final(self) == with_yaw(*old(self), yaw as int),
            final(self).wf() == old(self).wf(),
    {
        self.yaw = yaw;
    }

    /// Adjusts yaw by the given delta (via adding).
    pub fn adjust_yaw(&mut self, yaw: Degrees)
        requires
            i64::MIN <= old(self).spec_yaw() + yaw <= i64::MAX,
        ensures
            *final(self) == with_yaw(*old(self), old(self).spec_yaw() + yaw),
            final(self).wf() == old(self).wf(),
    {
        self.yaw = self.yaw + yaw;
    }

    pub fn pitch(&self) -> (r: Degrees)
        ensures
            r == self.spec_pitch(),
    {
        self.pitch
    }

    pub fn set_pitch(&mut self, pitch: Degrees)
        ensures
            *final(self) == with_pitch(*old(self), pitch as int),
            final(self).wf(),
    {
        self.pitch = if pitch < PITCH_MIN {
            PITCH_MIN
        } else if pitch > PITCH_MAX {
            PITCH_MAX
        } else {
            pitch
        };
    }

    /// Adjusts pitch by the given delta (via adding); the sum is clamped
    /// like any other pitch write, and a sum beyond the machine range only
    /// ever lands past a clamp bound, so saturation loses nothing.
    pub fn adjust_pitch(&mut self, pitch: Degrees)
        requires
            old(self).wf(),
        ensures
            *final(self) == with_pitch(*old(self), old(self).spec_pitch() + pitch),
            final(self).wf(),
    {
        let sum = match self.pitch.checked_add(pitch) {
            Some(s) => s,
            None => {
                if pitch > 0 {
                    i64::MAX
                } else {
                    i64::MIN
                }
            },
        };
        assert(clamp_pitch(sum as int) == clamp_pitch(self.spec_pitch() + pitch));
        let ghost before = *self;
        self.pitch = if sum < PITCH_MIN {
            PITCH_MIN
        } else if sum > PITCH_MAX {
            PITCH_MAX
        } else {
            sum
        };
        assert(*self == with_pitch(before, before.spec_pitch() + pitch));
    }
}

/// The startup orientation: yaw -90 degrees (looking down negative z),
/// level pitch.
pub open spec fn default_direction() -> Direction {
    Direction { yaw: -90_000i64, pitch: 0i64 }
}

impl Default for Direction {
    fn default() -> (r: Direction)
        ensures
            r == default_direction(),
    {
        Direction::new()
    }
}

/// Adjusting the yaw by a delta is the same write as setting the yaw to
/// the current yaw plus that delta.
pub proof fn lemma_adjust_yaw_is_set_yaw(d: Direction, delta: i64)
    requires
        i64::MIN <= d.spec_yaw() + delta <= i64::MAX,
    ensures
        with_yaw(d, d.spec_yaw() + delta) == with_yaw(
            d,
            ((d.spec_yaw() + delta) as i64) as int,
        ),
{
}

/// Adjusting the pitch by a delta is the same write as setting the pitch
/// to the current pitch plus that delta.
pub proof fn lemma_adjust_pitch_is_set_pitch(d: Direction, delta: i64)
    requires
        i64::MIN <= d.spec_pitch() + delta <= i64::MAX,
    ensures
        with_pitch(d, d.spec_pitch() + delta) == with_pitch(
            d,
            ((d.spec_pitch() + delta) as i64) as int,
        ),
{
}

} // verus!
