//! The light variants and their shared interface.
//!
//! Heterogeneous light kinds are treated uniformly through one tagged
//! union, [`Light`], dispatched by a single exhaustive match per
//! operation. A kind that lacks a concept — a directional light has no
//! position, a point light no direction — answers the read with the zero
//! vector and the write with an empty upload batch, and both no-op cases
//! are spelled out in the contracts rather than hidden behind dynamic
//! dispatch.

pub mod direction;
pub mod point;
pub mod spot;

use vstd::prelude::*;

pub use self::spot::SpotLight;

use crate::light::direction::{dir_light_sync_spec, DirectionLight, DirectionLightAttributes};
use crate::light::point::{point_light_sync_spec, PointLight, PointLightAttributes};
use crate::light::spot::{spot_light_sync_spec, SpotLightAttributes};
use crate::shader::UniformWrite;
use crate::vec3::{zero_vec, Vec3};

verus! {

/// Any of the light kinds a scene holds.
#[derive(Clone, Copy, Debug, PartialEq, Eq, Structural)]
pub enum Light {
    Direction(DirectionLight),
    Point(PointLight),
    Spot(SpotLight),
}

/// The position a light reports: its stored position, or zero for the
/// kind that has none.
pub open spec fn light_pos(l: Light) -> Vec3 {
    match l {
        Light::Direction(_) => zero_vec(),
        Light::Point(p) => p.attrs.position,
        Light::Spot(s) => s.attrs.position,
    }
}

/// The direction a light reports: its stored direction, or zero for the
/// kind that has none.
pub open spec fn light_dir(l: Light) -> Vec3 {
    match l {
        Light::Direction(d) => d.attrs.direction,
        Light::Point(_) => zero_vec(),
        Light::Spot(s) => s.attrs.direction,
    }
}

/// What a position write leaves behind: the same light with its position
/// replaced, where the kind has one.
pub open spec fn light_with_pos(l: Light, pos: Vec3) -> Light {
    match l {
        Light::Direction(d) => Light::Direction(d),
        Light::Point(p) => Light::Point(
            PointLight {
                cube_pos: pos,
                attrs: PointLightAttributes { position: pos, ..p.attrs },
                ..p
            },
        ),
        Light::Spot(s) => Light::Spot(
            SpotLight { attrs: SpotLightAttributes { position: pos, ..s.attrs } },
        ),
    }
}

/// What a direction write leaves behind: the same light with its
/// direction replaced, where the kind has one.
pub open spec fn light_with_dir(l: Light, dir: Vec3) -> Light {
    match l {
        Light::Direction(d) => Light::Direction(
            DirectionLight { attrs: DirectionLightAttributes { direction: dir, ..d.attrs } },
        ),
        Light::Point(p) => Light::Point(p),
        Light::Spot(s) => Light::Spot(
            SpotLight { attrs: SpotLightAttributes { direction: dir, ..s.attrs } },
        ),
    }
}

/// The full re-upload batch of a light in a given state: its own record,
/// under its own kind's uniform names. A directional light that was asked
/// for its position batch, or a point light for its direction batch,
/// uploads nothing.
pub open spec fn light_sync_spec(l: Light, w: Seq<UniformWrite>) -> bool {
    match l {
        Light::Direction(d) => dir_light_sync_spec(d.attrs, w),
        Light::Point(p) => point_light_sync_spec(p.attrs, p.index as int, w),
        Light::Spot(s) => spot_light_sync_spec(s.attrs, w),
    }
}

impl Light {
    pub fn pos(&self) -> (r: Vec3)
        ensures
            r == light_pos(*self),
    {
        match self {
            Light::Direction(d) => d.pos(),
            Light::Point(p) => p.pos(),
            Light::Spot(s) => s.pos(),
        }
    }

    /// Writes the position where the kind has one, returning that light's
    /// full re-upload batch; the positionless kind is left untouched and
    /// uploads nothing.
    pub fn set_pos(&mut self, pos: Vec3) -> (r: Vec<UniformWrite>)
        ensures
            *final(self) == light_with_pos(*old(self), pos),
            match *old(self) {
                Light::Direction(_) => r@.len() == 0,
                _ => light_sync_spec(*final(self), r@),
            },
    {
        match self {
            Light::Direction(d) => d.set_pos(pos),
            Light::Point(p) => p.set_pos(pos),
            Light::Spot(s) => s.set_pos(pos),
        }
    }

    pub fn dir(&self) -> (r: Vec3)
        ensures
            r == light_dir(*self),
    {
        match self {
            Light::Direction(d) => d.dir(),
            Light::Point(p) => p.dir(),
            Light::Spot(s) => s.dir(),
        }
    }

    /// Writes the direction where the kind has one, returning that
    /// light's full re-upload batch; the directionless kind is left
    /// untouched and uploads nothing.
    pub fn set_dir(&mut self, dir: Vec3) -> (r: Vec<UniformWrite>)
        ensures
            *final(self) == light_with_dir(*old(self), dir),
            match *old(self) {
                Light::Point(_) => r@.len() == 0,
                _ => light_sync_spec(*final(self), r@),
            },
    {
        match self {
            Light::Direction(d) => d.set_dir(dir),
            Light::Point(p) => p.set_dir(dir),
            Light::Spot(s) => s.set_dir(dir),
        }
    }

    /// The batch that re-uploads this light's record in full, whatever
    /// its kind.
    pub fn sync_state(&self) -> (r: Vec<UniformWrite>)
        ensures
            light_sync_spec(*self, r@),
    {
        match self {
            Light::Direction(d) => d.attrs.sync_state(),
            Light::Point(p) => p.attrs.sync_state(p.index),
            Light::Spot(s) => s.attrs.sync_state(),
        }
    }
}

} // verus!
