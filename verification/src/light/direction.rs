//! A directional light: parallel rays from a fixed direction, with no
//! position of its own.
//!
//! Every setter mutates the attribute record and hands back the full
//! batch of uniform writes for this light, so the GPU program never sees
//! a partially updated light: the whole record is re-uploaded on any
//! change.

use vstd::prelude::*;

use crate::shader::{write_is, UniformValue, UniformWrite};
use crate::vec3::{zero_vec, Vec3};

verus! {

/// The attribute record a directional light owns: its direction and the
/// strength of each kind of lighting, all in milli units.
#[derive(Clone, Copy, Debug, PartialEq, Eq, Structural)]
pub struct DirectionLightAttributes {
    pub direction: Vec3,
    pub ambient: Vec3,
    pub diffuse: Vec3,
    pub specular: Vec3,
}

/// The full uniform batch a directional light uploads: every field of the
/// record, under the `dirLight.` names the fragment shader declares.
pub open spec fn dir_light_sync_spec(a: DirectionLightAttributes, w: Seq<UniformWrite>) -> bool {
    &&& w.len() == 4
    &&& write_is(w[0], "dirLight.direction"@, UniformValue::MilliVec3(a.direction))
    &&& write_is(w[1], "dirLight.ambient"@, UniformValue::MilliVec3(a.ambient))
    &&& write_is(w[2], "dirLight.diffuse"@, UniformValue::MilliVec3(a.diffuse))
    &&& write_is(w[3], "dirLight.specular"@, UniformValue::MilliVec3(a.specular))
}

/// The startup record: light from straight ahead, dim ambient, medium
/// diffuse, full specular.
pub open spec fn default_dir_light_attributes() -> DirectionLightAttributes {
    DirectionLightAttributes {
        direction: Vec3 { x: 0i64, y: 0i64, z: -1000i64 },
        ambient: Vec3 { x: 200i64, y: 200i64, z: 200i64 },
        diffuse: Vec3 { x: 500i64, y: 500i64, z: 500i64 },
        specular: Vec3 { x: 1000i64, y: 1000i64, z: 1000i64 },
    }
}

impl DirectionLightAttributes {
    pub fn new() -> (r: DirectionLightAttributes)
        ensures
            r == default_dir_light_attributes(),
    {
        DirectionLightAttributes {
            direction: Vec3::new(0, 0, -1000),
            ambient: Vec3::new(200, 200, 200),
            diffuse: Vec3::new(500, 500, 500),
            specular: Vec3::new(1000, 1000, 1000),
        }
    }

    pub fn set_dir(&mut self, dir: Vec3) -> (r: Vec<UniformWrite>)
        ensures
            *final(self) == (DirectionLightAttributes { direction: dir, ..*old(self) }),
            dir_light_sync_spec(*final(self), r@),
    {
        self.direction = dir;
        self.sync_state()
    }

    pub fn dir(&self) -> (r: Vec3)
        ensures
            r == self.direction,
    {
        self.direction
    }

    /// The batch that re-uploads this record in full.
    pub fn sync_state(&self) -> (r: Vec<UniformWrite>)
        ensures
            dir_light_sync_spec(*self, r@),
    {
        let mut w: Vec<UniformWrite> = Vec::new();
        w.push(UniformWrite::new("dirLight.direction", UniformValue::MilliVec3(self.direction)));
        w.push(UniformWrite::new("dirLight.ambient", UniformValue::MilliVec3(self.ambient)));
        w.push(UniformWrite::new("dirLight.diffuse", UniformValue::MilliVec3(self.diffuse)));
        w.push(UniformWrite::new("dirLight.specular", UniformValue::MilliVec3(self.specular)));
        w
    }
}

/// A directional light and its attribute record.
#[derive(Clone, Copy, Debug, PartialEq, Eq, Structural)]
pub struct DirectionLight {
    pub attrs: DirectionLightAttributes,
}

impl DirectionLight {
    pub fn new() -> (r: DirectionLight)
        ensures
            r.attrs == default_dir_light_attributes(),
    {
        DirectionLight { attrs: DirectionLightAttributes::new() }
    }

    pub fn set_dir(&mut self, dir: Vec3) -> (r: Vec<UniformWrite>)
        ensures
            final(self).attrs == (DirectionLightAttributes { direction: dir, ..old(self).attrs }),
            dir_light_sync_spec(final(self).attrs, r@),
    {
        self.attrs.set_dir(dir)
    }

    pub fn dir(&self) -> (r: Vec3)
        ensures
            r == self.attrs.direction,
    {
        self.attrs.dir()
    }

    /// Directional lights have no position: reading one reports the zero
    /// vector and writing one changes nothing and uploads nothing.
    pub fn set_pos(&mut self, _pos: Vec3) -> (r: Vec<UniformWrite>)
        ensures
            *final(self) == *old(self),
            r@.len() == 0,
    {
        Vec::new()
    }

    pub fn pos(&self) -> (r: Vec3)
        ensures
            r == zero_vec(),
    {
        Vec3::zero()
    }
}

} // verus!
