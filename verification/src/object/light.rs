//! The flash light: a spot light that rides the camera, with its whole
//! record in one public attribute block under the shader's `light.`
//! uniform names.

use vstd::prelude::*;

use crate::shader::{write_is, UniformValue, UniformWrite};
use crate::vec3::Vec3;

verus! {

/// Every attribute a flash light pushes to the shader: pose, cone cutoff,
/// lighting strengths, and attenuation coefficients, all milli
/// fixed-point. The cutoff is stored in millidegrees and uploaded as a
/// cosine.
#[derive(Clone, Copy, Debug, PartialEq, Eq, Structural)]
pub struct LightAttributes {
    pub position: Vec3,
    pub direction: Vec3,
    pub cutoff: i64,
    pub ambient: Vec3,
    pub diffuse: Vec3,
    pub specular: Vec3,
    pub constant: i64,
    pub linear: i64,
    pub quadratic: i64,
}

/// The full uniform batch a flash light uploads: every field of the
/// record, under the `light.` names the fragment shader declares.
pub open spec fn flash_light_sync_spec(a: LightAttributes, w: Seq<UniformWrite>) -> bool {
    &&& w.len() == 9
    &&& write_is(w[0], "light.position"@, UniformValue::MilliVec3(a.position))
    &&& write_is(w[1], "light.direction"@, UniformValue::MilliVec3(a.direction))
    &&& write_is(w[2], "light.cutOff"@, UniformValue::CosOfDegrees(a.cutoff))
    &&& write_is(w[3], "light.ambient"@, UniformValue::MilliVec3(a.ambient))
    &&& write_is(w[4], "light.diffuse"@, UniformValue::MilliVec3(a.diffuse))
    &&& write_is(w[5], "light.specular"@, UniformValue::MilliVec3(a.specular))
    &&& write_is(w[6], "light.constant"@, UniformValue::Milli(a.constant))
    &&& write_is(w[7], "light.linear"@, UniformValue::Milli(a.linear))
    &&& write_is(w[8], "light.quadratic"@, UniformValue::Milli(a.quadratic))
}

/// The startup record: above the origin, aimed straight ahead, a 12.5
/// degree cone, dim ambient, medium diffuse, full specular, the usual
/// distance falloff coefficients.
pub open spec fn default_light_attributes() -> LightAttributes {
    LightAttributes {
        position: Vec3 { x: 0i64, y: 2000i64, z: 0i64 },
        direction: Vec3 { x: 0i64, y: 0i64, z: -1000i64 },
        cutoff: 12_500i64,
        ambient: Vec3 { x: 200i64, y: 200i64, z: 200i64 },
        diffuse: Vec3 { x: 500i64, y: 500i64, z: 500i64 },
        specular: Vec3 { x: 1000i64, y: 1000i64, z: 1000i64 },
        constant: 1000i64,
        linear: 90i64,
        quadratic: 32i64,
    }
}

impl Default for LightAttributes {
    fn default() -> (r: LightAttributes)
        ensures
            r == default_light_attributes(),
    {
        LightAttributes {
            position: Vec3::new(0, 2000, 0),
            direction: Vec3::new(0, 0, -1000),
            cutoff: 12_500,
            ambient: Vec3::new(200, 200, 200),
            diffuse: Vec3::new(500, 500, 500),
            specular: Vec3::new(1000, 1000, 1000),
            constant: 1000,
            linear: 90,
            quadratic: 32,
        }
    }
}

/// A flash light and its attribute record.
#[derive(Clone, Copy, Debug, PartialEq, Eq, Structural)]
pub struct FlashLight {
    pub attrs: LightAttributes,
}

impl FlashLight {
    /// Creates a new light source; leave `attrs` as `None` for default
    /// values. The caller uploads `sync_state()` right after, so the GPU
    /// record starts out in step.
    pub fn new(attrs: Option<LightAttributes>) -> (r: FlashLight)
        ensures
            r.attrs == match attrs {
                Some(a) => a,
                None => default_light_attributes(),
            },
    {
        let attrs = match attrs {
            Some(a) => a,
            None => LightAttributes::default(),
        };
        FlashLight { attrs }
    }

    pub fn pos(&self) -> (r: Vec3)
        ensures
            r == self.attrs.position,
    {
        self.attrs.position
    }

    pub fn set_pos(&mut self, pos: Vec3) -> (r: Vec<UniformWrite>)
        ensures
            final(self).attrs == (LightAttributes { position: pos, ..old(self).attrs }),
            flash_light_sync_spec(final(self).attrs, r@),
    {
        self.attrs.position = pos;
        self.sync_state()
    }

    pub fn dir(&self) -> (r: Vec3)
        ensures
            r == self.attrs.direction,
    {
        self.attrs.direction
    }

    pub fn set_dir(&mut self, dir: Vec3) -> (r: Vec<UniformWrite>)
        ensures
            final(self).attrs == (LightAttributes { direction: dir, ..old(self).attrs }),
            flash_light_sync_spec(final(self).attrs, r@),
    {
        self.attrs.direction = dir;
        self.sync_state()
    }

    /// Replaces the whole record at once.
    pub fn set_attrs(&mut self, attrs: LightAttributes) -> (r: Vec<UniformWrite>)
        ensures
            final(self).attrs == attrs,
            flash_light_sync_spec(attrs, r@),
    {
        self.attrs = attrs;
        self.sync_state()
    }

    pub fn attrs(&self) -> (r: &LightAttributes)
        ensures
            r == &self.attrs,
    {
        &self.attrs
    }

    /// The batch that re-uploads this record in full.
    pub fn sync_state(&self) -> (r: Vec<UniformWrite>)
        ensures
            flash_light_sync_spec(self.attrs, r@),
    {
        let mut w: Vec<UniformWrite> = Vec::new();
        w.push(UniformWrite::new("light.position", UniformValue::MilliVec3(self.attrs.position)));
        w.push(UniformWrite::new("light.direction", UniformValue::MilliVec3(self.attrs.direction)));
        w.push(UniformWrite::new("light.cutOff", UniformValue::CosOfDegrees(self.attrs.cutoff)));
        w.push(UniformWrite::new("light.ambient", UniformValue::MilliVec3(self.attrs.ambient)));
        w.push(UniformWrite::new("light.diffuse", UniformValue::MilliVec3(self.attrs.diffuse)));
        w.push(UniformWrite::new("light.specular", UniformValue::MilliVec3(self.attrs.specular)));
        w.push(UniformWrite::new("light.constant", UniformValue::Milli(self.attrs.constant)));
        w.push(UniformWrite::new("light.linear", UniformValue::Milli(self.attrs.linear)));
        w.push(UniformWrite::new("light.quadratic", UniformValue::Milli(self.attrs.quadratic)));
        w
    }
}

} // verus!
