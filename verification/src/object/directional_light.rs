//! A plain directional light with fixed lighting strengths, for scenes
//! that light everything from one direction under the shader's `light.`
//! uniform names.

use vstd::prelude::*;

use crate::shader::{write_is, UniformValue, UniformWrite};
use crate::vec3::Vec3;

verus! {

/// The ambient strength every such light uploads.
pub open spec fn directional_ambient() -> Vec3 {
    Vec3 { x: 200i64, y: 200i64, z: 200i64 }
}

/// The diffuse strength every such light uploads.
pub open spec fn directional_diffuse() -> Vec3 {
    Vec3 { x: 500i64, y: 500i64, z: 500i64 }
}

/// The specular strength every such light uploads.
pub open spec fn directional_specular() -> Vec3 {
    Vec3 { x: 1000i64, y: 1000i64, z: 1000i64 }
}

/// The full uniform batch: the light's direction, then the three fixed
/// strengths.
pub open spec fn directional_sync_spec(d: DirectionalLight, w: Seq<UniformWrite>) -> bool {
    &&& w.len() == 4
    &&& write_is(w[0], "light.direction"@, UniformValue::MilliVec3(d.direction))
    &&& write_is(w[1], "light.ambient"@, UniformValue::MilliVec3(directional_ambient()))
    &&& write_is(w[2], "light.diffuse"@, UniformValue::MilliVec3(directional_diffuse()))
    &&& write_is(w[3], "light.specular"@, UniformValue::MilliVec3(directional_specular()))
}

/// A directional light that owns nothing but its direction.
#[derive(Clone, Copy, Debug, PartialEq, Eq, Structural)]
pub struct DirectionalLight {
    pub direction: Vec3,
}

impl DirectionalLight {
    pub fn new(dir: Vec3) -> (r: DirectionalLight)
        ensures
            r.direction == dir,
    {
        DirectionalLight { direction: dir }
    }

    /// The batch that uploads this light in full.
    pub fn sync(&self) -> (r: Vec<UniformWrite>)
        ensures
            directional_sync_spec(*self, r@),
    {
        let mut w: Vec<UniformWrite> = Vec::new();
        w.push(UniformWrite::new("light.direction", UniformValue::MilliVec3(self.direction)));
        w.push(UniformWrite::new("light.ambient", UniformValue::MilliVec3(Vec3::new(200, 200, 200))));
        w.push(UniformWrite::new("light.diffuse", UniformValue::MilliVec3(Vec3::new(500, 500, 500))));
        w.push(
            UniformWrite::new("light.specular", UniformValue::MilliVec3(Vec3::new(1000, 1000, 1000))),
        );
        w
    }
}

impl Default for DirectionalLight {
    /// Light falling mostly downward, slightly into the scene.
    fn default() -> (r: DirectionalLight)
        ensures
            r.direction == (Vec3 { x: -200i64, y: -1000i64, z: -300i64 }),
    {
        DirectionalLight { direction: Vec3::new(-200, -1000, -300) }
    }
}

} // verus!
