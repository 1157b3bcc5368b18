//! A point light: a positioned omnidirectional light, addressed in the
//! fragment shader's uniform array by an index baked into each uniform
//! name — `pointLights[2].position` and so on. The index is fixed at
//! construction and never changes.
//!
//! Alongside the shader record, a point light owns a small debug cube
//! drawn at its position; the cube's mesh and shader live in the
//! rendering front end, and only its world position is tracked here so a
//! position change moves both in step.

use vstd::prelude::*;
use vstd::seq_lib::*;
use vstd::string::*;

use crate::helper::{dec_str, dec_u8};
use crate::shader::{write_is, UniformValue, UniformWrite};
use crate::vec3::{zero_vec, Vec3};

verus! {

/// The name prefix every uniform of the point light at `index` carries:
/// `pointLights[<index>].`
pub open spec fn point_light_prefix(index: int) -> Seq<char> {
    "pointLights["@ + dec_str(index) + "]."@
}

/// The full uniform name for one field of the point light at `index`.
pub open spec fn point_light_name(index: int, field: Seq<char>) -> Seq<char> {
    point_light_prefix(index) + field
}

/// Builds `pointLights[<index>].<field>`.
fn point_light_uniform(index: u8, field: &str) -> (r: String)
    ensures
        r@ == point_light_name(index as int, field@),
{
    let mut s = String::from_str("pointLights[");
    let digits = dec_u8(index);
    s.append(digits.as_str());
    s.append("].");
    s.append(field);
    proof {
        assert(s@ =~= point_light_name(index as int, field@));
    }
    s
}

/// The attribute record a point light owns: position, lighting strengths,
/// and the attenuation polynomial's coefficients, all milli fixed-point.
#[derive(Clone, Copy, Debug, PartialEq, Eq, Structural)]
pub struct PointLightAttributes {
    pub position: Vec3,
    pub ambient: Vec3,
    pub diffuse: Vec3,
    pub specular: Vec3,
    pub constant: i64,
    pub linear: i64,
    pub quadratic: i64,
}

/// The full uniform batch the point light at `index` uploads: every field
/// of the record, each under its indexed uniform name.
pub open spec fn point_light_sync_spec(
    a: PointLightAttributes,
    index: int,
    w: Seq<UniformWrite>,
) -> bool {
    &&& w.len() == 7
    &&& write_is(w[0], point_light_name(index, "position"@), UniformValue::MilliVec3(a.position))
    &&& write_is(w[1], point_light_name(index, "ambient"@), UniformValue::MilliVec3(a.ambient))
    &&& write_is(w[2], point_light_name(index, "diffuse"@), UniformValue::MilliVec3(a.diffuse))
    &&& write_is(w[3], point_light_name(index, "specular"@), UniformValue::MilliVec3(a.specular))
    &&& write_is(w[4], point_light_name(index, "constant"@), UniformValue::Milli(a.constant))
    &&& write_is(w[5], point_light_name(index, "linear"@), UniformValue::Milli(a.linear))
    &&& write_is(w[6], point_light_name(index, "quadratic"@), UniformValue::Milli(a.quadratic))
}

/// Every name in a point light's sync batch starts with that light's
/// index prefix `pointLights[<index>].` — a light can only ever write its
/// own slot of the uniform array.
pub proof fn lemma_point_light_names_prefixed(
    a: PointLightAttributes,
    index: int,
    w: Seq<UniformWrite>,
)
    requires
        point_light_sync_spec(a, index, w),
    ensures
        forall|k: int|
            0 <= k < w.len() ==> point_light_prefix(index).is_prefix_of(#[trigger] w[k].name@),
{
    assert forall|k: int| 0 <= k < w.len() implies point_light_prefix(index).is_prefix_of(
        #[trigger] w[k].name@,
    ) by {
        let p = point_light_prefix(index);
        assert(w[k].name@.subrange(0, p.len() as int) =~= p);
    }
}

/// The startup record: above the origin, no ambient term, medium diffuse,
/// full specular, the usual distance falloff coefficients.
pub open spec fn default_point_light_attributes() -> PointLightAttributes {
    PointLightAttributes {
        position: Vec3 { x: 0i64, y: 2000i64, z: 0i64 },
        ambient: Vec3 { x: 0i64, y: 0i64, z: 0i64 },
        diffuse: Vec3 { x: 500i64, y: 500i64, z: 500i64 },
        specular: Vec3 { x: 1000i64, y: 1000i64, z: 1000i64 },
        constant: 1000i64,
        linear: 90i64,
        quadratic: 32i64,
    }
}

impl PointLightAttributes {
    pub fn new() -> (r: PointLightAttributes)
        ensures
            r == default_point_light_attributes(),
    {
        PointLightAttributes {
            position: Vec3::new(0, 2000, 0),
            ambient: Vec3::new(0, 0, 0),
            diffuse: Vec3::new(500, 500, 500),
            specular: Vec3::new(1000, 1000, 1000),
            constant: 1000,
            linear: 90,
            quadratic: 32,
        }
    }

    pub fn set_pos(&mut self, pos: Vec3, index: u8) -> (r: Vec<UniformWrite>)
        ensures
            *final(self) == (PointLightAttributes { position: pos, ..*old(self) }),
            point_light_sync_spec(*final(self), index as int, r@),
    {
        self.position = pos;
        self.sync_state(index)
    }

    pub fn pos(&self) -> (r: Vec3)
        ensures
            r == self.position,
    {
        self.position
    }

    /// The batch that re-uploads this record in full, into the uniform
    /// array slot for `index`.
    pub fn sync_state(&self, index: u8) -> (r: Vec<UniformWrite>)
        ensures
            point_light_sync_spec(*self, index as int, r@),
    {
        let mut w: Vec<UniformWrite> = Vec::new();
        let name = point_light_uniform(index, "position");
        w.push(UniformWrite { name, value: UniformValue::MilliVec3(self.position) });
        let name = point_light_uniform(index, "ambient");
        w.push(UniformWrite { name, value: UniformValue::MilliVec3(self.ambient) });
        let name = point_light_uniform(index, "diffuse");
        w.push(UniformWrite { name, value: UniformValue::MilliVec3(self.diffuse) });
        let name = point_light_uniform(index, "specular");
        w.push(UniformWrite { name, value: UniformValue::MilliVec3(self.specular) });
        let name = point_light_uniform(index, "constant");
        w.push(UniformWrite { name, value: UniformValue::Milli(self.constant) });
        let name = point_light_uniform(index, "linear");
        w.push(UniformWrite { name, value: UniformValue::Milli(self.linear) });
        let name = point_light_uniform(index, "quadratic");
        w.push(UniformWrite { name, value: UniformValue::Milli(self.quadratic) });
        w
    }
}

/// A point light: its immutable slot in the shader's light array, its
/// attribute record, and the world position of its debug cube.
#[derive(Clone, Copy, Debug, PartialEq, Eq, Structural)]
pub struct PointLight {
    pub index: u8,
    pub cube_pos: Vec3,
    pub attrs: PointLightAttributes,
}

impl PointLight {
    pub fn new(index: u8) -> (r: PointLight)
        ensures
            r.index == index,
            r.attrs == default_point_light_attributes(),
            r.cube_pos == default_point_light_attributes().position,
    {
        PointLight { index, cube_pos: Vec3::new(0, 2000, 0), attrs: PointLightAttributes::new() }
    }

    pub fn pos(&self) -> (r: Vec3)
        ensures
            r == self.attrs.position,
    {
        self.attrs.pos()
    }

    /// Moves the light: the shader record and the debug cube move
    /// together.
    pub fn set_pos(&mut self, pos: Vec3) -> (r: Vec<UniformWrite>)
        ensures
            final(self).index == old(self).index,
            final(self).attrs == (PointLightAttributes { position: pos, ..old(self).attrs }),
            final(self).cube_pos == pos,
            point_light_sync_spec(final(self).attrs, old(self).index as int, r@),
    {
        let w = self.attrs.set_pos(pos, self.index);
        self.cube_pos = pos;
        w
    }

    /// Point lights have no direction: reading one reports the zero
    /// vector and writing one changes nothing and uploads nothing.
    pub fn dir(&self) -> (r: Vec3)
        ensures
            r == zero_vec(),
    {
        Vec3::zero()
    }

    pub fn set_dir(&mut self, _dir: Vec3) -> (r: Vec<UniformWrite>)
        ensures
            *final(self) == *old(self),
            r@.len() == 0,
    {
        Vec::new()
    }
}

} // verus!
