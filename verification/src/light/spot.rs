//! A spot light: a positioned cone of light, aimed along a direction,
//! bounded by an inner and an outer cutoff angle.
//!
//! The cutoffs are stored in millidegrees but uploaded as
//! `CosOfDegrees(..)` values: the fragment shader compares the cosine of
//! the angle between a fragment and the cone axis against these bounds,
//! so the conversion to a cosine happens once on the CPU instead of once
//! per fragment. As with every light here, any setter re-uploads the
//! whole record.

use vstd::prelude::*;

use crate::shader::{
    as_vec3, last_write, stored_after, write_is, Shader, UniformValue, UniformWrite,
};
use crate::vec3::Vec3;

verus! {

/// The attribute record a spot light owns: pose, cone cutoffs, lighting
/// strengths, and the attenuation polynomial's coefficients, all milli
/// fixed-point.
#[derive(Clone, Copy, Debug, PartialEq, Eq, Structural)]
pub struct SpotLightAttributes {
    pub position: Vec3,
    pub direction: Vec3,
    pub inner_cutoff: i64,
    pub outer_cutoff: i64,
    pub ambient: Vec3,
    pub diffuse: Vec3,
    pub specular: Vec3,
    pub constant: i64,
    pub linear: i64,
    pub quadratic: i64,
}

/// The full uniform batch a spot light uploads: every field of the
/// record, under the `spotLight.` names the fragment shader declares.
pub open spec fn spot_light_sync_spec(a: SpotLightAttributes, w: Seq<UniformWrite>) -> bool {
    &&& w.len() == 10
    &&& write_is(w[0], "spotLight.position"@, UniformValue::MilliVec3(a.position))
    &&& write_is(w[1], "spotLight.direction"@, UniformValue::MilliVec3(a.direction))
    &&& write_is(w[2], "spotLight.innerCutOff"@, UniformValue::CosOfDegrees(a.inner_cutoff))
    &&& write_is(w[3], "spotLight.outerCutOff"@, UniformValue::CosOfDegrees(a.outer_cutoff))
    &&& write_is(w[4], "spotLight.ambient"@, UniformValue::MilliVec3(a.ambient))
    &&& write_is(w[5], "spotLight.diffuse"@, UniformValue::MilliVec3(a.diffuse))
    &&& write_is(w[6], "spotLight.specular"@, UniformValue::MilliVec3(a.specular))
    &&& write_is(w[7], "spotLight.constant"@, UniformValue::Milli(a.constant))
    &&& write_is(w[8], "spotLight.linear"@, UniformValue::Milli(a.linear))
    &&& write_is(w[9], "spotLight.quadratic"@, UniformValue::Milli(a.quadratic))
}

/// The last write to `spotLight.position` in a spot light's sync batch
/// binds the light's position.
pub proof fn lemma_spot_batch_position(a: SpotLightAttributes, w: Seq<UniformWrite>)
    requires
        spot_light_sync_spec(a, w),
    ensures
        last_write(w, "spotLight.position"@) == Some(UniformValue::MilliVec3(a.position)),
{
    reveal_strlit("spotLight.position");
    reveal_strlit("spotLight.direction");
    reveal_strlit("spotLight.innerCutOff");
    reveal_strlit("spotLight.outerCutOff");
    reveal_strlit("spotLight.ambient");
    reveal_strlit("spotLight.diffuse");
    reveal_strlit("spotLight.specular");
    reveal_strlit("spotLight.quadratic");
    reveal_strlit("spotLight.linear");
    reveal_strlit("spotLight.constant");
    let n = "spotLight.position"@;
    let w9 = w.drop_last();
    let w8 = w9.drop_last();
    let w7 = w8.drop_last();
    let w6 = w7.drop_last();
    let w5 = w6.drop_last();
    let w4 = w5.drop_last();
    let w3 = w4.drop_last();
    let w2 = w3.drop_last();
    let w1 = w2.drop_last();
    assert(w.last() == w[9] && w9.last() == w[8] && w8.last() == w[7] && w7.last() == w[6]
        && w6.last() == w[5] && w5.last() == w[4] && w4.last() == w[3] && w3.last() == w[2]
        && w2.last() == w[1] && w1.last() == w[0]);
    assert(n.len() == 18);
    assert(w[9].name@ != n) by {
        assert(w[9].name@.len() == 19);
    }
    assert(w[8].name@ != n) by {
        assert(w[8].name@.len() == 16);
    }
    assert(w[7].name@ != n) by {
        assert(w[7].name@[10] == 'c' && n[10] == 'p');
    }
    assert(w[6].name@ != n) by {
        assert(w[6].name@[10] == 's' && n[10] == 'p');
    }
    assert(w[5].name@ != n) by {
        assert(w[5].name@.len() == 17);
    }
    assert(w[4].name@ != n) by {
        assert(w[4].name@.len() == 17);
    }
    assert(w[3].name@ != n) by {
        assert(w[3].name@.len() == 21);
    }
    assert(w[2].name@ != n) by {
        assert(w[2].name@.len() == 21);
    }
    assert(w[1].name@ != n) by {
        assert(w[1].name@.len() == 19);
    }
    assert(last_write(w, n) == last_write(w9, n));
    assert(last_write(w9, n) == last_write(w8, n));
    assert(last_write(w8, n) == last_write(w7, n));
    assert(last_write(w7, n) == last_write(w6, n));
    assert(last_write(w6, n) == last_write(w5, n));
    assert(last_write(w5, n) == last_write(w4, n));
    assert(last_write(w4, n) == last_write(w3, n));
    assert(last_write(w3, n) == last_write(w2, n));
    assert(last_write(w2, n) == last_write(w1, n));
    assert(w1.last().name@ == n);
    assert(last_write(w1, n) == Some(UniformValue::MilliVec3(a.position)));
}

/// Setting a spot light's position and draining its batch into a shader
/// that exposes the spot uniforms leaves `spotLight.position` reading
/// back exactly the position that was set.
pub proof fn lemma_spot_position_readback(
    a: SpotLightAttributes,
    w: Seq<UniformWrite>,
    pre: Shader,
    post: Shader,
)
    requires
        spot_light_sync_spec(a, w),
        pre.has_uniform("spotLight.position"@),
        post.names@ == pre.names@,
        forall|n: Seq<char>|
            pre.has_uniform(n) ==> #[trigger] post.stored(n) == stored_after(w, n, pre.stored(n)),
    ensures
        as_vec3(post.stored("spotLight.position"@)) == a.position,
{
    lemma_spot_batch_position(a, w);
    assert(post.stored("spotLight.position"@) == stored_after(
        w,
        "spotLight.position"@,
        pre.stored("spotLight.position"@),
    ));
}

/// The startup record: above the origin, aimed straight ahead, a 12.5 to
/// 14.5 degree cone, no ambient term, and the usual distance falloff
/// coefficients (1, 0.09, 0.032 in milli units).
pub open spec fn default_spot_light_attributes() -> SpotLightAttributes {
    SpotLightAttributes {
        position: Vec3 { x: 0i64, y: 2000i64, z: 0i64 },
        direction: Vec3 { x: 0i64, y: 0i64, z: -1000i64 },
        inner_cutoff: 12_500i64,
        outer_cutoff: 14_500i64,
        ambient: Vec3 { x: 0i64, y: 0i64, z: 0i64 },
        diffuse: Vec3 { x: 500i64, y: 500i64, z: 500i64 },
        specular: Vec3 { x: 1000i64, y: 1000i64, z: 1000i64 },
        constant: 1000i64,
        linear: 90i64,
        quadratic: 32i64,
    }
}

impl SpotLightAttributes {
    pub fn new() -> (r: SpotLightAttributes)
        ensures
            r == default_spot_light_attributes(),
    {
        SpotLightAttributes {
            position: Vec3::new(0, 2000, 0),
            direction: Vec3::new(0, 0, -1000),
            inner_cutoff: 12_500,
            outer_cutoff: 14_500,
            ambient: Vec3::new(0, 0, 0),
            diffuse: Vec3::new(500, 500, 500),
            specular: Vec3::new(1000, 1000, 1000),
            constant: 1000,
            linear: 90,
            quadratic: 32,
        }
    }

    pub fn set_pos(&mut self, pos: Vec3) -> (r: Vec<UniformWrite>)
        ensures
            *final(self) == (SpotLightAttributes { position: pos, ..*old(self) }),
            spot_light_sync_spec(*final(self), r@),
    {
        self.position = pos;
        self.sync_state()
    }

    pub fn pos(&self) -> (r: Vec3)
        ensures
            r == self.position,
    {
        self.position
    }

    pub fn set_dir(&mut self, dir: Vec3) -> (r: Vec<UniformWrite>)
        ensures
            *final(self) == (SpotLightAttributes { direction: dir, ..*old(self) }),
            spot_light_sync_spec(*final(self), r@),
    {
        self.direction = dir;
        self.sync_state()
    }

    pub fn dir(&self) -> (r: Vec3)
        ensures
            r == self.direction,
    {
        self.direction
    }

    /// The batch that re-uploads this record in full.
    pub fn sync_state(&self) -> (r: Vec<UniformWrite>)
        ensures
            spot_light_sync_spec(*self, r@),
    {
        let mut w: Vec<UniformWrite> = Vec::new();
        w.push(UniformWrite::new("spotLight.position", UniformValue::MilliVec3(self.position)));
        w.push(UniformWrite::new("spotLight.direction", UniformValue::MilliVec3(self.direction)));
        w.push(
            UniformWrite::new("spotLight.innerCutOff", UniformValue::CosOfDegrees(
                self.inner_cutoff,
            )),
        );
        w.push(
            UniformWrite::new("spotLight.outerCutOff", UniformValue::CosOfDegrees(
                self.outer_cutoff,
            )),
        );
        w.push(UniformWrite::new("spotLight.ambient", UniformValue::MilliVec3(self.ambient)));
        w.push(UniformWrite::new("spotLight.diffuse", UniformValue::MilliVec3(self.diffuse)));
        w.push(UniformWrite::new("spotLight.specular", UniformValue::MilliVec3(self.specular)));
        w.push(UniformWrite::new("spotLight.constant", UniformValue::Milli(self.constant)));
        w.push(UniformWrite::new("spotLight.linear", UniformValue::Milli(self.linear)));
        w.push(UniformWrite::new("spotLight.quadratic", UniformValue::Milli(self.quadratic)));
        w
    }
}

/// A spot light and its attribute record.
#[derive(Clone, Copy, Debug, PartialEq, Eq, Structural)]
pub struct SpotLight {
    pub attrs: SpotLightAttributes,
}

impl SpotLight {
    pub fn new() -> (r: SpotLight)
        ensures
            r.attrs == default_spot_light_attributes(),
    {
        SpotLight { attrs: SpotLightAttributes::new() }
    }

    pub fn pos(&self) -> (r: Vec3)
        ensures
            r == self.attrs.position,
    {
        self.attrs.pos()
    }

    pub fn set_pos(&mut self, pos: Vec3) -> (r: Vec<UniformWrite>)
        ensures
            final(self).attrs == (SpotLightAttributes { position: pos, ..old(self).attrs }),
            spot_light_sync_spec(final(self).attrs, r@),
    {
        self.attrs.set_pos(pos)
    }

    pub fn dir(&self) -> (r: Vec3)
        ensures
            r == self.attrs.direction,
    {
        self.attrs.dir()
    }

    pub fn set_dir(&mut self, dir: Vec3) -> (r: Vec<UniformWrite>)
        ensures
            final(self).attrs == (SpotLightAttributes { direction: dir, ..old(self).attrs }),
            spot_light_sync_spec(final(self).attrs, r@),
    {
        self.attrs.set_dir(dir)
    }
}

} // verus!
