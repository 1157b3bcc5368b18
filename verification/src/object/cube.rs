//! Material state for the textured cubes the scene draws. The meshes,
//! their buffers, and the draw calls live in the rendering front end;
//! what a cube contributes to the shader state — its material — is
//! modelled here.

use vstd::prelude::*;

use crate::shader::{write_is, UniformValue, UniformWrite};

verus! {

/// Default surface shininess, in milli units (a specular exponent of 32).
pub const SHININESS_DEFAULT: i64 = 32_000;

/// A cube's surface material.
#[derive(Clone, Copy, Debug, PartialEq, Eq, Structural)]
pub struct Material {
    pub shininess: i64,
}

/// The uniform batch a material uploads before its cube is drawn.
pub open spec fn material_sync_spec(m: Material, w: Seq<UniformWrite>) -> bool {
    &&& w.len() == 1
    &&& write_is(w[0], "material.shininess"@, UniformValue::Milli(m.shininess))
}

impl Material {
    pub fn new(shininess: i64) -> (r: Material)
        ensures
            r.shininess == shininess,
    {
        Material { shininess }
    }

    /// The batch that re-uploads this material.
    pub fn sync_state(&self) -> (r: Vec<UniformWrite>)
        ensures
            material_sync_spec(*self, r@),
    {
        let mut w: Vec<UniformWrite> = Vec::new();
        w.push(UniformWrite::new("material.shininess", UniformValue::Milli(self.shininess)));
        w
    }
}

impl Default for Material {
    fn default() -> (r: Material)
        ensures
            r.shininess == SHININESS_DEFAULT,
    {
        Material { shininess: SHININESS_DEFAULT }
    }
}

} // verus!
