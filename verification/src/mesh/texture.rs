//! A texture handle and the role it plays in a material.

use vstd::prelude::*;

verus! {

/// What a texture contributes to the lighting model.
#[derive(Clone, Copy, Debug, PartialEq, Eq, Structural)]
pub enum TextureType {
    Diffuse,
    Specular,
}

/// A created GL texture and its role.
#[derive(Clone, Copy, Debug, PartialEq, Eq, Structural)]
pub struct Texture {
    pub id: u32,
    pub texture_type: TextureType,
}

impl Texture {
    pub fn new(id: u32, texture_type: TextureType) -> (r: Texture)
        ensures
            r == (Texture { id, texture_type }),
    {
        Texture { id, texture_type }
    }
}

} // verus!
