//! Vertex buffer bookkeeping.
//!
//! The GL calls that create buffer and vertex-array objects live in the
//! rendering front end; what is tracked here is the pair of handles they
//! returned, the binding index that ties them together, and the stride of
//! the interleaved vertex data — enough to lay out the shader's vertex
//! attributes and to reject a layout that runs past the stride.

pub mod texture;

use vstd::prelude::*;

verus! {

/// Bytes per interleaved `f32` vertex component.
pub const FLOAT_SIZE_BYTES: u32 = 4;

/// A created vertex buffer object and the vertex array object bound to
/// it, with the stride (in floats) of its interleaved data.
#[derive(Clone, Copy, Debug, PartialEq, Eq, Structural)]
pub struct VertexBuffer {
    pub vbo: u32,
    pub vao: u32,
    pub bindingindex: u32,
    pub stride: u32,
}

impl VertexBuffer {
    /// Records the handles of a freshly created buffer/array pair holding
    /// data of `stride` floats per vertex, on binding index zero.
    pub fn new(vbo: u32, vao: u32, stride: u32) -> (r: VertexBuffer)
        ensures
            r == (VertexBuffer { vbo, vao, bindingindex: 0u32, stride }),
    {
        VertexBuffer { vbo, vao, bindingindex: 0, stride }
    }

    pub fn vbo(&self) -> (r: u32)
        ensures
            r == self.vbo,
    {
        self.vbo
    }

    pub fn vao(&self) -> (r: u32)
        ensures
            r == self.vao,
    {
        self.vao
    }

    pub fn bindingindex(&self) -> (r: u32)
        ensures
            r == self.bindingindex,
    {
        self.bindingindex
    }

    /// Where, in bytes, a float attribute that starts `start` floats into
    /// a vertex begins — or nothing, if `start + length` components would
    /// run past the vertex's stride, which would read the next vertex's
    /// data.
    pub fn attribute_byte_offset(&self, start: u32, length: u32) -> (r: Option<u32>)
        requires
            self.stride < 0x4000_0000,
        ensures
            match r {
                Some(off) => start + length <= self.stride && off == start * FLOAT_SIZE_BYTES,
                None => start + length > self.stride,
            },
    {
        if length <= self.stride && start <= self.stride - length {
            proof {
                assert(start * FLOAT_SIZE_BYTES < 0x4000_0000u32 * 4) by (nonlinear_arith)
                    requires
                        start < 0x4000_0000u32,
                ;
            }
            Some(start * FLOAT_SIZE_BYTES)
        } else {
            None
        }
    }
}

} // verus!
