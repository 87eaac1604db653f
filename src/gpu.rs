use vstd::prelude::*;
use crate::math::Vec4;

verus! {

/// A GPU object that its owner must release exactly once.
#[derive(Clone, Copy, Debug, PartialEq, Eq, Structural)]
pub enum GpuObject {
    ShaderStage(u32),
    Program(u32),
    Buffer(u32),
    VertexArray(u32),
}

/// One call for the graphics backend to perform, in the order issued.
#[derive(Clone, Debug, PartialEq)]
pub enum Command<T> {
    /// Clear the color buffer to this color.
    Clear(Vec4<T>),
    /// Make this program the active one.
    UseProgram(u32),
    /// Write these scalars into the vertex buffer, starting at offset 0.
    Upload(Vec<T>),
    /// Draw this many vertices from the start of the vertex buffer as a
    /// triangle list.
    Draw(usize),
    /// Release this object.
    Release(GpuObject),
}

} // verus!
