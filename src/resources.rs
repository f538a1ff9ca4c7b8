//! The backend objects that a renderer owns once it is initialized.
//!
//! Handles are kept generic: `B` is the backend's buffer handle, `S` its
//! shader handle, `P` its program handle and `U` its uniform slot.
use vstd::prelude::*;

verus! {

/// The three buffers of the mesh.
#[derive(Clone, Copy, Debug, PartialEq, Eq)]
pub enum BufferRole {
    /// Three 32-bit floats per vertex.
    Position,
    /// Four 32-bit floats per vertex.
    Color,
    /// 16-bit vertex indices, three per triangle.
    Index,
}

/// The uploaded mesh: one buffer per role and the number of indices to draw.
pub struct CreateBufferResult<B> {
    pub positions: B,
    pub colors: B,
    pub elements: B,
    pub n_elements: usize,
}

/// The resolved bindings of the linked program.
pub struct ShaderLocations<U> {
    pub model: U,
    pub projection: U,
    pub position: u32,
    pub color: u32,
}

/// Everything that a successful initialization creates.
pub struct GpuResources<B, S, P, U> {
    pub buffers: CreateBufferResult<B>,
    pub vertex_shader: S,
    pub fragment_shader: S,
    pub program: P,
    pub locations: ShaderLocations<U>,
}

impl<B> CreateBufferResult<B> {
    /// The handle of the buffer that holds `role`.
    pub open spec fn spec_buffer(&self, role: BufferRole) -> B {
        match role {
            BufferRole::Position => self.positions,
            BufferRole::Color => self.colors,
            BufferRole::Index => self.elements,
        }
    }

    /// The handle of the buffer that holds `role`.
    pub fn buffer(&self, role: BufferRole) -> (r: &B)
        ensures
            *r == self.spec_buffer(role),
    {
        match role {
            BufferRole::Position => &self.positions,
            BufferRole::Color => &self.colors,
            BufferRole::Index => &self.elements,
        }
    }
}

/// Gathers the three filled buffers of a mesh, caching its index count for
/// the draw call.
pub fn create_buffers_for_cube<B>(positions: B, colors: B, elements: B, n_elements: usize) -> (r:
    CreateBufferResult<B>)
    ensures
        r.positions == positions,
        r.colors == colors,
        r.elements == elements,
        r.n_elements == n_elements,
{
    CreateBufferResult { positions, colors, elements, n_elements }
}

} // verus!
