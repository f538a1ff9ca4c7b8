//! A single vertex-coloured cube rendered through an immediate graphics
//! pipeline: the mesh, the resource lifecycle of the renderer, the shader
//! symbol table and the per-frame draw plan, all independent of the backend
//! that performs the calls.
pub mod geometry;
pub mod shader;
pub mod resources;
pub mod init;
pub mod renderer;
pub mod transform;
