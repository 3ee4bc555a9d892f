//! Frame sequencing, mesh index checks, texture preparation and lesson
//! selection for a small series of OpenGL rendering lessons.
pub mod error;
pub mod lessons;
pub mod mesh;
pub mod pipeline;
pub mod shaders;
pub mod texture;
pub mod uniforms;
