//! What is handed to OpenGL: meshes, buffer objects, and the calls that fill them.

pub mod buffer;
pub mod mesh;
