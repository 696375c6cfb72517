//! Meshes for a world of cubes.
//!
//! A chunk is a grid of 16 x 16 x 16 cubes. This library turns the active
//! cubes of a chunk into a triangle mesh and works out the OpenGL calls that
//! put the mesh on the GPU. It makes no OpenGL call itself: the owner of the
//! rendering context makes them.

pub mod models;
pub mod opengl;
