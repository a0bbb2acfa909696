//! Verified geometry, mesh-topology and frame-control logic for a collection
//! of wgpu rendering examples.

pub mod animation;
pub mod colored_cube;
pub mod cube_lines;
pub mod frame;
pub mod lit_cube;
pub mod particles;
pub mod pipeline;
pub mod surface;
pub mod wireframe;
