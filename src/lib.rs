//! A small ray tracer's integer core: pixel storage, texel addressing,
//! cube-map face selection, the depth-bounded recursive integrator and the
//! adaptive render-scale controller. Floating-point geometry and shading
//! plug into the integrator through the `Tracer` trait.

pub mod color;
pub mod integrator;
pub mod texture;
pub mod skybox;
pub mod framebuffer;
pub mod quality;
