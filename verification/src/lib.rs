//! Integer core of a small path-tracing renderer.
//!
//! The floating-point parts of the renderer (vector algebra, camera,
//! materials, the radiance integrator) live outside this library; what is
//! verified here is everything the renderer decides with plain values:
//! packed 8-bit color, the frame-buffer byte layout handed to the image
//! encoder, the pixel-index arithmetic of the sampling fan-out, the
//! derivation of one deterministic random stream per pixel, and the
//! discrete rules of the integrator and of the material state machine —
//! when a walk ends, what ends it, and which hits absorb.

pub mod buffer;
pub mod color;
pub mod material;
pub mod math;
pub mod render_config;
pub mod trace;
