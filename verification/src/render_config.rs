//! The render parameters a scene is sampled with.

use vstd::prelude::*;

verus! {

/// Size of the output image, samples drawn per pixel, and the bounce
/// budget of the integrator.
#[derive(Debug, Clone, Copy, PartialEq, Eq, Structural)]
pub struct RenderConfig {
    pub width: u32,
    pub height: u32,
    pub sampling: u32,
    pub max_scatter_depth: u32,
}

impl RenderConfig {
    /// The fallback parameters used when a scene description gives none.
    pub fn default() -> (c: RenderConfig)
        ensures
            c == (RenderConfig { width: 680, height: 460, sampling: 1, max_scatter_depth: 50 }),
    {
        RenderConfig { width: 680, height: 460, sampling: 1, max_scatter_depth: 50 }
    }
}

} // verus!
