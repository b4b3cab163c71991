//! The material state machine's discrete rule: which hits absorb.
//!
//! A material's scattering is decided solely from the current hit. The
//! directions and colors it computes are floating-point work done
//! outside this library; whether the sample survives the hit at all is
//! decided here, under proof, from the one predicate the rule tests.

use vstd::prelude::*;

verus! {

/// The closed set of scattering behaviors, by kind. The kinds'
/// parameters (albedo, fuzz, refractive index) belong to the
/// floating-point world outside this library.
#[derive(Debug, Clone, Copy, PartialEq, Eq, Structural)]
pub enum MaterialKind {
    /// Ideal diffuse reflection.
    Lambertian,
    /// Mirror reflection perturbed by roughness.
    Metal,
    /// Refraction through a transparent medium.
    Dielectric,
    /// Anything unrecognized: renders as black rather than faulting.
    Other,
}

/// Whether a hit absorbs the sample. `reflection_leaves_surface` is the
/// one predicate the rule tests: whether the (perturbed) outgoing
/// direction points out of the surface; only a metal consults it.
pub open spec fn absorbs(kind: MaterialKind, reflection_leaves_surface: bool) -> bool {
    match kind {
        MaterialKind::Lambertian => false,
        MaterialKind::Metal => !reflection_leaves_surface,
        MaterialKind::Dielectric => false,
        MaterialKind::Other => true,
    }
}

/// Decides whether the material of `kind` absorbs the sample at a hit.
pub fn scatter_absorbs(kind: MaterialKind, reflection_leaves_surface: bool) -> (r: bool)
    ensures
        r == absorbs(kind, reflection_leaves_surface),
{
    match kind {
        MaterialKind::Lambertian => false,
        MaterialKind::Metal => !reflection_leaves_surface,
        MaterialKind::Dielectric => false,
        MaterialKind::Other => true,
    }
}

/// A Lambertian surface never absorbs: its scatter always produces an
/// outgoing ray, whatever became of the sampled direction.
pub proof fn lemma_lambertian_never_absorbs(reflection_leaves_surface: bool)
    ensures
        !absorbs(MaterialKind::Lambertian, reflection_leaves_surface),
{
}

/// A metal absorbs exactly the glancing hits: the sample is lost when
/// and only when the perturbed reflection fails to leave the surface.
pub proof fn lemma_metal_absorbs_glancing(reflection_leaves_surface: bool)
    ensures
        absorbs(MaterialKind::Metal, reflection_leaves_surface) == !reflection_leaves_surface,
{
}

} // verus!
