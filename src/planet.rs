use vstd::prelude::*;

use crate::grid::is_buildable;

verus! {

/// Why a planet's faces could not be (re)built.
#[derive(Clone, Copy, Debug, PartialEq, Eq, Structural)]
pub enum PlanetError {
    /// Fewer than two samples per edge: a face would have no cell.
    InvalidConfig,
    /// The mesh would be too large to index, or its construction failed.
    BuildFailed,
}

/// Generation parameters of one planet.
///
/// `surface` carries the continuous terrain settings (strength, roughness,
/// persistence, noise offset); the mesh topology reads only `resolution`.
#[derive(Clone, Copy, Debug)]
pub struct Planet<S> {
    /// Seed of the noise field.
    pub seed: u32,
    /// Grid samples per face edge; at least two.
    pub resolution: u32,
    /// Number of noise octaves summed into the elevation.
    pub layers: usize,
    /// Continuous terrain settings, handed unchanged to the vertex builder.
    pub surface: S,
}

impl<S> Planet<S> {
    /// A planet with one noise layer and the given resolution, seed and surface
    /// settings.
    pub fn with_resolution(resolution: u32, seed: u32, surface: S) -> (r: Planet<S>)
        ensures
            r.resolution == resolution,
            r.seed == seed,
            r.layers == 1,
            r.surface == surface,
    {
        Planet { seed, resolution, layers: 1, surface }
    }

    /// Whether the faces of this planet can be built.
    pub open spec fn is_buildable(&self) -> bool {
        is_buildable(self.resolution as int)
    }
}

} // verus!
