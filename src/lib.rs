//! Procedural cube-sphere planets: the six faces of a cube, each a square grid
//! of samples, projected onto a sphere and rebuilt whenever the planet's
//! parameters change.
//!
//! This crate holds the exact part of that work: the face frames, the grid
//! topology of each face, the validation of a planet's parameters, and the
//! regeneration protocol that decides when meshes are rebuilt and which
//! results are kept.

pub mod cube;
pub mod face;
pub mod grid;
pub mod planet;
pub mod regen;
