//! Integer core of a cube-sphere terrain chunk generator: chunk grid topology,
//! face orientation, simplex lattice hashing and the instance scatter bookkeeping.

pub mod direction;
pub mod grid;
pub mod lattice;
pub mod random;
pub mod scatter;
