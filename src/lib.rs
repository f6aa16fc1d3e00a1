//! Validity checking of planar geometries in the sense of the OGC Simple
//! Features rules, with an exhaustive and precisely located list of every
//! violation that a geometry holds.
//!
//! Coordinates are held as the bit patterns of binary64 floating-point
//! numbers, so that every rule below is stated and proved over exact values.
pub mod coord;
pub mod problem;
pub mod linestring;
pub mod multipoint;
pub mod multilinestring;
pub mod geometry;
pub mod predicates;
