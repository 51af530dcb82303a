//! Exact directions and angles in steps of 45 degrees, vectors of a fixed
//! length with arithmetic on each component, and a grid of tiles that are
//! oriented by them.

pub mod direction;
pub mod tilemap;
pub mod vector;
