//! A first-person view of a two-dimensional occupancy grid: the compass and
//! rectangle vocabulary, the world capability that a ray march queries, the
//! decisions the march takes from cell to cell, and the rectangle splitting
//! that lays out a level.

pub mod camera;
pub mod util;
pub mod world;
pub mod worldgen;
