//! A three-dimensional Pong match on a voxel grid: ball and paddle physics,
//! collision resolution, scoring, and the frame buffer that the display reads.

pub mod color;
pub mod odd;
pub mod positive;
pub mod voxelbox;
pub mod game;
pub mod input;
