//! A verified core for a grid-based raycasting renderer.
//!
//! The library works in fixed-point arithmetic: positions, angles and
//! distances are integers scaled by [`fixed::SCALE`] units per map cell
//! (and per radian, for angles). A caller supplies ray directions as
//! scaled sine/cosine pairs; everything from there on — marching a ray
//! across the tile grid, turning a hit distance into ceiling/wall/floor
//! pixel bands, and updating the player pose — is verified.

pub mod fixed;
pub mod player;
pub mod project;
pub mod raycast;
pub mod render;
pub mod tilemap;

pub use fixed::SCALE;
pub use fixed::TWO_PI_UNITS;
