//! Verified control core of a first-person player: a kinematic body, a
//! mouse-look camera and a hot-swappable weapon attached to that camera.
//!
//! All quantities are fixed-point numbers, so every step is exact and
//! reproducible, and every contract is stated over mathematical integers.

pub mod fixed;
pub mod camera;
pub mod player;
pub mod transform;
pub mod catalog;
pub mod stage;
pub mod keyboard;
pub mod input;
pub mod player_weapon;
pub mod startup;
