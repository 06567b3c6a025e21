//! Verified game rules of a split-screen dino scooter racer: the player
//! count buttons, the split-screen camera grid, the driving controls and
//! the per-player spawn descriptions.

pub mod players;
pub mod layout;
pub mod controls;
pub mod text;
pub mod spawn;
