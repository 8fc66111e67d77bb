//! The round itself: its clock, the items in play and the rules that act on
//! them once per fixed step.

pub mod main_level;
pub mod random;
pub mod round;
pub mod timer;
pub mod trash;
pub mod trash_can;
pub mod trash_spawner;
pub mod types;
