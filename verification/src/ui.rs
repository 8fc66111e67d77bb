//! Everything around the round: screens, buttons, the fade between screens
//! and the loading gate.

pub mod button;
pub mod credits;
pub mod fade_to_black;
pub mod game_over;
pub mod loading;
pub mod menu;
pub mod pause;
pub mod splash;
pub mod types;
