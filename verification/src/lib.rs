//! The decisions of the player's control bar: which repeat button is lit,
//! what the play button shows, which controls are sensitive, what the bar
//! shows for the current track, when the bar is revealed, and the bar's
//! context menu. The widgets themselves live outside this library; every
//! function here takes plain values and returns the updates to apply.

pub mod repeat;
pub mod controls;
pub mod control_bar;
pub mod menu;
