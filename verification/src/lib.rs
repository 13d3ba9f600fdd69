//! KeepAwake: the state and decision logic of a menu-bar utility that keeps
//! the machine awake, optionally for a limited time, and shows the time left
//! as the fill level of a coffee cup.

pub mod app_state;
pub mod awake;
pub mod duration;
pub mod icons;
pub mod text;
pub mod timer;
pub mod tray;

pub use duration::Duration;
