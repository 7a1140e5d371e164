//! The configurable resources of a profile.

pub mod buttons;
pub mod configuration;
pub mod dpi;
pub mod evidence;
pub mod settings;
pub mod state;
