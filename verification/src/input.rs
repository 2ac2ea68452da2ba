//! Keyboard input: key-code mapping and key-event shaping.

pub mod glfw;
pub mod keyboard;
pub mod libinput;
