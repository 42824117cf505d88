//! Core logic of a desktop stopwatch and walking-speed overlay: the stopwatch
//! arithmetic, the tap-tempo window, the key-binding tables of the two input
//! back ends, the binding configuration and the settings-panel state.

pub mod clock;
pub mod stopwatch;
pub mod text;
pub mod keymap_win;
pub mod keymap_linux;
pub mod config;
pub mod input;
pub mod on_top;
pub mod bpm;
pub mod panel;
pub mod assets;
pub mod display;
