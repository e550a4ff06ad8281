//! Window management for a small Wayland compositor.

pub mod cursor;
pub mod extra_state;
pub mod formats;
pub mod frames;
pub mod geometry;
pub mod handlers;
pub mod input;
pub mod motion;
pub mod outputs;
pub mod placement;
pub mod pointer;
pub mod state;
pub mod text;
pub mod udev;
pub mod winit;
