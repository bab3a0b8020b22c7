//! Verified core of an interactive CHIP-8 frontend: the fixed-timestep frame
//! scheduler, the square-wave synthesizer model and its triggered-beep
//! protocol, the display rasterizer geometry, and the key-to-button mapping.
//!
//! The virtual-machine executor, the window system and the audio device are
//! external collaborators: the host binary performs their calls and feeds the
//! resulting plain values (timestamps, key codes, pixel grids) to the verified
//! decision logic in this crate.

pub mod keymap;
pub mod renderer;
pub mod scheduler;
pub mod wave;

