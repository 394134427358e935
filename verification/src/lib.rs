//! Driver core for a programmable RGB keyboard: frame codec, capability
//! discovery, ACK/interrupt transport demultiplexing, event translation,
//! lighting control, macro lifecycle, and the per-device session state
//! machine.

pub mod capability;
pub mod color;
pub mod config;
pub mod device;
pub mod events;
pub mod frame;
pub mod macros;
pub mod rgb;
pub mod media;
pub mod overrides;
pub mod scancode;
pub mod session;
pub mod slots;
pub mod tables;
pub mod transport;
pub mod windowsystem;

pub use color::Color;
pub use scancode::Scancode;
