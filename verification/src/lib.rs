//! Lighting control for a four-zone RGB keyboard.
//!
//! The crate keeps the lighting state of the keyboard, encodes it as the
//! 33-byte feature report the device understands, and picks the keyboard out of
//! a list of attached HID devices. It performs no I/O itself: it hands out
//! reports to send and the index of the device to open.

pub mod device;
pub mod error;
pub mod keyboard;
pub mod state;

pub use device::{find_device, DeviceIdentity, Platform};
pub use error::Error;
pub use keyboard::{get_keyboard, Acquisition, Keyboard};
pub use state::{LightingModel, LightingState};
