//! The devices the emulator can present itself as.
//!
//! One module per model, each holding a marker type implementing [`DeviceSpec`](crate::DeviceSpec).
//! Models that share a protocol delegate to a `_family` module rather than repeating it.

pub mod mk3_family;
pub mod palette;
pub mod mini_mk3;
pub mod x;

pub use mini_mk3::LaunchpadMiniMk3;
pub use x::LaunchpadX;
