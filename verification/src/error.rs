//! Errors from setting up or driving an emulator.

use vstd::prelude::*;

use crate::pad::Pad;

verus! {

/// Errors from setting up or driving an emulator.
#[derive(Debug, Clone, PartialEq, Eq)]
pub enum Error {
    /// A MIDI backend could not be initialised, with the backend's own words.
    Init(String),
    /// A virtual port could not be created.
    VirtualPort {
        /// Name the port was requested under.
        name: String,
    },
    /// Sending MIDI failed, with the backend's own words.
    Send(String),
    /// No hardware matching the device's port name was found.
    HardwareNotFound {
        /// Substring that was searched for.
        keyword: &'static str,
    },
    /// Connecting to the hardware failed.
    Connect(String),
    /// A pad outside the device's surface was addressed.
    OffSurface {
        /// The pad that was addressed.
        pad: Pad,
    },
    /// A thread holding one of the emulator's locks panicked.
    Poisoned,
}

} // verus!
