//! Novation Launchpad emulators that present themselves as MIDI devices.
//!
//! Everything a host sends to light the surface is decoded into a [`Surface`] that a front end
//! can draw, and interactions go the other way as the bytes the hardware would report.
//!
//! Device differences live behind [`DeviceSpec`], so the emulator, the surface and any front end
//! are written once. [`devices`] holds the implementations.

pub mod color;
pub mod console;
pub mod devices;
pub mod emulator;
pub mod error;
pub mod font;
pub mod message;
pub mod pad;
pub mod role;
pub mod surface;
pub mod text;
pub mod ui;

use vstd::prelude::*;

pub use color::Rgb;
pub use emulator::Emulator;
pub use error::Error;
pub use message::{HostMessage, Interaction, MessageView, Query};
pub use pad::Pad;
pub use role::PadRole;
pub use surface::{Lighting, Settings, Surface, TextScroll, MAX_BRIGHTNESS};

verus! {

/// The behaviour that differs between Launchpad models, implemented by a marker per device.
pub trait DeviceSpec {
    /// Human readable model name.
    const NAME: &'static str;
    /// Surface width in pads.
    const WIDTH: u8;
    /// Surface height in pads.
    const HEIGHT: u8;
    /// Substring identifying the MIDI ports of this model's hardware.
    const HARDWARE_KEYWORD: &'static str;
    /// Name to create virtual ports under.
    ///
    /// Contains [`Self::HARDWARE_KEYWORD`], so a host that discovers hardware by name finds the
    /// emulator too. With real hardware also attached the match is ambiguous.
    const PORT_NAME: &'static str;
    /// Whether the pads report how hard they were struck.
    const VELOCITY_SENSITIVE: bool;

    /// Surface width in pads, as the specifications read it: the value of [`Self::WIDTH`].
    spec fn width() -> u8;

    /// Surface height in pads, as the specifications read it: the value of [`Self::HEIGHT`].
    spec fn height() -> u8;

    /// The size constants are the sizes the specifications read.
    proof fn lemma_size()
        ensures
            Self::WIDTH == Self::width(),
            Self::HEIGHT == Self::height(),
    ;

    /// The pad a note or control change number addresses.
    spec fn midi_pad(number: u8) -> Option<Pad>;

    /// The note or control change number addressing a pad.
    spec fn midi_number(pad: Pad) -> Option<u8>;

    /// What kind of control occupies a position.
    spec fn role_of(pad: Pad) -> PadRole;

    /// The words printed beside a control.
    spec fn printing(pad: Pad) -> Option<Seq<char>>;

    /// The colour a palette entry stands for.
    spec fn palette_color(entry: u8) -> Option<Rgb>;

    /// The host messages one MIDI message from the host carries.
    spec fn decoded(bytes: Seq<u8>) -> Seq<MessageView>;

    /// The interaction one MIDI message from the hardware reports.
    spec fn decoded_interaction(bytes: Seq<u8>) -> Option<Interaction>;

    /// The bytes the hardware reports an interaction with, empty for a pad off the surface.
    spec fn encoded(interaction: Interaction) -> Seq<u8>;

    /// Converts a note or control change number into a pad.
    fn pad_from_midi(number: u8) -> (pad: Option<Pad>)
        ensures
            pad == Self::midi_pad(number),
    ;

    /// The note or control change number addressing a pad, or `None` when it lies off the surface.
    fn pad_to_midi(pad: Pad) -> (number: Option<u8>)
        ensures
            number == Self::midi_number(pad),
    ;

    /// What kind of control occupies a position.
    fn role(pad: Pad) -> (role: PadRole)
        ensures
            role == Self::role_of(pad),
    ;

    /// Whether a pad can be pressed, as opposed to only lit.
    fn is_button(pad: Pad) -> (pressable: bool)
        ensures
            pressable == (Self::role_of(pad) == PadRole::Grid || Self::role_of(pad) == PadRole::Control),
    {
        Self::role(pad).is_button()
    }

    /// The words printed on the device beside a control, or `None` for the grid and absent pads.
    fn printed_name(pad: Pad) -> (name: Option<&'static str>)
        ensures
            match name {
                Some(name) => Self::printing(pad) == Some(name@),
                None => Self::printing(pad) is None,
            },
    ;

    /// Resolves a palette entry to a colour.
    fn palette(entry: u8) -> (color: Option<Rgb>)
        ensures
            color == Self::palette_color(entry),
    ;

    /// Decodes one MIDI message from the host into the host messages it carries.
    fn decode(bytes: &[u8]) -> (messages: Vec<HostMessage>)
        ensures
            message::views(messages@) == Self::decoded(bytes@),
    ;

    /// Reads an interaction reported by this model's hardware.
    fn decode_interaction(bytes: &[u8]) -> (interaction: Option<Interaction>)
        ensures
            interaction == Self::decoded_interaction(bytes@),
    ;

    /// Encodes an interaction as this model's hardware would report it.
    fn encode(interaction: Interaction) -> (bytes: Vec<u8>)
        ensures
            bytes@ == Self::encoded(interaction),
    ;
}

} // verus!
