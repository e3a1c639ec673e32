//! The Novation Launchpad X.

use vstd::prelude::*;

use super::{mk3_family as family, palette};
use crate::color::Rgb;
use crate::message::{HostMessage, Interaction, MessageView};
use crate::pad::Pad;
use crate::role::PadRole;
use crate::DeviceSpec;

verus! {

/// Device ID this model answers to in `SysEx` messages.
pub const DEVICE_ID: u8 = 0x0C;

/// A Novation Launchpad X.
///
/// The central 8x8 grid is velocity and pressure sensitive.
#[derive(Debug, Clone, Copy, PartialEq, Eq, Structural)]
pub struct LaunchpadX;

/// The words printed on this model beside a control: the top row, the logo and the scene launch
/// buttons.
pub open spec fn printing(pad: Pad) -> Option<Seq<char>> {
    if pad.y == 0 && pad.x < 8 {
        if pad.x == 0 {
            Some("Up"@)
        } else if pad.x == 1 {
            Some("Down"@)
        } else if pad.x == 2 {
            Some("Left"@)
        } else if pad.x == 3 {
            Some("Right"@)
        } else if pad.x == 4 {
            Some("Session"@)
        } else if pad.x == 5 {
            Some("Note"@)
        } else if pad.x == 6 {
            Some("Custom"@)
        } else {
            Some("Capture MIDI"@)
        }
    } else {
        family::column_printing(pad)
    }
}

impl DeviceSpec for LaunchpadX {
    const NAME: &'static str = "Launchpad X";
    const WIDTH: u8 = 9;
    const HEIGHT: u8 = 9;
    const HARDWARE_KEYWORD: &'static str = "Launchpad X LPX MI";
    const PORT_NAME: &'static str = "Launchpad X LPX MIDI";
    const VELOCITY_SENSITIVE: bool = true;

    /// Nine pads across: the 8x8 grid and the right column.
    open spec fn width() -> u8 {
        9
    }

    /// Nine pads down: the top row and the 8x8 grid.
    open spec fn height() -> u8 {
        9
    }

    proof fn lemma_size() {
    }

    open spec fn midi_pad(number: u8) -> Option<Pad> {
        family::midi_pad(number)
    }

    open spec fn midi_number(pad: Pad) -> Option<u8> {
        family::midi_number(pad)
    }

    open spec fn role_of(pad: Pad) -> PadRole {
        family::role_at(pad)
    }

    open spec fn printing(pad: Pad) -> Option<Seq<char>> {
        printing(pad)
    }

    open spec fn palette_color(entry: u8) -> Option<Rgb> {
        palette::entry_color(entry)
    }

    open spec fn decoded(bytes: Seq<u8>) -> Seq<MessageView> {
        family::decoded(DEVICE_ID, bytes)
    }

    open spec fn decoded_interaction(bytes: Seq<u8>) -> Option<Interaction> {
        family::decoded_interaction(bytes)
    }

    open spec fn encoded(interaction: Interaction) -> Seq<u8> {
        family::encoded(interaction)
    }

    fn pad_from_midi(number: u8) -> (pad: Option<Pad>) {
        family::pad_from_midi(number)
    }

    fn pad_to_midi(pad: Pad) -> (number: Option<u8>) {
        family::pad_to_midi(pad)
    }

    fn role(pad: Pad) -> (role: PadRole) {
        family::role(pad)
    }

    fn printed_name(pad: Pad) -> (name: Option<&'static str>) {
        if pad.y != 0 || pad.x >= 8 {
            return family::column_name(pad);
        }
        match pad.x {
            0 => Some("Up"),
            1 => Some("Down"),
            2 => Some("Left"),
            3 => Some("Right"),
            4 => Some("Session"),
            5 => Some("Note"),
            6 => Some("Custom"),
            7 => Some("Capture MIDI"),
            _ => None,
        }
    }

    fn palette(entry: u8) -> (color: Option<Rgb>) {
        palette::get(entry)
    }

    fn decode(bytes: &[u8]) -> (messages: Vec<HostMessage>) {
        family::decode(DEVICE_ID, bytes)
    }

    fn decode_interaction(bytes: &[u8]) -> (interaction: Option<Interaction>) {
        family::decode_interaction(bytes)
    }

    fn encode(interaction: Interaction) -> (bytes: Vec<u8>) {
        family::encode(interaction)
    }
}

} // verus!
