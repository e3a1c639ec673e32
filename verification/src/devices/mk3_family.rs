//! The codec shared by the MK3 generation of Launchpads.
//!
//! The Launchpad X and the Launchpad Mini MK3 share a 9x9 layout, a palette and a `SysEx` grammar,
//! and differ only in the device ID byte, the printing on a few buttons and whether the grid is
//! velocity sensitive.

use vstd::prelude::*;
use vstd::slice::{slice_subrange, slice_to_vec};

use super::palette;
use crate::color::{black, color_from_midi, widened, Rgb};
use crate::message::{views, HostMessage, Interaction, MessageView};
use crate::pad::Pad;
use crate::role::PadRole;
use crate::surface::{Lighting, ScrollView, TextScroll};

verus! {

/// Manufacturer prefix every Novation `SysEx` message carries.
const NOVATION: [u8; 5] = [0xF0, 0x00, 0x20, 0x29, 0x02];

/// Last byte of every `SysEx` message.
pub const SYSEX_END: u8 = 0xF7;

/// `SysEx` command lighting any number of pads.
pub const CMD_LED: u8 = 0x03;

/// `SysEx` command starting or stopping a text scroll.
pub const CMD_TEXT: u8 = 0x07;

/// `SysEx` command setting the overall brightness.
pub const CMD_BRIGHTNESS: u8 = 0x08;

/// `SysEx` command switching the LEDs off and on.
pub const CMD_SLEEP: u8 = 0x09;

/// `SysEx` command choosing between Live and Programmer mode.
pub const CMD_MODE: u8 = 0x0E;

/// The MIDI beat clock tick.
pub const CLOCK: u8 = 0xF8;

/// Surface width and height in pads.
pub const SIZE: u8 = 9;

/// The `SysEx` header for a device, including its device ID.
pub open spec fn header(device_id: u8) -> Seq<u8> {
    seq![0xF0u8, 0x00u8, 0x20u8, 0x29u8, 0x02u8, device_id]
}

/// The pad a Programmer-mode number addresses: `row * 10 + column`, both in `1..=9`, with row 1 at
/// the bottom.
pub open spec fn midi_pad(number: u8) -> Option<Pad> {
    let (row, column) = (number / 10, number % 10);
    if row == 0 || row > 9 || column == 0 || column > 9 {
        None
    } else {
        Some(Pad { x: (column - 1) as u8, y: (9 - row) as u8 })
    }
}

/// The Programmer-mode number of a pad on the 9x9 surface.
pub open spec fn midi_number(pad: Pad) -> Option<u8> {
    if pad.x >= 9 || pad.y >= 9 {
        None
    } else {
        Some(((9 - pad.y) * 10 + pad.x + 1) as u8)
    }
}

/// Whether a pad is one of the central 8x8 grid pads, below the top row and left of the right
/// column, and never a pad off the surface.
pub open spec fn grid(pad: Pad) -> bool {
    pad.x < 8 && 1 <= pad.y <= 8
}

/// Whether a pad is the logo, in the top right corner.
pub open spec fn logo(pad: Pad) -> bool {
    pad.x == 8 && pad.y == 0
}

/// What occupies a position: the grid, the logo, a round button on the top row or right column, or
/// nothing off the surface.
pub open spec fn role_at(pad: Pad) -> PadRole {
    if pad.x >= 9 || pad.y >= 9 {
        PadRole::Absent
    } else if logo(pad) {
        PadRole::Logo
    } else if grid(pad) {
        PadRole::Grid
    } else {
        PadRole::Control
    }
}

/// The status byte reporting a press or release of a pad: a note for the grid, a control change
/// for the buttons around it.
pub open spec fn press_status(pad: Pad) -> u8 {
    if grid(pad) {
        0x90
    } else {
        0xB0
    }
}

/// The bytes the hardware reports an interaction with in Programmer mode, empty off the surface.
///
/// A press is never sent with velocity 0, which would read as a release.
pub open spec fn encoded(interaction: Interaction) -> Seq<u8> {
    match midi_number(interaction.target()) {
        None => seq![],
        Some(number) => match interaction {
            Interaction::Press { pad, velocity } => seq![
                press_status(pad),
                number,
                if velocity < 1 { 1u8 } else if velocity > 127 { 127u8 } else { velocity },
            ],
            Interaction::Release { pad } => seq![press_status(pad), number, 0u8],
            Interaction::Aftertouch { pressure, .. } => seq![
                0xA0u8,
                number,
                if pressure > 127 { 127u8 } else { pressure },
            ],
        },
    }
}

/// The interaction the hardware reports with three bytes in Programmer mode.
///
/// A note off, whatever its value, or a note or control change with value 0, is a release; any
/// other value of a note or control change is a press; polyphonic aftertouch reports pressure.
/// Velocity and pressure are 7-bit, so a press or aftertouch with a value of 0x80 or more is not a
/// message the hardware sends and reads as nothing.
pub open spec fn decoded_interaction(bytes: Seq<u8>) -> Option<Interaction> {
    if bytes.len() != 3 {
        None
    } else {
        let (status, value) = (bytes[0], bytes[2]);
        match midi_pad(bytes[1]) {
            None => None,
            Some(pad) => if ((status == 0x90 || status == 0xB0) && value == 0) || status == 0x80 {
                Some(Interaction::Release { pad })
            } else if value >= 0x80 {
                None
            } else if status == 0x90 || status == 0xB0 {
                Some(Interaction::Press { pad, velocity: value })
            } else if status == 0xA0 {
                Some(Interaction::Aftertouch { pad, pressure: value })
            } else {
                None
            },
        }
    }
}

/// The lighting a note or control change sets: channel 1 a static colour, channel 2 flashing
/// against black and channel 3 pulsing, in the colour of the palette entry its value names.
pub open spec fn channel_voice(bytes: Seq<u8>) -> Option<MessageView> {
    if bytes.len() != 3 {
        None
    } else {
        let status = bytes[0];
        let kind = status & 0xF0u8;
        let channel = status & 0x0Fu8;
        if kind != 0x90 && kind != 0xB0 {
            None
        } else {
            match (midi_pad(bytes[1]), palette::entry_color(bytes[2])) {
                (Some(pad), Some(color)) => if channel == 0 {
                    Some(MessageView::Lighting { pad, lighting: Lighting::Static(color) })
                } else if channel == 1 {
                    Some(MessageView::Lighting { pad, lighting: Lighting::Flashing { a: color, b: black() } })
                } else if channel == 2 {
                    Some(MessageView::Lighting { pad, lighting: Lighting::Pulsing(color) })
                } else {
                    None
                },
                _ => None,
            }
        }
    }
}

/// The payload of a `SysEx` message for a device: what lies between its header and terminator.
pub open spec fn stripped(device_id: u8, bytes: Seq<u8>) -> Option<Seq<u8>> {
    if bytes.len() >= 7 && bytes.subrange(0, 6) == header(device_id) && bytes.last() == SYSEX_END {
        Some(bytes.subrange(6, bytes.len() - 1))
    } else {
        None
    }
}

/// One colour specification at the start of a lighting payload, with the bytes it takes.
///
/// Each starts with its kind and the pad number: kind 0 names a palette entry, 1 two entries
/// flashing (the second entry first), 2 a pulsing entry and 3 three 7-bit RGB channels.
pub open spec fn lighting_spec(rest: Seq<u8>) -> Option<(Lighting, nat)> {
    if rest.len() < 2 {
        None
    } else if rest[0] == 0 {
        if rest.len() < 3 {
            None
        } else {
            match palette::entry_color(rest[2]) {
                Some(color) => Some((Lighting::Static(color), 3nat)),
                None => None,
            }
        }
    } else if rest[0] == 1 {
        if rest.len() < 4 {
            None
        } else {
            match (palette::entry_color(rest[3]), palette::entry_color(rest[2])) {
                (Some(a), Some(b)) => Some((Lighting::Flashing { a, b }, 4nat)),
                _ => None,
            }
        }
    } else if rest[0] == 2 {
        if rest.len() < 3 {
            None
        } else {
            match palette::entry_color(rest[2]) {
                Some(color) => Some((Lighting::Pulsing(color), 3nat)),
                None => None,
            }
        }
    } else if rest[0] == 3 {
        if rest.len() < 5 {
            None
        } else {
            match color_from_midi(rest.subrange(2, 5)) {
                Some(color) => Some((Lighting::Static(color), 5nat)),
                None => None,
            }
        }
    } else {
        None
    }
}

/// The lightings a run of colour specifications sets, skipping pads off the surface; `None` when
/// any specification is malformed, so a truncated message lights nothing.
pub open spec fn lighting_specs(rest: Seq<u8>) -> Option<Seq<MessageView>>
    decreases rest.len(),
{
    if rest.len() == 0 {
        Some(seq![])
    } else {
        match lighting_spec(rest) {
            None => None,
            Some((lighting, used)) => if used > rest.len() || used == 0 {
                None
            } else {
                match lighting_specs(rest.skip(used as int)) {
                    None => None,
                    Some(tail) => match midi_pad(rest[1]) {
                        Some(pad) => Some(seq![MessageView::Lighting { pad, lighting }] + tail),
                        None => Some(tail),
                    },
                }
            },
        }
    }
}

/// Reads a scroll speed, where 0x40 and above means scrolling left to right.
pub open spec fn scroll_speed(speed: u8) -> i8 {
    if speed >= 0x40 {
        (speed - 0x80) as i8
    } else {
        speed as i8
    }
}

/// The text scroll payload: nothing stops the scroll; otherwise a loop flag, a speed, a colour
/// given as a palette entry (0) or RGB channels (1), and the text.
pub open spec fn text_message(rest: Seq<u8>) -> Option<MessageView> {
    if rest.len() == 0 {
        Some(MessageView::StopScroll)
    } else if rest.len() < 3 {
        None
    } else {
        let tail = rest.skip(2);
        let colored = if tail[0] == 0 {
            if tail.len() < 2 {
                None
            } else {
                match palette::entry_color(tail[1]) {
                    Some(color) => Some((color, tail.skip(2))),
                    None => None,
                }
            }
        } else if tail[0] == 1 {
            if tail.len() < 4 {
                None
            } else {
                match color_from_midi(tail.subrange(1, 4)) {
                    Some(color) => Some((color, tail.skip(4))),
                    None => None,
                }
            }
        } else {
            None
        };
        match colored {
            Some((color, text)) => Some(
                MessageView::StartScroll(
                    ScrollView { looping: rest[0] == 1, speed: scroll_speed(rest[1]), color, text },
                ),
            ),
            None => None,
        }
    }
}

/// The messages a device `SysEx` payload carries, by its leading command byte.
pub open spec fn sysex_messages(body: Seq<u8>) -> Option<Seq<MessageView>> {
    if body.len() == 0 {
        None
    } else {
        let (command, rest) = (body[0], body.skip(1));
        if command == CMD_LED {
            lighting_specs(rest)
        } else if command == CMD_BRIGHTNESS && rest.len() == 1 {
            Some(seq![MessageView::Brightness(rest[0])])
        } else if command == CMD_SLEEP && rest.len() == 1 {
            Some(seq![MessageView::Sleep(rest[0] == 0)])
        } else if command == CMD_MODE && rest.len() == 1 {
            Some(seq![MessageView::ProgrammerMode(rest[0] == 1)])
        } else if command == CMD_TEXT {
            match text_message(rest) {
                Some(message) => Some(seq![message]),
                None => None,
            }
        } else {
            None
        }
    }
}

/// The host messages one MIDI message carries for the device with this ID.
///
/// A clock tick, a note or control change lighting one pad, or a device `SysEx`; anything else is
/// reported as unrecognised rather than dropped.
pub open spec fn decoded(device_id: u8, bytes: Seq<u8>) -> Seq<MessageView> {
    if bytes == seq![CLOCK] {
        seq![MessageView::Clock]
    } else {
        match channel_voice(bytes) {
            Some(message) => seq![message],
            None => match stripped(device_id, bytes) {
                Some(body) => match sysex_messages(body) {
                    Some(messages) => messages,
                    None => seq![MessageView::Unrecognised(bytes)],
                },
                None => seq![MessageView::Unrecognised(bytes)],
            },
        }
    }
}

/// The `SysEx` header for a device, including its device ID.
pub fn sysex_header(device_id: u8) -> (bytes: [u8; 6])
    ensures
        bytes@ == header(device_id),
{
    let bytes = [NOVATION[0], NOVATION[1], NOVATION[2], NOVATION[3], NOVATION[4], device_id];
    assert(bytes@ =~= header(device_id));
    bytes
}

/// Converts a Programmer-mode note or control change number into a pad.
///
/// Valid numbers are `row * 10 + column` with both row and column in `1..=9`.
pub fn pad_from_midi(number: u8) -> (pad: Option<Pad>)
    ensures
        pad == midi_pad(number),
{
    let (row, column) = (number / 10, number % 10);
    if row == 0 || row > SIZE || column == 0 || column > SIZE {
        return None;
    }
    Some(Pad { x: column - 1, y: SIZE - row })
}

/// The Programmer-mode note or control change number for a pad.
pub fn pad_to_midi(pad: Pad) -> (number: Option<u8>)
    ensures
        number == midi_number(pad),
{
    if pad.x >= SIZE || pad.y >= SIZE {
        return None;
    }
    Some((SIZE - pad.y) * 10 + pad.x + 1)
}

/// Whether a pad is one of the central 8x8 grid pads, which report notes.
pub fn is_grid(pad: Pad) -> (on_grid: bool)
    ensures
        on_grid == grid(pad),
{
    pad.x < SIZE - 1 && pad.y > 0 && pad.y < SIZE
}

/// Whether a pad is the logo, which lights but never reports a press.
pub fn is_logo(pad: Pad) -> (is: bool)
    ensures
        is == logo(pad),
{
    pad.x == SIZE - 1 && pad.y == 0
}

/// What kind of control occupies a position.
pub fn role(pad: Pad) -> (role: PadRole)
    ensures
        role == role_at(pad),
{
    if pad.x >= SIZE || pad.y >= SIZE {
        PadRole::Absent
    } else if is_logo(pad) {
        PadRole::Logo
    } else if is_grid(pad) {
        PadRole::Grid
    } else {
        PadRole::Control
    }
}

/// Encodes an interaction as the hardware would report it in Programmer mode.
pub fn encode(interaction: Interaction) -> (bytes: Vec<u8>)
    ensures
        bytes@ == encoded(interaction),
{
    let number = match pad_to_midi(interaction.pad()) {
        Some(number) => number,
        None => return Vec::new(),
    };
    let bytes = match interaction {
        Interaction::Press { pad, velocity } => {
            let status: u8 = if is_grid(pad) { 0x90 } else { 0xB0 };
            let velocity: u8 = if velocity < 1 { 1 } else if velocity > 127 { 127 } else { velocity };
            vec![status, number, velocity]
        },
        Interaction::Release { pad } => {
            let status: u8 = if is_grid(pad) { 0x90 } else { 0xB0 };
            vec![status, number, 0]
        },
        Interaction::Aftertouch { pressure, .. } => {
            let pressure: u8 = if pressure > 127 { 127 } else { pressure };
            vec![0xA0, number, pressure]
        },
    };
    assert(bytes@ =~= encoded(interaction));
    bytes
}

/// Reads a Programmer-mode press, release or aftertouch reported by the hardware.
pub fn decode_interaction(bytes: &[u8]) -> (interaction: Option<Interaction>)
    ensures
        interaction == decoded_interaction(bytes@),
{
    if bytes.len() != 3 {
        return None;
    }
    let (status, number, value) = (bytes[0], bytes[1], bytes[2]);
    let pad = match pad_from_midi(number) {
        Some(pad) => pad,
        None => return None,
    };
    if ((status == 0x90 || status == 0xB0) && value == 0) || status == 0x80 {
        Some(Interaction::Release { pad })
    } else if value >= 0x80 {
        None
    } else if status == 0x90 || status == 0xB0 {
        Some(Interaction::Press { pad, velocity: value })
    } else if status == 0xA0 {
        Some(Interaction::Aftertouch { pad, pressure: value })
    } else {
        None
    }
}

/// Decodes one MIDI message from the host into the host messages it carries.
pub fn decode(device_id: u8, bytes: &[u8]) -> (messages: Vec<HostMessage>)
    ensures
        views(messages@) == decoded(device_id, bytes@),
{
    if bytes.len() == 1 && bytes[0] == CLOCK {
        assert(bytes@ =~= seq![CLOCK]);
        let messages = vec![HostMessage::Clock];
        assert(views(messages@) =~= seq![MessageView::Clock]);
        return messages;
    }
    assert(bytes@ != seq![CLOCK]) by {
        if bytes@ =~= seq![CLOCK] {
            assert(bytes@.len() == 1 && bytes@[0] == CLOCK);
        }
    }
    if let Some(message) = decode_channel_voice(bytes) {
        let messages = vec![message];
        assert(views(messages@) =~= seq![message@]);
        return messages;
    }
    if let Some(body) = strip_sysex(device_id, bytes) {
        if let Some(messages) = decode_sysex(body) {
            return messages;
        }
    }
    let messages = vec![HostMessage::Unrecognised(slice_to_vec(bytes))];
    assert(views(messages@) =~= seq![MessageView::Unrecognised(bytes@)]);
    messages
}

/// Returns the `SysEx` payload between the device header and the terminator.
fn strip_sysex(device_id: u8, bytes: &[u8]) -> (body: Option<&[u8]>)
    ensures
        match body {
            Some(body) => stripped(device_id, bytes@) == Some(body@),
            None => stripped(device_id, bytes@) is None,
        },
{
    let prefix = sysex_header(device_id);
    if bytes.len() < 7 {
        return None;
    }
    let mut i: usize = 0;
    while i < 6
        invariant
            i <= 6,
            bytes@.len() >= 7,
            prefix@ == header(device_id),
            forall|j: int| 0 <= j < i ==> bytes@[j] == prefix@[j],
        decreases 6 - i,
    {
        if bytes[i] != prefix[i] {
            assert(bytes@.subrange(0, 6)[i as int] != header(device_id)[i as int]);
            return None;
        }
        i += 1;
    }
    assert(bytes@.subrange(0, 6) =~= header(device_id));
    if bytes[bytes.len() - 1] != SYSEX_END {
        return None;
    }
    Some(slice_subrange(bytes, 6, bytes.len() - 1))
}

/// Decodes the note and control change messages that light one pad each.
///
/// Channel 1 sets a static colour, channel 2 flashing and channel 3 pulsing. In Programmer mode
/// every pad accepts both a note and a control change.
fn decode_channel_voice(bytes: &[u8]) -> (message: Option<HostMessage>)
    ensures
        match message {
            Some(message) => channel_voice(bytes@) == Some(message@),
            None => channel_voice(bytes@) is None,
        },
{
    if bytes.len() != 3 {
        return None;
    }
    let (status, number, value) = (bytes[0], bytes[1], bytes[2]);
    let kind = status & 0xF0;
    if kind != 0x90 && kind != 0xB0 {
        return None;
    }
    let pad = match pad_from_midi(number) {
        Some(pad) => pad,
        None => return None,
    };
    let color = match palette::get(value) {
        Some(color) => color,
        None => return None,
    };
    let channel = status & 0x0F;
    let lighting = if channel == 0 {
        Lighting::Static(color)
    } else if channel == 1 {
        Lighting::Flashing { a: color, b: Rgb::black() }
    } else if channel == 2 {
        Lighting::Pulsing(color)
    } else {
        return None;
    };
    Some(HostMessage::Lighting { pad, lighting })
}

/// Decodes the payload of a device `SysEx` message.
fn decode_sysex(body: &[u8]) -> (messages: Option<Vec<HostMessage>>)
    ensures
        match messages {
            Some(messages) => sysex_messages(body@) == Some(views(messages@)),
            None => sysex_messages(body@) is None,
        },
{
    if body.len() == 0 {
        return None;
    }
    let command = body[0];
    let rest = slice_subrange(body, 1, body.len());
    assert(rest@ =~= body@.skip(1));
    if command == CMD_LED {
        decode_lighting_specs(rest)
    } else if command == CMD_BRIGHTNESS && rest.len() == 1 {
        let messages = vec![HostMessage::Brightness(rest[0])];
        assert(views(messages@) =~= seq![MessageView::Brightness(rest@[0])]);
        Some(messages)
    } else if command == CMD_SLEEP && rest.len() == 1 {
        let messages = vec![HostMessage::Sleep(rest[0] == 0)];
        assert(views(messages@) =~= seq![MessageView::Sleep(rest@[0] == 0)]);
        Some(messages)
    } else if command == CMD_MODE && rest.len() == 1 {
        let messages = vec![HostMessage::ProgrammerMode(rest[0] == 1)];
        assert(views(messages@) =~= seq![MessageView::ProgrammerMode(rest@[0] == 1)]);
        Some(messages)
    } else if command == CMD_TEXT {
        match decode_text(rest) {
            Some(message) => {
                let messages = vec![message];
                assert(views(messages@) =~= seq![message@]);
                Some(messages)
            },
            None => None,
        }
    } else {
        None
    }
}

/// Decodes a run of colour specifications from the lighting `SysEx`.
fn decode_lighting_specs(rest: &[u8]) -> (messages: Option<Vec<HostMessage>>)
    ensures
        match messages {
            Some(messages) => lighting_specs(rest@) == Some(views(messages@)),
            None => lighting_specs(rest@) is None,
        },
{
    let mut out: Vec<HostMessage> = Vec::new();
    let mut pos: usize = 0;
    assert(rest@.skip(0) =~= rest@);
    while pos < rest.len()
        invariant
            pos <= rest.len(),
            lighting_specs(rest@) == match lighting_specs(rest@.skip(pos as int)) {
                Some(tail) => Some(views(out@) + tail),
                None => None::<Seq<MessageView>>,
            },
        decreases rest.len() - pos,
    {
        let ghost here = rest@.skip(pos as int);
        if rest.len() - pos < 2 {
            return None;
        }
        let kind = rest[pos];
        let number = rest[pos + 1];
        let (lighting, used): (Lighting, usize) = if kind == 0 {
            if rest.len() - pos < 3 {
                return None;
            }
            match palette::get(rest[pos + 2]) {
                Some(color) => (Lighting::Static(color), 3),
                None => return None,
            }
        } else if kind == 1 {
            if rest.len() - pos < 4 {
                return None;
            }
            let b = match palette::get(rest[pos + 2]) {
                Some(color) => color,
                None => return None,
            };
            let a = match palette::get(rest[pos + 3]) {
                Some(color) => color,
                None => return None,
            };
            (Lighting::Flashing { a, b }, 4)
        } else if kind == 2 {
            if rest.len() - pos < 3 {
                return None;
            }
            match palette::get(rest[pos + 2]) {
                Some(color) => (Lighting::Pulsing(color), 3),
                None => return None,
            }
        } else if kind == 3 {
            if rest.len() - pos < 5 {
                return None;
            }
            let channels = slice_subrange(rest, pos + 2, pos + 5);
            assert(channels@ =~= here.subrange(2, 5));
            match Rgb::from_midi(channels) {
                Some(color) => (Lighting::Static(color), 5),
                None => return None,
            }
        } else {
            return None;
        };
        assert(lighting_spec(here) == Some((lighting, used as nat)));
        assert(here.skip(used as int) =~= rest@.skip((pos + used) as int));
        let ghost before = out@;
        if let Some(pad) = pad_from_midi(number) {
            out.push(HostMessage::Lighting { pad, lighting });
            assert(views(out@) =~= views(before) + seq![MessageView::Lighting { pad, lighting }]);
        }
        pos += used;
    }
    assert(rest@.skip(pos as int) =~= Seq::<u8>::empty());
    assert(views(out@) + Seq::<MessageView>::empty() =~= views(out@));
    Some(out)
}

/// Decodes the text scroll `SysEx`, whose trailing fields may all be omitted.
fn decode_text(rest: &[u8]) -> (message: Option<HostMessage>)
    ensures
        match message {
            Some(message) => text_message(rest@) == Some(message@),
            None => text_message(rest@) is None,
        },
{
    if rest.len() == 0 {
        return Some(HostMessage::StopScroll);
    }
    if rest.len() < 3 {
        return None;
    }
    let (loop_flag, speed) = (rest[0], rest[1]);
    let ghost tail = rest@.skip(2);
    let (color, start): (Rgb, usize) = if rest[2] == 0 {
        if rest.len() < 4 {
            return None;
        }
        match palette::get(rest[3]) {
            Some(color) => (color, 4),
            None => return None,
        }
    } else if rest[2] == 1 {
        if rest.len() < 6 {
            return None;
        }
        let channels = slice_subrange(rest, 3, 6);
        assert(channels@ =~= tail.subrange(1, 4));
        match Rgb::from_midi(channels) {
            Some(color) => (color, 6),
            None => return None,
        }
    } else {
        return None;
    };
    let text = slice_to_vec(slice_subrange(rest, start, rest.len()));
    assert(text@ =~= tail.skip(start - 2));
    Some(
        HostMessage::StartScroll(
            TextScroll { looping: loop_flag == 1, speed: decode_speed(speed), color, text },
        ),
    )
}

/// Reads a scroll speed, where 0x40 and above means scrolling left to right.
pub fn decode_speed(speed: u8) -> (signed: i8)
    ensures
        signed == scroll_speed(speed),
{
    if speed >= 0x40 {
        (speed as i16 - 0x80) as i8
    } else {
        speed as i8
    }
}

/// The printing beside the logo and the scene launch buttons down the right-hand column, which
/// both models share.
pub open spec fn column_printing(pad: Pad) -> Option<Seq<char>> {
    if pad.x != 8 || pad.y > 8 {
        None
    } else if pad.y == 0 {
        Some("Logo"@)
    } else if pad.y == 1 {
        Some("Scene Launch 1"@)
    } else if pad.y == 2 {
        Some("Scene Launch 2"@)
    } else if pad.y == 3 {
        Some("Scene Launch 3"@)
    } else if pad.y == 4 {
        Some("Scene Launch 4"@)
    } else if pad.y == 5 {
        Some("Scene Launch 5"@)
    } else if pad.y == 6 {
        Some("Scene Launch 6"@)
    } else if pad.y == 7 {
        Some("Scene Launch 7"@)
    } else {
        Some("Scene Launch 8"@)
    }
}

/// The printing beside the logo and the scene launch buttons, or `None` elsewhere.
pub fn column_name(pad: Pad) -> (name: Option<&'static str>)
    ensures
        match name {
            Some(name) => column_printing(pad) == Some(name@),
            None => column_printing(pad) is None,
        },
{
    if pad.x != 8 {
        return None;
    }
    match pad.y {
        0 => Some("Logo"),
        1 => Some("Scene Launch 1"),
        2 => Some("Scene Launch 2"),
        3 => Some("Scene Launch 3"),
        4 => Some("Scene Launch 4"),
        5 => Some("Scene Launch 5"),
        6 => Some("Scene Launch 6"),
        7 => Some("Scene Launch 7"),
        8 => Some("Scene Launch 8"),
        _ => None,
    }
}

/// Each pad's number goes back to the same pad.
pub proof fn lemma_pad_round_trip(pad: Pad)
    requires
        pad.x < SIZE,
        pad.y < SIZE,
    ensures
        midi_number(pad) is Some,
        midi_pad(midi_number(pad).unwrap()) == Some(pad),
{
}

/// Each number that addresses a pad is that pad's number.
pub proof fn lemma_number_round_trip(number: u8)
    requires
        midi_pad(number) is Some,
    ensures
        midi_number(midi_pad(number).unwrap()) == Some(number),
{
}

/// The numbers of the pads are exactly those off the surface nowhere: every pad on the surface has
/// one, and none off it does.
pub proof fn lemma_numbers_only_on_the_surface(pad: Pad)
    ensures
        midi_number(pad) is Some <==> (pad.x < SIZE && pad.y < SIZE),
{
}

/// An interaction the hardware can report reads back as itself: any pad of the surface, pressed
/// with a velocity of 1 to 127, released, or held with a pressure of at most 127.
pub proof fn lemma_interaction_round_trip(interaction: Interaction)
    requires
        interaction.target().x < SIZE,
        interaction.target().y < SIZE,
        interaction matches Interaction::Press { velocity, .. } ==> 1 <= velocity <= 127,
        interaction matches Interaction::Aftertouch { pressure, .. } ==> pressure <= 127,
    ensures
        decoded_interaction(encoded(interaction)) == Some(interaction),
{
}

/// Whatever the hardware reports reads as an interaction the hardware can report: a pad of the
/// surface, a press with a velocity of 1 to 127, or a pressure of at most 127.
pub proof fn lemma_decoded_interactions_are_in_range(bytes: Seq<u8>)
    ensures
        decoded_interaction(bytes) matches Some(interaction) ==> interaction.target().x < SIZE
            && interaction.target().y < SIZE,
        decoded_interaction(bytes) matches Some(Interaction::Press { velocity, .. }) ==> 1 <= velocity <= 127,
        decoded_interaction(bytes) matches Some(Interaction::Aftertouch { pressure, .. }) ==> pressure <= 127,
{
}

/// The grid is exactly the 8x8 pads below the top row and left of the right column.
pub proof fn lemma_grid_is_the_central_square(pad: Pad)
    ensures
        role_at(pad) == PadRole::Grid <==> (pad.x < 8 && 1 <= pad.y <= 8),
        grid(pad) ==> pad.x < SIZE && pad.y < SIZE,
{
}

/// A press goes out with a velocity of at least 1, so it never reads as a release.
pub proof fn lemma_press_is_never_a_release(pad: Pad, velocity: u8)
    requires
        pad.x < SIZE,
        pad.y < SIZE,
    ensures
        encoded(Interaction::Press { pad, velocity })[2] >= 1,
        decoded_interaction(encoded(Interaction::Press { pad, velocity })) is Some,
        !(decoded_interaction(encoded(Interaction::Press { pad, velocity })) matches Some(
            Interaction::Release { .. },
        )),
{
}

/// Interactions with pads off the surface encode to nothing.
pub proof fn lemma_off_surface_encodes_to_nothing(interaction: Interaction)
    requires
        interaction.target().x >= SIZE || interaction.target().y >= SIZE,
    ensures
        encoded(interaction).len() == 0,
{
}

/// A `SysEx` message addressed to one device ID is unrecognised by a device with any other: it
/// decodes to the one message reporting its bytes.
pub proof fn lemma_only_own_sysex(own: u8, other: u8, bytes: Seq<u8>)
    requires
        own != other,
        stripped(other, bytes) is Some,
    ensures
        stripped(own, bytes) is None,
        decoded(own, bytes) == seq![MessageView::Unrecognised(bytes)],
{
    assert(bytes.subrange(0, 6)[5] == other);
    if bytes == seq![CLOCK] {
        assert(bytes.len() == 1);
    }
}

/// A lighting `SysEx` with any malformed specification lights nothing: the whole message is
/// reported as unrecognised.
pub proof fn lemma_malformed_lighting_is_unrecognised(device_id: u8, bytes: Seq<u8>)
    requires
        stripped(device_id, bytes) matches Some(body) && body.len() > 0 && body[0] == CMD_LED
            && lighting_specs(body.skip(1)) is None,
    ensures
        decoded(device_id, bytes) == seq![MessageView::Unrecognised(bytes)],
{
    if bytes == seq![CLOCK] {
        assert(bytes.len() == 1);
    }
}

/// A run of colour specifications only ever lights pads.
proof fn lemma_lighting_specs_only_light(rest: Seq<u8>)
    ensures
        lighting_specs(rest) matches Some(messages) ==> forall|i: int| 0 <= i < messages.len()
            ==> #[trigger] messages[i] is Lighting,
    decreases rest.len(),
{
    if rest.len() > 0 {
        if let Some((lighting, used)) = lighting_spec(rest) {
            if used <= rest.len() && used > 0 {
                lemma_lighting_specs_only_light(rest.skip(used as int));
                if let Some(tail) = lighting_specs(rest.skip(used as int)) {
                    if let Some(pad) = midi_pad(rest[1]) {
                        let messages = seq![MessageView::Lighting { pad, lighting }] + tail;
                        assert forall|i: int| 0 <= i < messages.len() implies #[trigger] messages[i] is Lighting by {
                            if i > 0 {
                                assert(messages[i] == tail[i - 1]);
                            }
                        }
                    }
                }
            }
        }
    }
}

/// How the bytes of one MIDI message decode, whatever they are: a clock tick is a clock tick; a
/// message that is not understood stands alone, reported whole and never beside anything it
/// lit; and the device ID matters only to `SysEx`, so anything not starting with 0xF0 decodes
/// the same for every device.
pub proof fn lemma_decoding_is_all_or_nothing(device_id: u8, other_id: u8, bytes: Seq<u8>)
    ensures
        decoded(device_id, seq![CLOCK]) == seq![MessageView::Clock],
        (exists|i: int| 0 <= i < decoded(device_id, bytes).len() && #[trigger] decoded(device_id, bytes)[i]
            is Unrecognised) ==> decoded(device_id, bytes) == seq![MessageView::Unrecognised(bytes)],
        bytes.len() == 0 || bytes[0] != 0xF0 ==> decoded(device_id, bytes) == decoded(other_id, bytes),
{
    if bytes.len() == 0 || bytes[0] != 0xF0 {
        assert(stripped(device_id, bytes) is None) by {
            if bytes.len() >= 7 && bytes.subrange(0, 6) == header(device_id) {
                assert(bytes.subrange(0, 6)[0] == bytes[0]);
            }
        }
        assert(stripped(other_id, bytes) is None) by {
            if bytes.len() >= 7 && bytes.subrange(0, 6) == header(other_id) {
                assert(bytes.subrange(0, 6)[0] == bytes[0]);
            }
        }
    }
    if bytes != seq![CLOCK] && channel_voice(bytes) is None {
        if let Some(body) = stripped(device_id, bytes) {
            if body.len() > 0 && body[0] == CMD_LED {
                lemma_lighting_specs_only_light(body.skip(1));
            }
            if let Some(messages) = sysex_messages(body) {
                assert forall|i: int| 0 <= i < messages.len() implies !(#[trigger] messages[i] is Unrecognised) by {
                    if body[0] == CMD_LED {
                        assert(messages[i] is Lighting);
                    }
                }
            }
        }
    }
}

/// Each kind of colour specification reads its bytes in order: after the kind and the pad number,
/// kind 0 takes one palette entry; kind 1 takes the second flashing colour then the first; kind 2
/// takes one pulsing entry; and kind 3 takes the red, green and blue channels, each a 7-bit value
/// widened into its own channel of the colour.
pub proof fn lemma_colour_specs_read_in_order(number: u8, first: u8, second: u8, third: u8, rest: Seq<u8>)
    ensures
        lighting_spec(seq![0u8, number, first] + rest) == match palette::entry_color(first) {
            Some(color) => Some((Lighting::Static(color), 3nat)),
            None => None::<(Lighting, nat)>,
        },
        lighting_spec(seq![1u8, number, first, second] + rest) == match (
            palette::entry_color(second),
            palette::entry_color(first),
        ) {
            (Some(a), Some(b)) => Some((Lighting::Flashing { a, b }, 4nat)),
            _ => None::<(Lighting, nat)>,
        },
        lighting_spec(seq![2u8, number, first] + rest) == match palette::entry_color(first) {
            Some(color) => Some((Lighting::Pulsing(color), 3nat)),
            None => None::<(Lighting, nat)>,
        },
        lighting_spec(seq![3u8, number, first, second, third] + rest) == if first <= 127 && second <= 127
            && third <= 127 {
            Some((Lighting::Static(Rgb { r: widened(first), g: widened(second), b: widened(third) }), 5nat))
        } else {
            None::<(Lighting, nat)>
        },
{
    let rgb = seq![3u8, number, first, second, third] + rest;
    assert(rgb.subrange(2, 5) =~= seq![first, second, third]);
}

/// A lighting `SysEx` with one RGB specification for a pad of the surface lights exactly that pad,
/// with the red, green and blue the host sent, whatever the device ID.
pub proof fn lemma_rgb_lighting_lights_the_pad(device_id: u8, number: u8, red: u8, green: u8, blue: u8)
    requires
        midi_pad(number) is Some,
        red <= 127,
        green <= 127,
        blue <= 127,
    ensures
        decoded(device_id, header(device_id) + seq![CMD_LED, 3u8, number, red, green, blue, SYSEX_END]) == seq![
            MessageView::Lighting {
                pad: midi_pad(number).unwrap(),
                lighting: Lighting::Static(Rgb { r: widened(red), g: widened(green), b: widened(blue) }),
            },
        ],
{
    let bytes = header(device_id) + seq![CMD_LED, 3u8, number, red, green, blue, SYSEX_END];
    let body = seq![CMD_LED, 3u8, number, red, green, blue];
    assert(bytes.subrange(0, 6) =~= header(device_id));
    assert(bytes.subrange(6, bytes.len() - 1) =~= body);
    assert(body.skip(1) =~= seq![3u8, number, red, green, blue] + Seq::<u8>::empty());
    lemma_colour_specs_read_in_order(number, red, green, blue, Seq::empty());
    let specs = body.skip(1);
    let lighting = Lighting::Static(Rgb { r: widened(red), g: widened(green), b: widened(blue) });
    assert(specs.skip(5) =~= Seq::<u8>::empty());
    assert(specs[1] == number);
    assert(lighting_specs(specs.skip(5)) == Some(Seq::<MessageView>::empty()));
    assert(lighting_spec(specs) == Some((lighting, 5nat)));
    assert(lighting_specs(specs) =~= Some(seq![MessageView::Lighting { pad: midi_pad(number).unwrap(), lighting }]));
    assert(bytes.last() == SYSEX_END);
    assert(stripped(device_id, bytes) == Some(body));
    assert(sysex_messages(body) == lighting_specs(specs));
    if bytes == seq![CLOCK] {
        assert(bytes.len() == 1);
    }
    assert(channel_voice(bytes) is None);
}

/// What an interaction with a pad of the surface is reported as: a press or release of a pad of
/// the central 8x8 grid is a note (0x90), of a button around it a control change (0xB0), and
/// aftertouch is polyphonic pressure (0xA0); the number is the row from the bottom times ten plus
/// the column from the left, both counted from 1; velocity is held to 1..=127, a release sends 0,
/// and pressure is held to 127.
pub proof fn lemma_interactions_are_reported_by_position(pad: Pad, velocity: u8, pressure: u8)
    requires
        pad.x < 9,
        pad.y < 9,
    ensures
        ({
            let status: u8 = if pad.x < 8 && pad.y >= 1 { 0x90 } else { 0xB0 };
            let number: u8 = ((9 - pad.y) * 10 + pad.x + 1) as u8;
            &&& encoded(Interaction::Press { pad, velocity }) == seq![
                status,
                number,
                if velocity == 0 { 1u8 } else if velocity > 127 { 127u8 } else { velocity },
            ]
            &&& encoded(Interaction::Release { pad }) == seq![status, number, 0u8]
            &&& encoded(Interaction::Aftertouch { pad, pressure }) == seq![
                0xA0u8,
                number,
                if pressure > 127 { 127u8 } else { pressure },
            ]
            &&& (status == 0x90 <==> role_at(pad) == PadRole::Grid)
        }),
{
}

/// A note or control change on channel 1 lights its pad with the palette colour its value names,
/// on channel 2 flashes that colour against black, and on channel 3 pulses it.
pub proof fn lemma_notes_light_by_channel(device_id: u8, kind: u8, channel: u8, number: u8, entry: u8)
    requires
        kind == 0x90 || kind == 0xB0,
        channel < 3,
        midi_pad(number) is Some,
        palette::entry_color(entry) is Some,
    ensures
        ({
            let color = palette::entry_color(entry).unwrap();
            decoded(device_id, seq![(kind + channel) as u8, number, entry]) == seq![
                MessageView::Lighting {
                    pad: midi_pad(number).unwrap(),
                    lighting: if channel == 0 {
                        Lighting::Static(color)
                    } else if channel == 1 {
                        Lighting::Flashing { a: color, b: black() }
                    } else {
                        Lighting::Pulsing(color)
                    },
                },
            ]
        }),
{
    let status = (kind + channel) as u8;
    assert((status & 0xF0u8) == kind && (status & 0x0Fu8) == channel) by (bit_vector)
        requires
            kind == 0x90u8 || kind == 0xB0u8,
            channel < 3u8,
            status == kind + channel,
    ;
    let bytes = seq![status, number, entry];
    if bytes == seq![CLOCK] {
        assert(bytes.len() == 1);
    }
}

/// A text `SysEx` payload reads its fields in order: the loop flag (1 loops), the speed (0x40 and
/// above counting down from 0x80, scrolling the other way), then a colour, as a palette entry after
/// a 0 or as red, green and blue after a 1, and all that follows is the text.
pub proof fn lemma_text_fields_read_in_order(
    looping: u8,
    speed: u8,
    first: u8,
    second: u8,
    third: u8,
    text: Seq<u8>,
)
    ensures
        scroll_speed(speed) as int == if speed >= 0x40 { speed - 128 } else { speed as int },
        text_message(seq![looping, speed, 0u8, first] + text) == match palette::entry_color(first) {
            Some(color) => Some(
                MessageView::StartScroll(ScrollView { looping: looping == 1, speed: scroll_speed(speed), color, text }),
            ),
            None => None::<MessageView>,
        },
        text_message(seq![looping, speed, 1u8, first, second, third] + text) == if first <= 127 && second <= 127
            && third <= 127 {
            Some(
                MessageView::StartScroll(
                    ScrollView {
                        looping: looping == 1,
                        speed: scroll_speed(speed),
                        color: Rgb { r: widened(first), g: widened(second), b: widened(third) },
                        text,
                    },
                ),
            )
        } else {
            None::<MessageView>
        },
        text_message(Seq::empty()) == Some(MessageView::StopScroll),
{
    if speed >= 0x40 {
        assert(((speed - 0x80) as i8) as int == speed - 128) by (bit_vector)
            requires
                speed >= 0x40u8,
        ;
    }
    let by_entry = seq![looping, speed, 0u8, first] + text;
    assert(by_entry.skip(2).skip(2) =~= text);
    let by_rgb = seq![looping, speed, 1u8, first, second, third] + text;
    assert(by_rgb.skip(2).subrange(1, 4) =~= seq![first, second, third]);
    assert(by_rgb.skip(2).skip(4) =~= text);
}

/// The single-value commands: brightness takes the level as sent, sleep switches the LEDs off for
/// a value of 0 and on for anything else, and the mode byte 1 selects Programmer mode.
pub proof fn lemma_settings_commands(value: u8)
    ensures
        sysex_messages(seq![CMD_BRIGHTNESS, value]) == Some(seq![MessageView::Brightness(value)]),
        sysex_messages(seq![CMD_SLEEP, value]) == Some(seq![MessageView::Sleep(value == 0)]),
        sysex_messages(seq![CMD_MODE, value]) == Some(seq![MessageView::ProgrammerMode(value == 1)]),
{
    assert(seq![CMD_BRIGHTNESS, value].skip(1) =~= seq![value]);
    assert(seq![CMD_SLEEP, value].skip(1) =~= seq![value]);
    assert(seq![CMD_MODE, value].skip(1) =~= seq![value]);
}

} // verus!
