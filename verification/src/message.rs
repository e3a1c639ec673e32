//! Device-independent messages crossing between a host application and a surface.

use vstd::prelude::*;

use crate::color::Rgb;
use crate::pad::Pad;
use crate::surface::{Lighting, ScrollView, TextScroll};
use crate::text::{
    byte_list, decimal, flag, push_byte_list, push_decimal, push_flag, push_signed, signed_decimal,
};

verus! {

/// A message sent from a host application to a device.
#[derive(Debug, Clone, PartialEq, Eq)]
pub enum HostMessage {
    /// Light a single pad.
    Lighting {
        /// The pad being lit.
        pad: Pad,
        /// How it should be lit.
        lighting: Lighting,
    },
    /// Set the overall LED brightness.
    Brightness(u8),
    /// Switch the LEDs off or back on.
    Sleep(bool),
    /// Enter Programmer mode, or leave it for Live mode.
    ProgrammerMode(bool),
    /// Begin a text scroll, or reconfigure the running one.
    StartScroll(TextScroll),
    /// End any running text scroll.
    StopScroll,
    /// Change the velocity curve and the fixed velocity that goes with it.
    SetVelocityCurve {
        /// Which curve to use.
        curve: u8,
        /// Velocity reported while the curve is the fixed one.
        fixed_velocity: u8,
    },
    /// Change how held pads report pressure.
    SetAftertouch {
        /// Report per pad or once for the whole grid.
        mode: u8,
        /// Pressure needed before reporting starts.
        threshold: u8,
    },
    /// Something the host wants reported back.
    Query(Query),
    /// A MIDI beat clock tick, 24 per beat.
    Clock,
    /// Bytes that did not parse as anything the surface reacts to.
    Unrecognised(Vec<u8>),
}

/// What a [`HostMessage`] says, with its byte strings as sequences.
pub enum MessageView {
    /// Light a single pad.
    Lighting { pad: Pad, lighting: Lighting },
    /// Set the overall LED brightness.
    Brightness(u8),
    /// Switch the LEDs off or back on.
    Sleep(bool),
    /// Enter Programmer mode, or leave it for Live mode.
    ProgrammerMode(bool),
    /// Begin a text scroll.
    StartScroll(ScrollView),
    /// End any running text scroll.
    StopScroll,
    /// Change the velocity curve.
    SetVelocityCurve { curve: u8, fixed_velocity: u8 },
    /// Change how held pads report pressure.
    SetAftertouch { mode: u8, threshold: u8 },
    /// Something the host wants reported back.
    Query(Query),
    /// A MIDI beat clock tick.
    Clock,
    /// Bytes that did not parse.
    Unrecognised(Seq<u8>),
}

impl View for HostMessage {
    type V = MessageView;

    open spec fn view(&self) -> MessageView {
        match self {
            HostMessage::Lighting { pad, lighting } => MessageView::Lighting {
                pad: *pad,
                lighting: *lighting,
            },
            HostMessage::Brightness(level) => MessageView::Brightness(*level),
            HostMessage::Sleep(asleep) => MessageView::Sleep(*asleep),
            HostMessage::ProgrammerMode(on) => MessageView::ProgrammerMode(*on),
            HostMessage::StartScroll(scroll) => MessageView::StartScroll(scroll@),
            HostMessage::StopScroll => MessageView::StopScroll,
            HostMessage::SetVelocityCurve { curve, fixed_velocity } => MessageView::SetVelocityCurve {
                curve: *curve,
                fixed_velocity: *fixed_velocity,
            },
            HostMessage::SetAftertouch { mode, threshold } => MessageView::SetAftertouch {
                mode: *mode,
                threshold: *threshold,
            },
            HostMessage::Query(query) => MessageView::Query(*query),
            HostMessage::Clock => MessageView::Clock,
            HostMessage::Unrecognised(bytes) => MessageView::Unrecognised(bytes@),
        }
    }
}

/// The views of a run of messages, in order.
pub open spec fn views(messages: Seq<HostMessage>) -> Seq<MessageView> {
    messages.map_values(|message: HostMessage| message@)
}

/// A request for the device to report something about itself.
#[derive(Debug, Clone, Copy, PartialEq, Eq, Hash, Structural)]
pub enum Query {
    /// Identity and firmware version, asked with a universal device inquiry.
    DeviceInquiry,
    /// Which layout is selected.
    Layout,
    /// The velocity curve and fixed velocity.
    VelocityCurve,
    /// The aftertouch mode and threshold.
    Aftertouch,
    /// The overall LED brightness.
    Brightness,
    /// Whether the LEDs are switched off.
    Sleep,
}

/// An interaction reported from a device back to the host.
#[derive(Debug, Clone, Copy, PartialEq, Eq, Structural)]
pub enum Interaction {
    /// A pad was struck, with a velocity in `1..=127`.
    Press {
        /// The pad that was struck.
        pad: Pad,
        /// How hard it was struck.
        velocity: u8,
    },
    /// A pad was let go.
    Release {
        /// The pad that was let go.
        pad: Pad,
    },
    /// The pressure on a held pad changed, from 0 to 127.
    Aftertouch {
        /// The pad being held.
        pad: Pad,
        /// The pressure applied.
        pressure: u8,
    },
}

impl Interaction {
    /// The pad an interaction refers to.
    pub open spec fn target(self) -> Pad {
        match self {
            Interaction::Press { pad, .. } => pad,
            Interaction::Release { pad } => pad,
            Interaction::Aftertouch { pad, .. } => pad,
        }
    }

    /// The pad this interaction refers to.
    pub fn pad(self) -> (pad: Pad)
        ensures
            pad == self.target(),
    {
        match self {
            Self::Press { pad, .. } | Self::Release { pad } | Self::Aftertouch { pad, .. } => pad,
        }
    }
}

/// A colour as `{:?}` writes it.
pub open spec fn rgb_text(color: Rgb) -> Seq<char> {
    "Rgb { r: "@ + decimal(color.r as nat) + ", g: "@ + decimal(color.g as nat) + ", b: "@
        + decimal(color.b as nat) + " }"@
}

/// A pad as `{:?}` writes it.
pub open spec fn pad_text(pad: Pad) -> Seq<char> {
    "Pad { x: "@ + decimal(pad.x as nat) + ", y: "@ + decimal(pad.y as nat) + " }"@
}

/// How an LED is lit, as `{:?}` writes it.
pub open spec fn lighting_text(lighting: Lighting) -> Seq<char> {
    match lighting {
        Lighting::Static(color) => "Static("@ + rgb_text(color) + ")"@,
        Lighting::Flashing { a, b } => "Flashing { a: "@ + rgb_text(a) + ", b: "@ + rgb_text(b) + " }"@,
        Lighting::Pulsing(color) => "Pulsing("@ + rgb_text(color) + ")"@,
    }
}

/// A text scroll as `{:?}` writes it.
pub open spec fn scroll_text(scroll: ScrollView) -> Seq<char> {
    "TextScroll { looping: "@ + flag(scroll.looping) + ", speed: "@ + signed_decimal(scroll.speed as int)
        + ", color: "@ + rgb_text(scroll.color) + ", text: "@ + byte_list(scroll.text) + " }"@
}

/// The name of a query.
pub open spec fn query_text(query: Query) -> Seq<char> {
    match query {
        Query::DeviceInquiry => "DeviceInquiry"@,
        Query::Layout => "Layout"@,
        Query::VelocityCurve => "VelocityCurve"@,
        Query::Aftertouch => "Aftertouch"@,
        Query::Brightness => "Brightness"@,
        Query::Sleep => "Sleep"@,
    }
}

/// A message written out as `{:?}` writes it: the variant's name, then its fields.
pub open spec fn description(message: MessageView) -> Seq<char> {
    match message {
        MessageView::Lighting { pad, lighting } => "Lighting { pad: "@ + pad_text(pad) + ", lighting: "@
            + lighting_text(lighting) + " }"@,
        MessageView::Brightness(level) => "Brightness("@ + decimal(level as nat) + ")"@,
        MessageView::Sleep(asleep) => "Sleep("@ + flag(asleep) + ")"@,
        MessageView::ProgrammerMode(on) => "ProgrammerMode("@ + flag(on) + ")"@,
        MessageView::StartScroll(scroll) => "StartScroll("@ + scroll_text(scroll) + ")"@,
        MessageView::StopScroll => "StopScroll"@,
        MessageView::SetVelocityCurve { curve, fixed_velocity } => "SetVelocityCurve { curve: "@
            + decimal(curve as nat) + ", fixed_velocity: "@ + decimal(fixed_velocity as nat) + " }"@,
        MessageView::SetAftertouch { mode, threshold } => "SetAftertouch { mode: "@ + decimal(mode as nat)
            + ", threshold: "@ + decimal(threshold as nat) + " }"@,
        MessageView::Query(query) => "Query("@ + query_text(query) + ")"@,
        MessageView::Clock => "Clock"@,
        MessageView::Unrecognised(bytes) => "Unrecognised("@ + byte_list(bytes) + ")"@,
    }
}

/// Writes a colour as `{:?}` writes it at the end of `text`.
fn push_rgb(text: &mut String, color: Rgb)
    ensures
        final(text)@ == old(text)@ + rgb_text(color),
{
    text.append("Rgb { r: ");
    push_decimal(text, color.r);
    text.append(", g: ");
    push_decimal(text, color.g);
    text.append(", b: ");
    push_decimal(text, color.b);
    text.append(" }");
    assert(final(text)@ =~= old(text)@ + rgb_text(color));
}

/// Writes a pad as `{:?}` writes it at the end of `text`.
fn push_pad(text: &mut String, pad: Pad)
    ensures
        final(text)@ == old(text)@ + pad_text(pad),
{
    text.append("Pad { x: ");
    push_decimal(text, pad.x);
    text.append(", y: ");
    push_decimal(text, pad.y);
    text.append(" }");
    assert(final(text)@ =~= old(text)@ + pad_text(pad));
}

/// Writes how an LED is lit as `{:?}` writes it at the end of `text`.
fn push_lighting(text: &mut String, lighting: Lighting)
    ensures
        final(text)@ == old(text)@ + lighting_text(lighting),
{
    match lighting {
        Lighting::Static(color) => {
            text.append("Static(");
            push_rgb(text, color);
            text.append(")");
        },
        Lighting::Flashing { a, b } => {
            text.append("Flashing { a: ");
            push_rgb(text, a);
            text.append(", b: ");
            push_rgb(text, b);
            text.append(" }");
        },
        Lighting::Pulsing(color) => {
            text.append("Pulsing(");
            push_rgb(text, color);
            text.append(")");
        },
    }
    assert(final(text)@ =~= old(text)@ + lighting_text(lighting));
}

/// Writes a text scroll as `{:?}` writes it at the end of `text`.
fn push_scroll(text: &mut String, scroll: &TextScroll)
    ensures
        final(text)@ == old(text)@ + scroll_text(scroll@),
{
    text.append("TextScroll { looping: ");
    push_flag(text, scroll.looping);
    text.append(", speed: ");
    push_signed(text, scroll.speed);
    text.append(", color: ");
    push_rgb(text, scroll.color);
    text.append(", text: ");
    push_byte_list(text, scroll.text.as_slice());
    text.append(" }");
    assert(final(text)@ =~= old(text)@ + scroll_text(scroll@));
}

/// The name of a query.
fn query_name(query: Query) -> (name: &'static str)
    ensures
        name@ == query_text(query),
{
    match query {
        Query::DeviceInquiry => "DeviceInquiry",
        Query::Layout => "Layout",
        Query::VelocityCurve => "VelocityCurve",
        Query::Aftertouch => "Aftertouch",
        Query::Brightness => "Brightness",
        Query::Sleep => "Sleep",
    }
}

impl HostMessage {
    /// The message written out as `{:?}` writes it.
    pub fn describe(&self) -> (text: String)
        ensures
            text@ == description(self@),
    {
        let mut text = String::new();
        match self {
            HostMessage::Lighting { pad, lighting } => {
                text.append("Lighting { pad: ");
                push_pad(&mut text, *pad);
                text.append(", lighting: ");
                push_lighting(&mut text, *lighting);
                text.append(" }");
            },
            HostMessage::Brightness(level) => {
                text.append("Brightness(");
                push_decimal(&mut text, *level);
                text.append(")");
            },
            HostMessage::Sleep(asleep) => {
                text.append("Sleep(");
                push_flag(&mut text, *asleep);
                text.append(")");
            },
            HostMessage::ProgrammerMode(on) => {
                text.append("ProgrammerMode(");
                push_flag(&mut text, *on);
                text.append(")");
            },
            HostMessage::StartScroll(scroll) => {
                text.append("StartScroll(");
                push_scroll(&mut text, scroll);
                text.append(")");
            },
            HostMessage::StopScroll => {
                text.append("StopScroll");
            },
            HostMessage::SetVelocityCurve { curve, fixed_velocity } => {
                text.append("SetVelocityCurve { curve: ");
                push_decimal(&mut text, *curve);
                text.append(", fixed_velocity: ");
                push_decimal(&mut text, *fixed_velocity);
                text.append(" }");
            },
            HostMessage::SetAftertouch { mode, threshold } => {
                text.append("SetAftertouch { mode: ");
                push_decimal(&mut text, *mode);
                text.append(", threshold: ");
                push_decimal(&mut text, *threshold);
                text.append(" }");
            },
            HostMessage::Query(query) => {
                text.append("Query(");
                text.append(query_name(*query));
                text.append(")");
            },
            HostMessage::Clock => {
                text.append("Clock");
            },
            HostMessage::Unrecognised(bytes) => {
                text.append("Unrecognised(");
                push_byte_list(&mut text, bytes.as_slice());
                text.append(")");
            },
        }
        assert(text@ =~= description(self@));
        text
    }
}

} // verus!
