//! Colour representation shared by the palette and the surface.

use vstd::prelude::*;

verus! {

/// An 8-bit RGB colour.
#[derive(Debug, Clone, Copy, PartialEq, Eq, Hash, Structural)]
pub struct Rgb {
    /// Red channel.
    pub r: u8,
    /// Green channel.
    pub g: u8,
    /// Blue channel.
    pub b: u8,
}

/// A 7-bit channel widened so that 127 reaches 255: twice the value, plus its top bit.
pub open spec fn widened(value: u8) -> u8 {
    (2 * value + value / 64) as u8
}

/// An 8-bit channel narrowed to the 7 bits a MIDI data byte carries.
pub open spec fn narrowed(value: u8) -> u8 {
    value / 2
}

/// The colour three 7-bit channels describe, or `None` unless there are exactly three in range.
pub open spec fn color_from_midi(channels: Seq<u8>) -> Option<Rgb> {
    if channels.len() == 3 && channels[0] <= 127 && channels[1] <= 127 && channels[2] <= 127 {
        Some(Rgb { r: widened(channels[0]), g: widened(channels[1]), b: widened(channels[2]) })
    } else {
        None
    }
}

/// An unlit LED.
pub open spec fn black() -> Rgb {
    Rgb { r: 0, g: 0, b: 0 }
}

impl Rgb {
    /// An unlit LED.
    pub fn black() -> (color: Self)
        ensures
            color == black(),
    {
        Self { r: 0, g: 0, b: 0 }
    }

    /// Reads the three 7-bit channels a Launchpad RGB message carries.
    ///
    /// Channel values run from 0 to 127 and are scaled up to the full 8-bit range.
    pub fn from_midi(channels: &[u8]) -> (color: Option<Self>)
        ensures
            color == color_from_midi(channels@),
    {
        if channels.len() != 3 {
            return None;
        }
        let (r, g, b) = (channels[0], channels[1], channels[2]);
        if r > 127 || g > 127 || b > 127 {
            return None;
        }
        Some(Self { r: scale_up(r), g: scale_up(g), b: scale_up(b) })
    }

    /// The three 7-bit channels a Launchpad RGB message carries.
    pub fn to_midi(self) -> (channels: [u8; 3])
        ensures
            channels@ == seq![narrowed(self.r), narrowed(self.g), narrowed(self.b)],
    {
        let channels = [narrow(self.r), narrow(self.g), narrow(self.b)];
        assert(channels@ =~= seq![narrowed(self.r), narrowed(self.g), narrowed(self.b)]);
        channels
    }
}

impl Default for Rgb {
    fn default() -> (color: Self)
        ensures
            color == black(),
    {
        Self::black()
    }
}

/// Widens a 7-bit channel so that 127 maps to 255, exactly reversing [`narrow`].
fn scale_up(value: u8) -> (wide: u8)
    requires
        value <= 127,
    ensures
        wide == widened(value),
{
    assert(((value << 1u8) | (value >> 6u8)) == 2 * value + value / 64) by (bit_vector)
        requires
            value <= 127,
    ;
    (value << 1) | (value >> 6)
}

/// Narrows an 8-bit channel so that 255 maps to 127.
fn narrow(value: u8) -> (slim: u8)
    ensures
        slim == narrowed(value),
{
    assert(value >> 1u8 == value / 2) by (bit_vector);
    value >> 1
}

/// Narrowing undoes widening for every 7-bit channel.
pub proof fn lemma_narrow_undoes_widen(value: u8)
    requires
        value <= 127,
    ensures
        narrowed(widened(value)) == value,
{
}

/// A colour read from the wire goes back out on the wire as the same three channels.
pub proof fn lemma_midi_round_trip(channels: Seq<u8>)
    requires
        color_from_midi(channels) is Some,
    ensures
        ({
            let color = color_from_midi(channels).unwrap();
            seq![narrowed(color.r), narrowed(color.g), narrowed(color.b)] == channels
        }),
{
    assert(seq![
        narrowed(widened(channels[0])),
        narrowed(widened(channels[1])),
        narrowed(widened(channels[2])),
    ] =~= channels);
}

} // verus!
