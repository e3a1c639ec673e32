//! What kind of control occupies a position on a surface.

use vstd::prelude::*;

verus! {

/// The kind of control at a position, which front ends draw differently.
#[derive(Debug, Clone, Copy, PartialEq, Eq, Hash, Structural)]
pub enum PadRole {
    /// One of the square pads of the central grid.
    Grid,
    /// One of the round buttons along the edges.
    Control,
    /// The logo, which lights but never reports a press.
    Logo,
    /// Nothing, for positions the device does not have.
    Absent,
}

impl PadRole {
    /// Whether a control of this kind reports presses.
    pub fn is_button(self) -> (pressable: bool)
        ensures
            pressable == (self == PadRole::Grid || self == PadRole::Control),
    {
        matches!(self, Self::Grid | Self::Control)
    }

    /// Whether a control of this kind lights up.
    pub fn is_lit(self) -> (lit: bool)
        ensures
            lit == (self != PadRole::Absent),
    {
        !matches!(self, Self::Absent)
    }
}

} // verus!
