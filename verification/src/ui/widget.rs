//! The state a drawn surface keeps about the pointer, and the interactions it produces.

use vstd::prelude::*;

use super::labels::Labels;
use super::layout::{Layout, LayoutView};
use crate::message::Interaction;
use crate::pad::Pad;
use crate::role::PadRole;

verus! {

/// Milliseconds a pad must be held for the aftertouch ramp to reach full pressure.
pub const RAMP_MILLIS: u64 = 1000;

/// Pressure reached after holding for `millis` milliseconds: rising evenly from 0 to 127 over
/// [`RAMP_MILLIS`], rounded to the nearest step, and staying at 127 after.
pub open spec fn ramp_level(millis: u64) -> u8 {
    let held = if millis < 1000 { millis } else { 1000 };
    ((held * 127 + 500) / 1000) as u8
}

/// Pressure reached after holding for `millis` milliseconds.
pub fn ramp(millis: u64) -> (pressure: u8)
    ensures
        pressure == ramp_level(millis),
        pressure <= 127,
{
    let held = if millis < RAMP_MILLIS { millis } else { RAMP_MILLIS };
    ((held * 127 + 500) / 1000) as u8
}

/// A pad currently held down by the pointer.
#[derive(Debug, Clone, Copy, PartialEq, Eq, Structural)]
pub struct Held {
    /// The pad held.
    pub pad: Pad,
    /// When it was pressed, in milliseconds on the front end's clock.
    pub since: u64,
    /// The pressure last reported for it.
    pub pressure: u8,
}

/// The whole state of a [`LaunchpadUi`].
pub struct UiView {
    pub velocity: u8,
    pub aftertouch_on_hold: bool,
    pub held: Option<Held>,
    pub labels: Map<Pad, Seq<char>>,
}

impl UiView {
    /// A velocity a real press can have.
    pub open spec fn wf(self) -> bool {
        1 <= self.velocity <= 127
    }

    /// The pointer state after one frame, and the interactions it produces.
    ///
    /// `under` is the pad under the pointer while the primary button is held on the surface, and
    /// `now` the front end's clock in milliseconds. Only buttons can be held. Letting go, or moving
    /// off the held pad, releases it; reaching a different button releases the old one and presses
    /// the new one; holding a grid pad ramps its pressure when aftertouch is on, reporting each
    /// change.
    pub open spec fn stepped(self, layout: LayoutView, under: Option<Pad>, now: u64) -> (UiView, Seq<Interaction>) {
        let target = match under {
            Some(pad) => if layout.role(pad) == PadRole::Grid || layout.role(pad) == PadRole::Control {
                Some(pad)
            } else {
                None
            },
            None => None,
        };
        match (target, self.held) {
            (None, Some(held)) => (
                UiView { held: None, ..self },
                seq![Interaction::Release { pad: held.pad }],
            ),
            (Some(pad), None) => (
                UiView { held: Some(Held { pad, since: now, pressure: 0 }), ..self },
                seq![Interaction::Press { pad, velocity: self.velocity }],
            ),
            (Some(pad), Some(held)) => if held.pad != pad {
                (
                    UiView { held: Some(Held { pad, since: now, pressure: 0 }), ..self },
                    seq![
                        Interaction::Release { pad: held.pad },
                        Interaction::Press { pad, velocity: self.velocity },
                    ],
                )
            } else if self.aftertouch_on_hold && layout.role(pad) == PadRole::Grid {
                let pressure = ramp_level(if now >= held.since { (now - held.since) as u64 } else { 0 });
                if pressure != held.pressure {
                    (
                        UiView { held: Some(Held { pressure, ..held }), ..self },
                        seq![Interaction::Aftertouch { pad, pressure }],
                    )
                } else {
                    (self, seq![])
                }
            } else {
                (self, seq![])
            },
            (None, None) => (self, seq![]),
        }
    }
}

/// Draws a Launchpad surface and reports the interactions the pointer produces: the part of the
/// widget that does not depend on what draws it.
#[derive(Debug, Clone)]
pub struct LaunchpadUi {
    velocity: u8,
    aftertouch_on_hold: bool,
    held: Option<Held>,
    labels: Labels,
}

impl View for LaunchpadUi {
    type V = UiView;

    closed spec fn view(&self) -> UiView {
        UiView {
            velocity: self.velocity,
            aftertouch_on_hold: self.aftertouch_on_hold,
            held: self.held,
            labels: self.labels@,
        }
    }
}

impl LaunchpadUi {
    /// A velocity a real press can have.
    pub closed spec fn wf(&self) -> bool {
        self@.wf()
    }

    /// Creates a widget reporting full velocity presses, ramping aftertouch on hold, unlabelled.
    pub fn new() -> (widget: Self)
        ensures
            widget@.velocity == 127,
            widget@.aftertouch_on_hold,
            widget@.held is None,
            widget@.labels == Map::<Pad, Seq<char>>::empty(),
            widget.wf(),
    {
        Self { velocity: 127, aftertouch_on_hold: true, held: None, labels: Labels::none() }
    }

    /// Replaces the labels shown on hover.
    pub fn with_labels(self, labels: Labels) -> (widget: Self)
        requires
            self.wf(),
        ensures
            widget@ == (UiView { labels: labels@, ..self@ }),
            widget.wf(),
    {
        Self { labels, ..self }
    }

    /// Replaces the labels shown on hover.
    pub fn set_labels(&mut self, labels: Labels)
        requires
            old(self).wf(),
        ensures
            final(self)@ == (UiView { labels: labels@, ..old(self)@ }),
            final(self).wf(),
    {
        self.labels = labels;
    }

    /// The labels shown on hover.
    pub fn labels(&self) -> (labels: &Labels)
        ensures
            labels@ == self@.labels,
    {
        &self.labels
    }

    /// Velocity reported for a click, in `1..=127`.
    pub fn velocity(&self) -> (velocity: u8)
        ensures
            velocity == self@.velocity,
    {
        self.velocity
    }

    /// Sets the velocity reported for a click, clamped to `1..=127`.
    pub fn set_velocity(&mut self, velocity: u8)
        requires
            old(self).wf(),
        ensures
            final(self)@ == (UiView {
                velocity: if velocity < 1 { 1 } else if velocity > 127 { 127 } else { velocity },
                ..old(self)@
            }),
            final(self).wf(),
    {
        self.velocity = if velocity < 1 { 1 } else if velocity > 127 { 127 } else { velocity };
    }

    /// Whether holding a grid pad ramps aftertouch pressure.
    pub fn aftertouch_on_hold(&self) -> (on: bool)
        ensures
            on == self@.aftertouch_on_hold,
    {
        self.aftertouch_on_hold
    }

    /// Sets whether holding a grid pad ramps aftertouch pressure.
    pub fn set_aftertouch_on_hold(&mut self, on: bool)
        requires
            old(self).wf(),
        ensures
            final(self)@ == (UiView { aftertouch_on_hold: on, ..old(self)@ }),
            final(self).wf(),
    {
        self.aftertouch_on_hold = on;
    }

    /// The pad currently held down by the pointer, if any.
    pub fn held(&self) -> (held: Option<Pad>)
        ensures
            held == match self@.held {
                Some(h) => Some(h.pad),
                None => None::<Pad>,
            },
    {
        match self.held {
            Some(held) => Some(held.pad),
            None => None,
        }
    }

    /// Translates the pointer into presses, releases and aftertouch.
    ///
    /// `under` is the pad under the pointer while the primary button is held down on the surface,
    /// and `now` the front end's clock in milliseconds.
    pub fn interactions(&mut self, layout: &Layout, under: Option<Pad>, now: u64) -> (out: Vec<Interaction>)
        requires
            old(self).wf(),
            layout@.wf(),
        ensures
            (final(self)@, out@) == old(self)@.stepped(layout@, under, now),
            final(self).wf(),
    {
        let target = match under {
            Some(pad) => if layout.role(pad).is_button() {
                Some(pad)
            } else {
                None
            },
            None => None,
        };
        let mut out: Vec<Interaction> = Vec::new();
        match (target, self.held) {
            (None, Some(held)) => {
                out.push(Interaction::Release { pad: held.pad });
                self.held = None;
            },
            (Some(pad), None) => {
                out.push(Interaction::Press { pad, velocity: self.velocity });
                self.held = Some(Held { pad, since: now, pressure: 0 });
            },
            (Some(pad), Some(held)) => {
                if held.pad != pad {
                    out.push(Interaction::Release { pad: held.pad });
                    out.push(Interaction::Press { pad, velocity: self.velocity });
                    self.held = Some(Held { pad, since: now, pressure: 0 });
                } else if self.aftertouch_on_hold && layout.role(pad) == PadRole::Grid {
                    let elapsed = if now >= held.since { now - held.since } else { 0 };
                    let pressure = ramp(elapsed);
                    if pressure != held.pressure {
                        self.held = Some(Held { pressure, ..held });
                        out.push(Interaction::Aftertouch { pad, pressure });
                    }
                }
            },
            (None, None) => {},
        }
        assert(out@ =~= old(self)@.stepped(layout@, under, now).1);
        out
    }
}

/// The aftertouch ramp starts at nothing, reaches full pressure after [`RAMP_MILLIS`] and stays
/// there, and never falls as the hold goes on.
pub proof fn lemma_ramp_spans_the_full_range(earlier: u64, later: u64)
    requires
        earlier <= later,
    ensures
        ramp_level(0) == 0,
        later >= RAMP_MILLIS ==> ramp_level(later) == 127,
        ramp_level(earlier) <= ramp_level(later),
{
    let (a, b) = (if earlier < 1000 { earlier as int } else { 1000 }, if later < 1000 { later as int } else { 1000 });
    assert((a * 127 + 500) / 1000 <= (b * 127 + 500) / 1000) by (nonlinear_arith)
        requires
            0 <= a <= b <= 1000,
    ;
}

/// The pointer only ever presses buttons, only releases the pad it held, holds afterwards exactly
/// the button it is over, and reports pressure only for a held grid pad.
pub proof fn lemma_pointer_is_consistent(ui: UiView, layout: LayoutView, under: Option<Pad>, now: u64)
    ensures
        ({
            let (next, out) = ui.stepped(layout, under, now);
            &&& forall|i: int| 0 <= i < out.len() ==> (#[trigger] out[i] matches Interaction::Press { pad, .. } ==> (
                layout.role(pad) == PadRole::Grid || layout.role(pad) == PadRole::Control) && under == Some(pad))
            &&& forall|i: int| 0 <= i < out.len() ==> (#[trigger] out[i] matches Interaction::Release { pad } ==> (
                ui.held matches Some(held) && held.pad == pad))
            &&& forall|i: int| 0 <= i < out.len() ==> (#[trigger] out[i] matches Interaction::Aftertouch { pad, .. }
                ==> layout.role(pad) == PadRole::Grid && (ui.held matches Some(held) && held.pad == pad))
            &&& next.held matches Some(held) ==> under == Some(held.pad) && (layout.role(held.pad) == PadRole::Grid
                || layout.role(held.pad) == PadRole::Control)
            &&& next.velocity == ui.velocity && next.aftertouch_on_hold == ui.aftertouch_on_hold
            &&& next.labels == ui.labels
        }),
{
}

/// Staying on the held pad never presses it again.
pub proof fn lemma_holding_does_not_repress(ui: UiView, layout: LayoutView, pad: Pad, now: u64)
    requires
        ui.held matches Some(held) && held.pad == pad,
        layout.role(pad) == PadRole::Grid || layout.role(pad) == PadRole::Control,
    ensures
        ({
            let out = ui.stepped(layout, Some(pad), now).1;
            forall|i: int| 0 <= i < out.len() ==> !(#[trigger] out[i] is Press) && !(out[i] is Release)
        }),
{
}

/// Every press the pointer makes carries the velocity the widget is set to, and every pressure it
/// reports follows the aftertouch ramp from when the pad was pressed.
pub proof fn lemma_presses_carry_the_set_velocity(ui: UiView, layout: LayoutView, under: Option<Pad>, now: u64)
    ensures
        ({
            let out = ui.stepped(layout, under, now).1;
            &&& forall|i: int| 0 <= i < out.len() ==> (#[trigger] out[i] matches Interaction::Press { velocity, .. }
                ==> velocity == ui.velocity)
            &&& forall|i: int| 0 <= i < out.len() ==> (#[trigger] out[i] matches Interaction::Aftertouch { pressure, .. }
                ==> (ui.held matches Some(held) && pressure == ramp_level(
                if now >= held.since { (now - held.since) as u64 } else { 0 },
            )))
        }),
{
}

} // verus!
