//! The state of an emulated Launchpad and the decisions it takes on what passes through it.
//!
//! The emulator decodes what a host sends, keeps the surface it lights and a log of every message,
//! and decides what becomes of the interactions reported to the host: the bytes to write when it
//! has a port to the host, or a queue to drain when it has none. Moving bytes over MIDI ports is
//! left to whoever holds them.

use core::marker::PhantomData;

use vstd::prelude::*;
use vstd::string::*;

use crate::error::Error;
use crate::message::{views, HostMessage, Interaction, MessageView};
use crate::surface::{fresh, Surface, SurfaceView};
use crate::DeviceSpec;

verus! {

/// Beat clock ticks among a run of messages.
pub open spec fn clock_ticks(messages: Seq<MessageView>) -> nat
    decreases messages.len(),
{
    if messages.len() == 0 {
        0
    } else {
        clock_ticks(messages.drop_last()) + if messages.last() is Clock { 1nat } else { 0nat }
    }
}

/// The whole state of an [`Emulator`].
pub struct EmulatorView {
    /// The lighting state built from everything the host has sent.
    pub surface: SurfaceView,
    /// Messages from the host not yet polled, oldest first.
    pub log: Seq<MessageView>,
    /// Interactions waiting to be drained, oldest first.
    pub reported: Seq<Interaction>,
    /// Whether interactions go out on a port to the host rather than into the queue.
    pub host_port: bool,
}

/// A Launchpad an application can drive: the surface a host lights, and what is reported back.
pub struct Emulator<S: DeviceSpec> {
    surface: Surface,
    log: Vec<HostMessage>,
    reported: Vec<Interaction>,
    host_port: bool,
    device: PhantomData<S>,
}

impl<S: DeviceSpec> View for Emulator<S> {
    type V = EmulatorView;

    closed spec fn view(&self) -> EmulatorView {
        EmulatorView {
            surface: self.surface@,
            log: views(self.log@),
            reported: self.reported@,
            host_port: self.host_port,
        }
    }
}

impl<S: DeviceSpec> Emulator<S> {
    /// Creates an emulator whose interactions are queued for [`Self::reported`], as when it
    /// publishes no MIDI ports and the application that draws the surface also plays it.
    pub fn in_process() -> (emulator: Self)
        ensures
            emulator@.surface == fresh(S::width(), S::height()),
            emulator@.log.len() == 0,
            emulator@.reported.len() == 0,
            !emulator@.host_port,
            emulator@.surface.wf(),
    {
        let emulator = Self {
            surface: Surface::new::<S>(),
            log: Vec::new(),
            reported: Vec::new(),
            host_port: false,
            device: PhantomData,
        };
        assert(emulator@.log =~= Seq::<MessageView>::empty());
        emulator
    }

    /// Creates an emulator that reports interactions on a port to the host, so [`Self::send`] hands
    /// back the bytes to write.
    pub fn with_host_port() -> (emulator: Self)
        ensures
            emulator@.surface == fresh(S::width(), S::height()),
            emulator@.log.len() == 0,
            emulator@.reported.len() == 0,
            emulator@.host_port,
            emulator@.surface.wf(),
    {
        let emulator = Self {
            surface: Surface::new::<S>(),
            log: Vec::new(),
            reported: Vec::new(),
            host_port: true,
            device: PhantomData,
        };
        assert(emulator@.log =~= Seq::<MessageView>::empty());
        emulator
    }

    /// Whether interactions go out on a port to the host.
    pub fn publishes_ports(&self) -> (publishes: bool)
        ensures
            publishes == self@.host_port,
    {
        self.host_port
    }

    /// Applies MIDI bytes as a host sent them: every message they carry lights the surface and is
    /// logged for [`Self::poll`].
    ///
    /// Returns how many beat clock ticks the bytes carried, for the clock that paces flashing and
    /// pulsing.
    pub fn feed(&mut self, bytes: &[u8]) -> (ticks: usize)
        requires
            old(self)@.surface.wf(),
        ensures
            final(self)@.surface == old(self)@.surface.applied_all(S::decoded(bytes@)),
            final(self)@.log == old(self)@.log + S::decoded(bytes@),
            final(self)@.reported == old(self)@.reported,
            final(self)@.host_port == old(self)@.host_port,
            ticks == clock_ticks(S::decoded(bytes@)),
            final(self)@.surface.wf(),
    {
        let mut messages = S::decode(bytes);
        let ghost decoded = views(messages@);
        let ghost start = self.surface@;
        let mut ticks: usize = 0;
        let mut i: usize = 0;
        while i < messages.len()
            invariant
                i <= messages.len(),
                decoded == views(messages@),
                self.surface@ == start.applied_all(decoded.take(i as int)),
                self.surface@.wf(),
                ticks == clock_ticks(decoded.take(i as int)),
                ticks <= i,
                self.log == old(self).log,
                self.reported == old(self).reported,
                self.host_port == old(self).host_port,
            decreases messages.len() - i,
        {
            let message = &messages[i];
            self.surface.apply(message);
            if matches!(message, HostMessage::Clock) {
                ticks += 1;
            }
            assert(decoded.take(i + 1).drop_last() =~= decoded.take(i as int));
            i += 1;
        }
        assert(decoded.take(i as int) =~= decoded);
        let ghost logged = views(self.log@);
        self.log.append(&mut messages);
        assert(views(self.log@) =~= logged + decoded);
        ticks
    }

    /// Takes every message the host has sent since the last call, oldest first.
    pub fn poll(&mut self) -> (messages: Vec<HostMessage>)
        ensures
            views(messages@) == old(self)@.log,
            final(self)@ == (EmulatorView { log: Seq::empty(), ..old(self)@ }),
    {
        let mut messages: Vec<HostMessage> = Vec::new();
        core::mem::swap(&mut messages, &mut self.log);
        assert(views(self.log@) =~= Seq::<MessageView>::empty());
        messages
    }

    /// Takes the interactions reported since the last call, oldest first.
    ///
    /// Only fills up when there is no port to the host to write to.
    pub fn reported(&mut self) -> (interactions: Vec<Interaction>)
        ensures
            interactions@ == old(self)@.reported,
            final(self)@ == (EmulatorView { reported: Seq::empty(), ..old(self)@ }),
    {
        let mut interactions: Vec<Interaction> = Vec::new();
        core::mem::swap(&mut interactions, &mut self.reported);
        interactions
    }

    /// The lighting state built from everything the host has sent.
    pub fn surface(&self) -> (surface: &Surface)
        ensures
            surface@ == self@.surface,
    {
        &self.surface
    }

    /// Moves a running text scroll on by `millis` milliseconds.
    pub fn advance(&mut self, millis: u32)
        requires
            old(self)@.surface.wf(),
        ensures
            final(self)@ == (EmulatorView { surface: old(self)@.surface.advanced(millis), ..old(self)@ }),
            final(self)@.surface.wf(),
    {
        self.surface.advance(millis);
    }

    /// Reports an interaction to the host as though a pad had been touched.
    ///
    /// With a port to the host this returns the bytes to write to it; without one the interaction
    /// is queued for [`Self::reported`] and nothing is returned. An interaction with a pad off the
    /// surface is refused.
    pub fn send(&mut self, interaction: Interaction) -> (sent: Result<Option<Vec<u8>>, Error>)
        ensures
            S::encoded(interaction).len() == 0 ==> sent == Err::<Option<Vec<u8>>, Error>(
                Error::OffSurface { pad: interaction.target() },
            ) && final(self)@ == old(self)@,
            S::encoded(interaction).len() != 0 && old(self)@.host_port ==> (sent matches Ok(Some(bytes))
                && bytes@ == S::encoded(interaction)) && final(self)@ == old(self)@,
            S::encoded(interaction).len() != 0 && !old(self)@.host_port ==> (sent matches Ok(None))
                && final(self)@ == (EmulatorView {
                reported: old(self)@.reported.push(interaction),
                ..old(self)@
            }),
    {
        let bytes = S::encode(interaction);
        if bytes.len() == 0 {
            return Err(Error::OffSurface { pad: interaction.pad() });
        }
        if self.host_port {
            Ok(Some(bytes))
        } else {
            self.reported.push(interaction);
            Ok(None)
        }
    }

    /// Passes on the interactions attached hardware reported, as the hardware would have sent them.
    ///
    /// With a port to the host this returns the bytes to write for each, in order; without one
    /// they are queued for [`Self::reported`].
    pub fn pump_hardware(&mut self, pending: &[Interaction]) -> (frames: Vec<Vec<u8>>)
        ensures
            old(self)@.host_port ==> final(self)@ == old(self)@ && frames.len() == pending.len()
                && forall|i: int| 0 <= i < pending.len() ==> #[trigger] frames@[i]@ == S::encoded(pending@[i]),
            !old(self)@.host_port ==> frames.len() == 0 && final(self)@ == (EmulatorView {
                reported: old(self)@.reported + pending@,
                ..old(self)@
            }),
    {
        let mut frames: Vec<Vec<u8>> = Vec::new();
        let mut i: usize = 0;
        while i < pending.len()
            invariant
                i <= pending.len(),
                self.host_port == old(self).host_port,
                self.surface == old(self).surface,
                self.log == old(self).log,
                self.host_port ==> self.reported == old(self).reported && frames.len() == i
                    && forall|j: int| 0 <= j < i ==> #[trigger] frames@[j]@ == S::encoded(pending@[j]),
                !self.host_port ==> frames.len() == 0
                    && self.reported@ == old(self).reported@ + pending@.take(i as int),
            decreases pending.len() - i,
        {
            let interaction = pending[i];
            if self.host_port {
                frames.push(S::encode(interaction));
            } else {
                self.reported.push(interaction);
                assert(pending@.take(i + 1) =~= pending@.take(i as int).push(interaction));
            }
            i += 1;
        }
        assert(pending@.take(pending.len() as int) =~= pending@);
        frames
    }
}

/// Whether `text` holds `part` somewhere, as a run of consecutive characters.
pub open spec fn holds(text: Seq<char>, part: Seq<char>) -> bool {
    exists|i: int| 0 <= i <= text.len() - part.len() && #[trigger] text.subrange(i, i + part.len()) == part
}

/// Whether a MIDI port of this name belongs to the hardware: it holds the model's keyword and is
/// not the port the emulator itself published, which only an exact match rules out.
pub open spec fn hardware_port(name: Seq<char>, keyword: Seq<char>, ours: Option<Seq<char>>) -> bool {
    holds(name, keyword) && ours != Some(name)
}

/// The text of an optional string slice.
pub open spec fn text_of(name: Option<&str>) -> Option<Seq<char>> {
    match name {
        Some(name) => Some(name@),
        None => None,
    }
}

/// Whether `text` holds `part` somewhere, as a run of consecutive characters.
pub fn contains(text: &str, part: &str) -> (found: bool)
    ensures
        found == holds(text@, part@),
{
    let text_len = text.unicode_len();
    let part_len = part.unicode_len();
    if part_len > text_len {
        return false;
    }
    let mut i: usize = 0;
    while i <= text_len - part_len
        invariant
            text_len == text@.len(),
            part_len == part@.len(),
            part_len <= text_len,
            i <= text_len - part_len + 1,
            forall|j: int| 0 <= j < i ==> #[trigger] text@.subrange(j, j + part_len) != part@,
        decreases text_len - part_len + 1 - i,
    {
        let mut k: usize = 0;
        while k < part_len && text.get_char(i + k) == part.get_char(k)
            invariant
                text_len == text@.len(),
                part_len == part@.len(),
                i + part_len <= text_len,
                k <= part_len,
                forall|m: int| 0 <= m < k ==> text@[i + m] == part@[m],
            decreases part_len - k,
        {
            k += 1;
        }
        if k == part_len {
            assert(text@.subrange(i as int, i + part_len) =~= part@);
            return true;
        }
        assert(text@.subrange(i as int, i + part_len)[k as int] != part@[k as int]);
        i += 1;
    }
    assert forall|j: int| 0 <= j <= text@.len() - part@.len() implies #[trigger] text@.subrange(
        j,
        j + part@.len(),
    ) != part@ by {
        assert(j < i);
    }
    false
}

/// Whether two strings read the same.
pub fn same_text(a: &str, b: &str) -> (same: bool)
    ensures
        same == (a@ == b@),
{
    let len = a.unicode_len();
    if len != b.unicode_len() {
        return false;
    }
    let mut i: usize = 0;
    while i < len
        invariant
            len == a@.len(),
            len == b@.len(),
            i <= len,
            forall|m: int| 0 <= m < i ==> a@[m] == b@[m],
        decreases len - i,
    {
        if a.get_char(i) != b.get_char(i) {
            return false;
        }
        i += 1;
    }
    assert(a@ =~= b@);
    true
}

/// Whether a MIDI port of this name belongs to the hardware the keyword identifies.
///
/// The comparison with `ours` is exact because hardware port names extend the emulator's, so
/// `Launchpad X LPX MIDI In` must still match while `Launchpad X LPX MIDI` is skipped.
pub fn is_hardware_port(name: &str, keyword: &str, ours: Option<&str>) -> (hardware: bool)
    ensures
        hardware == hardware_port(name@, keyword@, text_of(ours)),
{
    let own = match ours {
        Some(ours) => same_text(ours, name),
        None => false,
    };
    contains(name, keyword) && !own
}

/// The first of a list of MIDI port names that belongs to the hardware, skipping our own by exact
/// name.
pub fn find_port(names: &[String], keyword: &str, ours: Option<&str>) -> (found: Option<usize>)
    ensures
        match found {
            Some(i) => i < names.len() && hardware_port(names@[i as int]@, keyword@, text_of(ours))
                && forall|j: int| 0 <= j < i ==> !hardware_port(#[trigger] names@[j]@, keyword@, text_of(ours)),
            None => forall|j: int| 0 <= j < names.len() ==> !hardware_port(#[trigger] names@[j]@, keyword@, text_of(ours)),
        },
{
    let mut i: usize = 0;
    while i < names.len()
        invariant
            i <= names.len(),
            forall|j: int| 0 <= j < i ==> !hardware_port(#[trigger] names@[j]@, keyword@, text_of(ours)),
        decreases names.len() - i,
    {
        if is_hardware_port(names[i].as_str(), keyword, ours) {
            return Some(i);
        }
        i += 1;
    }
    None
}

} // verus!
