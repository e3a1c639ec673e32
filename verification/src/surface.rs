//! The lighting state a front end draws.

use vstd::prelude::*;

use crate::color::{black, Rgb};
use crate::font;
use crate::message::{HostMessage, MessageView};
use crate::pad::{row_major, Pad};
use crate::DeviceSpec;

verus! {

/// Full brightness, as every supported device reports it.
pub const MAX_BRIGHTNESS: u8 = 127;

/// Scroll positions are kept in thousandths of a column, so time can be counted in milliseconds.
pub const STEPS_PER_COLUMN: u32 = 1000;

/// How a single LED is lit.
#[derive(Debug, Clone, Copy, PartialEq, Eq, Structural)]
pub enum Lighting {
    /// A constant colour.
    Static(Rgb),
    /// Alternating between two colours at 50% duty cycle, one period per beat.
    Flashing {
        /// The colour held for the first half of the period.
        a: Rgb,
        /// The colour held for the second half of the period.
        b: Rgb,
    },
    /// Ramping between a colour and a dim floor, one period per two beats.
    Pulsing(Rgb),
}

/// An unlit LED.
pub open spec fn unlit() -> Lighting {
    Lighting::Static(black())
}

impl Default for Lighting {
    fn default() -> (lighting: Self)
        ensures
            lighting == unlit(),
    {
        Self::Static(Rgb::black())
    }
}

/// Settings a host can change and read back.
#[derive(Debug, Clone, Copy, PartialEq, Eq, Structural)]
pub struct Settings {
    /// Which curve maps striking force onto velocity.
    pub velocity_curve: u8,
    /// Velocity reported for every pad while the curve is the fixed one.
    pub fixed_velocity: u8,
    /// Whether held pads report pressure per pad or once for the whole grid.
    pub aftertouch_mode: u8,
    /// Pressure needed before a held pad starts reporting.
    pub aftertouch_threshold: u8,
}

/// The values the hardware powers on with.
pub open spec fn power_on_settings() -> Settings {
    Settings { velocity_curve: 1, fixed_velocity: 127, aftertouch_mode: 0, aftertouch_threshold: 1 }
}

impl Default for Settings {
    /// The values the hardware powers on with.
    fn default() -> (settings: Self)
        ensures
            settings == power_on_settings(),
    {
        Self { velocity_curve: 1, fixed_velocity: 127, aftertouch_mode: 0, aftertouch_threshold: 1 }
    }
}

/// A text scroll running across the surface.
#[derive(Debug, PartialEq, Eq)]
pub struct TextScroll {
    /// Whether the text restarts once it has scrolled out.
    pub looping: bool,
    /// Speed in pads per second, negative when the text scrolls left to right.
    pub speed: i8,
    /// Colour the text is drawn in.
    pub color: Rgb,
    /// The bytes to display.
    pub text: Vec<u8>,
}

/// What a [`TextScroll`] says, with its text as a sequence.
pub struct ScrollView {
    pub looping: bool,
    pub speed: i8,
    pub color: Rgb,
    pub text: Seq<u8>,
}

impl View for TextScroll {
    type V = ScrollView;

    open spec fn view(&self) -> ScrollView {
        ScrollView { looping: self.looping, speed: self.speed, color: self.color, text: self.text@ }
    }
}

impl Clone for TextScroll {
    fn clone(&self) -> (copy: Self)
        ensures
            copy@ == self@,
    {
        TextScroll { looping: self.looping, speed: self.speed, color: self.color, text: self.text.clone() }
    }
}

/// The whole state of a [`Surface`], with its collections as sequences.
pub struct SurfaceView {
    pub width: u8,
    pub height: u8,
    /// Every LED, in row-major order.
    pub leds: Seq<Lighting>,
    pub brightness: u8,
    pub asleep: bool,
    pub programmer_mode: bool,
    pub scroll: Option<ScrollView>,
    /// Pixels of the running scroll, one byte per column.
    pub columns: Seq<u8>,
    /// Thousandths of a column the scroll has travelled, counting from off the surface.
    pub offset: int,
    pub settings: Settings,
}

/// The lighting state of a whole surface, sized for the device that produced it.
#[derive(Debug, Clone, PartialEq)]
pub struct Surface {
    width: u8,
    height: u8,
    leds: Vec<Lighting>,
    brightness: u8,
    asleep: bool,
    programmer_mode: bool,
    scroll: Option<TextScroll>,
    scroll_columns: Vec<u8>,
    scroll_offset: i128,
    settings: Settings,
}

impl View for Surface {
    type V = SurfaceView;

    closed spec fn view(&self) -> SurfaceView {
        SurfaceView {
            width: self.width,
            height: self.height,
            leds: self.leds@,
            brightness: self.brightness,
            asleep: self.asleep,
            programmer_mode: self.programmer_mode,
            scroll: match self.scroll {
                Some(scroll) => Some(scroll@),
                None => None,
            },
            columns: self.scroll_columns@,
            offset: self.scroll_offset as int,
            settings: self.settings,
        }
    }
}

impl SurfaceView {
    /// Where a scroll that is about to run starts: just off the edge it enters from.
    pub open spec fn scroll_start(width: u8, columns: Seq<u8>, speed: i8) -> int {
        if speed < 0 {
            (columns.len() * 1000) as int
        } else {
            -(width * 1000)
        }
    }

    /// Every LED there is, and a running scroll within its travel.
    pub open spec fn wf(self) -> bool {
        &&& self.leds.len() == self.width * self.height
        &&& self.scroll is Some ==> -(self.width * 1000) <= self.offset <= self.columns.len() * 1000
    }

    /// Row-major index of a pad, or `None` when it lies off the surface.
    pub open spec fn index(self, pad: Pad) -> Option<int> {
        if pad.x < self.width && pad.y < self.height {
            Some(pad.y * self.width + pad.x)
        } else {
            None
        }
    }

    /// How a pad is lit, unlit when it lies off the surface.
    pub open spec fn lighting(self, pad: Pad) -> Lighting {
        match self.index(pad) {
            Some(i) => self.leds[i],
            None => unlit(),
        }
    }

    /// The state after a message from the host.
    pub open spec fn applied(self, message: MessageView) -> SurfaceView {
        match message {
            MessageView::Lighting { pad, lighting } => match self.index(pad) {
                Some(i) => SurfaceView { leds: self.leds.update(i, lighting), ..self },
                None => self,
            },
            MessageView::Brightness(level) => SurfaceView {
                brightness: if level < MAX_BRIGHTNESS { level } else { MAX_BRIGHTNESS },
                ..self
            },
            MessageView::Sleep(asleep) => SurfaceView { asleep, ..self },
            MessageView::ProgrammerMode(on) => SurfaceView { programmer_mode: on, ..self },
            MessageView::StartScroll(scroll) => {
                let columns = font::text_columns(scroll.text);
                SurfaceView {
                    scroll: Some(scroll),
                    columns,
                    offset: SurfaceView::scroll_start(self.width, columns, scroll.speed),
                    ..self
                }
            },
            MessageView::StopScroll => SurfaceView { scroll: None, ..self },
            MessageView::SetVelocityCurve { curve, fixed_velocity } => SurfaceView {
                settings: Settings { velocity_curve: curve, fixed_velocity, ..self.settings },
                ..self
            },
            MessageView::SetAftertouch { mode, threshold } => SurfaceView {
                settings: Settings { aftertouch_mode: mode, aftertouch_threshold: threshold, ..self.settings },
                ..self
            },
            _ => self,
        }
    }

    /// The state after every message of a run, applied in order.
    pub open spec fn applied_all(self, messages: Seq<MessageView>) -> SurfaceView
        decreases messages.len(),
    {
        if messages.len() == 0 {
            self
        } else {
            self.applied_all(messages.drop_last()).applied(messages.last())
        }
    }

    /// The state after a running scroll has moved on for `millis` milliseconds.
    ///
    /// Once the text has left the surface the scroll starts over when it loops, and ends otherwise.
    pub open spec fn advanced(self, millis: u32) -> SurfaceView {
        match self.scroll {
            None => self,
            Some(scroll) => {
                let offset = self.offset + scroll.speed * millis;
                let text = (self.columns.len() * 1000) as int;
                let start = -(self.width * 1000);
                let gone = if scroll.speed < 0 { offset <= start } else { offset >= text };
                if !gone {
                    SurfaceView { offset, ..self }
                } else if scroll.looping {
                    SurfaceView { offset: if scroll.speed < 0 { text } else { start }, ..self }
                } else {
                    SurfaceView { scroll: None, columns: Seq::empty(), offset, ..self }
                }
            },
        }
    }

    /// How a pad appears before brightness scales it: unlit while the LEDs are switched off, the
    /// colour of a running scroll where it covers the pad, and otherwise the pad's own lighting.
    pub open spec fn appearance(self, pad: Pad) -> Lighting {
        if self.asleep {
            unlit()
        } else {
            match self.scroll_color(pad) {
                Some(color) => Lighting::Static(color),
                None => self.lighting(pad),
            }
        }
    }

    /// The colour a running scroll paints a pad, or `None` where it leaves the pad alone.
    ///
    /// A scroll covers the eight rows below the top one, across the surface's width.
    pub open spec fn scroll_color(self, pad: Pad) -> Option<Rgb> {
        match self.scroll {
            None => None,
            Some(scroll) => if pad.y == 0 || pad.y > 8 || pad.x >= self.width {
                None
            } else {
                let column = self.offset / 1000 + pad.x;
                let on = 0 <= column < self.columns.len()
                    && ((self.columns[column] >> ((pad.y - 1) as u8)) & 1u8) == 1u8;
                Some(if on { scroll.color } else { black() })
            },
        }
    }
}

/// The state of a freshly made surface of the given size.
pub open spec fn fresh(width: u8, height: u8) -> SurfaceView {
    SurfaceView {
        width,
        height,
        leds: Seq::new((width * height) as nat, |i: int| unlit()),
        brightness: MAX_BRIGHTNESS,
        asleep: false,
        programmer_mode: false,
        scroll: None,
        columns: Seq::empty(),
        offset: 0,
        settings: power_on_settings(),
    }
}

/// The floor of a scroll position in whole columns.
fn whole_columns(offset: i128) -> (column: i128)
    requires
        -0x1_0000_0000_0000_0000_0000_0000 < offset < 0x1_0000_0000_0000_0000_0000_0000,
    ensures
        column == offset / 1000,
{
    if offset >= 0 {
        offset / 1000
    } else {
        let up = (999 - offset) / 1000;
        proof {
            let o = offset as int;
            let q = (999 - o) / 1000;
            assert(-q == o / 1000) by (nonlinear_arith)
                requires
                    o < 0,
                    q == (999 - o) / 1000,
            ;
        }
        -up
    }
}

impl Surface {
    /// Creates an unlit surface for a device.
    pub fn new<S: DeviceSpec>() -> (surface: Self)
        ensures
            surface@ == fresh(S::width(), S::height()),
            surface@.wf(),
    {
        proof {
            S::lemma_size();
        }
        Self::with_size(S::WIDTH, S::HEIGHT)
    }

    /// Creates an unlit surface of the given size.
    pub fn with_size(width: u8, height: u8) -> (surface: Self)
        ensures
            surface@ == fresh(width, height),
            surface@.wf(),
    {
        assert(width * height <= 255 * 255) by (nonlinear_arith)
            requires
                width <= 255,
                height <= 255,
        ;
        let count = width as usize * height as usize;
        let mut leds: Vec<Lighting> = Vec::new();
        while leds.len() < count
            invariant
                count == width * height,
                leds.len() <= count,
                forall|i: int| 0 <= i < leds.len() ==> leds@[i] == unlit(),
            decreases count - leds.len(),
        {
            leds.push(Lighting::default());
        }
        let surface = Self {
            width,
            height,
            leds,
            brightness: MAX_BRIGHTNESS,
            asleep: false,
            programmer_mode: false,
            scroll: None,
            scroll_columns: Vec::new(),
            scroll_offset: 0,
            settings: Settings::default(),
        };
        assert(surface@.leds =~= fresh(width, height).leds);
        assert(surface@.columns =~= Seq::<u8>::empty());
        surface
    }

    /// Surface width in pads.
    pub fn width(&self) -> (width: u8)
        ensures
            width == self@.width,
    {
        self.width
    }

    /// Surface height in pads.
    pub fn height(&self) -> (height: u8)
        ensures
            height == self@.height,
    {
        self.height
    }

    /// Every pad of this surface, in row-major order.
    pub fn pads(&self) -> (pads: Vec<Pad>)
        ensures
            pads@ == row_major(self@.width, self@.height),
    {
        Pad::all(self.width, self.height)
    }

    /// Row-major index of a pad, or `None` when it lies off the surface.
    fn index(&self, pad: Pad) -> (index: Option<usize>)
        requires
            self@.wf(),
        ensures
            match index {
                Some(i) => self@.index(pad) == Some(i as int) && i < self@.leds.len(),
                None => self@.index(pad) is None,
            },
    {
        if pad.x < self.width && pad.y < self.height {
            proof {
                let (x, y, w, h) = (pad.x as int, pad.y as int, self.width as int, self.height as int);
                assert(y * w + x < w * h) by (nonlinear_arith)
                    requires
                        0 <= x < w,
                        0 <= y < h,
                ;
                assert(w * h <= 255 * 255) by (nonlinear_arith)
                    requires
                        0 <= w <= 255,
                        0 <= h <= 255,
                ;
            }
            Some(pad.y as usize * self.width as usize + pad.x as usize)
        } else {
            None
        }
    }

    /// How a pad is currently lit, ignoring brightness, sleep and any scroll.
    pub fn lighting(&self, pad: Pad) -> (lighting: Lighting)
        requires
            self@.wf(),
        ensures
            lighting == self@.lighting(pad),
    {
        match self.index(pad) {
            Some(i) => self.leds[i],
            None => Lighting::default(),
        }
    }

    /// Overall LED brightness, from 0 to [`MAX_BRIGHTNESS`].
    pub fn brightness(&self) -> (level: u8)
        ensures
            level == self@.brightness,
    {
        self.brightness
    }

    /// Whether the LEDs have been switched off.
    pub fn is_asleep(&self) -> (asleep: bool)
        ensures
            asleep == self@.asleep,
    {
        self.asleep
    }

    /// Whether the host has put the surface into Programmer mode.
    pub fn is_programmer_mode(&self) -> (on: bool)
        ensures
            on == self@.programmer_mode,
    {
        self.programmer_mode
    }

    /// Settings the host has changed, which it can also read back.
    pub fn settings(&self) -> (settings: Settings)
        ensures
            settings == self@.settings,
    {
        self.settings
    }

    /// The running text scroll, if any.
    pub fn scroll(&self) -> (scroll: Option<&TextScroll>)
        ensures
            match scroll {
                Some(s) => self@.scroll == Some(s@),
                None => self@.scroll is None,
            },
    {
        self.scroll.as_ref()
    }

    /// Unlights every pad.
    pub fn clear(&mut self)
        requires
            old(self)@.wf(),
        ensures
            final(self)@ == (SurfaceView {
                leds: Seq::new(old(self)@.leds.len(), |i: int| unlit()),
                ..old(self)@
            }),
            final(self)@.wf(),
    {
        let mut i: usize = 0;
        while i < self.leds.len()
            invariant
                i <= self.leds.len(),
                self.leds.len() == old(self).leds.len(),
                forall|j: int| 0 <= j < i ==> self.leds@[j] == unlit(),
                self@ == (SurfaceView { leds: self@.leds, ..old(self)@ }),
            decreases self.leds.len() - i,
        {
            self.leds.set(i, Lighting::default());
            i += 1;
        }
        assert(self@.leds =~= Seq::new(old(self)@.leds.len(), |i: int| unlit()));
    }

    /// Applies a message from the host.
    pub fn apply(&mut self, message: &HostMessage)
        requires
            old(self)@.wf(),
        ensures
            final(self)@ == old(self)@.applied(message@),
            final(self)@.wf(),
    {
        match message {
            HostMessage::Lighting { pad, lighting } => {
                if let Some(i) = self.index(*pad) {
                    self.leds.set(i, *lighting);
                }
            },
            HostMessage::Brightness(level) => {
                self.brightness = if *level < MAX_BRIGHTNESS { *level } else { MAX_BRIGHTNESS };
            },
            HostMessage::Sleep(asleep) => self.asleep = *asleep,
            HostMessage::ProgrammerMode(on) => self.programmer_mode = *on,
            HostMessage::StartScroll(scroll) => self.start_scroll(scroll.clone()),
            HostMessage::StopScroll => self.scroll = None,
            HostMessage::SetVelocityCurve { curve, fixed_velocity } => {
                self.settings.velocity_curve = *curve;
                self.settings.fixed_velocity = *fixed_velocity;
            },
            HostMessage::SetAftertouch { mode, threshold } => {
                self.settings.aftertouch_mode = *mode;
                self.settings.aftertouch_threshold = *threshold;
            },
            HostMessage::Query(_) | HostMessage::Clock | HostMessage::Unrecognised(_) => {},
        }
    }

    /// Begins a scroll, placing the text just off the edge it enters from.
    fn start_scroll(&mut self, scroll: TextScroll)
        requires
            old(self)@.wf(),
        ensures
            final(self)@ == old(self)@.applied(MessageView::StartScroll(scroll@)),
            final(self)@.wf(),
    {
        let columns = font::columns(&scroll.text);
        self.scroll_offset = if scroll.speed < 0 {
            columns.len() as i128 * 1000
        } else {
            -(self.width as i128 * 1000)
        };
        self.scroll_columns = columns;
        self.scroll = Some(scroll);
    }

    /// Moves a running scroll on by `millis` milliseconds, ending or looping it once the text has
    /// left.
    ///
    /// Speed is in pads per second, negative when the text travels left to right.
    pub fn advance(&mut self, millis: u32)
        requires
            old(self)@.wf(),
        ensures
            final(self)@ == old(self)@.advanced(millis),
            final(self)@.wf(),
    {
        let (speed, looping) = match self.scroll.as_ref() {
            Some(scroll) => (scroll.speed, scroll.looping),
            None => return,
        };
        proof {
            let (s, m) = (speed as int, millis as int);
            assert(-128 * 0x1_0000_0000 <= s * m <= 128 * 0x1_0000_0000) by (nonlinear_arith)
                requires
                    -128 <= s <= 127,
                    0 <= m < 0x1_0000_0000,
            ;
            assert(s >= 0 ==> s * m >= 0) by (nonlinear_arith)
                requires
                    0 <= m,
            ;
            assert(s < 0 ==> s * m <= 0) by (nonlinear_arith)
                requires
                    0 <= m,
            ;
        }
        let travel = speed as i128 * millis as i128;
        let count = self.scroll_columns.len();
        let text = count as i128 * 1000;
        let start = -(self.width as i128 * 1000);
        self.scroll_offset = self.scroll_offset + travel;

        let gone = if speed < 0 {
            self.scroll_offset <= start
        } else {
            self.scroll_offset >= text
        };
        if gone {
            if looping {
                self.scroll_offset = if speed < 0 { text } else { start };
            } else {
                self.scroll = None;
                self.scroll_columns.clear();
            }
        }
    }

    /// How a pad appears before brightness scales it: unlit while the LEDs are switched off, the
    /// colour of a running scroll where it covers the pad, and otherwise the pad's own lighting.
    pub fn appearance(&self, pad: Pad) -> (shown: Lighting)
        requires
            self@.wf(),
        ensures
            shown == self@.appearance(pad),
    {
        if self.asleep {
            return Lighting::default();
        }
        match self.scroll_color(pad) {
            Some(color) => Lighting::Static(color),
            None => self.lighting(pad),
        }
    }

    /// The colour the running scroll paints a pad, if it covers it.
    ///
    /// The top row and anything past the grid are left alone, as on the hardware.
    pub fn scroll_color(&self, pad: Pad) -> (color: Option<Rgb>)
        requires
            self@.wf(),
        ensures
            color == self@.scroll_color(pad),
    {
        let scroll = match self.scroll.as_ref() {
            Some(scroll) => scroll,
            None => return None,
        };
        if pad.y == 0 || pad.y as usize > font::HEIGHT || pad.x >= self.width {
            return None;
        }
        let count = self.scroll_columns.len();
        let column = whole_columns(self.scroll_offset) + pad.x as i128;
        let lit = column >= 0 && column < count as i128
            && (self.scroll_columns[column as usize] >> (pad.y - 1)) & 1 == 1;
        Some(if lit { scroll.color } else { Rgb::black() })
    }
}

/// Sleep hides every pad, and waking shows the lighting again exactly as it was.
pub proof fn lemma_sleep_hides_and_waking_shows(surface: SurfaceView, pad: Pad)
    ensures
        surface.applied(MessageView::Sleep(true)).appearance(pad) == unlit(),
        surface.applied(MessageView::Sleep(true)).applied(MessageView::Sleep(false)).appearance(pad)
            == (SurfaceView { asleep: false, ..surface }).appearance(pad),
{
}

/// A fresh surface is well formed and every pad of it is unlit.
pub proof fn lemma_fresh_is_unlit(width: u8, height: u8, pad: Pad)
    ensures
        fresh(width, height).wf(),
        fresh(width, height).lighting(pad) == unlit(),
        fresh(width, height).scroll_color(pad) is None,
{
    if pad.x < width && pad.y < height {
        let (x, y, w, h) = (pad.x as int, pad.y as int, width as int, height as int);
        assert(0 <= y * w + x < w * h) by (nonlinear_arith)
            requires
                0 <= x < w,
                0 <= y < h,
        ;
    }
}

/// Every message keeps a surface well formed, and so does time passing.
pub proof fn lemma_wf_is_kept(surface: SurfaceView, message: MessageView, millis: u32)
    requires
        surface.wf(),
    ensures
        surface.applied(message).wf(),
        surface.advanced(millis).wf(),
{
    let (s, m) = (surface.scroll, millis as int);
    if let MessageView::Lighting { pad, lighting } = message {
        if pad.x < surface.width && pad.y < surface.height {
            let (x, y, w, h) = (pad.x as int, pad.y as int, surface.width as int, surface.height as int);
            assert(0 <= y * w + x < w * h) by (nonlinear_arith)
                requires
                    0 <= x < w,
                    0 <= y < h,
            ;
        }
    }
    if let Some(scroll) = s {
        let sp = scroll.speed as int;
        assert(sp >= 0 ==> sp * m >= 0) by (nonlinear_arith)
            requires
                0 <= m,
        ;
        assert(sp < 0 ==> sp * m <= 0) by (nonlinear_arith)
            requires
                0 <= m,
        ;
    }
}

/// A pad that was lit reads back the lighting it was given, and no other pad changes.
pub proof fn lemma_lighting_is_remembered(surface: SurfaceView, pad: Pad, lighting: Lighting, other: Pad)
    requires
        surface.wf(),
        pad.x < surface.width,
        pad.y < surface.height,
    ensures
        surface.applied(MessageView::Lighting { pad, lighting }).lighting(pad) == lighting,
        other != pad ==> surface.applied(MessageView::Lighting { pad, lighting }).lighting(other)
            == surface.lighting(other),
{
    let (w, h) = (surface.width as int, surface.height as int);
    let (x, y) = (pad.x as int, pad.y as int);
    assert(0 <= y * w + x < w * h) by (nonlinear_arith)
        requires
            0 <= x < w,
            0 <= y < h,
    ;
    if other != pad && other.x < surface.width && other.y < surface.height {
        let (ox, oy) = (other.x as int, other.y as int);
        assert(0 <= oy * w + ox < w * h) by (nonlinear_arith)
            requires
                0 <= ox < w,
                0 <= oy < h,
        ;
        assert(oy * w + ox != y * w + x) by (nonlinear_arith)
            requires
                0 <= ox < w,
                0 <= x < w,
                ox != x || oy != y,
        ;
    }
}

/// Lighting a pad off the surface changes nothing.
pub proof fn lemma_off_surface_is_ignored(surface: SurfaceView, pad: Pad, lighting: Lighting)
    requires
        pad.x >= surface.width || pad.y >= surface.height,
    ensures
        surface.applied(MessageView::Lighting { pad, lighting }) == surface,
{
}

/// Sleep hides lit pads without forgetting them: waking restores everything as it was.
pub proof fn lemma_sleep_forgets_nothing(surface: SurfaceView)
    requires
        !surface.asleep,
    ensures
        surface.applied(MessageView::Sleep(true)).asleep,
        surface.applied(MessageView::Sleep(true)).leds == surface.leds,
        surface.applied(MessageView::Sleep(true)).applied(MessageView::Sleep(false)) == surface,
{
}

/// Brightness never exceeds the maximum, and any level up to it is taken as given.
pub proof fn lemma_brightness_is_clamped(surface: SurfaceView, level: u8)
    ensures
        surface.applied(MessageView::Brightness(level)).brightness <= MAX_BRIGHTNESS,
        level <= MAX_BRIGHTNESS ==> surface.applied(MessageView::Brightness(level)).brightness == level,
{
}

/// Scrolls never touch the lighting underneath: starting, stopping or moving one leaves every pad's
/// lighting as it was, so stopping a scroll reveals what was under it.
pub proof fn lemma_scrolls_keep_the_lighting(surface: SurfaceView, scroll: ScrollView, millis: u32)
    ensures
        surface.applied(MessageView::StartScroll(scroll)).leds == surface.leds,
        surface.applied(MessageView::StopScroll).leds == surface.leds,
        surface.applied(MessageView::StopScroll).scroll is None,
        surface.advanced(millis).leds == surface.leds,
{
}

/// A looping scroll never ends of its own accord.
pub proof fn lemma_looping_scroll_keeps_going(surface: SurfaceView, millis: u32)
    requires
        surface.scroll matches Some(scroll) && scroll.looping,
    ensures
        surface.advanced(millis).scroll == surface.scroll,
{
}

/// A scroll that does not loop ends once its text has travelled off the surface, and gives the
/// LEDs back.
pub proof fn lemma_scroll_ends(surface: SurfaceView, millis: u32)
    requires
        surface.scroll matches Some(scroll) && !scroll.looping && (if scroll.speed < 0 {
            surface.offset + scroll.speed * millis <= -(surface.width * 1000)
        } else {
            surface.offset + scroll.speed * millis >= surface.columns.len() * 1000
        }),
    ensures
        surface.advanced(millis).scroll is None,
        surface.advanced(millis).leds == surface.leds,
{
}

/// A scroll covers neither the top row nor anything past the surface's width.
pub proof fn lemma_scroll_spares_the_top_row(surface: SurfaceView, pad: Pad)
    requires
        pad.y == 0 || pad.y > 8 || pad.x >= surface.width,
    ensures
        surface.scroll_color(pad) is None,
{
}

/// A scroll starts just off the edge it enters from: `width` columns to the right of the surface
/// for a speed of 0 or more, or just past the end of its text for a negative speed, so the text
/// enters from the right or from the left.
pub proof fn lemma_scroll_starts_off_the_surface(surface: SurfaceView, scroll: ScrollView)
    ensures
        ({
            let started = surface.applied(MessageView::StartScroll(scroll));
            &&& started.scroll == Some(scroll)
            &&& started.columns == font::text_columns(scroll.text)
            &&& started.offset == if scroll.speed < 0 {
                (font::text_columns(scroll.text).len() * 1000) as int
            } else {
                -(surface.width * 1000)
            }
        }),
{
}

/// A running scroll moves `speed` thousandths of a column every millisecond while its text is
/// still on its way across; once the text has left, a looping scroll starts over just off the edge
/// it entered from, exactly where the same scroll started afresh would stand.
pub proof fn lemma_scroll_motion(surface: SurfaceView, millis: u32)
    requires
        surface.scroll is Some,
    ensures
        ({
            let scroll = surface.scroll.unwrap();
            let moved = surface.offset + scroll.speed * millis;
            let text_end = surface.columns.len() * 1000;
            let entry = -(surface.width * 1000);
            let next = surface.advanced(millis);
            &&& (if scroll.speed < 0 { moved > entry } else { moved < text_end }) ==> next.offset == moved
                && next.scroll == surface.scroll && next.columns == surface.columns
            &&& scroll.looping && scroll.speed >= 0 && moved >= text_end ==> next.offset == entry
                && next.scroll == surface.scroll && next.columns == surface.columns
            &&& scroll.looping && scroll.speed < 0 && moved <= entry ==> next.offset == text_end
                && next.scroll == surface.scroll && next.columns == surface.columns
            &&& scroll.looping && surface.columns == font::text_columns(scroll.text) && (if scroll.speed < 0 {
                moved <= entry
            } else {
                moved >= text_end
            }) ==> next.offset == surface.applied(MessageView::StartScroll(scroll)).offset
        }),
{
}

/// A scroll shows its text the right way up: where the text's character `byte` stands, a pad on
/// the row below the top shows the glyph's top row, and each row further down the glyph's next;
/// a pad is painted the scroll's colour exactly where the glyph has a pixel, and black elsewhere.
pub proof fn lemma_scroll_draws_the_glyph(
    surface: SurfaceView,
    pad: Pad,
    before: Seq<u8>,
    byte: u8,
    after: Seq<u8>,
    column: int,
)
    requires
        surface.scroll is Some,
        surface.columns == font::text_columns(before + seq![byte] + after),
        font::glyph_of(byte) is Some,
        0 <= column < 5,
        1 <= pad.y <= 8,
        pad.x < surface.width,
        surface.offset / 1000 + pad.x == font::text_columns(before).len() + column,
    ensures
        surface.scroll_color(pad) == Some(
            if font::lit(font::glyph_of(byte).unwrap(), column as usize, (pad.y - 1) as usize) {
                surface.scroll.unwrap().color
            } else {
                black()
            },
        ),
{
    font::lemma_character_columns(before, byte, after, column);
    font::lemma_columns_are_read_top_down(byte, column as usize, (pad.y - 1) as u8);
}

} // verus!
