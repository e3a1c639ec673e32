use launchpad_emulator::color::Rgb;
use launchpad_emulator::devices::LaunchpadX;
use launchpad_emulator::surface::Settings;
use launchpad_emulator::{HostMessage, Lighting, Pad, Surface, TextScroll, MAX_BRIGHTNESS};

const RED: Rgb = Rgb { r: 255, g: 0, b: 0 };
const PAD: Pad = Pad { x: 3, y: 4 };

fn lit() -> Surface {
    let mut surface = Surface::new::<LaunchpadX>();
    surface.apply(&HostMessage::Lighting {
        pad: PAD,
        lighting: Lighting::Static(RED),
    });
    surface
}

fn scrolling(text: &[u8], speed: i8, looping: bool) -> Surface {
    let mut surface = Surface::new::<LaunchpadX>();
    surface.apply(&HostMessage::StartScroll(TextScroll {
        looping,
        speed,
        color: RED,
        text: text.to_vec(),
    }));
    surface
}

/// The columns of the scroll region the text lights as it stands now
fn lit_columns(surface: &Surface) -> Vec<u8> {
    (0..surface.width())
        .filter(|x| (1..9).any(|y| surface.scroll_color(Pad::new(*x, y)) == Some(RED)))
        .collect()
}

#[test]
fn a_new_surface_is_unlit_and_sized() {
    let surface = Surface::new::<LaunchpadX>();
    assert_eq!((surface.width(), surface.height()), (9, 9));
    assert_eq!(surface.pads().len(), 81);
    assert!(surface
        .pads()
        .iter()
        .all(|p| surface.lighting(*p) == Lighting::Static(Rgb::black())));
    assert_eq!(surface.brightness(), MAX_BRIGHTNESS);
    assert!(!surface.is_asleep());
    assert!(!surface.is_programmer_mode());
    assert!(surface.scroll().is_none());
    assert_eq!(
        surface.settings(),
        Settings {
            velocity_curve: 1,
            fixed_velocity: 127,
            aftertouch_mode: 0,
            aftertouch_threshold: 1
        }
    );
}

#[test]
fn a_lit_pad_reads_back_and_no_other_changes() {
    let surface = lit();
    assert_eq!(surface.lighting(PAD), Lighting::Static(RED));
    assert_eq!(surface.lighting(Pad::new(4, 3)), Lighting::default());
}

#[test]
fn sleep_keeps_the_lighting() {
    let mut surface = lit();
    surface.apply(&HostMessage::Sleep(true));
    assert!(surface.is_asleep());
    assert_eq!(surface.lighting(PAD), Lighting::Static(RED));
    surface.apply(&HostMessage::Sleep(false));
    assert!(!surface.is_asleep());
    assert_eq!(surface.lighting(PAD), Lighting::Static(RED));
}

#[test]
fn brightness_is_clamped() {
    let mut surface = lit();
    surface.apply(&HostMessage::Brightness(64));
    assert_eq!(surface.brightness(), 64);
    surface.apply(&HostMessage::Brightness(200));
    assert_eq!(surface.brightness(), MAX_BRIGHTNESS);
}

#[test]
fn surface_pads_off_the_surface_are_ignored() {
    let mut surface = Surface::new::<LaunchpadX>();
    let before = surface.clone();
    surface.apply(&HostMessage::Lighting {
        pad: Pad::new(50, 50),
        lighting: Lighting::Static(RED),
    });
    assert_eq!(surface.lighting(Pad::new(50, 50)), Lighting::default());
    assert_eq!(surface, before);
}

#[test]
fn clearing_unlights_every_pad_and_keeps_the_rest() {
    let mut surface = lit();
    surface.apply(&HostMessage::Brightness(10));
    surface.clear();
    assert_eq!(surface.lighting(PAD), Lighting::default());
    assert_eq!(surface.brightness(), 10);
}

#[test]
fn settings_are_kept_for_the_host_to_read_back() {
    let mut surface = Surface::with_size(2, 3);
    surface.apply(&HostMessage::SetVelocityCurve { curve: 3, fixed_velocity: 90 });
    surface.apply(&HostMessage::SetAftertouch { mode: 1, threshold: 20 });
    surface.apply(&HostMessage::ProgrammerMode(true));
    assert_eq!(
        surface.settings(),
        Settings {
            velocity_curve: 3,
            fixed_velocity: 90,
            aftertouch_mode: 1,
            aftertouch_threshold: 20
        }
    );
    assert!(surface.is_programmer_mode());
    assert_eq!(surface.pads().len(), 6);
}

#[test]
fn a_scroll_enters_from_the_right_and_leaves_at_the_left() {
    let mut surface = scrolling(b"A", 9, false);
    assert!(lit_columns(&surface).is_empty(), "starts off the surface");
    // Two pads' worth of travel, so only the leading columns have arrived
    surface.advance(200);
    let entered = lit_columns(&surface);
    assert!(!entered.is_empty(), "the text has started to appear");
    assert!(
        entered.iter().all(|x| *x >= 6),
        "it enters at the right edge, got {entered:?}"
    );
}

#[test]
fn a_scroll_covers_the_grid_but_not_the_top_row_or_beyond() {
    let mut surface = scrolling(b"HELLO", 9, true);
    surface.apply(&HostMessage::Lighting {
        pad: Pad::new(0, 0),
        lighting: Lighting::Static(RED),
    });
    surface.advance(500);
    assert_eq!(surface.scroll_color(Pad::new(0, 0)), None, "the top row keeps its own colour");
    assert_eq!(surface.scroll_color(Pad::new(9, 4)), None);
    assert!(surface.scroll_color(Pad::new(0, 4)).is_some());
}

#[test]
fn a_scroll_that_does_not_loop_ends_and_gives_the_leds_back() {
    let mut surface = scrolling(b"A", 9, false);
    surface.apply(&HostMessage::Lighting {
        pad: Pad::new(0, 4),
        lighting: Lighting::Static(RED),
    });
    surface.advance(10_000);
    assert!(surface.scroll().is_none(), "the scroll should have finished");
    assert_eq!(surface.scroll_color(Pad::new(0, 4)), None);
    assert_eq!(surface.lighting(Pad::new(0, 4)), Lighting::Static(RED));
}

#[test]
fn a_looping_scroll_keeps_going() {
    let mut surface = scrolling(b"A", 9, true);
    surface.advance(60_000);
    assert!(surface.scroll().is_some());
}

#[test]
fn a_negative_speed_scrolls_the_other_way() {
    let mut surface = scrolling(b"A", -9, false);
    surface.advance(200);
    let entered = lit_columns(&surface);
    assert!(!entered.is_empty());
    assert!(
        entered.iter().all(|x| *x <= 2),
        "it enters at the left edge, got {entered:?}"
    );
}

#[test]
fn stopping_a_scroll_reveals_what_was_under_it() {
    let mut surface = scrolling(b"HELLO", 9, true);
    surface.apply(&HostMessage::Lighting {
        pad: Pad::new(3, 4),
        lighting: Lighting::Static(RED),
    });
    surface.advance(500);
    surface.apply(&HostMessage::StopScroll);
    assert_eq!(surface.scroll_color(Pad::new(3, 4)), None);
    assert_eq!(surface.lighting(Pad::new(3, 4)), Lighting::Static(RED));
}

#[test]
fn a_covered_pad_the_text_misses_shows_black() {
    let surface = scrolling(b"A", 9, false);
    assert_eq!(surface.scroll_color(Pad::new(4, 4)), Some(Rgb::black()));
}

#[test]
fn sleep_hides_every_pad_and_waking_shows_it_again() {
    let mut surface = lit();
    assert_eq!(surface.appearance(PAD), Lighting::Static(RED));
    surface.apply(&HostMessage::Sleep(true));
    assert_eq!(surface.appearance(PAD), Lighting::default());
    surface.apply(&HostMessage::Sleep(false));
    assert_eq!(surface.appearance(PAD), Lighting::Static(RED));
}

#[test]
fn a_scroll_shows_over_what_it_covers() {
    let mut surface = scrolling(b"A", 9, false);
    surface.apply(&HostMessage::Lighting { pad: Pad::new(0, 4), lighting: Lighting::Static(RED) });
    surface.advance(1000);
    let covered = surface.scroll_color(Pad::new(0, 4)).map(Lighting::Static);
    assert_eq!(Some(surface.appearance(Pad::new(0, 4))), covered);
    assert_eq!(surface.appearance(Pad::new(0, 0)), Lighting::default());
}
