use launchpad_emulator::devices::{LaunchpadMiniMk3, LaunchpadX};
use launchpad_emulator::text::decimal_text;
use launchpad_emulator::ui::widget::ramp;
use launchpad_emulator::ui::{Labels, LaunchpadUi, Layout};
use launchpad_emulator::{Interaction, Pad, PadRole};

#[test]
fn a_device_layout_matches_its_surface() {
    let layout = Layout::for_device::<LaunchpadX>();
    assert_eq!((layout.width(), layout.height()), (9, 9));
    assert_eq!(layout.pads().len(), 81);
    assert_eq!(layout.role(Pad::new(8, 0)), PadRole::Logo);
    assert_eq!(layout.role(Pad::new(0, 0)), PadRole::Control);
    assert_eq!(layout.role(Pad::new(0, 1)), PadRole::Grid);
    assert_eq!(layout.role(Pad::new(20, 20)), PadRole::Absent);
}

#[test]
fn the_aftertouch_ramp_spans_the_full_range() {
    assert_eq!(ramp(0), 0);
    assert_eq!(ramp(500), 64);
    assert_eq!(ramp(1000), 127);
    assert_eq!(ramp(10_000), 127);
}

#[test]
fn defaults_name_the_controls_and_number_the_grid() {
    let labels = Labels::defaults::<LaunchpadX>();
    assert_eq!(labels.get(Pad::new(0, 0)), Some("Up"));
    assert_eq!(labels.get(Pad::new(7, 0)), Some("Capture MIDI"));
    assert_eq!(labels.get(Pad::new(8, 0)), Some("Logo"));
    assert_eq!(labels.get(Pad::new(8, 1)), Some("Scene Launch 1"));
    assert_eq!(labels.get(Pad::new(8, 8)), Some("Scene Launch 8"));
    assert_eq!(
        labels.get(Pad::new(0, 1)),
        Some("Grid 0,0"),
        "the first grid pad reads as the origin of the grid"
    );
    assert_eq!(labels.get(Pad::new(3, 4)), Some("Grid 3,3"));
    assert_eq!(labels.get(Pad::new(7, 8)), Some("Grid 7,7"));
    assert_eq!(labels.len(), 81, "every pad of the surface is named");
}

#[test]
fn the_mini_labels_its_own_buttons() {
    let labels = Labels::defaults::<LaunchpadMiniMk3>();
    assert_eq!(labels.get(Pad::new(5, 0)), Some("Drums"));
    assert_eq!(labels.get(Pad::new(9, 0)), None);
    assert_eq!(labels.len(), 81);
}

#[test]
fn none_labels_nothing() {
    let labels = Labels::none();
    assert!(labels.is_empty());
    assert_eq!(labels.get(Pad::new(0, 0)), None);
}

#[test]
fn later_layers_win() {
    let base = Labels::defaults::<LaunchpadX>();
    let labels = base
        .clone()
        .with(Pad::new(0, 0), "first")
        .with(Pad::new(0, 0), "second");
    assert_eq!(labels.get(Pad::new(0, 0)), Some("second"));

    let overlaid = base.overlay(Labels::none().with(Pad::new(0, 0), "mine"));
    assert_eq!(overlaid.get(Pad::new(0, 0)), Some("mine"));
    assert_eq!(
        overlaid.get(Pad::new(1, 0)),
        Some("Down"),
        "pads the overlay leaves alone keep their default"
    );
}

#[test]
fn with_all_and_without_edit_several_at_once() {
    let labels = Labels::none()
        .with_all(&[(Pad::new(0, 0), "a"), (Pad::new(1, 0), "b")])
        .without(Pad::new(0, 0));
    assert_eq!(labels.get(Pad::new(0, 0)), None);
    assert_eq!(labels.get(Pad::new(1, 0)), Some("b"));
    assert_eq!(labels.len(), 1);
}

#[test]
fn with_all_lets_the_last_entry_for_a_pad_win() {
    let labels = Labels::none().with_all(&[(Pad::new(2, 2), "a"), (Pad::new(2, 2), "b")]);
    assert_eq!(labels.get(Pad::new(2, 2)), Some("b"));
    assert_eq!(labels.len(), 1);
    assert_eq!(labels.clone().without(Pad::new(5, 5)), labels);
}

#[test]
fn numbers_are_written_in_decimal() {
    assert_eq!(decimal_text(0), "0");
    assert_eq!(decimal_text(7), "7");
    assert_eq!(decimal_text(42), "42");
    assert_eq!(decimal_text(100), "100");
    assert_eq!(decimal_text(255), "255");
}

#[test]
fn a_widget_starts_unlabelled_and_takes_a_set() {
    let mut widget = LaunchpadUi::new();
    assert!(widget.labels().is_empty());
    widget.set_labels(Labels::defaults::<LaunchpadX>());
    assert_eq!(widget.labels().get(Pad::new(0, 0)), Some("Up"));
}

#[test]
fn velocity_is_clamped_to_a_real_press() {
    let mut widget = LaunchpadUi::new();
    widget.set_velocity(0);
    assert_eq!(widget.velocity(), 1);
    widget.set_velocity(200);
    assert_eq!(widget.velocity(), 127);
}

#[test]
fn pressing_dragging_and_letting_go() {
    let layout = Layout::for_device::<LaunchpadX>();
    let mut widget = LaunchpadUi::new();
    let grid = Pad::new(0, 8);
    assert_eq!(
        widget.interactions(&layout, Some(grid), 0),
        vec![Interaction::Press { pad: grid, velocity: 127 }]
    );
    assert_eq!(widget.held(), Some(grid));
    assert!(widget.interactions(&layout, Some(grid), 0).is_empty(), "holding does not press again");
    assert_eq!(
        widget.interactions(&layout, Some(grid), 500),
        vec![Interaction::Aftertouch { pad: grid, pressure: 64 }]
    );
    let edge = Pad::new(0, 0);
    assert_eq!(
        widget.interactions(&layout, Some(edge), 600),
        vec![Interaction::Release { pad: grid }, Interaction::Press { pad: edge, velocity: 127 }]
    );
    assert!(widget.interactions(&layout, Some(edge), 2000).is_empty(), "buttons have no pressure");
    assert_eq!(
        widget.interactions(&layout, Some(Pad::new(8, 0)), 2100),
        vec![Interaction::Release { pad: edge }],
        "the logo is not a button"
    );
    assert!(widget.interactions(&layout, None, 2200).is_empty());
    assert_eq!(widget.held(), None);
}

#[test]
fn aftertouch_can_be_switched_off() {
    let layout = Layout::for_device::<LaunchpadX>();
    let mut widget = LaunchpadUi::new();
    widget.set_aftertouch_on_hold(false);
    assert!(!widget.aftertouch_on_hold());
    let grid = Pad::new(4, 4);
    widget.interactions(&layout, Some(grid), 0);
    assert!(widget.interactions(&layout, Some(grid), 900).is_empty());
}

#[test]
fn label_sets_with_the_same_labels_are_equal() {
    let one = Labels::none().with(Pad::new(0, 0), "a").with(Pad::new(5, 5), "b");
    let other = Labels::none().with(Pad::new(5, 5), "b").with(Pad::new(0, 0), "a");
    assert_eq!(one, other);
    assert_ne!(one, Labels::none().with(Pad::new(0, 0), "a"));
}

#[test]
fn numbers_follow_the_labels_on_the_surface() {
    let labels = Labels::defaults::<LaunchpadX>()
        .with(Pad::new(20, 20), "off")
        .with_numbers::<LaunchpadX>();
    assert_eq!(labels.get(Pad::new(0, 0)), Some("Up  (91)"));
    assert_eq!(labels.get(Pad::new(8, 0)), Some("Logo  (99)"));
    assert_eq!(labels.get(Pad::new(0, 8)), Some("Grid 0,7  (11)"));
    assert_eq!(labels.get(Pad::new(20, 20)), Some("off"));
    assert_eq!(labels.len(), 82);
}
