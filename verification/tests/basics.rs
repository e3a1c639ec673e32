use launchpad_emulator::color::Rgb;
use launchpad_emulator::pad::Pad;
use launchpad_emulator::role::PadRole;

#[test]
fn all_walks_the_surface_in_row_major_order() {
    let pads: Vec<Pad> = Pad::all(3, 2);
    assert_eq!(pads.len(), 6);
    assert_eq!(pads[0], Pad::new(0, 0));
    assert_eq!(pads[2], Pad::new(2, 0));
    assert_eq!(pads[3], Pad::new(0, 1));
}

#[test]
fn an_empty_surface_has_no_pads() {
    assert!(Pad::all(0, 9).is_empty());
    assert!(Pad::all(9, 0).is_empty());
    assert_eq!(Pad::all(9, 9).len(), 81);
    assert_eq!(Pad::all(9, 9)[80], Pad::new(8, 8));
}

#[test]
fn seven_bit_channels_widen_to_the_full_range() {
    assert_eq!(
        Rgb::from_midi(&[127, 0, 0]),
        Some(Rgb { r: 255, g: 0, b: 0 })
    );
    assert_eq!(Rgb::from_midi(&[0, 0, 0]), Some(Rgb::black()));
}

#[test]
fn channels_survive_a_round_trip_to_the_wire() {
    for channel in [0u8, 1, 63, 64, 126, 127] {
        let color = Rgb::from_midi(&[channel, channel, channel]).unwrap_or(Rgb::black());
        assert_eq!(
            color.to_midi(),
            [channel, channel, channel],
            "for {channel}"
        );
    }
}

#[test]
fn out_of_range_channels_are_rejected() {
    assert!(Rgb::from_midi(&[128, 0, 0]).is_none());
    assert!(Rgb::from_midi(&[0, 0]).is_none());
    assert!(Rgb::from_midi(&[0, 0, 0, 0]).is_none());
}

#[test]
fn widening_sets_the_low_bit_from_the_top_bit() {
    assert_eq!(Rgb::from_midi(&[63, 64, 1]), Some(Rgb { r: 126, g: 129, b: 2 }));
    assert_eq!(Rgb { r: 255, g: 128, b: 3 }.to_midi(), [127, 64, 1]);
    assert_eq!(Rgb::default(), Rgb::black());
}

#[test]
fn only_grid_and_control_report_presses() {
    assert!(PadRole::Grid.is_button());
    assert!(PadRole::Control.is_button());
    assert!(!PadRole::Logo.is_button());
    assert!(!PadRole::Absent.is_button());
}

#[test]
fn everything_present_lights_up() {
    assert!(PadRole::Logo.is_lit());
    assert!(PadRole::Grid.is_lit());
    assert!(!PadRole::Absent.is_lit());
}
