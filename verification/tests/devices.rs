use launchpad_emulator::color::Rgb;
use launchpad_emulator::devices::mk3_family::{
    decode, decode_interaction, decode_speed, encode, is_grid, is_logo, pad_from_midi,
    pad_to_midi, role, sysex_header, CMD_BRIGHTNESS, CMD_LED, CMD_MODE, CMD_SLEEP, CMD_TEXT,
    SIZE, SYSEX_END,
};
use launchpad_emulator::devices::{mini_mk3, palette, x, LaunchpadMiniMk3, LaunchpadX};
use launchpad_emulator::{DeviceSpec, HostMessage, Interaction, Lighting, Pad, PadRole, TextScroll};

/// The Launchpad X device ID, used to exercise the shared codec.
const ID: u8 = 0x0C;
const RED: Rgb = Rgb { r: 255, g: 0, b: 0 };

fn sysex(body: &[u8]) -> Vec<u8> {
    let mut bytes = sysex_header(ID).to_vec();
    bytes.extend_from_slice(body);
    bytes.push(SYSEX_END);
    bytes
}

fn palette_color(entry: u8) -> Rgb {
    palette::get(entry).unwrap_or(Rgb::black())
}

#[test]
fn corners_match_the_programmer_layout() {
    assert_eq!(pad_to_midi(Pad::new(0, 0)), Some(91));
    assert_eq!(pad_to_midi(Pad::new(7, 0)), Some(98));
    assert_eq!(pad_to_midi(Pad::new(8, 0)), Some(99));
    assert_eq!(pad_to_midi(Pad::new(0, 8)), Some(11));
    assert_eq!(pad_to_midi(Pad::new(7, 8)), Some(18));
    assert_eq!(pad_to_midi(Pad::new(8, 8)), Some(19));
    assert_eq!(pad_to_midi(Pad::new(0, 1)), Some(81));
}

#[test]
fn midi_numbers_round_trip() {
    for pad in Pad::all(SIZE, SIZE) {
        assert_eq!(pad_from_midi(pad_to_midi(pad).unwrap()), Some(pad));
    }
}

#[test]
fn numbers_and_pads_off_the_surface_are_rejected() {
    for number in [0, 9, 10, 20, 90, 100, 127, 255] {
        assert!(pad_from_midi(number).is_none(), "accepted {number}");
    }
    assert!(pad_to_midi(Pad::new(9, 0)).is_none());
}

#[test]
fn only_the_top_right_corner_is_the_logo() {
    assert!(is_logo(Pad::new(8, 0)));
    assert_eq!(Pad::all(SIZE, SIZE).into_iter().filter(|p| is_logo(*p)).count(), 1);
    assert_eq!(Pad::all(SIZE, SIZE).into_iter().filter(|p| is_grid(*p)).count(), 64);
}

#[test]
fn roles_follow_the_layout() {
    assert_eq!(role(Pad::new(8, 0)), PadRole::Logo);
    assert_eq!(role(Pad::new(0, 0)), PadRole::Control);
    assert_eq!(role(Pad::new(8, 5)), PadRole::Control);
    assert_eq!(role(Pad::new(0, 1)), PadRole::Grid);
    assert_eq!(role(Pad::new(7, 8)), PadRole::Grid);
    assert_eq!(role(Pad::new(9, 3)), PadRole::Absent);
}

#[test]
fn note_and_control_change_light_one_pad_each() {
    assert_eq!(
        decode(ID, &[0x90, 11, 5]),
        vec![HostMessage::Lighting {
            pad: Pad::new(0, 8),
            lighting: Lighting::Static(RED),
        }]
    );
    assert_eq!(
        decode(ID, &[0xB0, 91, 5]),
        vec![HostMessage::Lighting {
            pad: Pad::new(0, 0),
            lighting: Lighting::Static(RED),
        }]
    );
}

#[test]
fn channels_two_and_three_flash_and_pulse() {
    assert_eq!(
        decode(ID, &[0x91, 11, 5]),
        vec![HostMessage::Lighting {
            pad: Pad::new(0, 8),
            lighting: Lighting::Flashing {
                a: RED,
                b: Rgb::black()
            },
        }]
    );
    assert_eq!(
        decode(ID, &[0x92, 11, 5]),
        vec![HostMessage::Lighting {
            pad: Pad::new(0, 8),
            lighting: Lighting::Pulsing(RED),
        }]
    );
}

#[test]
fn channel_four_and_above_are_not_lighting() {
    assert_eq!(
        decode(ID, &[0x93, 11, 5]),
        vec![HostMessage::Unrecognised(vec![0x93, 11, 5])]
    );
}

/// The worked example from the Programmer's Reference Manual.
#[test]
fn manual_lighting_example_decodes() {
    let decoded = decode(ID, &sysex(&[CMD_LED, 0, 11, 13, 1, 12, 21, 23, 2, 13, 37]));
    assert_eq!(
        decoded,
        vec![
            HostMessage::Lighting {
                pad: Pad::new(0, 8),
                lighting: Lighting::Static(palette_color(13)),
            },
            HostMessage::Lighting {
                pad: Pad::new(1, 8),
                lighting: Lighting::Flashing {
                    a: palette_color(23),
                    b: palette_color(21),
                },
            },
            HostMessage::Lighting {
                pad: Pad::new(2, 8),
                lighting: Lighting::Pulsing(palette_color(37)),
            },
        ]
    );
}

#[test]
fn rgb_lighting_spec_widens_to_eight_bits() {
    assert_eq!(
        decode(ID, &sysex(&[CMD_LED, 3, 11, 127, 0, 0])),
        vec![HostMessage::Lighting {
            pad: Pad::new(0, 8),
            lighting: Lighting::Static(RED),
        }]
    );
}

#[test]
fn a_lighting_sysex_can_address_the_whole_surface() {
    let mut body = vec![CMD_LED];
    for pad in Pad::all(SIZE, SIZE) {
        body.extend_from_slice(&[0, pad_to_midi(pad).unwrap(), 5]);
    }
    assert_eq!(decode(ID, &sysex(&body)).len(), 81);
}

#[test]
fn lighting_specs_for_pads_off_the_surface_are_skipped() {
    assert_eq!(
        decode(ID, &sysex(&[CMD_LED, 0, 10, 5, 0, 11, 5])),
        vec![HostMessage::Lighting {
            pad: Pad::new(0, 8),
            lighting: Lighting::Static(RED),
        }]
    );
    assert_eq!(decode(ID, &sysex(&[CMD_LED])), vec![]);
}

#[test]
fn brightness_sleep_and_mode_decode() {
    assert_eq!(
        decode(ID, &sysex(&[CMD_BRIGHTNESS, 64])),
        vec![HostMessage::Brightness(64)]
    );
    assert_eq!(
        decode(ID, &sysex(&[CMD_SLEEP, 0])),
        vec![HostMessage::Sleep(true)]
    );
    assert_eq!(
        decode(ID, &sysex(&[CMD_SLEEP, 1])),
        vec![HostMessage::Sleep(false)]
    );
    assert_eq!(
        decode(ID, &sysex(&[CMD_MODE, 1])),
        vec![HostMessage::ProgrammerMode(true)]
    );
}

#[test]
fn text_scrolls_start_and_stop() {
    assert_eq!(
        decode(ID, &sysex(&[CMD_TEXT])),
        vec![HostMessage::StopScroll]
    );
    assert_eq!(
        decode(ID, &sysex(&[CMD_TEXT, 1, 10, 0, 5, b'H', b'i'])),
        vec![HostMessage::StartScroll(TextScroll {
            looping: true,
            speed: 10,
            color: RED,
            text: b"Hi".to_vec(),
        })]
    );
}

#[test]
fn text_scrolls_take_an_rgb_colour_too() {
    assert_eq!(
        decode(ID, &sysex(&[CMD_TEXT, 0, 0x50, 1, 127, 0, 0, b'A'])),
        vec![HostMessage::StartScroll(TextScroll {
            looping: false,
            speed: -48,
            color: RED,
            text: b"A".to_vec(),
        })]
    );
    assert!(matches!(
        decode(ID, &sysex(&[CMD_TEXT, 1, 10])).as_slice(),
        [HostMessage::Unrecognised(_)]
    ));
}

#[test]
fn high_scroll_speeds_are_negative() {
    assert_eq!(decode_speed(0x00), 0);
    assert_eq!(decode_speed(0x10), 16);
    assert_eq!(decode_speed(0x40), -64);
    assert_eq!(decode_speed(0x7F), -1);
}

#[test]
fn another_devices_sysex_is_not_accepted() {
    let mut bytes = sysex_header(0x0D).to_vec();
    bytes.extend_from_slice(&[CMD_BRIGHTNESS, 64, SYSEX_END]);
    assert!(matches!(
        decode(ID, &bytes).as_slice(),
        [HostMessage::Unrecognised(_)]
    ));
}

#[test]
fn unknown_input_is_reported_rather_than_dropped() {
    for bytes in [vec![0x90, 0x00, 0x00], vec![0xFF], vec![]] {
        assert_eq!(
            decode(ID, &bytes),
            vec![HostMessage::Unrecognised(bytes.clone())],
            "for {bytes:02X?}"
        );
    }
}

#[test]
fn a_truncated_lighting_spec_does_not_partially_apply() {
    assert!(matches!(
        decode(ID, &sysex(&[CMD_LED, 0, 11])).as_slice(),
        [HostMessage::Unrecognised(_)]
    ));
}

#[test]
fn the_clock_is_a_single_byte() {
    assert_eq!(decode(ID, &[0xF8]), vec![HostMessage::Clock]);
    assert_eq!(
        decode(ID, &[0xF8, 0xF8]),
        vec![HostMessage::Unrecognised(vec![0xF8, 0xF8])]
    );
}

#[test]
fn grid_presses_are_notes_and_edges_are_control_changes() {
    assert_eq!(
        encode(Interaction::Press {
            pad: Pad::new(0, 8),
            velocity: 100
        }),
        vec![0x90, 11, 100]
    );
    assert_eq!(
        encode(Interaction::Press {
            pad: Pad::new(0, 0),
            velocity: 127
        }),
        vec![0xB0, 91, 127]
    );
    assert_eq!(
        encode(Interaction::Release {
            pad: Pad::new(0, 8)
        }),
        vec![0x90, 11, 0]
    );
    assert_eq!(
        encode(Interaction::Aftertouch {
            pad: Pad::new(0, 8),
            pressure: 64
        }),
        vec![0xA0, 11, 64]
    );
}

#[test]
fn a_press_never_encodes_as_a_release() {
    let bytes = encode(Interaction::Press {
        pad: Pad::new(0, 8),
        velocity: 0,
    });
    assert_eq!(bytes[2], 1);
}

#[test]
fn out_of_range_values_are_clamped_and_pads_off_the_surface_encode_to_nothing() {
    assert_eq!(
        encode(Interaction::Press { pad: Pad::new(0, 8), velocity: 200 }),
        vec![0x90, 11, 127]
    );
    assert_eq!(
        encode(Interaction::Aftertouch { pad: Pad::new(0, 8), pressure: 255 }),
        vec![0xA0, 11, 127]
    );
    assert!(encode(Interaction::Release { pad: Pad::new(20, 20) }).is_empty());
}

#[test]
fn encoded_interactions_decode_back() {
    for pad in Pad::all(SIZE, SIZE) {
        let press = Interaction::Press { pad, velocity: 127 };
        assert_eq!(decode_interaction(&encode(press)), Some(press));
        let release = Interaction::Release { pad };
        assert_eq!(decode_interaction(&encode(release)), Some(release));
    }
}

#[test]
fn note_offs_read_as_releases() {
    assert_eq!(
        decode_interaction(&[0x80, 11, 64]),
        Some(Interaction::Release { pad: Pad::new(0, 8) })
    );
    assert_eq!(decode_interaction(&[0xC0, 11, 64]), None);
    assert_eq!(decode_interaction(&[0x90, 11]), None);
}

#[test]
fn the_palette_covers_every_data_byte() {
    assert_eq!(palette::get(0), Some(Rgb::black()));
    assert_eq!(palette::get(5), Some(RED));
    assert!(palette::get(127).is_some());
    assert!(palette::get(128).is_none());
}

#[test]
fn the_port_name_is_discoverable_as_this_model() {
    assert!(LaunchpadMiniMk3::PORT_NAME.contains(LaunchpadMiniMk3::HARDWARE_KEYWORD));
    assert!(LaunchpadX::PORT_NAME.contains(LaunchpadX::HARDWARE_KEYWORD));
}

#[test]
fn the_pads_are_switches() {
    const { assert!(!LaunchpadMiniMk3::VELOCITY_SENSITIVE) };
}

#[test]
fn the_two_devices_share_a_surface() {
    assert_eq!(LaunchpadX::WIDTH, LaunchpadMiniMk3::WIDTH);
    assert_eq!(LaunchpadX::HEIGHT, LaunchpadMiniMk3::HEIGHT);
    assert_ne!(
        LaunchpadX::HARDWARE_KEYWORD,
        LaunchpadMiniMk3::HARDWARE_KEYWORD
    );
}

#[test]
fn both_devices_name_every_button_but_no_grid_pad() {
    for (top_left, sixth) in [
        (
            LaunchpadX::printed_name(Pad::new(0, 0)),
            LaunchpadX::printed_name(Pad::new(5, 0)),
        ),
        (
            LaunchpadMiniMk3::printed_name(Pad::new(0, 0)),
            LaunchpadMiniMk3::printed_name(Pad::new(5, 0)),
        ),
    ] {
        assert_eq!(top_left, Some("Up"));
        assert!(sixth.is_some(), "the sixth top button is named");
    }
    // The models differ where their printing differs
    assert_eq!(LaunchpadX::printed_name(Pad::new(5, 0)), Some("Note"));
    assert_eq!(
        LaunchpadMiniMk3::printed_name(Pad::new(5, 0)),
        Some("Drums")
    );
    assert_eq!(LaunchpadX::printed_name(Pad::new(3, 4)), None);
    assert_eq!(LaunchpadX::printed_name(Pad::new(8, 0)), Some("Logo"));
}

#[test]
fn x_the_logo_lights_but_is_not_a_button() {
    assert!(!LaunchpadX::is_button(Pad::new(8, 0)));
    assert!(LaunchpadX::is_button(Pad::new(0, 0)));
    assert!(LaunchpadX::pad_to_midi(Pad::new(8, 0)).is_some());
}

#[test]
fn the_grid_reports_how_hard_it_was_struck() {
    const { assert!(LaunchpadX::VELOCITY_SENSITIVE) };
}

#[test]
fn the_two_devices_differ_only_where_expected() {
    assert_eq!(LaunchpadX::WIDTH, LaunchpadMiniMk3::WIDTH);
    const { assert!(LaunchpadX::VELOCITY_SENSITIVE) };
    const { assert!(!LaunchpadMiniMk3::VELOCITY_SENSITIVE) };
    assert_ne!(
        LaunchpadX::HARDWARE_KEYWORD,
        LaunchpadMiniMk3::HARDWARE_KEYWORD
    );
}

/// A brightness message addressed to a given device ID.
fn brightness(device_id: u8) -> Vec<u8> {
    let mut bytes = sysex_header(device_id).to_vec();
    bytes.extend_from_slice(&[0x08, 64, 0xF7]);
    bytes
}

#[test]
fn mod_each_device_only_accepts_its_own_sysex() {
    assert_eq!(
        LaunchpadX::decode(&brightness(x::DEVICE_ID)),
        vec![HostMessage::Brightness(64)]
    );
    assert_eq!(
        LaunchpadMiniMk3::decode(&brightness(mini_mk3::DEVICE_ID)),
        vec![HostMessage::Brightness(64)]
    );
    assert!(matches!(
        LaunchpadX::decode(&brightness(mini_mk3::DEVICE_ID)).as_slice(),
        [HostMessage::Unrecognised(_)]
    ));
    assert!(matches!(
        LaunchpadMiniMk3::decode(&brightness(x::DEVICE_ID)).as_slice(),
        [HostMessage::Unrecognised(_)]
    ));
    assert_eq!(
        LaunchpadX::decode(&brightness(0x0C)),
        vec![HostMessage::Brightness(64)]
    );
    assert!(matches!(
        LaunchpadX::decode(&brightness(0x0D)).as_slice(),
        [HostMessage::Unrecognised(_)]
    ));
    assert_eq!(
        LaunchpadMiniMk3::decode(&brightness(0x0D)),
        vec![HostMessage::Brightness(64)]
    );
}

#[test]
fn mod_the_logo_lights_but_is_not_a_button() {
    assert!(!LaunchpadX::is_button(Pad::new(8, 0)));
    assert!(LaunchpadX::is_button(Pad::new(0, 0)));
    assert!(LaunchpadX::pad_to_midi(Pad::new(8, 0)).is_some());
}

#[test]
fn the_mini_names_its_own_top_row() {
    assert_eq!(LaunchpadMiniMk3::printed_name(Pad::new(7, 0)), Some("User"));
    assert_eq!(LaunchpadX::printed_name(Pad::new(7, 0)), Some("Capture MIDI"));
    assert_eq!(LaunchpadMiniMk3::printed_name(Pad::new(8, 3)), Some("Scene Launch 3"));
    assert_eq!(LaunchpadMiniMk3::printed_name(Pad::new(8, 9)), None);
    assert_eq!(LaunchpadMiniMk3::role(Pad::new(4, 4)), PadRole::Grid);
}

#[test]
fn presses_and_pressures_above_seven_bits_read_as_nothing() {
    assert_eq!(decode_interaction(&[0x90, 11, 200]), None);
    assert_eq!(decode_interaction(&[0xB0, 19, 0x80]), None);
    assert_eq!(decode_interaction(&[0xA0, 11, 0xFF]), None);
    assert_eq!(
        decode_interaction(&[0x80, 11, 200]),
        Some(Interaction::Release { pad: Pad::new(0, 8) }),
        "a note off is a release whatever its value"
    );
    assert_eq!(
        decode_interaction(&[0x90, 11, 127]),
        Some(Interaction::Press { pad: Pad::new(0, 8), velocity: 127 })
    );
}

#[test]
fn pads_off_the_surface_are_never_grid() {
    assert!(!is_grid(Pad::new(0, 20)));
    assert!(!is_grid(Pad::new(7, 9)));
    assert!(is_grid(Pad::new(7, 8)));
    assert!(!is_grid(Pad::new(8, 4)));
    assert!(!is_grid(Pad::new(3, 0)));
}
