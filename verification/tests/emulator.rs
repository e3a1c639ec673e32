use launchpad_emulator::color::Rgb;
use launchpad_emulator::devices::LaunchpadX;
use launchpad_emulator::emulator::{contains, find_port, is_hardware_port};
use launchpad_emulator::{DeviceSpec, Emulator, Error, HostMessage, Interaction, Lighting, Pad};

const RED: Rgb = Rgb { r: 255, g: 0, b: 0 };

#[test]
fn an_in_process_emulator_publishes_no_ports() {
    let emulator = Emulator::<LaunchpadX>::in_process();
    assert!(!emulator.publishes_ports());
}

#[test]
fn fed_bytes_light_the_surface() {
    let mut emulator = Emulator::<LaunchpadX>::in_process();
    emulator.feed(&[0x90, 11, 5]);
    let surface = emulator.surface();
    assert_eq!(
        surface.lighting(Pad::new(0, 8)),
        Lighting::Static(RED),
        "a note on should light the bottom left pad"
    );
}

#[test]
fn fed_bytes_are_logged_and_drive_the_clock() {
    let mut emulator = Emulator::<LaunchpadX>::in_process();
    let ticks = emulator.feed(&[0xF8]);
    assert_eq!(emulator.poll(), vec![HostMessage::Clock]);
    assert_eq!(ticks, 1);
    assert!(emulator.poll().is_empty(), "polling drains the log");
}

#[test]
fn interactions_queue_up_when_there_is_no_host_port() {
    let mut emulator = Emulator::<LaunchpadX>::in_process();
    let press = Interaction::Press {
        pad: Pad::new(0, 8),
        velocity: 100,
    };
    assert_eq!(emulator.send(press), Ok(None));
    assert_eq!(emulator.reported(), vec![press]);
    assert!(
        emulator.reported().is_empty(),
        "draining should consume them"
    );
}

#[test]
fn with_a_host_port_interactions_go_out_as_bytes() {
    let mut emulator = Emulator::<LaunchpadX>::with_host_port();
    assert!(emulator.publishes_ports());
    let press = Interaction::Press { pad: Pad::new(0, 8), velocity: 100 };
    assert_eq!(emulator.send(press), Ok(Some(vec![0x90, 11, 100])));
    assert!(emulator.reported().is_empty());
    let frames = emulator.pump_hardware(&[press, Interaction::Release { pad: Pad::new(0, 0) }]);
    assert_eq!(frames, vec![vec![0x90, 11, 100], vec![0xB0, 91, 0]]);
}

#[test]
fn hardware_presses_queue_up_when_there_is_no_host_port() {
    let mut emulator = Emulator::<LaunchpadX>::in_process();
    let press = Interaction::Press { pad: Pad::new(0, 8), velocity: 100 };
    assert!(emulator.pump_hardware(&[press]).is_empty());
    assert_eq!(emulator.reported(), vec![press]);
}

#[test]
fn a_lighting_sysex_logs_every_pad_and_the_scroll_moves() {
    let mut emulator = Emulator::<LaunchpadX>::in_process();
    let mut bytes = launchpad_emulator::devices::mk3_family::sysex_header(0x0C).to_vec();
    bytes.extend_from_slice(&[0x03, 0, 11, 5, 0, 12, 5, 0xF7]);
    assert_eq!(emulator.feed(&bytes), 0);
    assert_eq!(emulator.poll().len(), 2);
    assert_eq!(emulator.surface().lighting(Pad::new(1, 8)), Lighting::Static(RED));
    emulator.advance(100);
    assert!(emulator.surface().scroll().is_none());
}

#[test]
fn our_own_port_is_never_mistaken_for_hardware() {
    // The hardware's names extend ours, so only an exact match may be skipped
    let ours = Some("Launchpad X LPX MIDI");
    let keyword = LaunchpadX::HARDWARE_KEYWORD;
    for (name, is_hardware) in [
        ("Launchpad X LPX MIDI", false),
        ("Launchpad X LPX MIDI In", true),
        ("Launchpad X LPX MIDI Out", true),
    ] {
        let matched = is_hardware_port(name, keyword, ours);
        assert_eq!(matched, is_hardware, "for {name:?}");
    }
}

#[test]
fn the_first_hardware_port_is_found() {
    let names = vec![
        "Launchpad X LPX MIDI".to_string(),
        "IAC Driver".to_string(),
        "Launchpad X LPX MIDI In".to_string(),
    ];
    assert_eq!(find_port(&names, LaunchpadX::HARDWARE_KEYWORD, Some(LaunchpadX::PORT_NAME)), Some(2));
    assert_eq!(find_port(&names, LaunchpadX::HARDWARE_KEYWORD, None), Some(0));
    assert_eq!(find_port(&names, "Mini MK3", None), None);
    assert!(contains("abc", ""));
    assert!(contains("abc", "bc"));
    assert!(!contains("ab", "abc"));
}

#[test]
fn a_pad_off_the_surface_is_refused() {
    let mut emulator = Emulator::<LaunchpadX>::in_process();
    let result = emulator.send(Interaction::Release {
        pad: Pad::new(20, 20),
    });
    assert!(matches!(result, Err(Error::OffSurface { .. })));
    assert!(emulator.reported().is_empty());
}
