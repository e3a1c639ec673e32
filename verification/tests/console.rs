use launchpad_emulator::color::Rgb;
use launchpad_emulator::console::Console;
use launchpad_emulator::{HostMessage, Lighting, Pad};

#[test]
fn a_new_console_is_hidden_and_empty() {
    let console = Console::new();
    assert!(!console.is_visible());
    assert!(console.is_empty());
}

#[test]
fn visibility_can_be_set_and_toggled() {
    let mut console = Console::new().with_visible(true);
    assert!(console.is_visible());
    console.toggle();
    assert!(!console.is_visible());
    console.set_visible(true);
    assert!(console.is_visible());
}

#[test]
fn lines_carry_a_stamp_in_brackets() {
    let mut console = Console::new();
    console.push("hello");
    let line = console.lines().first().cloned().unwrap_or_default();
    assert!(line.starts_with('['), "got {line:?}");
    assert!(line.ends_with(" hello"), "got {line:?}");
}

#[test]
fn the_oldest_lines_are_dropped_once_full() {
    let mut console = Console::new().with_limit(2);
    for line in ["one", "two", "three"] {
        console.push(line);
    }
    assert_eq!(console.len(), 2);
    let lines: Vec<String> = console.lines();
    assert!(lines[0].ends_with("two"), "got {lines:?}");
    assert!(lines[1].ends_with("three"), "got {lines:?}");
}

#[test]
fn clearing_drops_everything() {
    let mut console = Console::new();
    console.push("hello");
    console.clear();
    assert!(console.is_empty());
}

#[test]
fn the_messages_that_arrive_constantly_are_skipped() {
    let mut console = Console::new();
    console.record(&HostMessage::Clock);
    console.record(&HostMessage::Lighting {
        pad: Pad::new(0, 0),
        lighting: Lighting::Static(Rgb::black()),
    });
    assert!(console.is_empty(), "lighting and clock should be skipped");

    console.record(&HostMessage::Brightness(64));
    assert_eq!(console.len(), 1);
    assert!(
        console
            .lines()
            .first()
            .cloned()
            .unwrap_or_default()
            .contains("Brightness"),
        "the message should be recorded"
    );
}

#[test]
fn a_console_with_no_room_keeps_nothing() {
    let mut console = Console::default().with_limit(0);
    console.push("gone");
    assert!(console.is_empty());
}

#[test]
fn stamps_read_as_a_time_of_day() {
    let mut console = Console::new();
    console.push("hello");
    let line = console.lines().first().cloned().unwrap_or_default();
    let stamp: Vec<char> = line.chars().take(14).collect();
    assert_eq!(stamp.len(), 14, "got {line:?}");
    assert_eq!((stamp[0], stamp[3], stamp[6], stamp[9], stamp[13]), ('[', ':', ':', '.', ']'));
    for i in [1, 2, 4, 5, 7, 8, 10, 11, 12] {
        assert!(stamp[i].is_ascii_digit(), "got {line:?}");
    }
    assert_eq!(&line[14..], " hello");
}

#[test]
fn recorded_messages_read_as_debug_writes_them() {
    let mut console = Console::new();
    let message = HostMessage::SetVelocityCurve { curve: 3, fixed_velocity: 100 };
    console.record(&message);
    let line = console.lines().first().cloned().unwrap_or_default();
    assert_eq!(&line[15..], format!("{message:?}"));
}
