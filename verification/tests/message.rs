use launchpad_emulator::color::Rgb;
use launchpad_emulator::{HostMessage, Lighting, Pad, Query, TextScroll};

fn every_kind() -> Vec<HostMessage> {
    vec![
        HostMessage::Lighting { pad: Pad::new(3, 4), lighting: Lighting::Static(Rgb { r: 255, g: 0, b: 7 }) },
        HostMessage::Lighting {
            pad: Pad::new(0, 0),
            lighting: Lighting::Flashing { a: Rgb { r: 1, g: 22, b: 133 }, b: Rgb::black() },
        },
        HostMessage::Lighting { pad: Pad::new(8, 8), lighting: Lighting::Pulsing(Rgb { r: 9, g: 10, b: 100 }) },
        HostMessage::Brightness(64),
        HostMessage::Sleep(true),
        HostMessage::ProgrammerMode(false),
        HostMessage::StartScroll(TextScroll { looping: true, speed: -128, color: Rgb::black(), text: vec![72, 105] }),
        HostMessage::StartScroll(TextScroll { looping: false, speed: 7, color: Rgb { r: 255, g: 255, b: 255 }, text: vec![] }),
        HostMessage::StopScroll,
        HostMessage::SetVelocityCurve { curve: 1, fixed_velocity: 127 },
        HostMessage::SetAftertouch { mode: 0, threshold: 1 },
        HostMessage::Query(Query::DeviceInquiry),
        HostMessage::Query(Query::Layout),
        HostMessage::Query(Query::VelocityCurve),
        HostMessage::Query(Query::Aftertouch),
        HostMessage::Query(Query::Brightness),
        HostMessage::Query(Query::Sleep),
        HostMessage::Clock,
        HostMessage::Unrecognised(vec![240, 0, 32, 41, 247]),
        HostMessage::Unrecognised(vec![]),
    ]
}

#[test]
fn descriptions_match_debug() {
    for message in every_kind() {
        assert_eq!(message.describe(), format!("{message:?}"));
    }
}

#[test]
fn a_description_names_the_variant_and_its_fields() {
    assert_eq!(HostMessage::Brightness(64).describe(), "Brightness(64)");
    assert_eq!(
        HostMessage::Lighting { pad: Pad::new(3, 4), lighting: Lighting::Static(Rgb { r: 255, g: 0, b: 0 }) }
            .describe(),
        "Lighting { pad: Pad { x: 3, y: 4 }, lighting: Static(Rgb { r: 255, g: 0, b: 0 }) }"
    );
    assert_eq!(HostMessage::Unrecognised(vec![1, 2, 3]).describe(), "Unrecognised([1, 2, 3])");
}
