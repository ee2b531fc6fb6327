//! MIDI keys, pitch classes, packets and the raw message parser.

use media::midi::read_midi_input::{MessageParser, MessageParserRegistry, MidiMessage};
use media::midi::streams::MidiStreamError;
use media::midi::{Key, KeyRangeError, MidiPacket, PitchClass};

#[test]
fn key_from_pitch_and_octave() {
    // Middle C (C4) is key 60.
    let c4 = Key::new(PitchClass::C, 4).unwrap();
    assert_eq!(c4.as_u8(), 60);
    assert_eq!(c4.pitch_class(), PitchClass::C);
    assert_eq!(c4.octave(), 4);
    // C-1 is the lowest key and G9 the highest.
    assert_eq!(Key::new(PitchClass::C, -1).unwrap().as_u8(), 0);
    assert_eq!(Key::new(PitchClass::G, 9).unwrap().as_u8(), 127);
    assert_eq!(Key::new(PitchClass::GSharp, 9), Err(KeyRangeError));
    assert_eq!(Key::new(PitchClass::B, -2), Err(KeyRangeError));
}

#[test]
fn key_from_u8_round_trips() {
    for k in 0..=127u8 {
        let key = Key::from_u8(k).unwrap();
        assert_eq!(key.as_u8(), k);
        assert_eq!(Key::new(key.pitch_class(), key.octave()), Ok(key));
    }
    assert_eq!(Key::from_u8(128), Err(KeyRangeError));
    assert_eq!(Key::from_u8(255), Err(KeyRangeError));
}

#[test]
fn all_keys_in_order() {
    let keys = Key::all_keys();
    assert_eq!(keys.len(), 128);
    for (i, key) in keys.iter().enumerate() {
        assert_eq!(key.as_u8() as usize, i);
    }
}

#[test]
fn pitch_classes() {
    assert_eq!(PitchClass::from_semitone(0), Some(PitchClass::C));
    assert_eq!(PitchClass::from_semitone(11), Some(PitchClass::B));
    assert_eq!(PitchClass::from_semitone(12), None);
    for s in 0..12u8 {
        assert_eq!(PitchClass::from_semitone(s).unwrap().semitone(), s);
    }
    assert_eq!(PitchClass::CSharp.as_str(), "C#");
    assert_eq!(PitchClass::A.as_str(), "A");
}

#[test]
fn packet_velocities() {
    let mut packet = MidiPacket::new();
    let a4 = Key::from_u8(69).unwrap();
    let c4 = Key::from_u8(60).unwrap();
    assert!(packet.is_key_off(a4));
    assert_eq!(packet.max_velocity(), 0);
    packet.set_key_velocity(a4, 100);
    packet.set_key_velocity(c4, 40);
    assert!(packet.is_key_on(a4));
    assert_eq!(packet.key_velocity(a4), 100);
    assert_eq!(packet.max_velocity(), 100);
    assert_eq!(packet.on_key_velocities(), vec![(c4, 40), (a4, 100)]);
    assert_eq!(packet.key_velocities().len(), 128);
    assert_eq!(packet.key_velocities()[69], (a4, 100));
    packet.clear();
    assert!(packet.on_key_velocities().is_empty());
}

#[test]
fn parse_channel_messages() {
    let registry = MessageParserRegistry::new();
    assert_eq!(
        registry.parse(&[0x90, 60, 100]),
        Some(MidiMessage::NoteOn { channel: 1, note: 60, velocity: 100 })
    );
    // A note on with velocity 0 is a note off.
    assert_eq!(
        registry.parse(&[0x93, 60, 0]),
        Some(MidiMessage::NoteOff { channel: 4, note: 60, velocity: 0 })
    );
    assert_eq!(
        registry.parse(&[0x8F, 61, 20]),
        Some(MidiMessage::NoteOff { channel: 16, note: 61, velocity: 20 })
    );
    assert_eq!(
        registry.parse(&[0xB0, 7, 127]),
        Some(MidiMessage::ControlChange { channel: 1, controller: 7, value: 127 })
    );
    assert_eq!(
        registry.parse(&[0xC2, 5]),
        Some(MidiMessage::ProgramChange { channel: 3, program: 5 })
    );
    assert_eq!(
        registry.parse(&[0xD0, 9]),
        Some(MidiMessage::ChannelAftertouch { channel: 1, pressure: 9 })
    );
    assert_eq!(
        registry.parse(&[0xA1, 60, 33]),
        Some(MidiMessage::PolyphonicAftertouch { channel: 2, note: 60, pressure: 33 })
    );
    // Pitch bend: LSB first, 14 bits; 0x2000 is the centre.
    assert_eq!(
        registry.parse(&[0xE0, 0x00, 0x40]),
        Some(MidiMessage::PitchBend { channel: 1, value: 0x2000 })
    );
    assert_eq!(
        registry.parse(&[0xE5, 0x7F, 0x7F]),
        Some(MidiMessage::PitchBend { channel: 6, value: 0x3FFF })
    );
}

#[test]
fn parse_other_messages_as_unknown() {
    let registry = MessageParserRegistry::new();
    assert_eq!(
        registry.parse(&[0xF8]),
        Some(MidiMessage::Unknown { raw_data: vec![0xF8] })
    );
    // Too short for a note on.
    assert_eq!(
        registry.parse(&[0x90, 60]),
        Some(MidiMessage::Unknown { raw_data: vec![0x90, 60] })
    );
    assert_eq!(registry.parse(&[]), Some(MidiMessage::Unknown { raw_data: vec![] }));
}

#[test]
fn channels_of_messages() {
    assert_eq!(MidiMessage::NoteOn { channel: 3, note: 1, velocity: 1 }.get_channel(), Some(3));
    assert_eq!(MidiMessage::Unknown { raw_data: vec![0xF8] }.get_channel(), None);
}

#[test]
fn single_parsers() {
    assert!(MessageParser::NoteOnParser.can_parse(&[0x91, 1, 2]));
    assert!(!MessageParser::NoteOnParser.can_parse(&[0x81, 1, 2]));
    assert!(!MessageParser::ProgramChangeParser.can_parse(&[0xC0]));
    assert!(MessageParser::UnknownMessageParser.can_parse(&[]));
    assert_eq!(
        MessageParser::ProgramChangeParser.parse(&[0xC0, 4]),
        Some(MidiMessage::ProgramChange { channel: 1, program: 4 })
    );
}

#[test]
fn registry_with_custom_parsers() {
    let mut registry = MessageParserRegistry::new();
    registry.register(MessageParser::UnknownMessageParser);
    // The default parsers come first, so note ons are still parsed.
    assert_eq!(
        registry.parse(&[0x90, 1, 1]),
        Some(MidiMessage::NoteOn { channel: 1, note: 1, velocity: 1 })
    );
}

#[test]
fn midi_stream_error() {
    assert_eq!(MidiStreamError::PortError, MidiStreamError::PortError);
}
