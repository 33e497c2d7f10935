use koto_midi::{Category, Kind, Message, MidiMessage, ParsedMessage};

fn decode(bytes: &[u8]) -> Message {
    ParsedMessage::from(bytes).message
}

#[test]
fn decodes_note_off() {
    match decode(&[0x83, 60, 100]) {
        Message::NoteOff(m) => {
            assert_eq!(m.note(), 60);
            assert_eq!(m.velocity(), 100);
            assert_eq!(m.channel(), 3);
            assert_eq!(m.pack(), &[0x83, 60, 100]);
        }
        other => panic!("unexpected {:?}", other),
    }
}

#[test]
fn decodes_note_on() {
    match decode(&[0x9F, 127, 0]) {
        Message::NoteOn(m) => {
            assert_eq!(m.note(), 127);
            assert_eq!(m.velocity(), 0);
            assert_eq!(m.channel(), 15);
            assert_eq!(m.pack(), &[0x9F, 127, 0]);
        }
        other => panic!("unexpected {:?}", other),
    }
}

#[test]
fn decodes_poly_after_touch() {
    match decode(&[0xA1, 5, 6]) {
        Message::PolyAfterTouch(m) => {
            assert_eq!(m.note(), 5);
            assert_eq!(m.pressure(), 6);
            assert_eq!(m.channel(), 1);
        }
        other => panic!("unexpected {:?}", other),
    }
}

#[test]
fn decodes_program_change() {
    match decode(&[0xC2, 9]) {
        Message::ProgramChange(m) => {
            assert_eq!(m.program(), 9);
            assert_eq!(m.channel(), 2);
            assert_eq!(m.pack(), &[0xC2, 9]);
        }
        other => panic!("unexpected {:?}", other),
    }
}

#[test]
fn decodes_after_touch() {
    match decode(&[0xD4, 77]) {
        Message::AfterTouch(m) => {
            assert_eq!(m.pressure(), 77);
            assert_eq!(m.channel(), 4);
            assert_eq!(m.pack(), &[0xD4, 77]);
        }
        other => panic!("unexpected {:?}", other),
    }
}

#[test]
fn control_change_below_120_is_control_change() {
    match decode(&[0xB0, 119, 10]) {
        Message::ControlChange(m) => {
            assert_eq!(m.note(), 119);
            assert_eq!(m.value(), 10);
            assert_eq!(m.channel(), 0);
        }
        other => panic!("unexpected {:?}", other),
    }
    match decode(&[0xB0, 0, 0]) {
        Message::ControlChange(m) => assert_eq!(m.note(), 0),
        other => panic!("unexpected {:?}", other),
    }
}

#[test]
fn controller_120_is_all_sound_off() {
    match decode(&[0xB0, 120, 0]) {
        Message::AllSoundOff(m) => {
            assert_eq!(m.value(), 0);
            assert_eq!(m.channel(), 0);
        }
        other => panic!("unexpected {:?}", other),
    }
}

#[test]
fn controller_127_is_poly_mode_on() {
    match decode(&[0xB0, 127, 5]) {
        Message::PolyModeOn(m) => {
            assert_eq!(m.value(), 5);
            assert_eq!(m.channel(), 0);
        }
        other => panic!("unexpected {:?}", other),
    }
}

#[test]
fn each_mode_controller_selects_its_kind() {
    let kinds: Vec<Kind> = (120u8..=127).map(|c| decode(&[0xB7, c, 1]).kind()).collect();
    assert_eq!(
        kinds,
        vec![
            Kind::AllSoundOff,
            Kind::ResetAllControllers,
            Kind::LocalControl,
            Kind::AllNotesOff,
            Kind::OmniModeOff,
            Kind::OmniModeOn,
            Kind::MonoModeOn,
            Kind::PolyModeOn,
        ]
    );
    for c in 120u8..=127 {
        let message = decode(&[0xB7, c, 1]);
        assert_eq!(message.category(), Category::ChannelMode);
        assert_eq!(message.pack(), &[0xB7, c, 1]);
    }
}

#[test]
fn pitch_bend_joins_two_data_bytes() {
    match decode(&[0xE0, (8821u16 & 0x7F) as u8, ((8821u16 >> 7) & 0x7F) as u8]) {
        Message::PitchBend(m) => {
            assert_eq!(m.bend_amount(), 8821);
            assert_eq!(m.channel(), 0);
        }
        other => panic!("unexpected {:?}", other),
    }
    match decode(&[0xE5, 127, 127]) {
        Message::PitchBend(m) => {
            assert_eq!(m.bend_amount(), 16383);
            assert_eq!(m.channel(), 5);
        }
        other => panic!("unexpected {:?}", other),
    }
    match decode(&[0xE5, 1, 2]) {
        Message::PitchBend(m) => assert_eq!(m.bend_amount(), 257),
        other => panic!("unexpected {:?}", other),
    }
}

#[test]
fn short_note_on_is_malformed() {
    let message = decode(&[0x90, 1]);
    assert_eq!(message, Message::Malformed);
    assert_eq!(message.category(), Category::Unknown);
    assert_eq!(message.kind(), Kind::Malformed);
    assert!(message.pack().is_empty());
}

#[test]
fn wrong_length_is_malformed() {
    assert_eq!(decode(&[0x80]), Message::Malformed);
    assert_eq!(decode(&[0x80, 1, 2, 3]), Message::Malformed);
    assert_eq!(decode(&[0xA0, 1]), Message::Malformed);
    assert_eq!(decode(&[0xB0, 120]), Message::Malformed);
    assert_eq!(decode(&[0xC0]), Message::Malformed);
    assert_eq!(decode(&[0xC0, 1, 2]), Message::Malformed);
    assert_eq!(decode(&[0xD0, 1, 2]), Message::Malformed);
    assert_eq!(decode(&[0xE0, 1]), Message::Malformed);
    assert_eq!(decode(&[0xF1]), Message::Malformed);
    assert_eq!(decode(&[0xF1, 1, 2]), Message::Malformed);
    assert_eq!(decode(&[0xF2, 1]), Message::Malformed);
    assert_eq!(decode(&[0xF3]), Message::Malformed);
}

#[test]
fn data_byte_above_127_is_malformed() {
    assert_eq!(decode(&[0x90, 128, 0]), Message::Malformed);
    assert_eq!(decode(&[0x90, 0, 128]), Message::Malformed);
    assert_eq!(decode(&[0xB0, 200, 0]), Message::Malformed);
    assert_eq!(decode(&[0xC0, 255]), Message::Malformed);
    assert_eq!(decode(&[0xE0, 0, 255]), Message::Malformed);
    assert_eq!(decode(&[0xF1, 128]), Message::Malformed);
    assert_eq!(decode(&[0xF2, 128, 0]), Message::Malformed);
    assert_eq!(decode(&[0xF3, 128]), Message::Malformed);
}

#[test]
fn status_below_0x80_is_malformed() {
    assert_eq!(decode(&[0x00]), Message::Malformed);
    assert_eq!(decode(&[0x7F, 1, 2]), Message::Malformed);
    assert_eq!(decode(&[0x40, 1]), Message::Malformed);
}

#[test]
fn sysex_with_one_byte_id() {
    let bytes = [0xF0, 0x01, 0x02, 0xF7];
    match decode(&bytes) {
        Message::SystemExclusive(m) => {
            assert_eq!(m.manufacturer_id(), &[0x01]);
            assert_eq!(m.pack(), &bytes);
        }
        other => panic!("unexpected {:?}", other),
    }
}

#[test]
fn sysex_with_three_byte_id() {
    let bytes = [0xF0, 0x00, 0x01, 0x02, 0x10, 0xF7];
    match decode(&bytes) {
        Message::SystemExclusive(m) => {
            assert_eq!(m.manufacturer_id(), &[0x00, 0x01, 0x02]);
            assert_eq!(m.pack(), &bytes);
        }
        other => panic!("unexpected {:?}", other),
    }
}

#[test]
fn sysex_framing_is_loose() {
    match decode(&[0xF0, 0xF7]) {
        Message::SystemExclusive(m) => {
            assert_eq!(m.manufacturer_id(), &[0xF7]);
            assert_eq!(m.pack(), &[0xF0, 0xF7]);
        }
        other => panic!("unexpected {:?}", other),
    }
    match decode(&[0xF0, 0x00, 0x41, 0xF7]) {
        Message::SystemExclusive(m) => assert_eq!(m.manufacturer_id(), &[0x00, 0x41, 0xF7]),
        other => panic!("unexpected {:?}", other),
    }
    match decode(&[0xF0, 0x41, 0xFF, 0x80, 0xF7]) {
        Message::SystemExclusive(m) => assert_eq!(m.pack(), &[0xF0, 0x41, 0xFF, 0x80, 0xF7]),
        other => panic!("unexpected {:?}", other),
    }
}

#[test]
fn sysex_without_terminator_is_malformed() {
    assert_eq!(decode(&[0xF0]), Message::Malformed);
    assert_eq!(decode(&[0xF0, 0x01, 0x02]), Message::Malformed);
    assert_eq!(decode(&[0xF0, 0x01, 0xF7, 0x00]), Message::Malformed);
}

#[test]
fn sysex_too_short_for_a_three_byte_id_is_malformed() {
    assert_eq!(decode(&[0xF0, 0x00, 0xF7]), Message::Malformed);
}

#[test]
fn decodes_time_code_quarter_frame() {
    match decode(&[0xF1, 0x35]) {
        Message::TimeCodeQuarterFrame(m) => {
            assert_eq!(m.message_type(), 3);
            assert_eq!(m.values(), 5);
            assert_eq!(m.pack(), &[0xF1, 0x35]);
        }
        other => panic!("unexpected {:?}", other),
    }
    match decode(&[0xF1, 0x7F]) {
        Message::TimeCodeQuarterFrame(m) => {
            assert_eq!(m.message_type(), 7);
            assert_eq!(m.values(), 15);
        }
        other => panic!("unexpected {:?}", other),
    }
}

#[test]
fn decodes_song_position() {
    match decode(&[0xF2, 0x01, 0x02]) {
        Message::SongPosition(m) => {
            assert_eq!(m.midi_beats_elapsed(), 257);
            assert_eq!(m.pack(), &[0xF2, 0x01, 0x02]);
        }
        other => panic!("unexpected {:?}", other),
    }
}

#[test]
fn decodes_song_select() {
    match decode(&[0xF3, 42]) {
        Message::SongSelect(m) => {
            assert_eq!(m.number(), 42);
            assert_eq!(m.pack(), &[0xF3, 42]);
        }
        other => panic!("unexpected {:?}", other),
    }
}

#[test]
fn reserved_statuses_are_undefined() {
    for status in [0xF4u8, 0xF5, 0xF9, 0xFD] {
        assert_eq!(decode(&[status]), Message::Undefined);
        assert_eq!(decode(&[status, 1, 2, 3]), Message::Undefined);
        assert_eq!(decode(&[status, 0xFF]), Message::Undefined);
        assert_eq!(decode(&[status]).category(), Category::Unknown);
        assert_eq!(decode(&[status]).kind(), Kind::Undefined);
        assert!(decode(&[status]).pack().is_empty());
    }
}

#[test]
fn single_byte_kinds_decode() {
    let expected = [
        (0xF6u8, Kind::TuneRequest, Category::SystemCommon),
        (0xF7, Kind::EndOfExclusive, Category::SystemCommon),
        (0xF8, Kind::TimingClock, Category::SystemRealtime),
        (0xFA, Kind::Start, Category::SystemRealtime),
        (0xFB, Kind::Continue, Category::SystemRealtime),
        (0xFC, Kind::Stop, Category::SystemRealtime),
        (0xFE, Kind::ActiveSensing, Category::SystemRealtime),
        (0xFF, Kind::Reset, Category::SystemRealtime),
    ];
    for (status, kind, category) in expected {
        let message = decode(&[status]);
        assert_eq!(message.kind(), kind);
        assert_eq!(message.category(), category);
        assert_eq!(message.pack(), &[status]);
    }
}

#[test]
fn single_byte_kinds_reject_data() {
    for status in [0xF6u8, 0xF7, 0xF8, 0xFA, 0xFB, 0xFC, 0xFE, 0xFF] {
        assert_eq!(decode(&[status, 0x01]), Message::Malformed);
    }
}

#[test]
fn categories_follow_kinds() {
    assert_eq!(decode(&[0x90, 1, 2]).category(), Category::ChannelVoice);
    assert_eq!(decode(&[0xB0, 1, 2]).category(), Category::ChannelVoice);
    assert_eq!(decode(&[0xB0, 121, 2]).category(), Category::ChannelMode);
    assert_eq!(decode(&[0xF0, 1, 0xF7]).category(), Category::SystemCommon);
    assert_eq!(decode(&[0xF2, 1, 2]).category(), Category::SystemCommon);
    assert_eq!(decode(&[0xF8]).category(), Category::SystemRealtime);
}

#[test]
fn decoding_is_deterministic() {
    assert_eq!(decode(&[0x93, 10, 20]), decode(&[0x93, 10, 20]));
    assert_ne!(decode(&[0x93, 10, 20]), decode(&[0x93, 10, 21]));
}

#[test]
fn decoded_bytes_come_back_unchanged() {
    let mut checked = 0;
    for status in 0x80u8..=0xFF {
        for first in [0u8, 1, 64, 119, 120, 127] {
            for second in [0u8, 1, 127] {
                for buffer in [vec![status], vec![status, first], vec![status, first, second]] {
                    let message = decode(&buffer);
                    if message.kind().is_concrete() {
                        assert_eq!(message.pack(), &buffer[..]);
                        assert_eq!(decode(message.pack()), message);
                        checked += 1;
                    }
                }
            }
        }
    }
    assert!(checked > 1000);
}
