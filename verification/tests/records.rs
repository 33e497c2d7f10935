use koto_midi::record::{describe, Field, FieldValue};
use koto_midi::{
    AllSoundOff, Message, NoteOn, ParsedMessage, PitchBend, SongPosition, SystemExclusive,
    TimeCodeQuarterFrame, TuneRequest,
};

fn number(name: &'static str, value: u64) -> Field {
    Field { name, value: FieldValue::Number(value) }
}

fn text(name: &'static str, value: &'static str) -> Field {
    Field { name, value: FieldValue::Text(value) }
}

fn pack(bytes: &[u8]) -> Field {
    Field { name: "pack", value: FieldValue::Pack(bytes.to_vec()) }
}

#[test]
fn record_of_a_constructed_note_on() {
    let fields = describe(&Message::NoteOn(NoteOn::new(60, 100, 2)), false);
    assert_eq!(
        fields,
        vec![
            text("type", "note_on"),
            text("category", "channel_voice"),
            number("note", 60),
            number("velocity", 100),
            number("channel", 2),
            pack(&[0x92, 60, 100]),
        ]
    );
}

#[test]
fn record_of_a_decoded_note_on_gives_the_category_first() {
    let fields = describe(&ParsedMessage::from(&[0x92, 60, 100]).message, true);
    assert_eq!(
        fields,
        vec![
            text("category", "channel_voice"),
            text("type", "note_on"),
            number("note", 60),
            number("velocity", 100),
            number("channel", 2),
            pack(&[0x92, 60, 100]),
        ]
    );
}

#[test]
fn record_of_a_decoded_channel_mode_message_ends_with_its_controller() {
    let fields = describe(&ParsedMessage::from(&[0xB1, 120, 7]).message, true);
    assert_eq!(
        fields,
        vec![
            text("category", "channel_mode"),
            text("type", "all_sound_off"),
            number("value", 7),
            number("channel", 1),
            pack(&[0xB1, 120, 7]),
            number("note", 120),
        ]
    );
    let fields = describe(&ParsedMessage::from(&[0xB1, 127, 7]).message, true);
    assert_eq!(fields.last(), Some(&number("note", 127)));
}

#[test]
fn record_of_a_constructed_channel_mode_message_has_no_controller() {
    let fields = describe(&Message::AllSoundOff(AllSoundOff::new(7, 1)), false);
    assert_eq!(
        fields,
        vec![
            text("type", "all_sound_off"),
            text("category", "channel_mode"),
            number("value", 7),
            number("channel", 1),
            pack(&[0xB1, 120, 7]),
        ]
    );
}

#[test]
fn record_of_a_pitch_bend() {
    let fields = describe(&Message::PitchBend(PitchBend::new(8821, 0)), false);
    assert_eq!(
        fields,
        vec![
            text("type", "pitch_bend"),
            text("category", "channel_voice"),
            number("bend_amount", 8821),
            number("channel", 0),
            pack(&[0xE0, 117, 68]),
        ]
    );
}

#[test]
fn record_of_a_system_exclusive_message() {
    let message = Message::SystemExclusive(SystemExclusive::new(&[0, 1, 2], &[9]));
    assert_eq!(
        describe(&message, false),
        vec![
            text("type", "system_exclusive"),
            text("category", "system_common"),
            Field { name: "manufacturer_id", value: FieldValue::Bytes(vec![0, 1, 2]) },
            pack(&[0xF0, 0, 1, 2, 9, 0xF7]),
        ]
    );
}

#[test]
fn record_of_system_common_messages() {
    assert_eq!(
        describe(&Message::TimeCodeQuarterFrame(TimeCodeQuarterFrame::new(2, 3)), false),
        vec![
            text("type", "time_code_quarter_frame"),
            text("category", "system_common"),
            number("message_type", 2),
            number("values", 3),
            pack(&[0xF1, 0x23]),
        ]
    );
    assert_eq!(
        describe(&Message::SongPosition(SongPosition::new(257)), false),
        vec![
            text("type", "song_position"),
            text("category", "system_common"),
            number("midi_beats_elapsed", 257),
            pack(&[0xF2, 1, 2]),
        ]
    );
    assert_eq!(
        describe(&Message::TuneRequest(TuneRequest::new()), false),
        vec![text("type", "tune_request"), text("category", "system_common"), pack(&[0xF6])]
    );
}

#[test]
fn record_of_a_sentinel_has_no_bytes() {
    assert_eq!(
        describe(&Message::Malformed, true),
        vec![text("category", "unknown"), text("type", "malformed")]
    );
    assert_eq!(
        describe(&Message::Undefined, true),
        vec![text("category", "unknown"), text("type", "undefined")]
    );
}
