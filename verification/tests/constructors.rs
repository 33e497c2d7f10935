use koto_midi::{
    ActiveSensing, AfterTouch, AllNotesOff, AllSoundOff, Continue, ControlChange, EndOfExclusive,
    Kind, LocalControl, Message, MidiMessage, MonoModeOn, NoteOff, NoteOn, OmniModeOff,
    OmniModeOn, ParsedMessage, PitchBend, PolyAfterTouch, PolyModeOn, ProgramChange, Reset,
    ResetAllControllers, SongPosition, SongSelect, Start, Stop, SystemExclusive,
    TimeCodeQuarterFrame, TimingClock, TuneRequest,
};

fn decode(bytes: &[u8]) -> Message {
    ParsedMessage::from(bytes).message
}

#[test]
fn note_on_clamps_out_of_range_numbers() {
    let m = NoteOn::new(999, 999, 999);
    assert_eq!(m.note(), 127);
    assert_eq!(m.velocity(), 127);
    assert_eq!(m.channel(), 15);
    assert_eq!(m.pack(), &[0x9F, 127, 127]);
}

#[test]
fn numbers_at_the_edge_of_the_range_are_kept() {
    let m = NoteOn::new(127, 127, 15);
    assert_eq!((m.note(), m.velocity(), m.channel()), (127, 127, 15));
    let m = NoteOn::new(128, 128, 16);
    assert_eq!((m.note(), m.velocity(), m.channel()), (127, 127, 15));
    let m = NoteOn::new(0, 0, 0);
    assert_eq!((m.note(), m.velocity(), m.channel()), (0, 0, 0));
    let m = NoteOn::new(u64::MAX, u64::MAX, u64::MAX);
    assert_eq!((m.note(), m.velocity(), m.channel()), (127, 127, 15));
}

#[test]
fn note_off_layout() {
    let m = NoteOff::new(60, 100, 3);
    assert_eq!(m.pack(), &[0x83, 60, 100]);
    assert_eq!((m.note(), m.velocity(), m.channel()), (60, 100, 3));
}

#[test]
fn poly_after_touch_layout() {
    let m = PolyAfterTouch::new(61, 200, 4);
    assert_eq!(m.pack(), &[0xA4, 61, 127]);
    assert_eq!((m.note(), m.pressure(), m.channel()), (61, 127, 4));
}

#[test]
fn control_change_layout() {
    let m = ControlChange::new(7, 100, 9);
    assert_eq!(m.pack(), &[0xB9, 7, 100]);
    assert_eq!((m.note(), m.value(), m.channel()), (7, 100, 9));
}

#[test]
fn program_change_layout() {
    let m = ProgramChange::new(300, 2);
    assert_eq!(m.pack(), &[0xC2, 127]);
    assert_eq!((m.program(), m.channel()), (127, 2));
}

#[test]
fn after_touch_layout() {
    let m = AfterTouch::new(33, 20);
    assert_eq!(m.pack(), &[0xDF, 33]);
    assert_eq!((m.pressure(), m.channel()), (33, 15));
}

#[test]
fn pitch_bend_splits_into_two_data_bytes() {
    let m = PitchBend::new(8821, 0);
    assert_eq!(m.pack(), &[0xE0, (8821u16 & 0x7F) as u8, ((8821u16 >> 7) & 0x7F) as u8]);
    assert_eq!(m.pack(), &[0xE0, 117, 68]);
    assert_eq!(m.bend_amount(), 8821);
    match decode(m.pack()) {
        Message::PitchBend(back) => assert_eq!(back.bend_amount(), 8821),
        other => panic!("unexpected {:?}", other),
    }
}

#[test]
fn pitch_bend_clamps_to_fourteen_bits() {
    let m = PitchBend::new(16384, 16);
    assert_eq!(m.bend_amount(), 16383);
    assert_eq!(m.channel(), 15);
    assert_eq!(m.pack(), &[0xEF, 127, 127]);
    let m = PitchBend::new(0, 0);
    assert_eq!(m.pack(), &[0xE0, 0, 0]);
    let m = PitchBend::new(128, 0);
    assert_eq!(m.pack(), &[0xE0, 0, 1]);
}

#[test]
fn pitch_bend_can_be_changed_in_place() {
    let mut m = PitchBend::new(0, 6);
    m.change_bend_amount(8821);
    assert_eq!(m.bend_amount(), 8821);
    assert_eq!(m.channel(), 6);
    assert_eq!(m.pack(), &[0xE6, 117, 68]);
    m.change_bend_amount(u16::MAX);
    assert_eq!(m.bend_amount(), 16383);
    assert_eq!(m.pack(), &[0xE6, 127, 127]);
}

#[test]
fn channel_mode_layouts() {
    assert_eq!(AllSoundOff::new(1, 2).pack(), &[0xB2, 120, 1]);
    assert_eq!(ResetAllControllers::new(1, 2).pack(), &[0xB2, 121, 1]);
    assert_eq!(LocalControl::new(1, 2).pack(), &[0xB2, 122, 1]);
    assert_eq!(AllNotesOff::new(1, 2).pack(), &[0xB2, 123, 1]);
    assert_eq!(OmniModeOff::new(1, 2).pack(), &[0xB2, 124, 1]);
    assert_eq!(OmniModeOn::new(1, 2).pack(), &[0xB2, 125, 1]);
    assert_eq!(MonoModeOn::new(1, 2).pack(), &[0xB2, 126, 1]);
    assert_eq!(PolyModeOn::new(1, 2).pack(), &[0xB2, 127, 1]);
}

#[test]
fn channel_mode_clamps() {
    let m = LocalControl::new(500, 500);
    assert_eq!(m.value(), 127);
    assert_eq!(m.channel(), 15);
    assert_eq!(m.pack(), &[0xBF, 122, 127]);
}

#[test]
fn system_exclusive_layout() {
    let m = SystemExclusive::new(&[0x41], &[1, 2, 3]);
    assert_eq!(m.pack(), &[0xF0, 0x41, 1, 2, 3, 0xF7]);
    assert_eq!(m.manufacturer_id(), &[0x41]);
    let m = SystemExclusive::new(&[0x00, 0x20, 0x33], &[9]);
    assert_eq!(m.pack(), &[0xF0, 0x00, 0x20, 0x33, 9, 0xF7]);
    assert_eq!(m.manufacturer_id(), &[0x00, 0x20, 0x33]);
}

#[test]
fn system_exclusive_takes_bytes_above_127() {
    let m = SystemExclusive::new(&[0xFF], &[0x80, 0xFF]);
    assert_eq!(m.pack(), &[0xF0, 0xFF, 0x80, 0xFF, 0xF7]);
}

#[test]
fn system_exclusive_clone_is_equal() {
    let m = SystemExclusive::new(&[0x41], &[1, 2, 3]);
    assert_eq!(m.clone(), m);
}

#[test]
fn time_code_quarter_frame_layout() {
    let m = TimeCodeQuarterFrame::new(3, 5);
    assert_eq!(m.pack(), &[0xF1, 0x35]);
    assert_eq!((m.message_type(), m.values()), (3, 5));
    let m = TimeCodeQuarterFrame::new(8, 16);
    assert_eq!(m.pack(), &[0xF1, 0x7F]);
    assert_eq!((m.message_type(), m.values()), (7, 15));
}

#[test]
fn time_code_quarter_frame_can_be_changed_in_place() {
    let mut m = TimeCodeQuarterFrame::new(1, 2);
    m.change_message_type(6);
    assert_eq!((m.message_type(), m.values()), (6, 2));
    assert_eq!(m.pack(), &[0xF1, 0x62]);
    m.change_values(200);
    assert_eq!((m.message_type(), m.values()), (6, 15));
    assert_eq!(m.pack(), &[0xF1, 0x6F]);
    m.change_message_type(200);
    assert_eq!((m.message_type(), m.values()), (7, 15));
    assert_eq!(m.pack(), &[0xF1, 0x7F]);
}

#[test]
fn song_position_layout() {
    let m = SongPosition::new(257);
    assert_eq!(m.pack(), &[0xF2, 1, 2]);
    assert_eq!(m.midi_beats_elapsed(), 257);
    let m = SongPosition::new(1_000_000);
    assert_eq!(m.pack(), &[0xF2, 127, 127]);
    assert_eq!(m.midi_beats_elapsed(), 16383);
}

#[test]
fn song_position_can_be_changed_in_place() {
    let mut m = SongPosition::new(0);
    m.change_midi_beats_elapsed(300);
    assert_eq!(m.midi_beats_elapsed(), 300);
    assert_eq!(m.pack(), &[0xF2, 44, 2]);
    m.change_midi_beats_elapsed(40000);
    assert_eq!(m.midi_beats_elapsed(), 16383);
}

#[test]
fn song_select_layout() {
    let m = SongSelect::new(12);
    assert_eq!(m.pack(), &[0xF3, 12]);
    assert_eq!(m.number(), 12);
    assert_eq!(SongSelect::new(128).number(), 127);
}

#[test]
fn single_byte_layouts() {
    assert_eq!(TuneRequest::new().pack(), &[0xF6]);
    assert_eq!(EndOfExclusive::new().pack(), &[0xF7]);
    assert_eq!(TimingClock::new().pack(), &[0xF8]);
    assert_eq!(Start::new().pack(), &[0xFA]);
    assert_eq!(Continue::new().pack(), &[0xFB]);
    assert_eq!(Stop::new().pack(), &[0xFC]);
    assert_eq!(ActiveSensing::new().pack(), &[0xFE]);
    assert_eq!(Reset::new().pack(), &[0xFF]);
}

#[test]
fn defaults() {
    assert_eq!(NoteOff::default().pack(), &[0x80, 64, 0]);
    assert_eq!(NoteOn::default().pack(), &[0x90, 64, 0]);
    assert_eq!(PolyAfterTouch::default().pack(), &[0xA0, 64, 127]);
    assert_eq!(ControlChange::default().pack(), &[0xB0, 64, 127]);
    assert_eq!(ProgramChange::default().pack(), &[0xC0, 0]);
    assert_eq!(AfterTouch::default().pack(), &[0xD0, 0]);
    assert_eq!(PitchBend::default().pack(), &[0xE0, 117, 68]);
    assert_eq!(PitchBend::default().bend_amount(), 8821);
    assert_eq!(AllSoundOff::default().pack(), &[0xB0, 120, 127]);
    assert_eq!(ResetAllControllers::default().pack(), &[0xB0, 121, 127]);
    assert_eq!(LocalControl::default().pack(), &[0xB0, 122, 127]);
    assert_eq!(AllNotesOff::default().pack(), &[0xB0, 123, 127]);
    assert_eq!(OmniModeOff::default().pack(), &[0xB0, 124, 127]);
    assert_eq!(OmniModeOn::default().pack(), &[0xB0, 125, 127]);
    assert_eq!(MonoModeOn::default().pack(), &[0xB0, 126, 127]);
    assert_eq!(PolyModeOn::default().pack(), &[0xB0, 127, 127]);
    assert_eq!(SystemExclusive::default().pack(), &[0xF0, 0x01, 0x0, 0x0, 0xF7]);
    assert_eq!(SystemExclusive::default().manufacturer_id(), &[0x01]);
    assert_eq!(TimeCodeQuarterFrame::default().pack(), &[0xF1, 0]);
    assert_eq!(SongPosition::default().pack(), &[0xF2, 0, 0]);
    assert_eq!(SongSelect::default().pack(), &[0xF3, 0]);
    assert_eq!(TuneRequest::default().pack(), &[0xF6]);
    assert_eq!(EndOfExclusive::default().pack(), &[0xF7]);
    assert_eq!(TimingClock::default().pack(), &[0xF8]);
    assert_eq!(Start::default().pack(), &[0xFA]);
    assert_eq!(Continue::default().pack(), &[0xFB]);
    assert_eq!(Stop::default().pack(), &[0xFC]);
    assert_eq!(ActiveSensing::default().pack(), &[0xFE]);
    assert_eq!(Reset::default().pack(), &[0xFF]);
}

#[test]
fn from_takes_over_a_valid_buffer() {
    assert_eq!(NoteOn::from(&[0x91, 2, 3]), NoteOn::new(2, 3, 1));
    assert_eq!(ProgramChange::from(&[0xC1, 2]), ProgramChange::new(2, 1));
    assert_eq!(PitchBend::from(&[0xE1, 2, 3]).bend_amount(), 3 * 128 + 2);
    assert_eq!(AllNotesOff::from(&[0xB1, 123, 3]), AllNotesOff::new(3, 1));
    assert_eq!(SongSelect::from(&[0xF3, 3]), SongSelect::new(3));
    assert_eq!(TimeCodeQuarterFrame::from(&[0xF1, 0x21]), TimeCodeQuarterFrame::new(2, 1));
    assert_eq!(Stop::from(&[0xFC]), Stop::new());
    assert_eq!(
        SystemExclusive::from(&[0xF0, 0x41, 1, 0xF7]),
        SystemExclusive::new(&[0x41], &[1])
    );
}

fn round_trips(message: Message) {
    let bytes = message.pack().to_vec();
    assert_eq!(decode(&bytes), message);
}

#[test]
fn constructed_messages_decode_to_themselves() {
    for channel in [0u64, 1, 7, 15, 16, 999] {
        for a in [0u64, 1, 64, 119, 127, 128, 999] {
            for b in [0u64, 1, 127, 128] {
                round_trips(Message::NoteOff(NoteOff::new(a, b, channel)));
                round_trips(Message::NoteOn(NoteOn::new(a, b, channel)));
                round_trips(Message::PolyAfterTouch(PolyAfterTouch::new(a, b, channel)));
                if a < 120 {
                    round_trips(Message::ControlChange(ControlChange::new(a, b, channel)));
                }
            }
            round_trips(Message::ProgramChange(ProgramChange::new(a, channel)));
            round_trips(Message::AfterTouch(AfterTouch::new(a, channel)));
            round_trips(Message::AllSoundOff(AllSoundOff::new(a, channel)));
            round_trips(Message::ResetAllControllers(ResetAllControllers::new(a, channel)));
            round_trips(Message::LocalControl(LocalControl::new(a, channel)));
            round_trips(Message::AllNotesOff(AllNotesOff::new(a, channel)));
            round_trips(Message::OmniModeOff(OmniModeOff::new(a, channel)));
            round_trips(Message::OmniModeOn(OmniModeOn::new(a, channel)));
            round_trips(Message::MonoModeOn(MonoModeOn::new(a, channel)));
            round_trips(Message::PolyModeOn(PolyModeOn::new(a, channel)));
        }
        for bend in [0u64, 1, 127, 128, 8192, 8821, 16383, 16384, 70000] {
            round_trips(Message::PitchBend(PitchBend::new(bend, channel)));
        }
    }
    for beats in [0u64, 1, 127, 128, 8192, 16383, 16384] {
        round_trips(Message::SongPosition(SongPosition::new(beats)));
    }
    for number in [0u64, 1, 127, 128] {
        round_trips(Message::SongSelect(SongSelect::new(number)));
    }
    for message_type in 0u64..=8 {
        for values in 0u64..=16 {
            round_trips(Message::TimeCodeQuarterFrame(TimeCodeQuarterFrame::new(
                message_type,
                values,
            )));
        }
    }
    round_trips(Message::TuneRequest(TuneRequest::new()));
    round_trips(Message::EndOfExclusive(EndOfExclusive::new()));
    round_trips(Message::TimingClock(TimingClock::new()));
    round_trips(Message::Start(Start::new()));
    round_trips(Message::Continue(Continue::new()));
    round_trips(Message::Stop(Stop::new()));
    round_trips(Message::ActiveSensing(ActiveSensing::new()));
    round_trips(Message::Reset(Reset::new()));
    round_trips(Message::SystemExclusive(SystemExclusive::new(&[0x41], &[1, 2, 3])));
    round_trips(Message::SystemExclusive(SystemExclusive::new(&[0x00, 0x20, 0x33], &[1])));
    round_trips(Message::SystemExclusive(SystemExclusive::default()));
}

#[test]
fn control_change_at_120_shares_its_bytes_with_all_sound_off() {
    let m = ControlChange::new(120, 5, 1);
    assert_eq!(m.note(), 120);
    assert_eq!(decode(m.pack()).kind(), Kind::AllSoundOff);
}

#[test]
fn system_exclusive_with_an_odd_id_does_not_decode_to_itself() {
    let m = SystemExclusive::new(&[1, 2, 3], &[4]);
    match decode(m.pack()) {
        Message::SystemExclusive(back) => {
            assert_eq!(back.manufacturer_id(), &[1]);
            assert_eq!(back.pack(), m.pack());
        }
        other => panic!("unexpected {:?}", other),
    }
    let m = SystemExclusive::new(&[0], &[4, 5]);
    match decode(m.pack()) {
        Message::SystemExclusive(back) => assert_eq!(back.manufacturer_id(), &[0, 4, 5]),
        other => panic!("unexpected {:?}", other),
    }
}

#[test]
fn message_reports_the_kind_it_wraps() {
    assert_eq!(Message::NoteOn(NoteOn::default()).kind(), Kind::NoteOn);
    assert_eq!(Message::Reset(Reset::new()).kind(), Kind::Reset);
    assert_eq!(Message::SystemExclusive(SystemExclusive::default()).kind(), Kind::SystemExclusive);
    assert_eq!(Message::Undefined.kind(), Kind::Undefined);
}

#[test]
fn single_byte_kinds_take_over_their_status_byte() {
    assert_eq!(TuneRequest::from(&[0xF6]).pack(), &[0xF6]);
    assert_eq!(EndOfExclusive::from(&[0xF7]).pack(), &[0xF7]);
    assert_eq!(TimingClock::from(&[0xF8]).pack(), &[0xF8]);
    assert_eq!(Start::from(&[0xFA]).pack(), &[0xFA]);
    assert_eq!(Continue::from(&[0xFB]).pack(), &[0xFB]);
    assert_eq!(Stop::from(&[0xFC]).pack(), &[0xFC]);
    assert_eq!(ActiveSensing::from(&[0xFE]).pack(), &[0xFE]);
    assert_eq!(Reset::from(&[0xFF]).pack(), &[0xFF]);
    assert_eq!(TuneRequest::from(&[0xF6]), TuneRequest::new());
    assert_eq!(Reset::from(&[0xFF]), Reset::default());
}
