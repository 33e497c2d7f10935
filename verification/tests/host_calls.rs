use koto_midi::host::{construct, field_count, parse, usage, PARSE_USAGE};
use koto_midi::{
    collect_list_of_midi_bytes_as_u8, collect_list_of_u64, collect_list_of_u8,
    collect_list_of_value_list, Argument, Kind, Message, MidiMessage, NoteOn, PitchBend,
    SystemExclusive, TuneRequest,
};

fn integers(numbers: &[i64]) -> Vec<Argument> {
    numbers.iter().map(|n| Argument::Integer(*n)).collect()
}

fn list(numbers: &[i64]) -> Argument {
    Argument::List(integers(numbers))
}

#[test]
fn collects_data_bytes() {
    let collected = collect_list_of_midi_bytes_as_u8(&integers(&[0, 1, 127]), "no");
    assert_eq!(collected.unwrap(), vec![0, 1, 127]);
    assert_eq!(collect_list_of_midi_bytes_as_u8(&[], "no").unwrap(), Vec::<u8>::new());
}

#[test]
fn data_bytes_stop_at_127() {
    let refused = collect_list_of_midi_bytes_as_u8(&integers(&[0, 128]), "too large").unwrap_err();
    assert_eq!(refused.message, "too large");
    assert!(collect_list_of_midi_bytes_as_u8(&integers(&[-1]), "no").is_err());
    assert!(collect_list_of_midi_bytes_as_u8(&[Argument::Other], "no").is_err());
    assert!(collect_list_of_midi_bytes_as_u8(&[list(&[1])], "no").is_err());
}

#[test]
fn collects_bytes() {
    assert_eq!(collect_list_of_u8(&integers(&[0, 128, 255]), "no").unwrap(), vec![0, 128, 255]);
    let refused = collect_list_of_u8(&integers(&[1, 256]), "not a byte").unwrap_err();
    assert_eq!(refused.message, "not a byte");
    assert!(collect_list_of_u8(&integers(&[-1]), "no").is_err());
    assert!(collect_list_of_u8(&[Argument::Integer(1), Argument::Other], "no").is_err());
}

#[test]
fn collects_unsigned_numbers() {
    let collected = collect_list_of_u64(&integers(&[0, 1, i64::MAX]), "no").unwrap();
    assert_eq!(collected, vec![0, 1, i64::MAX as u64]);
    let refused = collect_list_of_u64(&integers(&[1, -1]), "negative").unwrap_err();
    assert_eq!(refused.message, "negative");
    assert!(collect_list_of_u64(&[Argument::Other], "no").is_err());
}

#[test]
fn collects_lists() {
    let items = vec![list(&[1]), list(&[]), Argument::List(vec![Argument::Other])];
    let collected = collect_list_of_value_list(&items, "no").unwrap();
    assert_eq!(collected.len(), 3);
    assert_eq!(collected[0].len(), 1);
    assert_eq!(collected[1].len(), 0);
    assert!(matches!(collected[2][0], Argument::Other));
    let refused = collect_list_of_value_list(&[list(&[1]), Argument::Integer(1)], "flat").unwrap_err();
    assert_eq!(refused.message, "flat");
}

#[test]
fn constructs_note_on_from_one_list() {
    let built = construct(Kind::NoteOn, &[list(&[60, 100, 2])]).unwrap().unwrap();
    assert_eq!(built, Message::NoteOn(NoteOn::new(60, 100, 2)));
    let built = construct(Kind::NoteOn, &[list(&[999, 999, 999])]).unwrap().unwrap();
    assert_eq!(built.pack(), &[0x9F, 127, 127]);
}

#[test]
fn constructs_every_kind_with_fields() {
    let cases: Vec<(Kind, Vec<i64>, Vec<u8>)> = vec![
        (Kind::NoteOff, vec![1, 2, 3], vec![0x83, 1, 2]),
        (Kind::NoteOn, vec![1, 2, 3], vec![0x93, 1, 2]),
        (Kind::PolyAfterTouch, vec![1, 2, 3], vec![0xA3, 1, 2]),
        (Kind::ControlChange, vec![1, 2, 3], vec![0xB3, 1, 2]),
        (Kind::ProgramChange, vec![1, 3], vec![0xC3, 1]),
        (Kind::AfterTouch, vec![1, 3], vec![0xD3, 1]),
        (Kind::PitchBend, vec![8821, 3], vec![0xE3, 117, 68]),
        (Kind::AllSoundOff, vec![1, 3], vec![0xB3, 120, 1]),
        (Kind::ResetAllControllers, vec![1, 3], vec![0xB3, 121, 1]),
        (Kind::LocalControl, vec![1, 3], vec![0xB3, 122, 1]),
        (Kind::AllNotesOff, vec![1, 3], vec![0xB3, 123, 1]),
        (Kind::OmniModeOff, vec![1, 3], vec![0xB3, 124, 1]),
        (Kind::OmniModeOn, vec![1, 3], vec![0xB3, 125, 1]),
        (Kind::MonoModeOn, vec![1, 3], vec![0xB3, 126, 1]),
        (Kind::PolyModeOn, vec![1, 3], vec![0xB3, 127, 1]),
        (Kind::TimeCodeQuarterFrame, vec![2, 3], vec![0xF1, 0x23]),
        (Kind::SongPosition, vec![257], vec![0xF2, 1, 2]),
        (Kind::SongSelect, vec![5], vec![0xF3, 5]),
    ];
    for (kind, numbers, bytes) in cases {
        assert_eq!(field_count(kind), numbers.len());
        let built = construct(kind, &[list(&numbers)]).unwrap().unwrap();
        assert_eq!(built.kind(), kind);
        assert_eq!(built.pack(), &bytes[..]);
    }
}

#[test]
fn constructs_every_kind_without_fields() {
    let cases = [
        (Kind::TuneRequest, 0xF6u8),
        (Kind::EndOfExclusive, 0xF7),
        (Kind::TimingClock, 0xF8),
        (Kind::Start, 0xFA),
        (Kind::Continue, 0xFB),
        (Kind::Stop, 0xFC),
        (Kind::ActiveSensing, 0xFE),
        (Kind::Reset, 0xFF),
    ];
    for (kind, status) in cases {
        assert_eq!(field_count(kind), 0);
        let built = construct(kind, &[]).unwrap().unwrap();
        assert_eq!(built.kind(), kind);
        assert_eq!(built.pack(), &[status]);
    }
}

#[test]
fn tune_request_takes_no_argument() {
    assert_eq!(
        construct(Kind::TuneRequest, &[]).unwrap().unwrap(),
        Message::TuneRequest(TuneRequest::new())
    );
    for args in [
        vec![Argument::Integer(1)],
        vec![list(&[])],
        vec![Argument::Other],
        vec![Argument::Integer(1), Argument::Integer(2)],
    ] {
        let refused = construct(Kind::TuneRequest, &args).unwrap_err();
        assert_eq!(refused.message, "tune_request does not take any arguments");
    }
}

#[test]
fn wrong_number_of_fields_is_refused() {
    for numbers in [vec![], vec![1], vec![1, 2], vec![1, 2, 3, 4]] {
        let refused = construct(Kind::NoteOn, &[list(&numbers)]).unwrap_err();
        assert_eq!(
            refused.message,
            "note_on requires a single list of exactly three integers as its argument"
        );
    }
    let refused = construct(Kind::PitchBend, &[list(&[1, 2, 3])]).unwrap_err();
    assert_eq!(
        refused.message,
        "pitch_bend requires a single list of exactly two positive integers as its argument"
    );
    let refused = construct(Kind::SongSelect, &[list(&[])]).unwrap_err();
    assert_eq!(
        refused.message,
        "song_select requires a single list of exactly one positive integer as its argument"
    );
}

#[test]
fn wrong_shape_of_arguments_is_refused() {
    assert!(construct(Kind::NoteOn, &[]).is_err());
    assert!(construct(Kind::NoteOn, &[Argument::Integer(1)]).is_err());
    assert!(construct(Kind::NoteOn, &[Argument::Other]).is_err());
    assert!(construct(Kind::NoteOn, &[list(&[1, 2, 3]), list(&[1, 2, 3])]).is_err());
    assert!(construct(Kind::NoteOn, &integers(&[1, 2, 3])).is_err());
}

#[test]
fn a_list_with_anything_but_numbers_gives_nothing() {
    let mixed = Argument::List(vec![Argument::Integer(1), Argument::Other, Argument::Integer(2)]);
    assert_eq!(construct(Kind::NoteOn, &[mixed]).unwrap(), None);
    assert_eq!(construct(Kind::NoteOn, &[list(&[1, -2, 3])]).unwrap(), None);
    assert_eq!(construct(Kind::SongSelect, &[list(&[-1, 5])]).unwrap(), None);
    let nested = Argument::List(vec![list(&[1])]);
    assert_eq!(construct(Kind::ProgramChange, &[nested]).unwrap(), None);
}

#[test]
fn constructs_system_exclusive_from_two_lists() {
    let built = construct(Kind::SystemExclusive, &[list(&[0x41]), list(&[1, 2, 255])])
        .unwrap()
        .unwrap();
    assert_eq!(built, Message::SystemExclusive(SystemExclusive::new(&[0x41], &[1, 2, 255])));
    assert_eq!(built.pack(), &[0xF0, 0x41, 1, 2, 255, 0xF7]);
    let built = construct(Kind::SystemExclusive, &[list(&[0, 1, 2]), list(&[9])])
        .unwrap()
        .unwrap();
    assert_eq!(built.pack(), &[0xF0, 0, 1, 2, 9, 0xF7]);
}

#[test]
fn system_exclusive_refuses_a_wrong_shape() {
    let sentence = "system_exclusive requires a list with single or 3 bytes for its first argument and a list with one or more bytes for its second argument";
    assert_eq!(usage(Kind::SystemExclusive), sentence);
    let refusals = [
        vec![],
        vec![list(&[1])],
        vec![list(&[1]), list(&[1]), list(&[1])],
        vec![list(&[1, 2]), list(&[1])],
        vec![list(&[]), list(&[1])],
        vec![list(&[1, 2, 3, 4]), list(&[1])],
        vec![list(&[1]), list(&[])],
        vec![list(&[256]), list(&[1])],
        vec![list(&[1]), list(&[1, 256])],
        vec![list(&[-1]), list(&[1])],
        vec![Argument::List(vec![Argument::Other]), list(&[1])],
    ];
    for args in refusals {
        let refused = construct(Kind::SystemExclusive, &args).unwrap_err();
        assert_eq!(refused.message, sentence);
    }
}

#[test]
fn system_exclusive_gives_nothing_for_an_argument_that_is_no_list() {
    assert_eq!(
        construct(Kind::SystemExclusive, &[Argument::Integer(1), list(&[1])]).unwrap(),
        None
    );
    assert_eq!(construct(Kind::SystemExclusive, &[list(&[1]), Argument::Other]).unwrap(), None);
}

#[test]
fn parses_one_list_of_bytes() {
    let parsed = parse(&[list(&[0xE0, 117, 68])]).unwrap();
    assert_eq!(parsed, Message::PitchBend(PitchBend::new(8821, 0)));
    let parsed = parse(&[list(&[0x90, 1])]).unwrap();
    assert_eq!(parsed, Message::Malformed);
    let parsed = parse(&[list(&[0xF4, 1, 2])]).unwrap();
    assert_eq!(parsed, Message::Undefined);
}

#[test]
fn parse_takes_anything_but_bytes_as_malformed() {
    assert_eq!(parse(&[list(&[0x90, 256, 1])]).unwrap(), Message::Malformed);
    assert_eq!(parse(&[list(&[0x90, -1, 1])]).unwrap(), Message::Malformed);
    let mixed = Argument::List(vec![Argument::Integer(0x90), Argument::Other]);
    assert_eq!(parse(&[mixed]).unwrap(), Message::Malformed);
}

#[test]
fn parse_refuses_a_wrong_shape() {
    for args in [
        vec![],
        vec![Argument::Integer(0x90)],
        vec![Argument::Other],
        vec![list(&[0xF8]), list(&[0xF8])],
        vec![list(&[])],
    ] {
        let refused = parse(&args).unwrap_err();
        assert_eq!(refused.message, PARSE_USAGE);
    }
    assert_eq!(
        PARSE_USAGE,
        "parse requires a single list of one or more positive integers as its argument"
    );
}

#[test]
fn usage_names_the_kind() {
    assert_eq!(
        usage(Kind::NoteOff),
        "note_off requires a single list of exactly three integers as its argument"
    );
    assert_eq!(
        usage(Kind::AllSoundOff),
        "all_sound_off requires a single list of exactly two positive integers as its argument"
    );
    assert_eq!(
        usage(Kind::SongPosition),
        "song_position requires a single list of exactly one positive integer as its argument"
    );
    assert_eq!(usage(Kind::Reset), "reset does not take any arguments");
    for kind in Kind::all() {
        if kind.is_concrete() {
            assert!(usage(kind).starts_with(kind.name()));
        }
    }
}
