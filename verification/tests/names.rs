use koto_midi::kind::{category_names, type_names};
use koto_midi::naming::append_piece;
use koto_midi::{pascal_case_to_underscore_separated_literal, Category, Kind};

#[test]
fn lists_every_kind_name() {
    assert_eq!(
        type_names(),
        vec![
            "note_off",
            "note_on",
            "poly_after_touch",
            "control_change",
            "program_change",
            "after_touch",
            "pitch_bend",
            "all_sound_off",
            "reset_all_controllers",
            "local_control",
            "all_notes_off",
            "omni_mode_off",
            "omni_mode_on",
            "mono_mode_on",
            "poly_mode_on",
            "system_exclusive",
            "time_code_quarter_frame",
            "song_position",
            "song_select",
            "tune_request",
            "end_of_exclusive",
            "timing_clock",
            "start",
            "continue",
            "stop",
            "active_sensing",
            "reset",
            "undefined",
            "malformed",
        ]
    );
}

#[test]
fn lists_every_category_name() {
    assert_eq!(
        category_names(),
        vec!["channel_voice", "channel_mode", "system_common", "system_realtime", "unknown"]
    );
}

#[test]
fn kinds_are_listed_once() {
    let kinds = Kind::all();
    assert_eq!(kinds.len(), 29);
    for (i, a) in kinds.iter().enumerate() {
        for (j, b) in kinds.iter().enumerate() {
            assert_eq!(i == j, a == b);
            assert_eq!(i == j, a.name() == b.name());
        }
    }
    assert_eq!(kinds.iter().filter(|kind| kind.is_concrete()).count(), 27);
}

#[test]
fn categories_are_listed_once() {
    let categories = Category::all();
    assert_eq!(categories.len(), 5);
    for (i, a) in categories.iter().enumerate() {
        for (j, b) in categories.iter().enumerate() {
            assert_eq!(i == j, a == b);
        }
    }
}

#[test]
fn only_the_sentinels_are_of_unknown_category() {
    for kind in Kind::all() {
        assert_eq!(kind.category() == Category::Unknown, !kind.is_concrete());
    }
    assert_eq!(Kind::ControlChange.category(), Category::ChannelVoice);
    assert_eq!(Kind::AllSoundOff.category(), Category::ChannelMode);
    assert_eq!(Kind::EndOfExclusive.category(), Category::SystemCommon);
    assert_eq!(Kind::Reset.category(), Category::SystemRealtime);
}

#[test]
fn rewrites_capitals_into_underscores() {
    assert_eq!(pascal_case_to_underscore_separated_literal("NoteOff"), "note_off");
    assert_eq!(
        pascal_case_to_underscore_separated_literal("TimeCodeQuarterFrame"),
        "time_code_quarter_frame"
    );
    assert_eq!(pascal_case_to_underscore_separated_literal("Reset"), "reset");
    assert_eq!(pascal_case_to_underscore_separated_literal("reset"), "reset");
    assert_eq!(pascal_case_to_underscore_separated_literal(""), "");
    assert_eq!(pascal_case_to_underscore_separated_literal("ABC"), "a_b_c");
    assert_eq!(pascal_case_to_underscore_separated_literal("aB"), "a_b");
    assert_eq!(pascal_case_to_underscore_separated_literal("note_3Off"), "note_3_off");
}

#[test]
fn rewrites_capitals_outside_ascii() {
    assert_eq!(pascal_case_to_underscore_separated_literal("ÉtéÉté"), "été_été");
    assert_eq!(pascal_case_to_underscore_separated_literal("aİ"), "a_i\u{307}");
}

#[test]
fn kind_names_follow_from_their_spelling_in_code() {
    for kind in Kind::all() {
        let spelled = format!("{:?}", kind);
        assert_eq!(pascal_case_to_underscore_separated_literal(&spelled), kind.name());
    }
}

#[test]
fn appends_one_piece() {
    let mut literal = String::from("note");
    append_piece(&mut literal, 'O', false, true, "o");
    assert_eq!(literal, "note_o");
    append_piece(&mut literal, 'f', false, false, "");
    assert_eq!(literal, "note_of");
    let mut literal = String::new();
    append_piece(&mut literal, 'N', true, true, "n");
    assert_eq!(literal, "n");
    let mut literal = String::new();
    append_piece(&mut literal, 'n', true, false, "ignored");
    assert_eq!(literal, "n");
    let mut literal = String::from("a");
    append_piece(&mut literal, 'X', false, true, "xyz");
    assert_eq!(literal, "a_xyz");
}
