//! What a scripting host hands to the codec and what it gets back: lists of
//! loosely typed values in, a message or a refusal out.
//!
//! A host calls a constructor by the kind's name with the numbers of its
//! fields in one list, or the parser with one list of bytes. Numbers out of
//! range are capped; arguments of the wrong shape are refused with a sentence
//! that says what the call requires.

use vstd::prelude::*;
use crate::kind::Kind;
use crate::message::{
    ActiveSensing, AfterTouch, AllNotesOff, AllSoundOff, Continue, ControlChange, EndOfExclusive,
    LocalControl, Message, MonoModeOn, NoteOff, NoteOn, OmniModeOff, OmniModeOn, ParsedMessage,
    PitchBend, PolyAfterTouch, PolyModeOn, ProgramChange, Reset, ResetAllControllers, SongPosition,
    SongSelect, Start, Stop, SystemExclusive, TimeCodeQuarterFrame, TimingClock, TuneRequest,
};
use crate::model::{decode, exclusive_wire, MessageView};
use crate::wire::{
    at_most, CHANNEL_MAX, DATA_MAX, FRAME_TYPE_MAX, FRAME_VALUE_MAX, WIDE_MAX,
};

verus! {

/// A value of the host, as far as the codec looks at it.
#[derive(Debug)]
pub enum Argument {
    /// A whole number.
    Integer(i64),
    /// A list of values.
    List(Vec<Argument>),
    /// Anything else.
    Other,
}

/// The refusal of a call whose arguments have the wrong shape.
#[derive(Debug)]
pub struct ArgumentError {
    /// What the call requires, in words.
    pub message: String,
}

/// What a call of the host comes to.
pub enum Outcome {
    /// The call gives this message.
    Built(MessageView),
    /// The call gives the host's empty value.
    Nothing,
    /// The call is refused.
    Refused,
}

/// What the parser requires, in words.
pub const PARSE_USAGE: &'static str =
    "parse requires a single list of one or more positive integers as its argument";

/// Whether `item` is a whole number from 0 to `limit`.
pub open spec fn is_integer_up_to(item: Argument, limit: int) -> bool {
    item matches Argument::Integer(number) && 0 <= number <= limit
}

/// Whether every item is a whole number from 0 to `limit`.
pub open spec fn all_integers_up_to(items: Seq<Argument>, limit: int) -> bool {
    forall|i: int| 0 <= i < items.len() ==> is_integer_up_to(#[trigger] items[i], limit)
}

/// Whether every item is a list.
pub open spec fn all_lists(items: Seq<Argument>) -> bool {
    forall|i: int| 0 <= i < items.len() ==> (#[trigger] items[i]) is List
}

/// The items of a list of whole numbers, as unsigned numbers.
pub open spec fn numbers_of(items: Seq<Argument>) -> Seq<u64>
    recommends
        all_integers_up_to(items, i64::MAX as int),
{
    Seq::new(items.len(), |i: int| items[i]->Integer_0 as u64)
}

/// The items of a list of whole numbers below 256, as bytes.
pub open spec fn bytes_of(items: Seq<Argument>) -> Seq<u8>
    recommends
        all_integers_up_to(items, 255),
{
    Seq::new(items.len(), |i: int| items[i]->Integer_0 as u8)
}

/// How many arguments the constructor of a kind reads: the numbers of its
/// fields, or the two lists of a system-exclusive message.
pub open spec fn spec_field_count(kind: Kind) -> nat {
    match kind {
        Kind::NoteOff | Kind::NoteOn | Kind::PolyAfterTouch | Kind::ControlChange => 3,
        Kind::ProgramChange
        | Kind::AfterTouch
        | Kind::PitchBend
        | Kind::AllSoundOff
        | Kind::ResetAllControllers
        | Kind::LocalControl
        | Kind::AllNotesOff
        | Kind::OmniModeOff
        | Kind::OmniModeOn
        | Kind::MonoModeOn
        | Kind::PolyModeOn
        | Kind::SystemExclusive
        | Kind::TimeCodeQuarterFrame => 2,
        Kind::SongPosition | Kind::SongSelect => 1,
        _ => 0,
    }
}

/// What the constructor of a kind requires, in words.
pub open spec fn spec_usage(kind: Kind) -> &'static str
    recommends
        kind.spec_is_concrete(),
{
    match kind {
        Kind::NoteOff => "note_off requires a single list of exactly three integers as its argument",
        Kind::NoteOn => "note_on requires a single list of exactly three integers as its argument",
        Kind::PolyAfterTouch => "poly_after_touch requires a single list of exactly three integers as its argument",
        Kind::ControlChange => "control_change requires a single list of exactly three integers as its argument",
        Kind::ProgramChange => "program_change requires a single list of exactly two positive integers as its argument",
        Kind::AfterTouch => "after_touch requires a single list of exactly two positive integers as its argument",
        Kind::PitchBend => "pitch_bend requires a single list of exactly two positive integers as its argument",
        Kind::AllSoundOff => "all_sound_off requires a single list of exactly two positive integers as its argument",
        Kind::ResetAllControllers => "reset_all_controllers requires a single list of exactly two positive integers as its argument",
        Kind::LocalControl => "local_control requires a single list of exactly two positive integers as its argument",
        Kind::AllNotesOff => "all_notes_off requires a single list of exactly two positive integers as its argument",
        Kind::OmniModeOff => "omni_mode_off requires a single list of exactly two positive integers as its argument",
        Kind::OmniModeOn => "omni_mode_on requires a single list of exactly two positive integers as its argument",
        Kind::MonoModeOn => "mono_mode_on requires a single list of exactly two positive integers as its argument",
        Kind::PolyModeOn => "poly_mode_on requires a single list of exactly two positive integers as its argument",
        Kind::SystemExclusive => "system_exclusive requires a list with single or 3 bytes for its first argument and a list with one or more bytes for its second argument",
        Kind::TimeCodeQuarterFrame => "time_code_quarter_frame requires a single list of exactly two positive integers as its argument",
        Kind::SongPosition => "song_position requires a single list of exactly one positive integer as its argument",
        Kind::SongSelect => "song_select requires a single list of exactly one positive integer as its argument",
        Kind::TuneRequest => "tune_request does not take any arguments",
        Kind::EndOfExclusive => "end_of_exclusive does not take any arguments",
        Kind::TimingClock => "timing_clock does not take any arguments",
        Kind::Start => "start does not take any arguments",
        Kind::Continue => "continue does not take any arguments",
        Kind::Stop => "stop does not take any arguments",
        Kind::ActiveSensing => "active_sensing does not take any arguments",
        Kind::Reset => "reset does not take any arguments",
        _ => "",
    }
}

/// The message that the constructor of `kind` builds from the numbers of its
/// fields, each capped at the top of its range.
pub open spec fn built(kind: Kind, numbers: Seq<u64>) -> MessageView
    recommends
        kind.spec_is_concrete(),
        kind != Kind::SystemExclusive,
        numbers.len() == spec_field_count(kind),
{
    match kind {
        Kind::NoteOff => MessageView::NoteOff {
            note: at_most(numbers[0], DATA_MAX as u64) as u8,
            velocity: at_most(numbers[1], DATA_MAX as u64) as u8,
            channel: at_most(numbers[2], CHANNEL_MAX as u64) as u8,
        },
        Kind::NoteOn => MessageView::NoteOn {
            note: at_most(numbers[0], DATA_MAX as u64) as u8,
            velocity: at_most(numbers[1], DATA_MAX as u64) as u8,
            channel: at_most(numbers[2], CHANNEL_MAX as u64) as u8,
        },
        Kind::PolyAfterTouch => MessageView::PolyAfterTouch {
            note: at_most(numbers[0], DATA_MAX as u64) as u8,
            pressure: at_most(numbers[1], DATA_MAX as u64) as u8,
            channel: at_most(numbers[2], CHANNEL_MAX as u64) as u8,
        },
        Kind::ControlChange => MessageView::ControlChange {
            note: at_most(numbers[0], DATA_MAX as u64) as u8,
            value: at_most(numbers[1], DATA_MAX as u64) as u8,
            channel: at_most(numbers[2], CHANNEL_MAX as u64) as u8,
        },
        Kind::ProgramChange => MessageView::ProgramChange {
            program: at_most(numbers[0], DATA_MAX as u64) as u8,
            channel: at_most(numbers[1], CHANNEL_MAX as u64) as u8,
        },
        Kind::AfterTouch => MessageView::AfterTouch {
            pressure: at_most(numbers[0], DATA_MAX as u64) as u8,
            channel: at_most(numbers[1], CHANNEL_MAX as u64) as u8,
        },
        Kind::PitchBend => MessageView::PitchBend {
            bend_amount: at_most(numbers[0], WIDE_MAX as u64) as u16,
            channel: at_most(numbers[1], CHANNEL_MAX as u64) as u8,
        },
        Kind::AllSoundOff => MessageView::AllSoundOff {
            value: at_most(numbers[0], DATA_MAX as u64) as u8,
            channel: at_most(numbers[1], CHANNEL_MAX as u64) as u8,
        },
        Kind::ResetAllControllers => MessageView::ResetAllControllers {
            value: at_most(numbers[0], DATA_MAX as u64) as u8,
            channel: at_most(numbers[1], CHANNEL_MAX as u64) as u8,
        },
        Kind::LocalControl => MessageView::LocalControl {
            value: at_most(numbers[0], DATA_MAX as u64) as u8,
            channel: at_most(numbers[1], CHANNEL_MAX as u64) as u8,
        },
        Kind::AllNotesOff => MessageView::AllNotesOff {
            value: at_most(numbers[0], DATA_MAX as u64) as u8,
            channel: at_most(numbers[1], CHANNEL_MAX as u64) as u8,
        },
        Kind::OmniModeOff => MessageView::OmniModeOff {
            value: at_most(numbers[0], DATA_MAX as u64) as u8,
            channel: at_most(numbers[1], CHANNEL_MAX as u64) as u8,
        },
        Kind::OmniModeOn => MessageView::OmniModeOn {
            value: at_most(numbers[0], DATA_MAX as u64) as u8,
            channel: at_most(numbers[1], CHANNEL_MAX as u64) as u8,
        },
        Kind::MonoModeOn => MessageView::MonoModeOn {
            value: at_most(numbers[0], DATA_MAX as u64) as u8,
            channel: at_most(numbers[1], CHANNEL_MAX as u64) as u8,
        },
        Kind::PolyModeOn => MessageView::PolyModeOn {
            value: at_most(numbers[0], DATA_MAX as u64) as u8,
            channel: at_most(numbers[1], CHANNEL_MAX as u64) as u8,
        },
        Kind::TimeCodeQuarterFrame => MessageView::TimeCodeQuarterFrame {
            message_type: at_most(numbers[0], FRAME_TYPE_MAX as u64) as u8,
            values: at_most(numbers[1], FRAME_VALUE_MAX as u64) as u8,
        },
        Kind::SongPosition => MessageView::SongPosition {
            midi_beats_elapsed: at_most(numbers[0], WIDE_MAX as u64) as u16,
        },
        Kind::SongSelect => MessageView::SongSelect { number: at_most(numbers[0], DATA_MAX as u64) as u8 },
        Kind::TuneRequest => MessageView::TuneRequest,
        Kind::EndOfExclusive => MessageView::EndOfExclusive,
        Kind::TimingClock => MessageView::TimingClock,
        Kind::Start => MessageView::Start,
        Kind::Continue => MessageView::Continue,
        Kind::Stop => MessageView::Stop,
        Kind::ActiveSensing => MessageView::ActiveSensing,
        Kind::Reset => MessageView::Reset,
        _ => MessageView::Malformed,
    }
}

/// What the constructor of a system-exclusive message comes to: it takes a
/// list of one or three bytes and a list of at least one byte.
pub open spec fn exclusive_outcome(args: Seq<Argument>) -> Outcome {
    if args.len() != 2 {
        Outcome::Refused
    } else if !all_lists(args) {
        Outcome::Nothing
    } else {
        let manufacturer_id = args[0]->List_0@;
        let payload = args[1]->List_0@;
        if manufacturer_id.len() != 1 && manufacturer_id.len() != 3 {
            Outcome::Refused
        } else if payload.len() == 0 {
            Outcome::Refused
        } else if !all_integers_up_to(manufacturer_id, 255) || !all_integers_up_to(payload, 255) {
            Outcome::Refused
        } else {
            Outcome::Built(
                MessageView::SystemExclusive {
                    manufacturer_id: bytes_of(manufacturer_id),
                    bytes: exclusive_wire(bytes_of(manufacturer_id), bytes_of(payload)),
                },
            )
        }
    }
}

/// What the constructor of a concrete kind comes to. A kind without fields
/// takes no argument at all. A kind with fields takes one list: a list that
/// holds anything but whole numbers from 0 up gives nothing, one of the wrong
/// length is refused.
pub open spec fn construct_outcome(kind: Kind, args: Seq<Argument>) -> Outcome
    recommends
        kind.spec_is_concrete(),
{
    if kind == Kind::SystemExclusive {
        exclusive_outcome(args)
    } else if spec_field_count(kind) == 0 {
        if args.len() == 0 {
            Outcome::Built(built(kind, Seq::empty()))
        } else {
            Outcome::Refused
        }
    } else if args.len() == 1 && args[0] is List {
        let items = args[0]->List_0@;
        if !all_integers_up_to(items, i64::MAX as int) {
            Outcome::Nothing
        } else if items.len() != spec_field_count(kind) {
            Outcome::Refused
        } else {
            Outcome::Built(built(kind, numbers_of(items)))
        }
    } else {
        Outcome::Refused
    }
}

/// What the parser comes to. It takes one list. A list that holds anything
/// but bytes is malformed; an empty list is refused; any other is decoded.
pub open spec fn parse_outcome(args: Seq<Argument>) -> Outcome {
    if args.len() == 1 && args[0] is List {
        let items = args[0]->List_0@;
        if !all_integers_up_to(items, 255) {
            Outcome::Built(MessageView::Malformed)
        } else if items.len() == 0 {
            Outcome::Refused
        } else {
            Outcome::Built(decode(bytes_of(items)))
        }
    } else {
        Outcome::Refused
    }
}

/// Reads `item` as a whole number from 0 to `limit`.
fn integer_up_to(item: &Argument, limit: i64) -> (number: Option<i64>)
    ensures
        number is Some <==> is_integer_up_to(*item, limit as int),
        number matches Some(n) ==> *item == Argument::Integer(n),
{
    match item {
        Argument::Integer(number) => {
            if *number >= 0 && *number <= limit {
                Some(*number)
            } else {
                None
            }
        },
        _ => None,
    }
}

/// Makes the refusal that carries `error`.
fn refusal(error: &str) -> (refused: ArgumentError)
    ensures
        refused.message@ == error@,
{
    ArgumentError { message: error.to_owned() }
}

/// Reads a list of data bytes: whole numbers from 0 to 127. One item that is
/// not such a number refuses the whole list with `error`.
pub fn collect_list_of_midi_bytes_as_u8(message: &[Argument], error: &str) -> (collected: Result<
    Vec<u8>,
    ArgumentError,
>)
    ensures
        collected is Ok <==> all_integers_up_to(message@, 127),
        collected matches Ok(bytes) ==> bytes@ == bytes_of(message@),
        collected matches Err(refused) ==> refused.message@ == error@,
{
    let mut bytes: Vec<u8> = Vec::new();
    let mut index: usize = 0;
    while index < message.len()
        invariant
            index <= message@.len(),
            bytes@.len() == index,
            forall|i: int| 0 <= i < index ==> is_integer_up_to(#[trigger] message@[i], 127),
            forall|i: int| 0 <= i < index ==> #[trigger] bytes@[i] == message@[i]->Integer_0 as u8,
        decreases message@.len() - index,
    {
        match integer_up_to(&message[index], 127) {
            Some(number) => {
                bytes.push(number as u8);
            },
            None => {
                return Err(refusal(error));
            },
        }
        index += 1;
    }
    proof {
        assert(bytes@ =~= bytes_of(message@));
    }
    Ok(bytes)
}

/// Reads a list of bytes: whole numbers from 0 to 255. One item that is not
/// such a number refuses the whole list with `error`.
pub fn collect_list_of_u8(message: &[Argument], error: &str) -> (collected: Result<
    Vec<u8>,
    ArgumentError,
>)
    ensures
        collected is Ok <==> all_integers_up_to(message@, 255),
        collected matches Ok(bytes) ==> bytes@ == bytes_of(message@),
        collected matches Err(refused) ==> refused.message@ == error@,
{
    let mut bytes: Vec<u8> = Vec::new();
    let mut index: usize = 0;
    while index < message.len()
        invariant
            index <= message@.len(),
            bytes@.len() == index,
            forall|i: int| 0 <= i < index ==> is_integer_up_to(#[trigger] message@[i], 255),
            forall|i: int| 0 <= i < index ==> #[trigger] bytes@[i] == message@[i]->Integer_0 as u8,
        decreases message@.len() - index,
    {
        match integer_up_to(&message[index], 255) {
            Some(number) => {
                bytes.push(number as u8);
            },
            None => {
                return Err(refusal(error));
            },
        }
        index += 1;
    }
    proof {
        assert(bytes@ =~= bytes_of(message@));
    }
    Ok(bytes)
}

/// Reads a list of whole numbers from 0 up. One item that is not such a
/// number refuses the whole list with `error`.
pub fn collect_list_of_u64(message: &[Argument], error: &str) -> (collected: Result<
    Vec<u64>,
    ArgumentError,
>)
    ensures
        collected is Ok <==> all_integers_up_to(message@, i64::MAX as int),
        collected matches Ok(numbers) ==> numbers@ == numbers_of(message@),
        collected matches Err(refused) ==> refused.message@ == error@,
{
    let mut numbers: Vec<u64> = Vec::new();
    let mut index: usize = 0;
    while index < message.len()
        invariant
            index <= message@.len(),
            numbers@.len() == index,
            forall|i: int|
                0 <= i < index ==> is_integer_up_to(#[trigger] message@[i], i64::MAX as int),
            forall|i: int|
                0 <= i < index ==> #[trigger] numbers@[i] == message@[i]->Integer_0 as u64,
        decreases message@.len() - index,
    {
        match integer_up_to(&message[index], i64::MAX) {
            Some(number) => {
                numbers.push(number as u64);
            },
            None => {
                return Err(refusal(error));
            },
        }
        index += 1;
    }
    proof {
        assert(numbers@ =~= numbers_of(message@));
    }
    Ok(numbers)
}

/// Reads a list of lists. One item that is not a list refuses the whole list
/// with `error`.
pub fn collect_list_of_value_list<'a>(message: &'a [Argument], error: &str) -> (collected: Result<
    Vec<&'a Vec<Argument>>,
    ArgumentError,
>)
    ensures
        collected is Ok <==> all_lists(message@),
        collected matches Ok(lists) ==> lists@.len() == message@.len() && forall|i: int|
            0 <= i < lists@.len() ==> message@[i] == Argument::List(*#[trigger] lists@[i]),
        collected matches Err(refused) ==> refused.message@ == error@,
{
    let mut lists: Vec<&'a Vec<Argument>> = Vec::new();
    let mut index: usize = 0;
    while index < message.len()
        invariant
            index <= message@.len(),
            lists@.len() == index,
            forall|i: int| 0 <= i < index ==> (#[trigger] message@[i]) is List,
            forall|i: int|
                0 <= i < index ==> message@[i] == Argument::List(*#[trigger] lists@[i]),
        decreases message@.len() - index,
    {
        match &message[index] {
            Argument::List(list) => {
                lists.push(list);
            },
            _ => {
                return Err(refusal(error));
            },
        }
        index += 1;
    }
    Ok(lists)
}

/// How many arguments the constructor of a kind reads.
pub fn field_count(kind: Kind) -> (count: usize)
    ensures
        count == spec_field_count(kind),
{
    match kind {
        Kind::NoteOff | Kind::NoteOn | Kind::PolyAfterTouch | Kind::ControlChange => 3,
        Kind::ProgramChange
        | Kind::AfterTouch
        | Kind::PitchBend
        | Kind::AllSoundOff
        | Kind::ResetAllControllers
        | Kind::LocalControl
        | Kind::AllNotesOff
        | Kind::OmniModeOff
        | Kind::OmniModeOn
        | Kind::MonoModeOn
        | Kind::PolyModeOn
        | Kind::SystemExclusive
        | Kind::TimeCodeQuarterFrame => 2,
        Kind::SongPosition | Kind::SongSelect => 1,
        _ => 0,
    }
}

/// What the constructor of a kind requires, in words.
pub fn usage(kind: Kind) -> (sentence: &'static str)
    requires
        kind.spec_is_concrete(),
    ensures
        sentence@ == spec_usage(kind)@,
{
    match kind {
        Kind::NoteOff => "note_off requires a single list of exactly three integers as its argument",
        Kind::NoteOn => "note_on requires a single list of exactly three integers as its argument",
        Kind::PolyAfterTouch => "poly_after_touch requires a single list of exactly three integers as its argument",
        Kind::ControlChange => "control_change requires a single list of exactly three integers as its argument",
        Kind::ProgramChange => "program_change requires a single list of exactly two positive integers as its argument",
        Kind::AfterTouch => "after_touch requires a single list of exactly two positive integers as its argument",
        Kind::PitchBend => "pitch_bend requires a single list of exactly two positive integers as its argument",
        Kind::AllSoundOff => "all_sound_off requires a single list of exactly two positive integers as its argument",
        Kind::ResetAllControllers => "reset_all_controllers requires a single list of exactly two positive integers as its argument",
        Kind::LocalControl => "local_control requires a single list of exactly two positive integers as its argument",
        Kind::AllNotesOff => "all_notes_off requires a single list of exactly two positive integers as its argument",
        Kind::OmniModeOff => "omni_mode_off requires a single list of exactly two positive integers as its argument",
        Kind::OmniModeOn => "omni_mode_on requires a single list of exactly two positive integers as its argument",
        Kind::MonoModeOn => "mono_mode_on requires a single list of exactly two positive integers as its argument",
        Kind::PolyModeOn => "poly_mode_on requires a single list of exactly two positive integers as its argument",
        Kind::SystemExclusive => "system_exclusive requires a list with single or 3 bytes for its first argument and a list with one or more bytes for its second argument",
        Kind::TimeCodeQuarterFrame => "time_code_quarter_frame requires a single list of exactly two positive integers as its argument",
        Kind::SongPosition => "song_position requires a single list of exactly one positive integer as its argument",
        Kind::SongSelect => "song_select requires a single list of exactly one positive integer as its argument",
        Kind::TuneRequest => "tune_request does not take any arguments",
        Kind::EndOfExclusive => "end_of_exclusive does not take any arguments",
        Kind::TimingClock => "timing_clock does not take any arguments",
        Kind::Start => "start does not take any arguments",
        Kind::Continue => "continue does not take any arguments",
        Kind::Stop => "stop does not take any arguments",
        Kind::ActiveSensing => "active_sensing does not take any arguments",
        Kind::Reset => "reset does not take any arguments",
        _ => "",
    }
}

/// Builds the message of `kind` from the numbers of its fields.
fn build(kind: Kind, numbers: &Vec<u64>) -> (message: Message)
    requires
        kind.spec_is_concrete(),
        kind != Kind::SystemExclusive,
        numbers@.len() == spec_field_count(kind),
    ensures
        message@ == built(kind, numbers@),
{
    match kind {
        Kind::NoteOff => Message::NoteOff(NoteOff::new(numbers[0], numbers[1], numbers[2])),
        Kind::NoteOn => Message::NoteOn(NoteOn::new(numbers[0], numbers[1], numbers[2])),
        Kind::PolyAfterTouch => Message::PolyAfterTouch(PolyAfterTouch::new(numbers[0], numbers[1], numbers[2])),
        Kind::ControlChange => Message::ControlChange(ControlChange::new(numbers[0], numbers[1], numbers[2])),
        Kind::ProgramChange => Message::ProgramChange(ProgramChange::new(numbers[0], numbers[1])),
        Kind::AfterTouch => Message::AfterTouch(AfterTouch::new(numbers[0], numbers[1])),
        Kind::PitchBend => Message::PitchBend(PitchBend::new(numbers[0], numbers[1])),
        Kind::AllSoundOff => Message::AllSoundOff(AllSoundOff::new(numbers[0], numbers[1])),
        Kind::ResetAllControllers => Message::ResetAllControllers(ResetAllControllers::new(numbers[0], numbers[1])),
        Kind::LocalControl => Message::LocalControl(LocalControl::new(numbers[0], numbers[1])),
        Kind::AllNotesOff => Message::AllNotesOff(AllNotesOff::new(numbers[0], numbers[1])),
        Kind::OmniModeOff => Message::OmniModeOff(OmniModeOff::new(numbers[0], numbers[1])),
        Kind::OmniModeOn => Message::OmniModeOn(OmniModeOn::new(numbers[0], numbers[1])),
        Kind::MonoModeOn => Message::MonoModeOn(MonoModeOn::new(numbers[0], numbers[1])),
        Kind::PolyModeOn => Message::PolyModeOn(PolyModeOn::new(numbers[0], numbers[1])),
        Kind::TimeCodeQuarterFrame => Message::TimeCodeQuarterFrame(TimeCodeQuarterFrame::new(numbers[0], numbers[1])),
        Kind::SongPosition => Message::SongPosition(SongPosition::new(numbers[0])),
        Kind::SongSelect => Message::SongSelect(SongSelect::new(numbers[0])),
        Kind::TuneRequest => Message::TuneRequest(TuneRequest::default()),
        Kind::EndOfExclusive => Message::EndOfExclusive(EndOfExclusive::default()),
        Kind::TimingClock => Message::TimingClock(TimingClock::default()),
        Kind::Start => Message::Start(Start::default()),
        Kind::Continue => Message::Continue(Continue::default()),
        Kind::Stop => Message::Stop(Stop::default()),
        Kind::ActiveSensing => Message::ActiveSensing(ActiveSensing::default()),
        Kind::Reset => Message::Reset(Reset::default()),
        _ => Message::Malformed,
    }
}

/// The constructor of a system-exclusive message, as the host calls it.
fn construct_exclusive(args: &[Argument]) -> (constructed: Result<Option<Message>, ArgumentError>)
    ensures
        constructed matches Ok(Some(message)) ==> exclusive_outcome(args@) == Outcome::Built(
            message@,
        ),
        constructed matches Ok(None) ==> exclusive_outcome(args@) == Outcome::Nothing,
        constructed matches Err(refused) ==> exclusive_outcome(args@) == Outcome::Refused
            && refused.message@ == spec_usage(Kind::SystemExclusive)@,
{
    let error: &'static str = usage(Kind::SystemExclusive);
    if args.len() != 2 {
        return Err(refusal(error));
    }
    let lists = match collect_list_of_value_list(args, error) {
        Ok(lists) => lists,
        Err(_) => {
            return Ok(None);
        },
    };
    let manufacturer_id: &Vec<Argument> = lists[0];
    let payload: &Vec<Argument> = lists[1];
    if manufacturer_id.len() != 1 && manufacturer_id.len() != 3 {
        return Err(refusal(error));
    }
    if payload.len() == 0 {
        return Err(refusal(error));
    }
    let id_bytes = match collect_list_of_u8(manufacturer_id.as_slice(), error) {
        Ok(bytes) => bytes,
        Err(refused) => {
            return Err(refused);
        },
    };
    let payload_bytes = match collect_list_of_u8(payload.as_slice(), error) {
        Ok(bytes) => bytes,
        Err(refused) => {
            return Err(refused);
        },
    };
    let message = SystemExclusive::new(id_bytes.as_slice(), payload_bytes.as_slice());
    Ok(Some(Message::SystemExclusive(message)))
}

/// The constructor of a concrete kind, as the host calls it: the message, or
/// nothing, or a refusal that says what the constructor requires.
pub fn construct(kind: Kind, args: &[Argument]) -> (constructed: Result<
    Option<Message>,
    ArgumentError,
>)
    requires
        kind.spec_is_concrete(),
    ensures
        constructed matches Ok(Some(message)) ==> construct_outcome(kind, args@) == Outcome::Built(
            message@,
        ),
        constructed matches Ok(None) ==> construct_outcome(kind, args@) == Outcome::Nothing,
        constructed matches Err(refused) ==> construct_outcome(kind, args@) == Outcome::Refused
            && refused.message@ == spec_usage(kind)@,
{
    let error: &'static str = usage(kind);
    match kind {
        Kind::SystemExclusive => {
            return construct_exclusive(args);
        },
        _ => {},
    }
    if field_count(kind) == 0 {
        if args.len() == 0 {
            let numbers: Vec<u64> = Vec::new();
            return Ok(Some(build(kind, &numbers)));
        } else {
            return Err(refusal(error));
        }
    }
    if args.len() != 1 {
        return Err(refusal(error));
    }
    match &args[0] {
        Argument::List(items) => {
            match collect_list_of_u64(items.as_slice(), error) {
                Ok(numbers) => {
                    if numbers.len() == field_count(kind) {
                        Ok(Some(build(kind, &numbers)))
                    } else {
                        Err(refusal(error))
                    }
                },
                Err(_) => Ok(None),
            }
        },
        _ => Err(refusal(error)),
    }
}

/// The parser, as the host calls it: the message that the one list of bytes
/// decodes to, or a refusal.
pub fn parse(args: &[Argument]) -> (parsed: Result<Message, ArgumentError>)
    ensures
        parsed matches Ok(message) ==> parse_outcome(args@) == Outcome::Built(message@),
        parsed matches Err(refused) ==> parse_outcome(args@) == Outcome::Refused
            && refused.message@ == PARSE_USAGE@,
{
    if args.len() != 1 {
        return Err(refusal(PARSE_USAGE));
    }
    match &args[0] {
        Argument::List(items) => {
            match collect_list_of_u8(items.as_slice(), PARSE_USAGE) {
                Ok(bytes) => {
                    if bytes.len() == 0 {
                        Err(refusal(PARSE_USAGE))
                    } else {
                        Ok(ParsedMessage::from(bytes.as_slice()).message)
                    }
                },
                Err(_) => Ok(Message::Malformed),
            }
        },
        _ => Err(refusal(PARSE_USAGE)),
    }
}

} // verus!
