//! The mathematical model of a message and of the wire format: what each
//! kind carries, how it is laid out in bytes, and which message a buffer of
//! bytes stands for.

use vstd::prelude::*;
use crate::kind::{Category, Kind};
use crate::wire::{
    channel_of, family_of, frame_byte, frame_type_of, frame_values_of, high7, join14, low7,
    status_byte, CHANNEL_MAX, DATA_MAX, FRAME_TYPE_MAX, FRAME_VALUE_MAX, WIDE_MAX,
};

verus! {

/// Status family of note-off messages.
pub const NOTE_OFF: u8 = 0x80;

/// Status family of note-on messages.
pub const NOTE_ON: u8 = 0x90;

/// Status family of polyphonic after-touch messages.
pub const POLY_AFTER_TOUCH: u8 = 0xA0;

/// Status family shared by control changes and the channel-mode kinds.
pub const CONTROL_CHANGE: u8 = 0xB0;

/// Status family of program changes.
pub const PROGRAM_CHANGE: u8 = 0xC0;

/// Status family of channel after-touch messages.
pub const AFTER_TOUCH: u8 = 0xD0;

/// Status family of pitch bends.
pub const PITCH_BEND: u8 = 0xE0;

/// Status byte that opens a system-exclusive message.
pub const SYSTEM_EXCLUSIVE: u8 = 0xF0;

/// Status byte of a time-code quarter frame.
pub const TIME_CODE_QUARTER_FRAME: u8 = 0xF1;

/// Status byte of a song position.
pub const SONG_POSITION: u8 = 0xF2;

/// Status byte of a song select.
pub const SONG_SELECT: u8 = 0xF3;

/// Status byte of a tune request.
pub const TUNE_REQUEST: u8 = 0xF6;

/// Status byte that closes a system-exclusive message.
pub const END_OF_EXCLUSIVE: u8 = 0xF7;

/// Status byte of a timing clock.
pub const TIMING_CLOCK: u8 = 0xF8;

/// Status byte of a start.
pub const START: u8 = 0xFA;

/// Status byte of a continue.
pub const CONTINUE: u8 = 0xFB;

/// Status byte of a stop.
pub const STOP: u8 = 0xFC;

/// Status byte of an active sensing.
pub const ACTIVE_SENSING: u8 = 0xFE;

/// Status byte of a reset.
pub const RESET: u8 = 0xFF;

/// Controller number of the first channel-mode kind; smaller ones are plain control changes.
pub const FIRST_MODE_CONTROLLER: u8 = 120;

/// What a message is, apart from how it is stored: its kind and the values it carries.
pub enum MessageView {
    NoteOff { note: u8, velocity: u8, channel: u8 },
    NoteOn { note: u8, velocity: u8, channel: u8 },
    PolyAfterTouch { note: u8, pressure: u8, channel: u8 },
    ControlChange { note: u8, value: u8, channel: u8 },
    ProgramChange { program: u8, channel: u8 },
    AfterTouch { pressure: u8, channel: u8 },
    PitchBend { bend_amount: u16, channel: u8 },
    AllSoundOff { value: u8, channel: u8 },
    ResetAllControllers { value: u8, channel: u8 },
    LocalControl { value: u8, channel: u8 },
    AllNotesOff { value: u8, channel: u8 },
    OmniModeOff { value: u8, channel: u8 },
    OmniModeOn { value: u8, channel: u8 },
    MonoModeOn { value: u8, channel: u8 },
    PolyModeOn { value: u8, channel: u8 },
    /// `bytes` is the whole message as it travels, frame bytes included.
    SystemExclusive { manufacturer_id: Seq<u8>, bytes: Seq<u8> },
    TimeCodeQuarterFrame { message_type: u8, values: u8 },
    SongPosition { midi_beats_elapsed: u16 },
    SongSelect { number: u8 },
    TuneRequest,
    EndOfExclusive,
    TimingClock,
    Start,
    Continue,
    Stop,
    ActiveSensing,
    Reset,
    Undefined,
    Malformed,
}

/// The bytes of a system-exclusive message made of a manufacturer id and a payload.
pub open spec fn exclusive_wire(manufacturer_id: Seq<u8>, payload: Seq<u8>) -> Seq<u8> {
    seq![SYSTEM_EXCLUSIVE] + manufacturer_id + payload + seq![END_OF_EXCLUSIVE]
}

/// Whether `bytes` opens with the system-exclusive status and closes with the terminator.
pub open spec fn exclusive_framed(bytes: Seq<u8>) -> bool {
    &&& bytes.len() >= 2
    &&& bytes[0] == SYSTEM_EXCLUSIVE
    &&& bytes.last() == END_OF_EXCLUSIVE
}

/// The manufacturer id that a framed system-exclusive buffer announces: one
/// byte, or three where the first is zero.
pub open spec fn announced_id(bytes: Seq<u8>) -> Seq<u8>
    recommends
        exclusive_framed(bytes),
        bytes[1] == 0 ==> bytes.len() >= 4,
{
    if bytes[1] != 0 {
        seq![bytes[1]]
    } else {
        bytes.subrange(1, 4)
    }
}

/// The channel-mode message that a controller number at or above 120 selects.
pub open spec fn mode_message(controller: u8, value: u8, channel: u8) -> MessageView
    recommends
        FIRST_MODE_CONTROLLER <= controller <= DATA_MAX,
{
    if controller == 120 {
        MessageView::AllSoundOff { value, channel }
    } else if controller == 121 {
        MessageView::ResetAllControllers { value, channel }
    } else if controller == 122 {
        MessageView::LocalControl { value, channel }
    } else if controller == 123 {
        MessageView::AllNotesOff { value, channel }
    } else if controller == 124 {
        MessageView::OmniModeOff { value, channel }
    } else if controller == 125 {
        MessageView::OmniModeOn { value, channel }
    } else if controller == 126 {
        MessageView::MonoModeOn { value, channel }
    } else {
        MessageView::PolyModeOn { value, channel }
    }
}

/// Whether `raw` is a status byte followed by exactly one data byte.
pub open spec fn one_data_byte(raw: Seq<u8>) -> bool {
    &&& raw.len() == 2
    &&& raw[1] <= DATA_MAX
}

/// Whether `raw` is a status byte followed by exactly two data bytes.
pub open spec fn two_data_bytes(raw: Seq<u8>) -> bool {
    &&& raw.len() == 3
    &&& raw[1] <= DATA_MAX
    &&& raw[2] <= DATA_MAX
}

/// The message that a buffer whose status byte lies in `0x80..=0xEF` stands for.
pub open spec fn decode_channel(raw: Seq<u8>) -> MessageView
    recommends
        raw.len() >= 1,
        NOTE_OFF <= raw[0] < SYSTEM_EXCLUSIVE,
{
    let family = family_of(raw[0]);
    let channel = channel_of(raw[0]);
    if family == PROGRAM_CHANGE {
        if one_data_byte(raw) {
            MessageView::ProgramChange { program: raw[1], channel }
        } else {
            MessageView::Malformed
        }
    } else if family == AFTER_TOUCH {
        if one_data_byte(raw) {
            MessageView::AfterTouch { pressure: raw[1], channel }
        } else {
            MessageView::Malformed
        }
    } else if !two_data_bytes(raw) {
        MessageView::Malformed
    } else if family == NOTE_OFF {
        MessageView::NoteOff { note: raw[1], velocity: raw[2], channel }
    } else if family == NOTE_ON {
        MessageView::NoteOn { note: raw[1], velocity: raw[2], channel }
    } else if family == POLY_AFTER_TOUCH {
        MessageView::PolyAfterTouch { note: raw[1], pressure: raw[2], channel }
    } else if family == CONTROL_CHANGE {
        if raw[1] < FIRST_MODE_CONTROLLER {
            MessageView::ControlChange { note: raw[1], value: raw[2], channel }
        } else {
            mode_message(raw[1], raw[2], channel)
        }
    } else {
        MessageView::PitchBend { bend_amount: join14(raw[1], raw[2]), channel }
    }
}

/// The message that a buffer whose status byte lies in `0xF0..=0xFF` stands for.
pub open spec fn decode_system(raw: Seq<u8>) -> MessageView
    recommends
        raw.len() >= 1,
        raw[0] >= SYSTEM_EXCLUSIVE,
{
    let status = raw[0];
    if status == SYSTEM_EXCLUSIVE {
        if exclusive_framed(raw) && (raw[1] == 0 ==> raw.len() >= 4) {
            MessageView::SystemExclusive { manufacturer_id: announced_id(raw), bytes: raw }
        } else {
            MessageView::Malformed
        }
    } else if status == TIME_CODE_QUARTER_FRAME {
        if one_data_byte(raw) {
            MessageView::TimeCodeQuarterFrame {
                message_type: frame_type_of(raw[1]),
                values: frame_values_of(raw[1]),
            }
        } else {
            MessageView::Malformed
        }
    } else if status == SONG_POSITION {
        if two_data_bytes(raw) {
            MessageView::SongPosition { midi_beats_elapsed: join14(raw[1], raw[2]) }
        } else {
            MessageView::Malformed
        }
    } else if status == SONG_SELECT {
        if one_data_byte(raw) {
            MessageView::SongSelect { number: raw[1] }
        } else {
            MessageView::Malformed
        }
    } else if status == 0xF4 || status == 0xF5 || status == 0xF9 || status == 0xFD {
        MessageView::Undefined
    } else if raw.len() != 1 {
        MessageView::Malformed
    } else if status == TUNE_REQUEST {
        MessageView::TuneRequest
    } else if status == END_OF_EXCLUSIVE {
        MessageView::EndOfExclusive
    } else if status == TIMING_CLOCK {
        MessageView::TimingClock
    } else if status == START {
        MessageView::Start
    } else if status == CONTINUE {
        MessageView::Continue
    } else if status == STOP {
        MessageView::Stop
    } else if status == ACTIVE_SENSING {
        MessageView::ActiveSensing
    } else {
        MessageView::Reset
    }
}

/// The message that a buffer of bytes stands for. A buffer that matches no
/// kind in shape or range stands for `Malformed`.
pub open spec fn decode(raw: Seq<u8>) -> MessageView
    recommends
        raw.len() >= 1,
{
    if raw[0] < NOTE_OFF {
        MessageView::Malformed
    } else if raw[0] < SYSTEM_EXCLUSIVE {
        decode_channel(raw)
    } else {
        decode_system(raw)
    }
}

impl MessageView {
    /// The kind of the message.
    pub open spec fn kind(self) -> Kind {
        match self {
            MessageView::NoteOff { .. } => Kind::NoteOff,
            MessageView::NoteOn { .. } => Kind::NoteOn,
            MessageView::PolyAfterTouch { .. } => Kind::PolyAfterTouch,
            MessageView::ControlChange { .. } => Kind::ControlChange,
            MessageView::ProgramChange { .. } => Kind::ProgramChange,
            MessageView::AfterTouch { .. } => Kind::AfterTouch,
            MessageView::PitchBend { .. } => Kind::PitchBend,
            MessageView::AllSoundOff { .. } => Kind::AllSoundOff,
            MessageView::ResetAllControllers { .. } => Kind::ResetAllControllers,
            MessageView::LocalControl { .. } => Kind::LocalControl,
            MessageView::AllNotesOff { .. } => Kind::AllNotesOff,
            MessageView::OmniModeOff { .. } => Kind::OmniModeOff,
            MessageView::OmniModeOn { .. } => Kind::OmniModeOn,
            MessageView::MonoModeOn { .. } => Kind::MonoModeOn,
            MessageView::PolyModeOn { .. } => Kind::PolyModeOn,
            MessageView::SystemExclusive { .. } => Kind::SystemExclusive,
            MessageView::TimeCodeQuarterFrame { .. } => Kind::TimeCodeQuarterFrame,
            MessageView::SongPosition { .. } => Kind::SongPosition,
            MessageView::SongSelect { .. } => Kind::SongSelect,
            MessageView::TuneRequest => Kind::TuneRequest,
            MessageView::EndOfExclusive => Kind::EndOfExclusive,
            MessageView::TimingClock => Kind::TimingClock,
            MessageView::Start => Kind::Start,
            MessageView::Continue => Kind::Continue,
            MessageView::Stop => Kind::Stop,
            MessageView::ActiveSensing => Kind::ActiveSensing,
            MessageView::Reset => Kind::Reset,
            MessageView::Undefined => Kind::Undefined,
            MessageView::Malformed => Kind::Malformed,
        }
    }

    /// The category of the message, which its kind alone decides.
    pub open spec fn category(self) -> Category {
        self.kind().spec_category()
    }

    /// The bytes of the message as they travel. The sentinels have none.
    pub open spec fn wire(self) -> Seq<u8> {
        match self {
            MessageView::NoteOff { note, velocity, channel } => seq![
                status_byte(NOTE_OFF, channel),
                note,
                velocity,
            ],
            MessageView::NoteOn { note, velocity, channel } => seq![
                status_byte(NOTE_ON, channel),
                note,
                velocity,
            ],
            MessageView::PolyAfterTouch { note, pressure, channel } => seq![
                status_byte(POLY_AFTER_TOUCH, channel),
                note,
                pressure,
            ],
            MessageView::ControlChange { note, value, channel } => seq![
                status_byte(CONTROL_CHANGE, channel),
                note,
                value,
            ],
            MessageView::ProgramChange { program, channel } => seq![
                status_byte(PROGRAM_CHANGE, channel),
                program,
            ],
            MessageView::AfterTouch { pressure, channel } => seq![
                status_byte(AFTER_TOUCH, channel),
                pressure,
            ],
            MessageView::PitchBend { bend_amount, channel } => seq![
                status_byte(PITCH_BEND, channel),
                low7(bend_amount),
                high7(bend_amount),
            ],
            MessageView::AllSoundOff { value, channel } => seq![
                status_byte(CONTROL_CHANGE, channel),
                120u8,
                value,
            ],
            MessageView::ResetAllControllers { value, channel } => seq![
                status_byte(CONTROL_CHANGE, channel),
                121u8,
                value,
            ],
            MessageView::LocalControl { value, channel } => seq![
                status_byte(CONTROL_CHANGE, channel),
                122u8,
                value,
            ],
            MessageView::AllNotesOff { value, channel } => seq![
                status_byte(CONTROL_CHANGE, channel),
                123u8,
                value,
            ],
            MessageView::OmniModeOff { value, channel } => seq![
                status_byte(CONTROL_CHANGE, channel),
                124u8,
                value,
            ],
            MessageView::OmniModeOn { value, channel } => seq![
                status_byte(CONTROL_CHANGE, channel),
                125u8,
                value,
            ],
            MessageView::MonoModeOn { value, channel } => seq![
                status_byte(CONTROL_CHANGE, channel),
                126u8,
                value,
            ],
            MessageView::PolyModeOn { value, channel } => seq![
                status_byte(CONTROL_CHANGE, channel),
                127u8,
                value,
            ],
            MessageView::SystemExclusive { bytes, .. } => bytes,
            MessageView::TimeCodeQuarterFrame { message_type, values } => seq![
                TIME_CODE_QUARTER_FRAME,
                frame_byte(message_type, values),
            ],
            MessageView::SongPosition { midi_beats_elapsed } => seq![
                SONG_POSITION,
                low7(midi_beats_elapsed),
                high7(midi_beats_elapsed),
            ],
            MessageView::SongSelect { number } => seq![SONG_SELECT, number],
            MessageView::TuneRequest => seq![TUNE_REQUEST],
            MessageView::EndOfExclusive => seq![END_OF_EXCLUSIVE],
            MessageView::TimingClock => seq![TIMING_CLOCK],
            MessageView::Start => seq![START],
            MessageView::Continue => seq![CONTINUE],
            MessageView::Stop => seq![STOP],
            MessageView::ActiveSensing => seq![ACTIVE_SENSING],
            MessageView::Reset => seq![RESET],
            MessageView::Undefined | MessageView::Malformed => Seq::empty(),
        }
    }

    /// Whether every value the message carries lies in the range of its field,
    /// and, for a system-exclusive message, whether its bytes are framed and
    /// open with its manufacturer id of one or three bytes.
    pub open spec fn in_range(self) -> bool {
        match self {
            MessageView::NoteOff { note, velocity, channel }
            | MessageView::NoteOn { note, velocity, channel } => {
                note <= DATA_MAX && velocity <= DATA_MAX && channel <= CHANNEL_MAX
            },
            MessageView::PolyAfterTouch { note, pressure, channel } => {
                note <= DATA_MAX && pressure <= DATA_MAX && channel <= CHANNEL_MAX
            },
            MessageView::ControlChange { note, value, channel } => {
                note <= DATA_MAX && value <= DATA_MAX && channel <= CHANNEL_MAX
            },
            MessageView::ProgramChange { program, channel } => {
                program <= DATA_MAX && channel <= CHANNEL_MAX
            },
            MessageView::AfterTouch { pressure, channel } => {
                pressure <= DATA_MAX && channel <= CHANNEL_MAX
            },
            MessageView::PitchBend { bend_amount, channel } => {
                bend_amount <= WIDE_MAX && channel <= CHANNEL_MAX
            },
            MessageView::AllSoundOff { value, channel }
            | MessageView::ResetAllControllers { value, channel }
            | MessageView::LocalControl { value, channel }
            | MessageView::AllNotesOff { value, channel }
            | MessageView::OmniModeOff { value, channel }
            | MessageView::OmniModeOn { value, channel }
            | MessageView::MonoModeOn { value, channel }
            | MessageView::PolyModeOn { value, channel } => {
                value <= DATA_MAX && channel <= CHANNEL_MAX
            },
            MessageView::SystemExclusive { manufacturer_id, bytes } => {
                &&& exclusive_framed(bytes)
                &&& manufacturer_id.len() == 1 || manufacturer_id.len() == 3
                &&& bytes.len() >= 1 + manufacturer_id.len()
                &&& bytes.subrange(1, 1 + manufacturer_id.len() as int) == manufacturer_id
            },
            MessageView::TimeCodeQuarterFrame { message_type, values } => {
                message_type <= FRAME_TYPE_MAX && values <= FRAME_VALUE_MAX
            },
            MessageView::SongPosition { midi_beats_elapsed } => midi_beats_elapsed <= WIDE_MAX,
            MessageView::SongSelect { number } => number <= DATA_MAX,
            _ => true,
        }
    }

    /// Whether the message is the one its own bytes stand for: in range, a
    /// control change below the channel-mode controllers, and a
    /// system-exclusive id of one byte exactly where its first byte is not zero.
    pub open spec fn canonical(self) -> bool {
        &&& self.in_range()
        &&& self matches MessageView::ControlChange { note, .. } ==> note < FIRST_MODE_CONTROLLER
        &&& self matches MessageView::SystemExclusive { manufacturer_id, .. } ==> (
            manufacturer_id.len() == 1 <==> manufacturer_id[0] != 0)
    }
}

} // verus!
