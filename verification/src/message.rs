//! The message types and the decoder that classifies a buffer of bytes into one of them.

use vstd::prelude::*;
use crate::kind::{Category, Kind};
use crate::model::{
    decode, one_data_byte, two_data_bytes, MessageView, ACTIVE_SENSING, AFTER_TOUCH, CONTINUE,
    CONTROL_CHANGE, END_OF_EXCLUSIVE, FIRST_MODE_CONTROLLER, NOTE_OFF, NOTE_ON, PITCH_BEND,
    POLY_AFTER_TOUCH, PROGRAM_CHANGE, RESET, SONG_POSITION, SONG_SELECT, START, STOP,
    SYSTEM_EXCLUSIVE, TIME_CODE_QUARTER_FRAME, TIMING_CLOCK, TUNE_REQUEST,
};
use crate::wire::{family_nibble, family_of, DATA_MAX};

pub mod channel_mode;
pub mod channel_voice;
pub mod system_common;
pub mod system_realtime;

pub use channel_mode::{
    AllNotesOff, AllSoundOff, LocalControl, MonoModeOn, OmniModeOff, OmniModeOn, PolyModeOn,
    ResetAllControllers,
};
pub use channel_voice::{
    AfterTouch, ControlChange, NoteOff, NoteOn, PitchBend, PolyAfterTouch, ProgramChange,
};
pub use system_common::{
    EndOfExclusive, SongPosition, SongSelect, SystemExclusive, TimeCodeQuarterFrame, TuneRequest,
};
pub use system_realtime::{ActiveSensing, Continue, Reset, Start, Stop, TimingClock};

verus! {

/// A message that can hand out the bytes it travels as.
pub trait MidiMessage: View<V = MessageView> {
    /// The bytes of the message, status byte first.
    fn pack(&self) -> (bytes: &[u8])
        ensures
            bytes@ == self@.wire(),
    ;
}

/// Any message: one of the concrete kinds, or one of the two sentinels.
/// `Undefined` stands for a reserved status byte, `Malformed` for a buffer
/// that fits no kind.
#[derive(Debug, PartialEq, Eq)]
pub enum Message {
    NoteOn(NoteOn),
    NoteOff(NoteOff),
    ControlChange(ControlChange),
    ProgramChange(ProgramChange),
    PitchBend(PitchBend),
    AfterTouch(AfterTouch),
    PolyAfterTouch(PolyAfterTouch),
    SystemExclusive(SystemExclusive),
    SongPosition(SongPosition),
    SongSelect(SongSelect),
    TuneRequest(TuneRequest),
    TimeCodeQuarterFrame(TimeCodeQuarterFrame),
    TimingClock(TimingClock),
    Start(Start),
    Continue(Continue),
    Stop(Stop),
    ActiveSensing(ActiveSensing),
    Reset(Reset),
    Undefined,
    Malformed,
    EndOfExclusive(EndOfExclusive),
    AllSoundOff(AllSoundOff),
    ResetAllControllers(ResetAllControllers),
    LocalControl(LocalControl),
    AllNotesOff(AllNotesOff),
    OmniModeOff(OmniModeOff),
    OmniModeOn(OmniModeOn),
    MonoModeOn(MonoModeOn),
    PolyModeOn(PolyModeOn),
}

impl View for Message {
    type V = MessageView;

    open spec fn view(&self) -> MessageView {
        match self {
            Message::NoteOn(m) => m@,
            Message::NoteOff(m) => m@,
            Message::ControlChange(m) => m@,
            Message::ProgramChange(m) => m@,
            Message::PitchBend(m) => m@,
            Message::AfterTouch(m) => m@,
            Message::PolyAfterTouch(m) => m@,
            Message::SystemExclusive(m) => m@,
            Message::SongPosition(m) => m@,
            Message::SongSelect(m) => m@,
            Message::TuneRequest(m) => m@,
            Message::TimeCodeQuarterFrame(m) => m@,
            Message::TimingClock(m) => m@,
            Message::Start(m) => m@,
            Message::Continue(m) => m@,
            Message::Stop(m) => m@,
            Message::ActiveSensing(m) => m@,
            Message::Reset(m) => m@,
            Message::Undefined => MessageView::Undefined,
            Message::Malformed => MessageView::Malformed,
            Message::EndOfExclusive(m) => m@,
            Message::AllSoundOff(m) => m@,
            Message::ResetAllControllers(m) => m@,
            Message::LocalControl(m) => m@,
            Message::AllNotesOff(m) => m@,
            Message::OmniModeOff(m) => m@,
            Message::OmniModeOn(m) => m@,
            Message::MonoModeOn(m) => m@,
            Message::PolyModeOn(m) => m@,
        }
    }
}

impl Message {
    /// The kind of the message.
    pub fn kind(&self) -> (kind: Kind)
        ensures
            kind == self@.kind(),
    {
        match self {
            Message::NoteOn(_) => Kind::NoteOn,
            Message::NoteOff(_) => Kind::NoteOff,
            Message::ControlChange(_) => Kind::ControlChange,
            Message::ProgramChange(_) => Kind::ProgramChange,
            Message::PitchBend(_) => Kind::PitchBend,
            Message::AfterTouch(_) => Kind::AfterTouch,
            Message::PolyAfterTouch(_) => Kind::PolyAfterTouch,
            Message::SystemExclusive(_) => Kind::SystemExclusive,
            Message::SongPosition(_) => Kind::SongPosition,
            Message::SongSelect(_) => Kind::SongSelect,
            Message::TuneRequest(_) => Kind::TuneRequest,
            Message::TimeCodeQuarterFrame(_) => Kind::TimeCodeQuarterFrame,
            Message::TimingClock(_) => Kind::TimingClock,
            Message::Start(_) => Kind::Start,
            Message::Continue(_) => Kind::Continue,
            Message::Stop(_) => Kind::Stop,
            Message::ActiveSensing(_) => Kind::ActiveSensing,
            Message::Reset(_) => Kind::Reset,
            Message::Undefined => Kind::Undefined,
            Message::Malformed => Kind::Malformed,
            Message::EndOfExclusive(_) => Kind::EndOfExclusive,
            Message::AllSoundOff(_) => Kind::AllSoundOff,
            Message::ResetAllControllers(_) => Kind::ResetAllControllers,
            Message::LocalControl(_) => Kind::LocalControl,
            Message::AllNotesOff(_) => Kind::AllNotesOff,
            Message::OmniModeOff(_) => Kind::OmniModeOff,
            Message::OmniModeOn(_) => Kind::OmniModeOn,
            Message::MonoModeOn(_) => Kind::MonoModeOn,
            Message::PolyModeOn(_) => Kind::PolyModeOn,
        }
    }

    /// The category of the message, which its kind alone decides.
    pub fn category(&self) -> (category: Category)
        ensures
            category == self@.category(),
    {
        self.kind().category()
    }
}

impl MidiMessage for Message {
    /// The bytes of the message. A sentinel has none.
    fn pack(&self) -> (bytes: &[u8]) {
        match self {
            Message::NoteOn(m) => m.pack(),
            Message::NoteOff(m) => m.pack(),
            Message::ControlChange(m) => m.pack(),
            Message::ProgramChange(m) => m.pack(),
            Message::PitchBend(m) => m.pack(),
            Message::AfterTouch(m) => m.pack(),
            Message::PolyAfterTouch(m) => m.pack(),
            Message::SystemExclusive(m) => m.pack(),
            Message::SongPosition(m) => m.pack(),
            Message::SongSelect(m) => m.pack(),
            Message::TuneRequest(m) => m.pack(),
            Message::TimeCodeQuarterFrame(m) => m.pack(),
            Message::TimingClock(m) => m.pack(),
            Message::Start(m) => m.pack(),
            Message::Continue(m) => m.pack(),
            Message::Stop(m) => m.pack(),
            Message::ActiveSensing(m) => m.pack(),
            Message::Reset(m) => m.pack(),
            Message::Undefined | Message::Malformed => &[],
            Message::EndOfExclusive(m) => m.pack(),
            Message::AllSoundOff(m) => m.pack(),
            Message::ResetAllControllers(m) => m.pack(),
            Message::LocalControl(m) => m.pack(),
            Message::AllNotesOff(m) => m.pack(),
            Message::OmniModeOff(m) => m.pack(),
            Message::OmniModeOn(m) => m.pack(),
            Message::MonoModeOn(m) => m.pack(),
            Message::PolyModeOn(m) => m.pack(),
        }
    }
}

/// Whether the buffer is a status byte followed by exactly one data byte.
fn has_one_data_byte(raw_message: &[u8]) -> (fits: bool)
    ensures
        fits == one_data_byte(raw_message@),
{
    raw_message.len() == 2 && raw_message[1] <= DATA_MAX
}

/// Whether the buffer is a status byte followed by exactly two data bytes.
fn has_two_data_bytes(raw_message: &[u8]) -> (fits: bool)
    ensures
        fits == two_data_bytes(raw_message@),
{
    raw_message.len() == 3 && raw_message[1] <= DATA_MAX && raw_message[2] <= DATA_MAX
}

/// The result of decoding a buffer.
#[derive(Debug, PartialEq, Eq)]
pub struct ParsedMessage {
    pub message: Message,
}

impl ParsedMessage {
    /// Decodes a buffer of at least one byte. Every buffer decodes: one that
    /// fits no kind gives `Malformed`.
    pub fn from(raw_message: &[u8]) -> (parsed: Self)
        requires
            raw_message@.len() >= 1,
        ensures
            parsed.message@ == decode(raw_message@),
    {
        let status_byte: u8 = raw_message[0];
        let family: u8 = family_nibble(status_byte);
        let message = if family == NOTE_OFF {
            if has_two_data_bytes(raw_message) {
                Message::NoteOff(NoteOff::from(raw_message))
            } else {
                Message::Malformed
            }
        } else if family == NOTE_ON {
            if has_two_data_bytes(raw_message) {
                Message::NoteOn(NoteOn::from(raw_message))
            } else {
                Message::Malformed
            }
        } else if family == POLY_AFTER_TOUCH {
            if has_two_data_bytes(raw_message) {
                Message::PolyAfterTouch(PolyAfterTouch::from(raw_message))
            } else {
                Message::Malformed
            }
        } else if family == CONTROL_CHANGE {
            if has_two_data_bytes(raw_message) {
                Self::controller_message(raw_message)
            } else {
                Message::Malformed
            }
        } else if family == PROGRAM_CHANGE {
            if has_one_data_byte(raw_message) {
                Message::ProgramChange(ProgramChange::from(raw_message))
            } else {
                Message::Malformed
            }
        } else if family == AFTER_TOUCH {
            if has_one_data_byte(raw_message) {
                Message::AfterTouch(AfterTouch::from(raw_message))
            } else {
                Message::Malformed
            }
        } else if family == PITCH_BEND {
            if has_two_data_bytes(raw_message) {
                Message::PitchBend(PitchBend::from(raw_message))
            } else {
                Message::Malformed
            }
        } else if status_byte >= SYSTEM_EXCLUSIVE {
            Self::system_message(raw_message)
        } else {
            Message::Malformed
        };
        ParsedMessage { message }
    }

    /// Tells a control change from the channel-mode kinds by the controller number.
    fn controller_message(raw_message: &[u8]) -> (message: Message)
        requires
            raw_message@.len() >= 1,
            family_of(raw_message@[0]) == CONTROL_CHANGE,
            two_data_bytes(raw_message@),
        ensures
            message@ == decode(raw_message@),
    {
        let controller: u8 = raw_message[1];
        if controller < FIRST_MODE_CONTROLLER {
            Message::ControlChange(ControlChange::from(raw_message))
        } else if controller == AllSoundOff::CONTROLLER {
            Message::AllSoundOff(AllSoundOff::from(raw_message))
        } else if controller == ResetAllControllers::CONTROLLER {
            Message::ResetAllControllers(ResetAllControllers::from(raw_message))
        } else if controller == LocalControl::CONTROLLER {
            Message::LocalControl(LocalControl::from(raw_message))
        } else if controller == AllNotesOff::CONTROLLER {
            Message::AllNotesOff(AllNotesOff::from(raw_message))
        } else if controller == OmniModeOff::CONTROLLER {
            Message::OmniModeOff(OmniModeOff::from(raw_message))
        } else if controller == OmniModeOn::CONTROLLER {
            Message::OmniModeOn(OmniModeOn::from(raw_message))
        } else if controller == MonoModeOn::CONTROLLER {
            Message::MonoModeOn(MonoModeOn::from(raw_message))
        } else {
            Message::PolyModeOn(PolyModeOn::from(raw_message))
        }
    }

    /// Decodes a buffer whose status byte is a system status.
    fn system_message(raw_message: &[u8]) -> (message: Message)
        requires
            raw_message@.len() >= 1,
            raw_message@[0] >= SYSTEM_EXCLUSIVE,
        ensures
            message@ == decode(raw_message@),
    {
        let status_byte: u8 = raw_message[0];
        let length: usize = raw_message.len();
        if status_byte == SYSTEM_EXCLUSIVE {
            if length >= 2 && raw_message[length - 1] == END_OF_EXCLUSIVE && (raw_message[1] != 0
                || length >= 4) {
                Message::SystemExclusive(SystemExclusive::from(raw_message))
            } else {
                Message::Malformed
            }
        } else if status_byte == TIME_CODE_QUARTER_FRAME {
            if has_one_data_byte(raw_message) {
                Message::TimeCodeQuarterFrame(TimeCodeQuarterFrame::from(raw_message))
            } else {
                Message::Malformed
            }
        } else if status_byte == SONG_POSITION {
            if has_two_data_bytes(raw_message) {
                Message::SongPosition(SongPosition::from(raw_message))
            } else {
                Message::Malformed
            }
        } else if status_byte == SONG_SELECT {
            if has_one_data_byte(raw_message) {
                Message::SongSelect(SongSelect::from(raw_message))
            } else {
                Message::Malformed
            }
        } else if status_byte == 0xF4 || status_byte == 0xF5 || status_byte == 0xF9 || status_byte
            == 0xFD {
            Message::Undefined
        } else if length != 1 {
            Message::Malformed
        } else if status_byte == TUNE_REQUEST {
            Message::TuneRequest(TuneRequest::default())
        } else if status_byte == END_OF_EXCLUSIVE {
            Message::EndOfExclusive(EndOfExclusive::default())
        } else if status_byte == TIMING_CLOCK {
            Message::TimingClock(TimingClock::default())
        } else if status_byte == START {
            Message::Start(Start::default())
        } else if status_byte == CONTINUE {
            Message::Continue(Continue::default())
        } else if status_byte == STOP {
            Message::Stop(Stop::default())
        } else if status_byte == ACTIVE_SENSING {
            Message::ActiveSensing(ActiveSensing::default())
        } else {
            Message::Reset(Reset::default())
        }
    }
}

} // verus!
