//! A codec for the MIDI 1.0 wire protocol.
//!
//! [`ParsedMessage::from`] classifies a buffer of bytes into a [`Message`];
//! the constructors of the message types build one from numbers, capping
//! each at the top of its range; [`MidiMessage::pack`] hands out the bytes of
//! either. [`model`] states what a message is and how it is laid out,
//! [`laws`] proves that decoding and laying out undo each other, and
//! [`host`] and [`record`] serve a scripting host that calls the codec with
//! loosely typed lists.

pub mod host;
pub mod kind;
pub mod laws;
pub mod message;
pub mod model;
pub mod naming;
pub mod record;
pub mod wire;

pub use host::{
    collect_list_of_midi_bytes_as_u8, collect_list_of_u64, collect_list_of_u8,
    collect_list_of_value_list, Argument, ArgumentError,
};
pub use kind::{Category, Kind};
pub use message::{
    ActiveSensing, AfterTouch, AllNotesOff, AllSoundOff, Continue, ControlChange, EndOfExclusive,
    LocalControl, Message, MidiMessage, MonoModeOn, NoteOff, NoteOn, OmniModeOff, OmniModeOn,
    ParsedMessage, PitchBend, PolyAfterTouch, PolyModeOn, ProgramChange, Reset,
    ResetAllControllers, SongPosition, SongSelect, Start, Stop, SystemExclusive,
    TimeCodeQuarterFrame, TimingClock, TuneRequest,
};
pub use naming::pascal_case_to_underscore_separated_literal;
