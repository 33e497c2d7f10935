//! The system-common kinds: system-exclusive data, time code, song position
//! and selection, tune request and the lone end-of-exclusive.

use vstd::prelude::*;
use vstd::slice::slice_to_vec;
use crate::message::MidiMessage;
use crate::model::{
    decode, exclusive_wire, MessageView, END_OF_EXCLUSIVE, SONG_POSITION, SONG_SELECT,
    SYSTEM_EXCLUSIVE, TIME_CODE_QUARTER_FRAME, TUNE_REQUEST,
};
use crate::wire::{
    at_most, clamp_u8, clamp_wide, frame_type_of, frame_values_of, join14, join_wide,
    lemma_join_split, lemma_split_join, pack_frame, split_wide, unpack_frame, DATA_MAX,
    FRAME_TYPE_MAX, FRAME_VALUE_MAX, WIDE_MAX,
};

verus! {

/// A system-exclusive message: a manufacturer id and a payload between the
/// opening status byte and the terminator.
#[derive(Debug, PartialEq, Eq)]
pub struct SystemExclusive {
    bytes: Vec<u8>,
    manufacturer_id: Vec<u8>,
}

impl SystemExclusive {
    #[verifier::type_invariant]
    spec fn framed(&self) -> bool {
        self@.in_range()
    }

    /// The manufacturer id: one byte, or three.
    pub closed spec fn spec_manufacturer_id(&self) -> Seq<u8> {
        self.manufacturer_id@
    }

    /// The whole message as it travels, frame bytes included.
    pub closed spec fn spec_bytes(&self) -> Seq<u8> {
        self.bytes@
    }

    /// Builds the message from a manufacturer id of one or three bytes and a
    /// payload of at least one byte. The bytes are taken as they are.
    pub fn new(manufacturer_id: &[u8], message_content: &[u8]) -> (message: Self)
        requires
            manufacturer_id@.len() == 1 || manufacturer_id@.len() == 3,
            message_content@.len() >= 1,
        ensures
            message@ == (MessageView::SystemExclusive {
                manufacturer_id: manufacturer_id@,
                bytes: exclusive_wire(manufacturer_id@, message_content@),
            }),
    {
        let mut message: Vec<u8> = slice_to_vec(message_content);
        message.insert(0, SYSTEM_EXCLUSIVE);
        if manufacturer_id.len() == 1 {
            message.insert(1, manufacturer_id[0]);
        } else {
            message.insert(1, manufacturer_id[0]);
            message.insert(2, manufacturer_id[1]);
            message.insert(3, manufacturer_id[2]);
        }
        message.push(END_OF_EXCLUSIVE);
        let id: Vec<u8> = slice_to_vec(manufacturer_id);
        proof {
            assert(message@ =~= exclusive_wire(manufacturer_id@, message_content@));
            assert(message@.subrange(1, 1 + id@.len() as int) =~= id@);
        }
        Self { bytes: message, manufacturer_id: id }
    }

    /// The manufacturer id: one byte, or three.
    pub fn manufacturer_id(&self) -> (id: &[u8])
        ensures
            id@ == self.spec_manufacturer_id(),
            id@.len() == 1 || id@.len() == 3,
    {
        proof {
            use_type_invariant(self);
        }
        self.manufacturer_id.as_slice()
    }

    /// Takes over a buffer that decodes to a system-exclusive message.
    pub fn from(raw_bytes: &[u8]) -> (message: Self)
        requires
            raw_bytes@.len() >= 1,
            decode(raw_bytes@) is SystemExclusive,
        ensures
            message@ == decode(raw_bytes@),
    {
        let mut manufacturer_id: Vec<u8> = Vec::new();
        if raw_bytes[1] != 0 {
            manufacturer_id.push(raw_bytes[1]);
        } else {
            manufacturer_id.push(raw_bytes[1]);
            manufacturer_id.push(raw_bytes[2]);
            manufacturer_id.push(raw_bytes[3]);
        }
        let bytes: Vec<u8> = slice_to_vec(raw_bytes);
        proof {
            assert(manufacturer_id@ =~= decode(raw_bytes@)->manufacturer_id);
            assert(bytes@.subrange(1, 1 + manufacturer_id@.len() as int) =~= manufacturer_id@);
        }
        Self { bytes, manufacturer_id }
    }
}

impl View for SystemExclusive {
    type V = MessageView;

    open spec fn view(&self) -> MessageView {
        MessageView::SystemExclusive {
            manufacturer_id: self.spec_manufacturer_id(),
            bytes: self.spec_bytes(),
        }
    }
}

impl Default for SystemExclusive {
    /// Manufacturer id 1 and a payload of two zero bytes.
    fn default() -> (message: Self)
        ensures
            message@ == (MessageView::SystemExclusive {
                manufacturer_id: seq![1u8],
                bytes: exclusive_wire(seq![1u8], seq![0u8, 0u8]),
            }),
    {
        let bytes: Vec<u8> = vec![SYSTEM_EXCLUSIVE, 0x01, 0x0, 0x0, END_OF_EXCLUSIVE];
        let manufacturer_id: Vec<u8> = vec![0x01];
        proof {
            assert(bytes@ =~= exclusive_wire(seq![1u8], seq![0u8, 0u8]));
            assert(manufacturer_id@ =~= seq![1u8]);
            assert(bytes@.subrange(1, 2) =~= manufacturer_id@);
        }
        Self { bytes, manufacturer_id }
    }
}

impl Clone for SystemExclusive {
    fn clone(&self) -> (message: Self)
        ensures
            message@ == self@,
    {
        proof {
            use_type_invariant(self);
        }
        let bytes: Vec<u8> = slice_to_vec(self.bytes.as_slice());
        let manufacturer_id: Vec<u8> = slice_to_vec(self.manufacturer_id.as_slice());
        Self { bytes, manufacturer_id }
    }
}

impl MidiMessage for SystemExclusive {
    fn pack(&self) -> (bytes: &[u8]) {
        self.bytes.as_slice()
    }
}

/// A time-code quarter frame: one of eight pieces of a time code, with its nibble.
#[derive(Debug, Clone, Copy, PartialEq, Eq)]
pub struct TimeCodeQuarterFrame {
    bytes: [u8; 2],
}

impl TimeCodeQuarterFrame {
    #[verifier::type_invariant]
    spec fn framed(&self) -> bool {
        &&& self.bytes[0] == TIME_CODE_QUARTER_FRAME
        &&& self.bytes[1] <= DATA_MAX
    }

    /// Which piece of the time code this is.
    pub closed spec fn spec_message_type(&self) -> u8 {
        frame_type_of(self.bytes[1])
    }

    /// The nibble of the piece.
    pub closed spec fn spec_values(&self) -> u8 {
        frame_values_of(self.bytes[1])
    }

    /// Builds the message, capping each number at the top of its range.
    pub fn new(message_type: u64, values: u64) -> (message: Self)
        ensures
            message@ == (MessageView::TimeCodeQuarterFrame {
                message_type: at_most(message_type, FRAME_TYPE_MAX as u64) as u8,
                values: at_most(values, FRAME_VALUE_MAX as u64) as u8,
            }),
    {
        Self {
            bytes: [
                TIME_CODE_QUARTER_FRAME,
                pack_frame(clamp_u8(message_type, FRAME_TYPE_MAX), clamp_u8(values, FRAME_VALUE_MAX)),
            ],
        }
    }

    /// Which piece of the time code this is.
    #[verifier::when_used_as_spec(spec_message_type)]
    pub fn message_type(&self) -> (message_type: u8)
        ensures
            message_type == self.spec_message_type(),
            message_type <= FRAME_TYPE_MAX,
    {
        unpack_frame(self.bytes[1]).0
    }

    /// The nibble of the piece.
    #[verifier::when_used_as_spec(spec_values)]
    pub fn values(&self) -> (values: u8)
        ensures
            values == self.spec_values(),
            values <= FRAME_VALUE_MAX,
    {
        unpack_frame(self.bytes[1]).1
    }

    /// Replaces the message type, capped at the top of its range, and keeps the nibble.
    pub fn change_message_type(&mut self, message_type: u8)
        ensures
            final(self)@ == (MessageView::TimeCodeQuarterFrame {
                message_type: at_most(message_type as u64, FRAME_TYPE_MAX as u64) as u8,
                values: old(self).spec_values(),
            }),
    {
        let values: u8 = unpack_frame(self.bytes[1]).1;
        self.bytes = [
            TIME_CODE_QUARTER_FRAME,
            pack_frame(clamp_u8(message_type as u64, FRAME_TYPE_MAX), values),
        ];
    }

    /// Replaces the nibble, capped at the top of its range, and keeps the message type.
    pub fn change_values(&mut self, values: u8)
        ensures
            final(self)@ == (MessageView::TimeCodeQuarterFrame {
                message_type: old(self).spec_message_type(),
                values: at_most(values as u64, FRAME_VALUE_MAX as u64) as u8,
            }),
    {
        let message_type: u8 = unpack_frame(self.bytes[1]).0;
        self.bytes = [
            TIME_CODE_QUARTER_FRAME,
            pack_frame(message_type, clamp_u8(values as u64, FRAME_VALUE_MAX)),
        ];
    }

    /// Takes over a buffer that decodes to a time-code quarter frame.
    pub fn from(raw_bytes: &[u8]) -> (message: Self)
        requires
            raw_bytes@.len() >= 1,
            decode(raw_bytes@) is TimeCodeQuarterFrame,
        ensures
            message@ == decode(raw_bytes@),
    {
        Self { bytes: [raw_bytes[0], raw_bytes[1]] }
    }
}

impl View for TimeCodeQuarterFrame {
    type V = MessageView;

    open spec fn view(&self) -> MessageView {
        MessageView::TimeCodeQuarterFrame {
            message_type: self.spec_message_type(),
            values: self.spec_values(),
        }
    }
}

impl Default for TimeCodeQuarterFrame {
    /// Message type 0, nibble 0.
    fn default() -> (message: Self)
        ensures
            message@ == (MessageView::TimeCodeQuarterFrame { message_type: 0, values: 0 }),
    {
        Self { bytes: [TIME_CODE_QUARTER_FRAME, 0] }
    }
}

impl MidiMessage for TimeCodeQuarterFrame {
    fn pack(&self) -> (bytes: &[u8]) {
        proof {
            use_type_invariant(self);
        }
        &self.bytes
    }
}

/// A song position: the number of beats elapsed since the start of the song.
#[derive(Debug, Clone, Copy, PartialEq, Eq)]
pub struct SongPosition {
    bytes: [u8; 3],
}

impl SongPosition {
    #[verifier::type_invariant]
    spec fn framed(&self) -> bool {
        &&& self.bytes[0] == SONG_POSITION
        &&& self.bytes[1] <= DATA_MAX
        &&& self.bytes[2] <= DATA_MAX
    }

    /// The beats elapsed.
    pub closed spec fn spec_midi_beats_elapsed(&self) -> u16 {
        join14(self.bytes[1], self.bytes[2])
    }

    /// Builds the message, capping each number at the top of its range.
    pub fn new(midi_beats_elapsed: u64) -> (message: Self)
        ensures
            message@ == (MessageView::SongPosition {
                midi_beats_elapsed: at_most(midi_beats_elapsed, WIDE_MAX as u64) as u16,
            }),
    {
        let midi_beats_elapsed: u16 = clamp_wide(midi_beats_elapsed);
        let (lsb, msb) = split_wide(midi_beats_elapsed);
        proof {
            lemma_join_split(midi_beats_elapsed);
        }
        Self { bytes: [SONG_POSITION, lsb, msb] }
    }

    /// The beats elapsed.
    #[verifier::when_used_as_spec(spec_midi_beats_elapsed)]
    pub fn midi_beats_elapsed(&self) -> (midi_beats_elapsed: u16)
        ensures
            midi_beats_elapsed == self.spec_midi_beats_elapsed(),
            midi_beats_elapsed <= WIDE_MAX,
    {
        proof {
            use_type_invariant(self);
        }
        join_wide(self.bytes[1], self.bytes[2])
    }

    /// Replaces the 14-bit quantity, capped at the top of its range, and leaves the rest as it was.
    pub fn change_midi_beats_elapsed(&mut self, midi_beats_elapsed: u16)
        ensures
            final(self)@ == (MessageView::SongPosition {
                midi_beats_elapsed: at_most(midi_beats_elapsed as u64, WIDE_MAX as u64) as u16,
            }),
    {
        proof {
            use_type_invariant(&*self);
        }
        let midi_beats_elapsed: u16 = clamp_wide(midi_beats_elapsed as u64);
        let (lsb, msb) = split_wide(midi_beats_elapsed);
        proof {
            lemma_join_split(midi_beats_elapsed);
        }
        self.bytes = [self.bytes[0], lsb, msb];
    }

    /// Takes over a buffer that decodes to a song position.
    pub fn from(raw_bytes: &[u8]) -> (message: Self)
        requires
            raw_bytes@.len() >= 1,
            decode(raw_bytes@) is SongPosition,
        ensures
            message@ == decode(raw_bytes@),
    {
        Self { bytes: [raw_bytes[0], raw_bytes[1], raw_bytes[2]] }
    }
}

impl View for SongPosition {
    type V = MessageView;

    open spec fn view(&self) -> MessageView {
        MessageView::SongPosition { midi_beats_elapsed: self.spec_midi_beats_elapsed() }
    }
}

impl Default for SongPosition {
    /// Zero beats elapsed.
    fn default() -> (message: Self)
        ensures
            message@ == (MessageView::SongPosition { midi_beats_elapsed: 0 }),
    {
        let (lsb, msb) = split_wide(0);
        proof {
            lemma_join_split(0);
        }
        Self { bytes: [SONG_POSITION, lsb, msb] }
    }
}

impl MidiMessage for SongPosition {
    fn pack(&self) -> (bytes: &[u8]) {
        proof {
            use_type_invariant(self);
            lemma_split_join(self.bytes[1], self.bytes[2]);
        }
        &self.bytes
    }
}

/// A song select: the number of the song to play.
#[derive(Debug, Clone, Copy, PartialEq, Eq)]
pub struct SongSelect {
    bytes: [u8; 2],
}

impl SongSelect {
    #[verifier::type_invariant]
    spec fn framed(&self) -> bool {
        &&& self.bytes[0] == SONG_SELECT
        &&& self.bytes[1] <= DATA_MAX
    }

    /// The song number.
    pub closed spec fn spec_number(&self) -> u8 {
        self.bytes[1]
    }

    /// Builds the message, capping the number at the top of its range.
    pub fn new(number: u64) -> (message: Self)
        ensures
            message@ == (MessageView::SongSelect { number: at_most(number, DATA_MAX as u64) as u8 }),
    {
        Self { bytes: [SONG_SELECT, clamp_u8(number, DATA_MAX)] }
    }

    /// The song number.
    #[verifier::when_used_as_spec(spec_number)]
    pub fn number(&self) -> (number: u8)
        ensures
            number == self.spec_number(),
            number <= DATA_MAX,
    {
        proof {
            use_type_invariant(self);
        }
        self.bytes[1]
    }

    /// Takes over a buffer that decodes to a song select.
    pub fn from(raw_bytes: &[u8]) -> (message: Self)
        requires
            raw_bytes@.len() >= 1,
            decode(raw_bytes@) is SongSelect,
        ensures
            message@ == decode(raw_bytes@),
    {
        Self { bytes: [raw_bytes[0], raw_bytes[1]] }
    }
}

impl View for SongSelect {
    type V = MessageView;

    open spec fn view(&self) -> MessageView {
        MessageView::SongSelect { number: self.spec_number() }
    }
}

impl Default for SongSelect {
    /// Song 0.
    fn default() -> (message: Self)
        ensures
            message@ == (MessageView::SongSelect { number: 0 }),
    {
        Self { bytes: [SONG_SELECT, 0] }
    }
}

impl MidiMessage for SongSelect {
    fn pack(&self) -> (bytes: &[u8]) {
        proof {
            use_type_invariant(self);
        }
        &self.bytes
    }
}

/// A tune request: ask analogue synthesisers to tune themselves.
#[derive(Debug, Clone, Copy, PartialEq, Eq)]
pub struct TuneRequest {
    bytes: [u8; 1],
}

impl TuneRequest {
    #[verifier::type_invariant]
    spec fn framed(&self) -> bool {
        self.bytes[0] == TUNE_REQUEST
    }

    /// The bytes that the message holds: its status byte alone.
    pub closed spec fn spec_bytes(&self) -> Seq<u8> {
        self.bytes@
    }

    /// Builds the message. It carries nothing but its status byte.
    pub fn new() -> (message: Self)
        ensures
            message@ == MessageView::TuneRequest,
            message.spec_bytes() == seq![TUNE_REQUEST],
    {
        let message = Self { bytes: [TUNE_REQUEST] };
        assert(message.bytes@ =~= seq![TUNE_REQUEST]);
        message
    }

    /// Takes over a buffer that decodes to a tune request.
    pub fn from(raw_bytes: &[u8]) -> (message: Self)
        requires
            raw_bytes@.len() >= 1,
            decode(raw_bytes@) is TuneRequest,
        ensures
            message@ == decode(raw_bytes@),
            message.spec_bytes() == raw_bytes@,
    {
        let message = Self { bytes: [raw_bytes[0]] };
        assert(message.bytes@ =~= raw_bytes@);
        message
    }
}

impl View for TuneRequest {
    type V = MessageView;

    open spec fn view(&self) -> MessageView {
        MessageView::TuneRequest
    }
}

impl Default for TuneRequest {
    fn default() -> (message: Self)
        ensures
            message@ == MessageView::TuneRequest,
            message.spec_bytes() == seq![TUNE_REQUEST],
    {
        Self::new()
    }
}

impl MidiMessage for TuneRequest {
    fn pack(&self) -> (bytes: &[u8])
        ensures
            bytes@ == self.spec_bytes(),
    {
        proof {
            use_type_invariant(self);
        }
        &self.bytes
    }
}

/// An end-of-exclusive: the terminator of a system-exclusive message, on its own.
#[derive(Debug, Clone, Copy, PartialEq, Eq)]
pub struct EndOfExclusive {
    bytes: [u8; 1],
}

impl EndOfExclusive {
    #[verifier::type_invariant]
    spec fn framed(&self) -> bool {
        self.bytes[0] == END_OF_EXCLUSIVE
    }

    /// The bytes that the message holds: its status byte alone.
    pub closed spec fn spec_bytes(&self) -> Seq<u8> {
        self.bytes@
    }

    /// Builds the message. It carries nothing but its status byte.
    pub fn new() -> (message: Self)
        ensures
            message@ == MessageView::EndOfExclusive,
            message.spec_bytes() == seq![END_OF_EXCLUSIVE],
    {
        let message = Self { bytes: [END_OF_EXCLUSIVE] };
        assert(message.bytes@ =~= seq![END_OF_EXCLUSIVE]);
        message
    }

    /// Takes over a buffer that decodes to an end-of-exclusive.
    pub fn from(raw_bytes: &[u8]) -> (message: Self)
        requires
            raw_bytes@.len() >= 1,
            decode(raw_bytes@) is EndOfExclusive,
        ensures
            message@ == decode(raw_bytes@),
            message.spec_bytes() == raw_bytes@,
    {
        let message = Self { bytes: [raw_bytes[0]] };
        assert(message.bytes@ =~= raw_bytes@);
        message
    }
}

impl View for EndOfExclusive {
    type V = MessageView;

    open spec fn view(&self) -> MessageView {
        MessageView::EndOfExclusive
    }
}

impl Default for EndOfExclusive {
    fn default() -> (message: Self)
        ensures
            message@ == MessageView::EndOfExclusive,
            message.spec_bytes() == seq![END_OF_EXCLUSIVE],
    {
        Self::new()
    }
}

impl MidiMessage for EndOfExclusive {
    fn pack(&self) -> (bytes: &[u8])
        ensures
            bytes@ == self.spec_bytes(),
    {
        proof {
            use_type_invariant(self);
        }
        &self.bytes
    }
}

} // verus!
