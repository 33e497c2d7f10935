//! The channel-voice kinds: notes, after-touch, controllers, programs and pitch bend.

use vstd::prelude::*;
use crate::message::MidiMessage;
use crate::model::{
    decode, MessageView, AFTER_TOUCH, CONTROL_CHANGE, NOTE_OFF, NOTE_ON, PITCH_BEND,
    POLY_AFTER_TOUCH, PROGRAM_CHANGE,
};
use crate::wire::{
    at_most, channel_nibble, channel_of, clamp_u8, clamp_wide, family_of, join14, join_wide,
    lemma_join_split, lemma_split_join, make_status, split_wide, CHANNEL_MAX, DATA_MAX, WIDE_MAX,
};

verus! {

/// A note-off: a key released with a velocity, on a channel.
#[derive(Debug, Clone, Copy, PartialEq, Eq)]
pub struct NoteOff {
    bytes: [u8; 3],
}

impl NoteOff {
    #[verifier::type_invariant]
    spec fn framed(&self) -> bool {
        &&& family_of(self.bytes[0]) == NOTE_OFF
        &&& self.bytes[1] <= DATA_MAX
        &&& self.bytes[2] <= DATA_MAX
    }

    /// The note number.
    pub closed spec fn spec_note(&self) -> u8 {
        self.bytes[1]
    }

    /// The release velocity.
    pub closed spec fn spec_velocity(&self) -> u8 {
        self.bytes[2]
    }

    /// The channel.
    pub closed spec fn spec_channel(&self) -> u8 {
        channel_of(self.bytes[0])
    }

    /// Builds the message, capping each number at the top of its range.
    pub fn new(note: u64, velocity: u64, channel: u64) -> (message: Self)
        ensures
            message@ == (MessageView::NoteOff {
                note: at_most(note, DATA_MAX as u64) as u8,
                velocity: at_most(velocity, DATA_MAX as u64) as u8,
                channel: at_most(channel, CHANNEL_MAX as u64) as u8,
            }),
    {
        Self {
            bytes: [
                make_status(NOTE_OFF, clamp_u8(channel, CHANNEL_MAX)),
                clamp_u8(note, DATA_MAX),
                clamp_u8(velocity, DATA_MAX),
            ],
        }
    }

    /// The note number.
    #[verifier::when_used_as_spec(spec_note)]
    pub fn note(&self) -> (note: u8)
        ensures
            note == self.spec_note(),
            note <= DATA_MAX,
    {
        proof {
            use_type_invariant(self);
        }
        self.bytes[1]
    }

    /// The release velocity.
    #[verifier::when_used_as_spec(spec_velocity)]
    pub fn velocity(&self) -> (velocity: u8)
        ensures
            velocity == self.spec_velocity(),
            velocity <= DATA_MAX,
    {
        proof {
            use_type_invariant(self);
        }
        self.bytes[2]
    }

    /// The channel.
    #[verifier::when_used_as_spec(spec_channel)]
    pub fn channel(&self) -> (channel: u8)
        ensures
            channel == self.spec_channel(),
            channel <= CHANNEL_MAX,
    {
        channel_nibble(self.bytes[0])
    }

    /// Takes over a buffer that decodes to a note-off.
    pub fn from(raw_bytes: &[u8]) -> (message: Self)
        requires
            raw_bytes@.len() >= 1,
            decode(raw_bytes@) is NoteOff,
        ensures
            message@ == decode(raw_bytes@),
    {
        Self { bytes: [raw_bytes[0], raw_bytes[1], raw_bytes[2]] }
    }
}

impl View for NoteOff {
    type V = MessageView;

    open spec fn view(&self) -> MessageView {
        MessageView::NoteOff {
            note: self.spec_note(),
            velocity: self.spec_velocity(),
            channel: self.spec_channel(),
        }
    }
}

impl Default for NoteOff {
    /// Note 64, velocity 0, channel 0.
    fn default() -> (message: Self)
        ensures
            message@ == (MessageView::NoteOff { note: 64, velocity: 0, channel: 0 }),
    {
        Self { bytes: [NOTE_OFF, 64, 0] }
    }
}

impl MidiMessage for NoteOff {
    fn pack(&self) -> (bytes: &[u8]) {
        proof {
            use_type_invariant(self);
        }
        &self.bytes
    }
}

/// A note-on: a key struck with a velocity, on a channel.
#[derive(Debug, Clone, Copy, PartialEq, Eq)]
pub struct NoteOn {
    bytes: [u8; 3],
}

impl NoteOn {
    #[verifier::type_invariant]
    spec fn framed(&self) -> bool {
        &&& family_of(self.bytes[0]) == NOTE_ON
        &&& self.bytes[1] <= DATA_MAX
        &&& self.bytes[2] <= DATA_MAX
    }

    /// The note number.
    pub closed spec fn spec_note(&self) -> u8 {
        self.bytes[1]
    }

    /// The attack velocity.
    pub closed spec fn spec_velocity(&self) -> u8 {
        self.bytes[2]
    }

    /// The channel.
    pub closed spec fn spec_channel(&self) -> u8 {
        channel_of(self.bytes[0])
    }

    /// Builds the message, capping each number at the top of its range.
    pub fn new(note: u64, velocity: u64, channel: u64) -> (message: Self)
        ensures
            message@ == (MessageView::NoteOn {
                note: at_most(note, DATA_MAX as u64) as u8,
                velocity: at_most(velocity, DATA_MAX as u64) as u8,
                channel: at_most(channel, CHANNEL_MAX as u64) as u8,
            }),
    {
        Self {
            bytes: [
                make_status(NOTE_ON, clamp_u8(channel, CHANNEL_MAX)),
                clamp_u8(note, DATA_MAX),
                clamp_u8(velocity, DATA_MAX),
            ],
        }
    }

    /// The note number.
    #[verifier::when_used_as_spec(spec_note)]
    pub fn note(&self) -> (note: u8)
        ensures
            note == self.spec_note(),
            note <= DATA_MAX,
    {
        proof {
            use_type_invariant(self);
        }
        self.bytes[1]
    }

    /// The attack velocity.
    #[verifier::when_used_as_spec(spec_velocity)]
    pub fn velocity(&self) -> (velocity: u8)
        ensures
            velocity == self.spec_velocity(),
            velocity <= DATA_MAX,
    {
        proof {
            use_type_invariant(self);
        }
        self.bytes[2]
    }

    /// The channel.
    #[verifier::when_used_as_spec(spec_channel)]
    pub fn channel(&self) -> (channel: u8)
        ensures
            channel == self.spec_channel(),
            channel <= CHANNEL_MAX,
    {
        channel_nibble(self.bytes[0])
    }

    /// Takes over a buffer that decodes to a note-on.
    pub fn from(raw_bytes: &[u8]) -> (message: Self)
        requires
            raw_bytes@.len() >= 1,
            decode(raw_bytes@) is NoteOn,
        ensures
            message@ == decode(raw_bytes@),
    {
        Self { bytes: [raw_bytes[0], raw_bytes[1], raw_bytes[2]] }
    }
}

impl View for NoteOn {
    type V = MessageView;

    open spec fn view(&self) -> MessageView {
        MessageView::NoteOn {
            note: self.spec_note(),
            velocity: self.spec_velocity(),
            channel: self.spec_channel(),
        }
    }
}

impl Default for NoteOn {
    /// Note 64, velocity 0, channel 0.
    fn default() -> (message: Self)
        ensures
            message@ == (MessageView::NoteOn { note: 64, velocity: 0, channel: 0 }),
    {
        Self { bytes: [NOTE_ON, 64, 0] }
    }
}

impl MidiMessage for NoteOn {
    fn pack(&self) -> (bytes: &[u8]) {
        proof {
            use_type_invariant(self);
        }
        &self.bytes
    }
}

/// A polyphonic after-touch: the pressure on one held key, on a channel.
#[derive(Debug, Clone, Copy, PartialEq, Eq)]
pub struct PolyAfterTouch {
    bytes: [u8; 3],
}

impl PolyAfterTouch {
    #[verifier::type_invariant]
    spec fn framed(&self) -> bool {
        &&& family_of(self.bytes[0]) == POLY_AFTER_TOUCH
        &&& self.bytes[1] <= DATA_MAX
        &&& self.bytes[2] <= DATA_MAX
    }

    /// The note number.
    pub closed spec fn spec_note(&self) -> u8 {
        self.bytes[1]
    }

    /// The pressure on the key.
    pub closed spec fn spec_pressure(&self) -> u8 {
        self.bytes[2]
    }

    /// The channel.
    pub closed spec fn spec_channel(&self) -> u8 {
        channel_of(self.bytes[0])
    }

    /// Builds the message, capping each number at the top of its range.
    pub fn new(note: u64, pressure: u64, channel: u64) -> (message: Self)
        ensures
            message@ == (MessageView::PolyAfterTouch {
                note: at_most(note, DATA_MAX as u64) as u8,
                pressure: at_most(pressure, DATA_MAX as u64) as u8,
                channel: at_most(channel, CHANNEL_MAX as u64) as u8,
            }),
    {
        Self {
            bytes: [
                make_status(POLY_AFTER_TOUCH, clamp_u8(channel, CHANNEL_MAX)),
                clamp_u8(note, DATA_MAX),
                clamp_u8(pressure, DATA_MAX),
            ],
        }
    }

    /// The note number.
    #[verifier::when_used_as_spec(spec_note)]
    pub fn note(&self) -> (note: u8)
        ensures
            note == self.spec_note(),
            note <= DATA_MAX,
    {
        proof {
            use_type_invariant(self);
        }
        self.bytes[1]
    }

    /// The pressure on the key.
    #[verifier::when_used_as_spec(spec_pressure)]
    pub fn pressure(&self) -> (pressure: u8)
        ensures
            pressure == self.spec_pressure(),
            pressure <= DATA_MAX,
    {
        proof {
            use_type_invariant(self);
        }
        self.bytes[2]
    }

    /// The channel.
    #[verifier::when_used_as_spec(spec_channel)]
    pub fn channel(&self) -> (channel: u8)
        ensures
            channel == self.spec_channel(),
            channel <= CHANNEL_MAX,
    {
        channel_nibble(self.bytes[0])
    }

    /// Takes over a buffer that decodes to a polyphonic after-touch.
    pub fn from(raw_bytes: &[u8]) -> (message: Self)
        requires
            raw_bytes@.len() >= 1,
            decode(raw_bytes@) is PolyAfterTouch,
        ensures
            message@ == decode(raw_bytes@),
    {
        Self { bytes: [raw_bytes[0], raw_bytes[1], raw_bytes[2]] }
    }
}

impl View for PolyAfterTouch {
    type V = MessageView;

    open spec fn view(&self) -> MessageView {
        MessageView::PolyAfterTouch {
            note: self.spec_note(),
            pressure: self.spec_pressure(),
            channel: self.spec_channel(),
        }
    }
}

impl Default for PolyAfterTouch {
    /// Note 64, pressure 127, channel 0.
    fn default() -> (message: Self)
        ensures
            message@ == (MessageView::PolyAfterTouch { note: 64, pressure: 127, channel: 0 }),
    {
        Self { bytes: [POLY_AFTER_TOUCH, 64, 127] }
    }
}

impl MidiMessage for PolyAfterTouch {
    fn pack(&self) -> (bytes: &[u8]) {
        proof {
            use_type_invariant(self);
        }
        &self.bytes
    }
}

/// A control change: a controller set to a value, on a channel.
#[derive(Debug, Clone, Copy, PartialEq, Eq)]
pub struct ControlChange {
    bytes: [u8; 3],
}

impl ControlChange {
    #[verifier::type_invariant]
    spec fn framed(&self) -> bool {
        &&& family_of(self.bytes[0]) == CONTROL_CHANGE
        &&& self.bytes[1] <= DATA_MAX
        &&& self.bytes[2] <= DATA_MAX
    }

    /// The controller number.
    pub closed spec fn spec_note(&self) -> u8 {
        self.bytes[1]
    }

    /// The value of the controller.
    pub closed spec fn spec_value(&self) -> u8 {
        self.bytes[2]
    }

    /// The channel.
    pub closed spec fn spec_channel(&self) -> u8 {
        channel_of(self.bytes[0])
    }

    /// Builds the message, capping each number at the top of its range.
    pub fn new(note: u64, value: u64, channel: u64) -> (message: Self)
        ensures
            message@ == (MessageView::ControlChange {
                note: at_most(note, DATA_MAX as u64) as u8,
                value: at_most(value, DATA_MAX as u64) as u8,
                channel: at_most(channel, CHANNEL_MAX as u64) as u8,
            }),
    {
        Self {
            bytes: [
                make_status(CONTROL_CHANGE, clamp_u8(channel, CHANNEL_MAX)),
                clamp_u8(note, DATA_MAX),
                clamp_u8(value, DATA_MAX),
            ],
        }
    }

    /// The controller number.
    #[verifier::when_used_as_spec(spec_note)]
    pub fn note(&self) -> (note: u8)
        ensures
            note == self.spec_note(),
            note <= DATA_MAX,
    {
        proof {
            use_type_invariant(self);
        }
        self.bytes[1]
    }

    /// The value of the controller.
    #[verifier::when_used_as_spec(spec_value)]
    pub fn value(&self) -> (value: u8)
        ensures
            value == self.spec_value(),
            value <= DATA_MAX,
    {
        proof {
            use_type_invariant(self);
        }
        self.bytes[2]
    }

    /// The channel.
    #[verifier::when_used_as_spec(spec_channel)]
    pub fn channel(&self) -> (channel: u8)
        ensures
            channel == self.spec_channel(),
            channel <= CHANNEL_MAX,
    {
        channel_nibble(self.bytes[0])
    }

    /// Takes over a buffer that decodes to a control change.
    pub fn from(raw_bytes: &[u8]) -> (message: Self)
        requires
            raw_bytes@.len() >= 1,
            decode(raw_bytes@) is ControlChange,
        ensures
            message@ == decode(raw_bytes@),
    {
        Self { bytes: [raw_bytes[0], raw_bytes[1], raw_bytes[2]] }
    }
}

impl View for ControlChange {
    type V = MessageView;

    open spec fn view(&self) -> MessageView {
        MessageView::ControlChange {
            note: self.spec_note(),
            value: self.spec_value(),
            channel: self.spec_channel(),
        }
    }
}

impl Default for ControlChange {
    /// Controller 64, value 127, channel 0.
    fn default() -> (message: Self)
        ensures
            message@ == (MessageView::ControlChange { note: 64, value: 127, channel: 0 }),
    {
        Self { bytes: [CONTROL_CHANGE, 64, 127] }
    }
}

impl MidiMessage for ControlChange {
    fn pack(&self) -> (bytes: &[u8]) {
        proof {
            use_type_invariant(self);
        }
        &self.bytes
    }
}

/// A program change: a program selected on a channel.
#[derive(Debug, Clone, Copy, PartialEq, Eq)]
pub struct ProgramChange {
    bytes: [u8; 2],
}

impl ProgramChange {
    #[verifier::type_invariant]
    spec fn framed(&self) -> bool {
        &&& family_of(self.bytes[0]) == PROGRAM_CHANGE
        &&& self.bytes[1] <= DATA_MAX
    }

    /// The program number.
    pub closed spec fn spec_program(&self) -> u8 {
        self.bytes[1]
    }

    /// The channel.
    pub closed spec fn spec_channel(&self) -> u8 {
        channel_of(self.bytes[0])
    }

    /// Builds the message, capping each number at the top of its range.
    pub fn new(program: u64, channel: u64) -> (message: Self)
        ensures
            message@ == (MessageView::ProgramChange {
                program: at_most(program, DATA_MAX as u64) as u8,
                channel: at_most(channel, CHANNEL_MAX as u64) as u8,
            }),
    {
        Self {
            bytes: [make_status(PROGRAM_CHANGE, clamp_u8(channel, CHANNEL_MAX)), clamp_u8(program, DATA_MAX)],
        }
    }

    /// The program number.
    #[verifier::when_used_as_spec(spec_program)]
    pub fn program(&self) -> (program: u8)
        ensures
            program == self.spec_program(),
            program <= DATA_MAX,
    {
        proof {
            use_type_invariant(self);
        }
        self.bytes[1]
    }

    /// The channel.
    #[verifier::when_used_as_spec(spec_channel)]
    pub fn channel(&self) -> (channel: u8)
        ensures
            channel == self.spec_channel(),
            channel <= CHANNEL_MAX,
    {
        channel_nibble(self.bytes[0])
    }

    /// Takes over a buffer that decodes to a program change.
    pub fn from(raw_bytes: &[u8]) -> (message: Self)
        requires
            raw_bytes@.len() >= 1,
            decode(raw_bytes@) is ProgramChange,
        ensures
            message@ == decode(raw_bytes@),
    {
        Self { bytes: [raw_bytes[0], raw_bytes[1]] }
    }
}

impl View for ProgramChange {
    type V = MessageView;

    open spec fn view(&self) -> MessageView {
        MessageView::ProgramChange { program: self.spec_program(), channel: self.spec_channel() }
    }
}

impl Default for ProgramChange {
    /// Program 0, channel 0.
    fn default() -> (message: Self)
        ensures
            message@ == (MessageView::ProgramChange { program: 0, channel: 0 }),
    {
        Self { bytes: [PROGRAM_CHANGE, 0] }
    }
}

impl MidiMessage for ProgramChange {
    fn pack(&self) -> (bytes: &[u8]) {
        proof {
            use_type_invariant(self);
        }
        &self.bytes
    }
}

/// A channel after-touch: the pressure on a whole channel.
#[derive(Debug, Clone, Copy, PartialEq, Eq)]
pub struct AfterTouch {
    bytes: [u8; 2],
}

impl AfterTouch {
    #[verifier::type_invariant]
    spec fn framed(&self) -> bool {
        &&& family_of(self.bytes[0]) == AFTER_TOUCH
        &&& self.bytes[1] <= DATA_MAX
    }

    /// The pressure on the channel.
    pub closed spec fn spec_pressure(&self) -> u8 {
        self.bytes[1]
    }

    /// The channel.
    pub closed spec fn spec_channel(&self) -> u8 {
        channel_of(self.bytes[0])
    }

    /// Builds the message, capping each number at the top of its range.
    pub fn new(pressure: u64, channel: u64) -> (message: Self)
        ensures
            message@ == (MessageView::AfterTouch {
                pressure: at_most(pressure, DATA_MAX as u64) as u8,
                channel: at_most(channel, CHANNEL_MAX as u64) as u8,
            }),
    {
        Self {
            bytes: [make_status(AFTER_TOUCH, clamp_u8(channel, CHANNEL_MAX)), clamp_u8(pressure, DATA_MAX)],
        }
    }

    /// The pressure on the channel.
    #[verifier::when_used_as_spec(spec_pressure)]
    pub fn pressure(&self) -> (pressure: u8)
        ensures
            pressure == self.spec_pressure(),
            pressure <= DATA_MAX,
    {
        proof {
            use_type_invariant(self);
        }
        self.bytes[1]
    }

    /// The channel.
    #[verifier::when_used_as_spec(spec_channel)]
    pub fn channel(&self) -> (channel: u8)
        ensures
            channel == self.spec_channel(),
            channel <= CHANNEL_MAX,
    {
        channel_nibble(self.bytes[0])
    }

    /// Takes over a buffer that decodes to a channel after-touch.
    pub fn from(raw_bytes: &[u8]) -> (message: Self)
        requires
            raw_bytes@.len() >= 1,
            decode(raw_bytes@) is AfterTouch,
        ensures
            message@ == decode(raw_bytes@),
    {
        Self { bytes: [raw_bytes[0], raw_bytes[1]] }
    }
}

impl View for AfterTouch {
    type V = MessageView;

    open spec fn view(&self) -> MessageView {
        MessageView::AfterTouch { pressure: self.spec_pressure(), channel: self.spec_channel() }
    }
}

impl Default for AfterTouch {
    /// Pressure 0, channel 0.
    fn default() -> (message: Self)
        ensures
            message@ == (MessageView::AfterTouch { pressure: 0, channel: 0 }),
    {
        Self { bytes: [AFTER_TOUCH, 0] }
    }
}

impl MidiMessage for AfterTouch {
    fn pack(&self) -> (bytes: &[u8]) {
        proof {
            use_type_invariant(self);
        }
        &self.bytes
    }
}

/// A pitch bend: a 14-bit bend amount on a channel.
#[derive(Debug, Clone, Copy, PartialEq, Eq)]
pub struct PitchBend {
    bytes: [u8; 3],
}

impl PitchBend {
    #[verifier::type_invariant]
    spec fn framed(&self) -> bool {
        &&& family_of(self.bytes[0]) == PITCH_BEND
        &&& self.bytes[1] <= DATA_MAX
        &&& self.bytes[2] <= DATA_MAX
    }

    /// The bend amount.
    pub closed spec fn spec_bend_amount(&self) -> u16 {
        join14(self.bytes[1], self.bytes[2])
    }

    /// The channel.
    pub closed spec fn spec_channel(&self) -> u8 {
        channel_of(self.bytes[0])
    }

    /// Builds the message, capping each number at the top of its range.
    pub fn new(bend_amount: u64, channel: u64) -> (message: Self)
        ensures
            message@ == (MessageView::PitchBend {
                bend_amount: at_most(bend_amount, WIDE_MAX as u64) as u16,
                channel: at_most(channel, CHANNEL_MAX as u64) as u8,
            }),
    {
        let bend_amount: u16 = clamp_wide(bend_amount);
        let (lsb, msb) = split_wide(bend_amount);
        proof {
            lemma_join_split(bend_amount);
        }
        Self { bytes: [make_status(PITCH_BEND, clamp_u8(channel, CHANNEL_MAX)), lsb, msb] }
    }

    /// The bend amount.
    #[verifier::when_used_as_spec(spec_bend_amount)]
    pub fn bend_amount(&self) -> (bend_amount: u16)
        ensures
            bend_amount == self.spec_bend_amount(),
            bend_amount <= WIDE_MAX,
    {
        proof {
            use_type_invariant(self);
        }
        join_wide(self.bytes[1], self.bytes[2])
    }

    /// The channel.
    #[verifier::when_used_as_spec(spec_channel)]
    pub fn channel(&self) -> (channel: u8)
        ensures
            channel == self.spec_channel(),
            channel <= CHANNEL_MAX,
    {
        channel_nibble(self.bytes[0])
    }

    /// Replaces the 14-bit quantity, capped at the top of its range, and leaves the rest as it was.
    pub fn change_bend_amount(&mut self, bend_amount: u16)
        ensures
            final(self)@ == (MessageView::PitchBend {
                bend_amount: at_most(bend_amount as u64, WIDE_MAX as u64) as u16,
                channel: old(self).spec_channel(),
            }),
    {
        proof {
            use_type_invariant(&*self);
        }
        let bend_amount: u16 = clamp_wide(bend_amount as u64);
        let (lsb, msb) = split_wide(bend_amount);
        proof {
            lemma_join_split(bend_amount);
        }
        self.bytes = [self.bytes[0], lsb, msb];
    }

    /// Takes over a buffer that decodes to a pitch bend.
    pub fn from(raw_bytes: &[u8]) -> (message: Self)
        requires
            raw_bytes@.len() >= 1,
            decode(raw_bytes@) is PitchBend,
        ensures
            message@ == decode(raw_bytes@),
    {
        Self { bytes: [raw_bytes[0], raw_bytes[1], raw_bytes[2]] }
    }
}

impl View for PitchBend {
    type V = MessageView;

    open spec fn view(&self) -> MessageView {
        MessageView::PitchBend { bend_amount: self.spec_bend_amount(), channel: self.spec_channel() }
    }
}

impl Default for PitchBend {
    /// Bend amount 8821, channel 0.
    fn default() -> (message: Self)
        ensures
            message@ == (MessageView::PitchBend { bend_amount: 8821, channel: 0 }),
    {
        let (lsb, msb) = split_wide(8821);
        proof {
            lemma_join_split(8821);
        }
        Self { bytes: [PITCH_BEND, lsb, msb] }
    }
}

impl MidiMessage for PitchBend {
    fn pack(&self) -> (bytes: &[u8]) {
        proof {
            use_type_invariant(self);
            lemma_split_join(self.bytes[1], self.bytes[2]);
        }
        &self.bytes
    }
}

} // verus!
