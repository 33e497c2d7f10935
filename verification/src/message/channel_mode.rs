//! The channel-mode kinds, which share the control-change status and differ by controller number.

use vstd::prelude::*;
use crate::message::MidiMessage;
use crate::model::{decode, MessageView, CONTROL_CHANGE};
use crate::wire::{
    at_most, channel_nibble, channel_of, clamp_u8, family_of, make_status, CHANNEL_MAX, DATA_MAX,
};

verus! {

/// An all-sound-off: silence every sound on a channel.
#[derive(Debug, Clone, Copy, PartialEq, Eq)]
pub struct AllSoundOff {
    bytes: [u8; 3],
}

impl AllSoundOff {
    /// The controller number that selects this kind.
    pub const CONTROLLER: u8 = 120;

    #[verifier::type_invariant]
    spec fn framed(&self) -> bool {
        &&& family_of(self.bytes[0]) == CONTROL_CHANGE
        &&& self.bytes[1] == 120
        &&& self.bytes[2] <= DATA_MAX
    }

    /// The value that goes with the controller number.
    pub closed spec fn spec_value(&self) -> u8 {
        self.bytes[2]
    }

    /// The channel.
    pub closed spec fn spec_channel(&self) -> u8 {
        channel_of(self.bytes[0])
    }

    /// Builds the message, capping each number at the top of its range.
    pub fn new(value: u64, channel: u64) -> (message: Self)
        ensures
            message@ == (MessageView::AllSoundOff {
                value: at_most(value, DATA_MAX as u64) as u8,
                channel: at_most(channel, CHANNEL_MAX as u64) as u8,
            }),
    {
        Self {
            bytes: [
                make_status(CONTROL_CHANGE, clamp_u8(channel, CHANNEL_MAX)),
                120,
                clamp_u8(value, DATA_MAX),
            ],
        }
    }

    /// The value that goes with the controller number.
    #[verifier::when_used_as_spec(spec_value)]
    pub fn value(&self) -> (value: u8)
        ensures
            value == self.spec_value(),
            value <= DATA_MAX,
    {
        proof {
            use_type_invariant(self);
        }
        self.bytes[2]
    }

    /// The channel.
    #[verifier::when_used_as_spec(spec_channel)]
    pub fn channel(&self) -> (channel: u8)
        ensures
            channel == self.spec_channel(),
            channel <= CHANNEL_MAX,
    {
        channel_nibble(self.bytes[0])
    }

    /// Takes over a buffer that decodes to an all-sound-off.
    pub fn from(raw_bytes: &[u8]) -> (message: Self)
        requires
            raw_bytes@.len() >= 1,
            decode(raw_bytes@) is AllSoundOff,
        ensures
            message@ == decode(raw_bytes@),
    {
        Self { bytes: [raw_bytes[0], raw_bytes[1], raw_bytes[2]] }
    }
}

impl View for AllSoundOff {
    type V = MessageView;

    open spec fn view(&self) -> MessageView {
        MessageView::AllSoundOff { value: self.spec_value(), channel: self.spec_channel() }
    }
}

impl Default for AllSoundOff {
    /// Value 127, channel 0.
    fn default() -> (message: Self)
        ensures
            message@ == (MessageView::AllSoundOff { value: 127, channel: 0 }),
    {
        Self { bytes: [CONTROL_CHANGE, 120, 127] }
    }
}

impl MidiMessage for AllSoundOff {
    fn pack(&self) -> (bytes: &[u8]) {
        proof {
            use_type_invariant(self);
        }
        &self.bytes
    }
}

/// A reset-all-controllers: put the controllers of a channel back to their defaults.
#[derive(Debug, Clone, Copy, PartialEq, Eq)]
pub struct ResetAllControllers {
    bytes: [u8; 3],
}

impl ResetAllControllers {
    /// The controller number that selects this kind.
    pub const CONTROLLER: u8 = 121;

    #[verifier::type_invariant]
    spec fn framed(&self) -> bool {
        &&& family_of(self.bytes[0]) == CONTROL_CHANGE
        &&& self.bytes[1] == 121
        &&& self.bytes[2] <= DATA_MAX
    }

    /// The value that goes with the controller number.
    pub closed spec fn spec_value(&self) -> u8 {
        self.bytes[2]
    }

    /// The channel.
    pub closed spec fn spec_channel(&self) -> u8 {
        channel_of(self.bytes[0])
    }

    /// Builds the message, capping each number at the top of its range.
    pub fn new(value: u64, channel: u64) -> (message: Self)
        ensures
            message@ == (MessageView::ResetAllControllers {
                value: at_most(value, DATA_MAX as u64) as u8,
                channel: at_most(channel, CHANNEL_MAX as u64) as u8,
            }),
    {
        Self {
            bytes: [
                make_status(CONTROL_CHANGE, clamp_u8(channel, CHANNEL_MAX)),
                121,
                clamp_u8(value, DATA_MAX),
            ],
        }
    }

    /// The value that goes with the controller number.
    #[verifier::when_used_as_spec(spec_value)]
    pub fn value(&self) -> (value: u8)
        ensures
            value == self.spec_value(),
            value <= DATA_MAX,
    {
        proof {
            use_type_invariant(self);
        }
        self.bytes[2]
    }

    /// The channel.
    #[verifier::when_used_as_spec(spec_channel)]
    pub fn channel(&self) -> (channel: u8)
        ensures
            channel == self.spec_channel(),
            channel <= CHANNEL_MAX,
    {
        channel_nibble(self.bytes[0])
    }

    /// Takes over a buffer that decodes to a reset-all-controllers.
    pub fn from(raw_bytes: &[u8]) -> (message: Self)
        requires
            raw_bytes@.len() >= 1,
            decode(raw_bytes@) is ResetAllControllers,
        ensures
            message@ == decode(raw_bytes@),
    {
        Self { bytes: [raw_bytes[0], raw_bytes[1], raw_bytes[2]] }
    }
}

impl View for ResetAllControllers {
    type V = MessageView;

    open spec fn view(&self) -> MessageView {
        MessageView::ResetAllControllers { value: self.spec_value(), channel: self.spec_channel() }
    }
}

impl Default for ResetAllControllers {
    /// Value 127, channel 0.
    fn default() -> (message: Self)
        ensures
            message@ == (MessageView::ResetAllControllers { value: 127, channel: 0 }),
    {
        Self { bytes: [CONTROL_CHANGE, 121, 127] }
    }
}

impl MidiMessage for ResetAllControllers {
    fn pack(&self) -> (bytes: &[u8]) {
        proof {
            use_type_invariant(self);
        }
        &self.bytes
    }
}

/// A local-control: connect or disconnect the keyboard of a channel from its sound.
#[derive(Debug, Clone, Copy, PartialEq, Eq)]
pub struct LocalControl {
    bytes: [u8; 3],
}

impl LocalControl {
    /// The controller number that selects this kind.
    pub const CONTROLLER: u8 = 122;

    #[verifier::type_invariant]
    spec fn framed(&self) -> bool {
        &&& family_of(self.bytes[0]) == CONTROL_CHANGE
        &&& self.bytes[1] == 122
        &&& self.bytes[2] <= DATA_MAX
    }

    /// The value that goes with the controller number.
    pub closed spec fn spec_value(&self) -> u8 {
        self.bytes[2]
    }

    /// The channel.
    pub closed spec fn spec_channel(&self) -> u8 {
        channel_of(self.bytes[0])
    }

    /// Builds the message, capping each number at the top of its range.
    pub fn new(value: u64, channel: u64) -> (message: Self)
        ensures
            message@ == (MessageView::LocalControl {
                value: at_most(value, DATA_MAX as u64) as u8,
                channel: at_most(channel, CHANNEL_MAX as u64) as u8,
            }),
    {
        Self {
            bytes: [
                make_status(CONTROL_CHANGE, clamp_u8(channel, CHANNEL_MAX)),
                122,
                clamp_u8(value, DATA_MAX),
            ],
        }
    }

    /// The value that goes with the controller number.
    #[verifier::when_used_as_spec(spec_value)]
    pub fn value(&self) -> (value: u8)
        ensures
            value == self.spec_value(),
            value <= DATA_MAX,
    {
        proof {
            use_type_invariant(self);
        }
        self.bytes[2]
    }

    /// The channel.
    #[verifier::when_used_as_spec(spec_channel)]
    pub fn channel(&self) -> (channel: u8)
        ensures
            channel == self.spec_channel(),
            channel <= CHANNEL_MAX,
    {
        channel_nibble(self.bytes[0])
    }

    /// Takes over a buffer that decodes to a local-control.
    pub fn from(raw_bytes: &[u8]) -> (message: Self)
        requires
            raw_bytes@.len() >= 1,
            decode(raw_bytes@) is LocalControl,
        ensures
            message@ == decode(raw_bytes@),
    {
        Self { bytes: [raw_bytes[0], raw_bytes[1], raw_bytes[2]] }
    }
}

impl View for LocalControl {
    type V = MessageView;

    open spec fn view(&self) -> MessageView {
        MessageView::LocalControl { value: self.spec_value(), channel: self.spec_channel() }
    }
}

impl Default for LocalControl {
    /// Value 127, channel 0.
    fn default() -> (message: Self)
        ensures
            message@ == (MessageView::LocalControl { value: 127, channel: 0 }),
    {
        Self { bytes: [CONTROL_CHANGE, 122, 127] }
    }
}

impl MidiMessage for LocalControl {
    fn pack(&self) -> (bytes: &[u8]) {
        proof {
            use_type_invariant(self);
        }
        &self.bytes
    }
}

/// An all-notes-off: release every note held on a channel.
#[derive(Debug, Clone, Copy, PartialEq, Eq)]
pub struct AllNotesOff {
    bytes: [u8; 3],
}

impl AllNotesOff {
    /// The controller number that selects this kind.
    pub const CONTROLLER: u8 = 123;

    #[verifier::type_invariant]
    spec fn framed(&self) -> bool {
        &&& family_of(self.bytes[0]) == CONTROL_CHANGE
        &&& self.bytes[1] == 123
        &&& self.bytes[2] <= DATA_MAX
    }

    /// The value that goes with the controller number.
    pub closed spec fn spec_value(&self) -> u8 {
        self.bytes[2]
    }

    /// The channel.
    pub closed spec fn spec_channel(&self) -> u8 {
        channel_of(self.bytes[0])
    }

    /// Builds the message, capping each number at the top of its range.
    pub fn new(value: u64, channel: u64) -> (message: Self)
        ensures
            message@ == (MessageView::AllNotesOff {
                value: at_most(value, DATA_MAX as u64) as u8,
                channel: at_most(channel, CHANNEL_MAX as u64) as u8,
            }),
    {
        Self {
            bytes: [
                make_status(CONTROL_CHANGE, clamp_u8(channel, CHANNEL_MAX)),
                123,
                clamp_u8(value, DATA_MAX),
            ],
        }
    }

    /// The value that goes with the controller number.
    #[verifier::when_used_as_spec(spec_value)]
    pub fn value(&self) -> (value: u8)
        ensures
            value == self.spec_value(),
            value <= DATA_MAX,
    {
        proof {
            use_type_invariant(self);
        }
        self.bytes[2]
    }

    /// The channel.
    #[verifier::when_used_as_spec(spec_channel)]
    pub fn channel(&self) -> (channel: u8)
        ensures
            channel == self.spec_channel(),
            channel <= CHANNEL_MAX,
    {
        channel_nibble(self.bytes[0])
    }

    /// Takes over a buffer that decodes to an all-notes-off.
    pub fn from(raw_bytes: &[u8]) -> (message: Self)
        requires
            raw_bytes@.len() >= 1,
            decode(raw_bytes@) is AllNotesOff,
        ensures
            message@ == decode(raw_bytes@),
    {
        Self { bytes: [raw_bytes[0], raw_bytes[1], raw_bytes[2]] }
    }
}

impl View for AllNotesOff {
    type V = MessageView;

    open spec fn view(&self) -> MessageView {
        MessageView::AllNotesOff { value: self.spec_value(), channel: self.spec_channel() }
    }
}

impl Default for AllNotesOff {
    /// Value 127, channel 0.
    fn default() -> (message: Self)
        ensures
            message@ == (MessageView::AllNotesOff { value: 127, channel: 0 }),
    {
        Self { bytes: [CONTROL_CHANGE, 123, 127] }
    }
}

impl MidiMessage for AllNotesOff {
    fn pack(&self) -> (bytes: &[u8]) {
        proof {
            use_type_invariant(self);
        }
        &self.bytes
    }
}

/// An omni-mode-off: have a channel answer only to itself.
#[derive(Debug, Clone, Copy, PartialEq, Eq)]
pub struct OmniModeOff {
    bytes: [u8; 3],
}

impl OmniModeOff {
    /// The controller number that selects this kind.
    pub const CONTROLLER: u8 = 124;

    #[verifier::type_invariant]
    spec fn framed(&self) -> bool {
        &&& family_of(self.bytes[0]) == CONTROL_CHANGE
        &&& self.bytes[1] == 124
        &&& self.bytes[2] <= DATA_MAX
    }

    /// The value that goes with the controller number.
    pub closed spec fn spec_value(&self) -> u8 {
        self.bytes[2]
    }

    /// The channel.
    pub closed spec fn spec_channel(&self) -> u8 {
        channel_of(self.bytes[0])
    }

    /// Builds the message, capping each number at the top of its range.
    pub fn new(value: u64, channel: u64) -> (message: Self)
        ensures
            message@ == (MessageView::OmniModeOff {
                value: at_most(value, DATA_MAX as u64) as u8,
                channel: at_most(channel, CHANNEL_MAX as u64) as u8,
            }),
    {
        Self {
            bytes: [
                make_status(CONTROL_CHANGE, clamp_u8(channel, CHANNEL_MAX)),
                124,
                clamp_u8(value, DATA_MAX),
            ],
        }
    }

    /// The value that goes with the controller number.
    #[verifier::when_used_as_spec(spec_value)]
    pub fn value(&self) -> (value: u8)
        ensures
            value == self.spec_value(),
            value <= DATA_MAX,
    {
        proof {
            use_type_invariant(self);
        }
        self.bytes[2]
    }

    /// The channel.
    #[verifier::when_used_as_spec(spec_channel)]
    pub fn channel(&self) -> (channel: u8)
        ensures
            channel == self.spec_channel(),
            channel <= CHANNEL_MAX,
    {
        channel_nibble(self.bytes[0])
    }

    /// Takes over a buffer that decodes to an omni-mode-off.
    pub fn from(raw_bytes: &[u8]) -> (message: Self)
        requires
            raw_bytes@.len() >= 1,
            decode(raw_bytes@) is OmniModeOff,
        ensures
            message@ == decode(raw_bytes@),
    {
        Self { bytes: [raw_bytes[0], raw_bytes[1], raw_bytes[2]] }
    }
}

impl View for OmniModeOff {
    type V = MessageView;

    open spec fn view(&self) -> MessageView {
        MessageView::OmniModeOff { value: self.spec_value(), channel: self.spec_channel() }
    }
}

impl Default for OmniModeOff {
    /// Value 127, channel 0.
    fn default() -> (message: Self)
        ensures
            message@ == (MessageView::OmniModeOff { value: 127, channel: 0 }),
    {
        Self { bytes: [CONTROL_CHANGE, 124, 127] }
    }
}

impl MidiMessage for OmniModeOff {
    fn pack(&self) -> (bytes: &[u8]) {
        proof {
            use_type_invariant(self);
        }
        &self.bytes
    }
}

/// An omni-mode-on: have a channel answer to every channel.
#[derive(Debug, Clone, Copy, PartialEq, Eq)]
pub struct OmniModeOn {
    bytes: [u8; 3],
}

impl OmniModeOn {
    /// The controller number that selects this kind.
    pub const CONTROLLER: u8 = 125;

    #[verifier::type_invariant]
    spec fn framed(&self) -> bool {
        &&& family_of(self.bytes[0]) == CONTROL_CHANGE
        &&& self.bytes[1] == 125
        &&& self.bytes[2] <= DATA_MAX
    }

    /// The value that goes with the controller number.
    pub closed spec fn spec_value(&self) -> u8 {
        self.bytes[2]
    }

    /// The channel.
    pub closed spec fn spec_channel(&self) -> u8 {
        channel_of(self.bytes[0])
    }

    /// Builds the message, capping each number at the top of its range.
    pub fn new(value: u64, channel: u64) -> (message: Self)
        ensures
            message@ == (MessageView::OmniModeOn {
                value: at_most(value, DATA_MAX as u64) as u8,
                channel: at_most(channel, CHANNEL_MAX as u64) as u8,
            }),
    {
        Self {
            bytes: [
                make_status(CONTROL_CHANGE, clamp_u8(channel, CHANNEL_MAX)),
                125,
                clamp_u8(value, DATA_MAX),
            ],
        }
    }

    /// The value that goes with the controller number.
    #[verifier::when_used_as_spec(spec_value)]
    pub fn value(&self) -> (value: u8)
        ensures
            value == self.spec_value(),
            value <= DATA_MAX,
    {
        proof {
            use_type_invariant(self);
        }
        self.bytes[2]
    }

    /// The channel.
    #[verifier::when_used_as_spec(spec_channel)]
    pub fn channel(&self) -> (channel: u8)
        ensures
            channel == self.spec_channel(),
            channel <= CHANNEL_MAX,
    {
        channel_nibble(self.bytes[0])
    }

    /// Takes over a buffer that decodes to an omni-mode-on.
    pub fn from(raw_bytes: &[u8]) -> (message: Self)
        requires
            raw_bytes@.len() >= 1,
            decode(raw_bytes@) is OmniModeOn,
        ensures
            message@ == decode(raw_bytes@),
    {
        Self { bytes: [raw_bytes[0], raw_bytes[1], raw_bytes[2]] }
    }
}

impl View for OmniModeOn {
    type V = MessageView;

    open spec fn view(&self) -> MessageView {
        MessageView::OmniModeOn { value: self.spec_value(), channel: self.spec_channel() }
    }
}

impl Default for OmniModeOn {
    /// Value 127, channel 0.
    fn default() -> (message: Self)
        ensures
            message@ == (MessageView::OmniModeOn { value: 127, channel: 0 }),
    {
        Self { bytes: [CONTROL_CHANGE, 125, 127] }
    }
}

impl MidiMessage for OmniModeOn {
    fn pack(&self) -> (bytes: &[u8]) {
        proof {
            use_type_invariant(self);
        }
        &self.bytes
    }
}

/// A mono-mode-on: one voice at a time on a channel.
#[derive(Debug, Clone, Copy, PartialEq, Eq)]
pub struct MonoModeOn {
    bytes: [u8; 3],
}

impl MonoModeOn {
    /// The controller number that selects this kind.
    pub const CONTROLLER: u8 = 126;

    #[verifier::type_invariant]
    spec fn framed(&self) -> bool {
        &&& family_of(self.bytes[0]) == CONTROL_CHANGE
        &&& self.bytes[1] == 126
        &&& self.bytes[2] <= DATA_MAX
    }

    /// The value that goes with the controller number.
    pub closed spec fn spec_value(&self) -> u8 {
        self.bytes[2]
    }

    /// The channel.
    pub closed spec fn spec_channel(&self) -> u8 {
        channel_of(self.bytes[0])
    }

    /// Builds the message, capping each number at the top of its range.
    pub fn new(value: u64, channel: u64) -> (message: Self)
        ensures
            message@ == (MessageView::MonoModeOn {
                value: at_most(value, DATA_MAX as u64) as u8,
                channel: at_most(channel, CHANNEL_MAX as u64) as u8,
            }),
    {
        Self {
            bytes: [
                make_status(CONTROL_CHANGE, clamp_u8(channel, CHANNEL_MAX)),
                126,
                clamp_u8(value, DATA_MAX),
            ],
        }
    }

    /// The value that goes with the controller number.
    #[verifier::when_used_as_spec(spec_value)]
    pub fn value(&self) -> (value: u8)
        ensures
            value == self.spec_value(),
            value <= DATA_MAX,
    {
        proof {
            use_type_invariant(self);
        }
        self.bytes[2]
    }

    /// The channel.
    #[verifier::when_used_as_spec(spec_channel)]
    pub fn channel(&self) -> (channel: u8)
        ensures
            channel == self.spec_channel(),
            channel <= CHANNEL_MAX,
    {
        channel_nibble(self.bytes[0])
    }

    /// Takes over a buffer that decodes to a mono-mode-on.
    pub fn from(raw_bytes: &[u8]) -> (message: Self)
        requires
            raw_bytes@.len() >= 1,
            decode(raw_bytes@) is MonoModeOn,
        ensures
            message@ == decode(raw_bytes@),
    {
        Self { bytes: [raw_bytes[0], raw_bytes[1], raw_bytes[2]] }
    }
}

impl View for MonoModeOn {
    type V = MessageView;

    open spec fn view(&self) -> MessageView {
        MessageView::MonoModeOn { value: self.spec_value(), channel: self.spec_channel() }
    }
}

impl Default for MonoModeOn {
    /// Value 127, channel 0.
    fn default() -> (message: Self)
        ensures
            message@ == (MessageView::MonoModeOn { value: 127, channel: 0 }),
    {
        Self { bytes: [CONTROL_CHANGE, 126, 127] }
    }
}

impl MidiMessage for MonoModeOn {
    fn pack(&self) -> (bytes: &[u8]) {
        proof {
            use_type_invariant(self);
        }
        &self.bytes
    }
}

/// A poly-mode-on: several voices at a time on a channel.
#[derive(Debug, Clone, Copy, PartialEq, Eq)]
pub struct PolyModeOn {
    bytes: [u8; 3],
}

impl PolyModeOn {
    /// The controller number that selects this kind.
    pub const CONTROLLER: u8 = 127;

    #[verifier::type_invariant]
    spec fn framed(&self) -> bool {
        &&& family_of(self.bytes[0]) == CONTROL_CHANGE
        &&& self.bytes[1] == 127
        &&& self.bytes[2] <= DATA_MAX
    }

    /// The value that goes with the controller number.
    pub closed spec fn spec_value(&self) -> u8 {
        self.bytes[2]
    }

    /// The channel.
    pub closed spec fn spec_channel(&self) -> u8 {
        channel_of(self.bytes[0])
    }

    /// Builds the message, capping each number at the top of its range.
    pub fn new(value: u64, channel: u64) -> (message: Self)
        ensures
            message@ == (MessageView::PolyModeOn {
                value: at_most(value, DATA_MAX as u64) as u8,
                channel: at_most(channel, CHANNEL_MAX as u64) as u8,
            }),
    {
        Self {
            bytes: [
                make_status(CONTROL_CHANGE, clamp_u8(channel, CHANNEL_MAX)),
                127,
                clamp_u8(value, DATA_MAX),
            ],
        }
    }

    /// The value that goes with the controller number.
    #[verifier::when_used_as_spec(spec_value)]
    pub fn value(&self) -> (value: u8)
        ensures
            value == self.spec_value(),
            value <= DATA_MAX,
    {
        proof {
            use_type_invariant(self);
        }
        self.bytes[2]
    }

    /// The channel.
    #[verifier::when_used_as_spec(spec_channel)]
    pub fn channel(&self) -> (channel: u8)
        ensures
            channel == self.spec_channel(),
            channel <= CHANNEL_MAX,
    {
        channel_nibble(self.bytes[0])
    }

    /// Takes over a buffer that decodes to a poly-mode-on.
    pub fn from(raw_bytes: &[u8]) -> (message: Self)
        requires
            raw_bytes@.len() >= 1,
            decode(raw_bytes@) is PolyModeOn,
        ensures
            message@ == decode(raw_bytes@),
    {
        Self { bytes: [raw_bytes[0], raw_bytes[1], raw_bytes[2]] }
    }
}

impl View for PolyModeOn {
    type V = MessageView;

    open spec fn view(&self) -> MessageView {
        MessageView::PolyModeOn { value: self.spec_value(), channel: self.spec_channel() }
    }
}

impl Default for PolyModeOn {
    /// Value 127, channel 0.
    fn default() -> (message: Self)
        ensures
            message@ == (MessageView::PolyModeOn { value: 127, channel: 0 }),
    {
        Self { bytes: [CONTROL_CHANGE, 127, 127] }
    }
}

impl MidiMessage for PolyModeOn {
    fn pack(&self) -> (bytes: &[u8]) {
        proof {
            use_type_invariant(self);
        }
        &self.bytes
    }
}

} // verus!
