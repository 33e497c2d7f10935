//! The system-realtime kinds, each a single status byte.

use vstd::prelude::*;
use crate::message::MidiMessage;
use crate::model::{
    decode, MessageView, ACTIVE_SENSING, CONTINUE, RESET, START, STOP, TIMING_CLOCK,
};

verus! {

/// A timing clock: one tick of the sender's clock.
#[derive(Debug, Clone, Copy, PartialEq, Eq)]
pub struct TimingClock {
    bytes: [u8; 1],
}

impl TimingClock {
    #[verifier::type_invariant]
    spec fn framed(&self) -> bool {
        self.bytes[0] == TIMING_CLOCK
    }

    /// The bytes that the message holds: its status byte alone.
    pub closed spec fn spec_bytes(&self) -> Seq<u8> {
        self.bytes@
    }

    /// Builds the message. It carries nothing but its status byte.
    pub fn new() -> (message: Self)
        ensures
            message@ == MessageView::TimingClock,
            message.spec_bytes() == seq![TIMING_CLOCK],
    {
        let message = Self { bytes: [TIMING_CLOCK] };
        assert(message.bytes@ =~= seq![TIMING_CLOCK]);
        message
    }

    /// Takes over a buffer that decodes to a timing clock.
    pub fn from(raw_bytes: &[u8]) -> (message: Self)
        requires
            raw_bytes@.len() >= 1,
            decode(raw_bytes@) is TimingClock,
        ensures
            message@ == decode(raw_bytes@),
            message.spec_bytes() == raw_bytes@,
    {
        let message = Self { bytes: [raw_bytes[0]] };
        assert(message.bytes@ =~= raw_bytes@);
        message
    }
}

impl View for TimingClock {
    type V = MessageView;

    open spec fn view(&self) -> MessageView {
        MessageView::TimingClock
    }
}

impl Default for TimingClock {
    fn default() -> (message: Self)
        ensures
            message@ == MessageView::TimingClock,
            message.spec_bytes() == seq![TIMING_CLOCK],
    {
        Self::new()
    }
}

impl MidiMessage for TimingClock {
    fn pack(&self) -> (bytes: &[u8])
        ensures
            bytes@ == self.spec_bytes(),
    {
        proof {
            use_type_invariant(self);
        }
        &self.bytes
    }
}

/// A start: play from the beginning.
#[derive(Debug, Clone, Copy, PartialEq, Eq)]
pub struct Start {
    bytes: [u8; 1],
}

impl Start {
    #[verifier::type_invariant]
    spec fn framed(&self) -> bool {
        self.bytes[0] == START
    }

    /// The bytes that the message holds: its status byte alone.
    pub closed spec fn spec_bytes(&self) -> Seq<u8> {
        self.bytes@
    }

    /// Builds the message. It carries nothing but its status byte.
    pub fn new() -> (message: Self)
        ensures
            message@ == MessageView::Start,
            message.spec_bytes() == seq![START],
    {
        let message = Self { bytes: [START] };
        assert(message.bytes@ =~= seq![START]);
        message
    }

    /// Takes over a buffer that decodes to a start.
    pub fn from(raw_bytes: &[u8]) -> (message: Self)
        requires
            raw_bytes@.len() >= 1,
            decode(raw_bytes@) is Start,
        ensures
            message@ == decode(raw_bytes@),
            message.spec_bytes() == raw_bytes@,
    {
        let message = Self { bytes: [raw_bytes[0]] };
        assert(message.bytes@ =~= raw_bytes@);
        message
    }
}

impl View for Start {
    type V = MessageView;

    open spec fn view(&self) -> MessageView {
        MessageView::Start
    }
}

impl Default for Start {
    fn default() -> (message: Self)
        ensures
            message@ == MessageView::Start,
            message.spec_bytes() == seq![START],
    {
        Self::new()
    }
}

impl MidiMessage for Start {
    fn pack(&self) -> (bytes: &[u8])
        ensures
            bytes@ == self.spec_bytes(),
    {
        proof {
            use_type_invariant(self);
        }
        &self.bytes
    }
}

/// A continue: play on from where it stopped.
#[derive(Debug, Clone, Copy, PartialEq, Eq)]
pub struct Continue {
    bytes: [u8; 1],
}

impl Continue {
    #[verifier::type_invariant]
    spec fn framed(&self) -> bool {
        self.bytes[0] == CONTINUE
    }

    /// The bytes that the message holds: its status byte alone.
    pub closed spec fn spec_bytes(&self) -> Seq<u8> {
        self.bytes@
    }

    /// Builds the message. It carries nothing but its status byte.
    pub fn new() -> (message: Self)
        ensures
            message@ == MessageView::Continue,
            message.spec_bytes() == seq![CONTINUE],
    {
        let message = Self { bytes: [CONTINUE] };
        assert(message.bytes@ =~= seq![CONTINUE]);
        message
    }

    /// Takes over a buffer that decodes to a continue.
    pub fn from(raw_bytes: &[u8]) -> (message: Self)
        requires
            raw_bytes@.len() >= 1,
            decode(raw_bytes@) is Continue,
        ensures
            message@ == decode(raw_bytes@),
            message.spec_bytes() == raw_bytes@,
    {
        let message = Self { bytes: [raw_bytes[0]] };
        assert(message.bytes@ =~= raw_bytes@);
        message
    }
}

impl View for Continue {
    type V = MessageView;

    open spec fn view(&self) -> MessageView {
        MessageView::Continue
    }
}

impl Default for Continue {
    fn default() -> (message: Self)
        ensures
            message@ == MessageView::Continue,
            message.spec_bytes() == seq![CONTINUE],
    {
        Self::new()
    }
}

impl MidiMessage for Continue {
    fn pack(&self) -> (bytes: &[u8])
        ensures
            bytes@ == self.spec_bytes(),
    {
        proof {
            use_type_invariant(self);
        }
        &self.bytes
    }
}

/// A stop: stop playing.
#[derive(Debug, Clone, Copy, PartialEq, Eq)]
pub struct Stop {
    bytes: [u8; 1],
}

impl Stop {
    #[verifier::type_invariant]
    spec fn framed(&self) -> bool {
        self.bytes[0] == STOP
    }

    /// The bytes that the message holds: its status byte alone.
    pub closed spec fn spec_bytes(&self) -> Seq<u8> {
        self.bytes@
    }

    /// Builds the message. It carries nothing but its status byte.
    pub fn new() -> (message: Self)
        ensures
            message@ == MessageView::Stop,
            message.spec_bytes() == seq![STOP],
    {
        let message = Self { bytes: [STOP] };
        assert(message.bytes@ =~= seq![STOP]);
        message
    }

    /// Takes over a buffer that decodes to a stop.
    pub fn from(raw_bytes: &[u8]) -> (message: Self)
        requires
            raw_bytes@.len() >= 1,
            decode(raw_bytes@) is Stop,
        ensures
            message@ == decode(raw_bytes@),
            message.spec_bytes() == raw_bytes@,
    {
        let message = Self { bytes: [raw_bytes[0]] };
        assert(message.bytes@ =~= raw_bytes@);
        message
    }
}

impl View for Stop {
    type V = MessageView;

    open spec fn view(&self) -> MessageView {
        MessageView::Stop
    }
}

impl Default for Stop {
    fn default() -> (message: Self)
        ensures
            message@ == MessageView::Stop,
            message.spec_bytes() == seq![STOP],
    {
        Self::new()
    }
}

impl MidiMessage for Stop {
    fn pack(&self) -> (bytes: &[u8])
        ensures
            bytes@ == self.spec_bytes(),
    {
        proof {
            use_type_invariant(self);
        }
        &self.bytes
    }
}

/// An active sensing: the sender is still there.
#[derive(Debug, Clone, Copy, PartialEq, Eq)]
pub struct ActiveSensing {
    bytes: [u8; 1],
}

impl ActiveSensing {
    #[verifier::type_invariant]
    spec fn framed(&self) -> bool {
        self.bytes[0] == ACTIVE_SENSING
    }

    /// The bytes that the message holds: its status byte alone.
    pub closed spec fn spec_bytes(&self) -> Seq<u8> {
        self.bytes@
    }

    /// Builds the message. It carries nothing but its status byte.
    pub fn new() -> (message: Self)
        ensures
            message@ == MessageView::ActiveSensing,
            message.spec_bytes() == seq![ACTIVE_SENSING],
    {
        let message = Self { bytes: [ACTIVE_SENSING] };
        assert(message.bytes@ =~= seq![ACTIVE_SENSING]);
        message
    }

    /// Takes over a buffer that decodes to an active sensing.
    pub fn from(raw_bytes: &[u8]) -> (message: Self)
        requires
            raw_bytes@.len() >= 1,
            decode(raw_bytes@) is ActiveSensing,
        ensures
            message@ == decode(raw_bytes@),
            message.spec_bytes() == raw_bytes@,
    {
        let message = Self { bytes: [raw_bytes[0]] };
        assert(message.bytes@ =~= raw_bytes@);
        message
    }
}

impl View for ActiveSensing {
    type V = MessageView;

    open spec fn view(&self) -> MessageView {
        MessageView::ActiveSensing
    }
}

impl Default for ActiveSensing {
    fn default() -> (message: Self)
        ensures
            message@ == MessageView::ActiveSensing,
            message.spec_bytes() == seq![ACTIVE_SENSING],
    {
        Self::new()
    }
}

impl MidiMessage for ActiveSensing {
    fn pack(&self) -> (bytes: &[u8])
        ensures
            bytes@ == self.spec_bytes(),
    {
        proof {
            use_type_invariant(self);
        }
        &self.bytes
    }
}

/// A reset: go back to the state at power-up.
#[derive(Debug, Clone, Copy, PartialEq, Eq)]
pub struct Reset {
    bytes: [u8; 1],
}

impl Reset {
    #[verifier::type_invariant]
    spec fn framed(&self) -> bool {
        self.bytes[0] == RESET
    }

    /// The bytes that the message holds: its status byte alone.
    pub closed spec fn spec_bytes(&self) -> Seq<u8> {
        self.bytes@
    }

    /// Builds the message. It carries nothing but its status byte.
    pub fn new() -> (message: Self)
        ensures
            message@ == MessageView::Reset,
            message.spec_bytes() == seq![RESET],
    {
        let message = Self { bytes: [RESET] };
        assert(message.bytes@ =~= seq![RESET]);
        message
    }

    /// Takes over a buffer that decodes to a reset.
    pub fn from(raw_bytes: &[u8]) -> (message: Self)
        requires
            raw_bytes@.len() >= 1,
            decode(raw_bytes@) is Reset,
        ensures
            message@ == decode(raw_bytes@),
            message.spec_bytes() == raw_bytes@,
    {
        let message = Self { bytes: [raw_bytes[0]] };
        assert(message.bytes@ =~= raw_bytes@);
        message
    }
}

impl View for Reset {
    type V = MessageView;

    open spec fn view(&self) -> MessageView {
        MessageView::Reset
    }
}

impl Default for Reset {
    fn default() -> (message: Self)
        ensures
            message@ == MessageView::Reset,
            message.spec_bytes() == seq![RESET],
    {
        Self::new()
    }
}

impl MidiMessage for Reset {
    fn pack(&self) -> (bytes: &[u8])
        ensures
            bytes@ == self.spec_bytes(),
    {
        proof {
            use_type_invariant(self);
        }
        &self.bytes
    }
}

} // verus!
