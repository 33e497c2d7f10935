//! Laws of the codec, proved over the model: decoding and laying out are
//! inverse to each other on canonical messages and valid buffers, the status
//! byte and the controller number decide the kind, and a constructor builds
//! the kind it was asked for.

use vstd::prelude::*;
use crate::host::{built, bytes_of, construct_outcome, spec_field_count, Argument, Outcome};
use crate::kind::{Category, Kind};
use crate::model::{
    announced_id, decode, exclusive_framed, exclusive_wire, two_data_bytes, MessageView,
    AFTER_TOUCH, CONTROL_CHANGE, FIRST_MODE_CONTROLLER, NOTE_OFF, PROGRAM_CHANGE,
    SYSTEM_EXCLUSIVE,
};
use crate::wire::{family_of, lemma_join_split, lemma_split_join, DATA_MAX};

verus! {

/// Decoding the bytes of a concrete, canonical message gives the message back.
pub proof fn lemma_decode_inverts_wire(message: MessageView)
    requires
        message.kind().spec_is_concrete(),
        message.canonical(),
    ensures
        decode(message.wire()) == message,
{
    match message {
        MessageView::PitchBend { bend_amount, .. } => {
            lemma_join_split(bend_amount);
        },
        MessageView::SongPosition { midi_beats_elapsed } => {
            lemma_join_split(midi_beats_elapsed);
        },
        MessageView::SystemExclusive { manufacturer_id, bytes } => {
            assert(announced_id(bytes) =~= manufacturer_id);
        },
        _ => {},
    }
}

/// A buffer that decodes to a concrete message is exactly the bytes of that
/// message, and the message is canonical.
pub proof fn lemma_wire_inverts_decode(raw: Seq<u8>)
    requires
        raw.len() >= 1,
        decode(raw).kind().spec_is_concrete(),
    ensures
        decode(raw).wire() == raw,
        decode(raw).canonical(),
{
    if two_data_bytes(raw) {
        lemma_split_join(raw[1], raw[2]);
    }
    if decode(raw) is SystemExclusive {
        assert(raw.subrange(1, 1 + announced_id(raw).len() as int) =~= announced_id(raw));
    }
}

/// Whatever the buffer, the message it decodes to carries only values in range.
pub proof fn lemma_decode_in_range(raw: Seq<u8>)
    requires
        raw.len() >= 1,
    ensures
        decode(raw).in_range(),
{
    if decode(raw).kind().spec_is_concrete() {
        lemma_wire_inverts_decode(raw);
    }
}

/// A system-exclusive message built from a manufacturer id of one non-zero
/// byte, or of three bytes the first of which is zero, and a payload of at
/// least one byte decodes to itself.
pub proof fn lemma_exclusive_round_trip(manufacturer_id: Seq<u8>, payload: Seq<u8>)
    requires
        manufacturer_id.len() == 1 || manufacturer_id.len() == 3,
        manufacturer_id.len() == 1 <==> manufacturer_id[0] != 0,
        payload.len() >= 1,
    ensures
        decode(exclusive_wire(manufacturer_id, payload)) == (MessageView::SystemExclusive {
            manufacturer_id,
            bytes: exclusive_wire(manufacturer_id, payload),
        }),
{
    let bytes = exclusive_wire(manufacturer_id, payload);
    assert(exclusive_framed(bytes));
    assert(bytes.subrange(1, 1 + manufacturer_id.len() as int) =~= manufacturer_id);
    lemma_decode_inverts_wire(MessageView::SystemExclusive { manufacturer_id, bytes });
}

/// The four reserved status bytes decode to `Undefined` whatever follows
/// them, and nothing else does.
pub proof fn lemma_undefined_statuses(raw: Seq<u8>)
    requires
        raw.len() >= 1,
    ensures
        decode(raw) is Undefined <==> (raw[0] == 0xF4 || raw[0] == 0xF5 || raw[0] == 0xF9 || raw[0]
            == 0xFD),
{
}

/// Under the control-change status a controller number below 120 is a plain
/// control change, and each number from 120 to 127 is its own channel-mode kind.
pub proof fn lemma_controller_split(raw: Seq<u8>)
    requires
        raw.len() >= 1,
        family_of(raw[0]) == CONTROL_CHANGE,
        two_data_bytes(raw),
    ensures
        raw[1] < FIRST_MODE_CONTROLLER <==> decode(raw) is ControlChange,
        raw[1] >= FIRST_MODE_CONTROLLER <==> decode(raw).category() == Category::ChannelMode,
        raw[1] == 120 <==> decode(raw) is AllSoundOff,
        raw[1] == 121 <==> decode(raw) is ResetAllControllers,
        raw[1] == 122 <==> decode(raw) is LocalControl,
        raw[1] == 123 <==> decode(raw) is AllNotesOff,
        raw[1] == 124 <==> decode(raw) is OmniModeOff,
        raw[1] == 125 <==> decode(raw) is OmniModeOn,
        raw[1] == 126 <==> decode(raw) is MonoModeOn,
        raw[1] == 127 <==> decode(raw) is PolyModeOn,
{
}

/// A message is of unknown category exactly when it is one of the two sentinels.
pub proof fn lemma_unknown_category(message: MessageView)
    ensures
        message.category() == Category::Unknown <==> !message.kind().spec_is_concrete(),
        message.category() == Category::Unknown <==> (message is Undefined || message is Malformed),
{
}

/// What a constructor builds from the numbers of its fields decodes, from its
/// own bytes, to itself again, whatever the numbers: they are capped first.
/// The one exception is a control change whose controller number is 120 or
/// more, which its bytes share with a channel-mode kind.
pub proof fn lemma_constructed_round_trip(kind: Kind, numbers: Seq<u64>)
    requires
        kind.spec_is_concrete(),
        kind != Kind::SystemExclusive,
        numbers.len() == spec_field_count(kind),
        kind == Kind::ControlChange ==> numbers[0] < FIRST_MODE_CONTROLLER,
    ensures
        built(kind, numbers).kind() == kind,
        built(kind, numbers).canonical(),
        decode(built(kind, numbers).wire()) == built(kind, numbers),
{
    lemma_decode_inverts_wire(built(kind, numbers));
}

/// How many data bytes follow a channel status of the given family.
pub open spec fn data_length(family: u8) -> nat {
    if family == PROGRAM_CHANGE || family == AFTER_TOUCH {
        1
    } else {
        2
    }
}

/// Under a channel status a buffer is malformed exactly when it has not the
/// number of data bytes that the status calls for, or when one of them is
/// above 127.
pub proof fn lemma_malformed_channel_buffers(raw: Seq<u8>)
    requires
        raw.len() >= 1,
        NOTE_OFF <= raw[0] < SYSTEM_EXCLUSIVE,
    ensures
        decode(raw) is Malformed <==> !(raw.len() == 1 + data_length(family_of(raw[0]))
            && forall|i: int| 1 <= i < raw.len() ==> raw[i] <= DATA_MAX),
        !(decode(raw) is Undefined),
{
    if raw.len() == 1 + data_length(family_of(raw[0])) {
        if !(forall|i: int| 1 <= i < raw.len() ==> raw[i] <= DATA_MAX) {
            let i = choose|i: int| 1 <= i < raw.len() && !(raw[i] <= DATA_MAX);
            assert(raw[i] > DATA_MAX);
        }
    }
}

/// A status byte below `0x80` opens no message.
pub proof fn lemma_data_byte_opens_nothing(raw: Seq<u8>)
    requires
        raw.len() >= 1,
        raw[0] < NOTE_OFF,
    ensures
        decode(raw) is Malformed,
{
}

/// A kind without fields is built from no argument at all, and refused with
/// any.
pub proof fn lemma_no_argument_kinds(kind: Kind, args: Seq<Argument>)
    requires
        kind.spec_is_concrete(),
        spec_field_count(kind) == 0,
    ensures
        args.len() == 0 ==> construct_outcome(kind, args) == Outcome::Built(
            built(kind, Seq::empty()),
        ),
        args.len() > 0 ==> construct_outcome(kind, args) == Outcome::Refused,
        built(kind, Seq::empty()).kind() == kind,
{
}

/// No constructor builds a sentinel: what is built has the kind that was asked for.
pub proof fn lemma_constructed_kind(kind: Kind, args: Seq<Argument>)
    requires
        kind.spec_is_concrete(),
    ensures
        construct_outcome(kind, args) matches Outcome::Built(message) ==> message.kind() == kind
            && message.in_range(),
{
    if kind == Kind::SystemExclusive {
        if construct_outcome(kind, args) is Built {
            let id = bytes_of(args[0]->List_0@);
            let payload = bytes_of(args[1]->List_0@);
            let bytes = exclusive_wire(id, payload);
            assert(exclusive_framed(bytes));
            assert(bytes.subrange(1, 1 + id.len() as int) =~= id);
        }
    }
}

} // verus!
