//! The record that a host receives for a message: its type and category by
//! name, its fields by name, and the bytes it packs to.

use vstd::prelude::*;
use vstd::slice::slice_to_vec;
use crate::message::{Message, MidiMessage};
use crate::model::MessageView;

verus! {

/// The value of one entry of a record.
#[derive(Debug, PartialEq, Eq)]
pub enum FieldValue {
    /// A number.
    Number(u64),
    /// A name.
    Text(&'static str),
    /// A list of bytes.
    Bytes(Vec<u8>),
    /// The bytes that the record's `pack` function returns.
    Pack(Vec<u8>),
}

/// One entry of a record.
#[derive(Debug, PartialEq, Eq)]
pub struct Field {
    pub name: &'static str,
    pub value: FieldValue,
}

/// What a `FieldValue` holds.
pub enum FieldValueView {
    Number(u64),
    Text(Seq<char>),
    Bytes(Seq<u8>),
    Pack(Seq<u8>),
}

/// What a `Field` holds.
pub struct FieldView {
    pub name: Seq<char>,
    pub value: FieldValueView,
}

impl DeepView for FieldValue {
    type V = FieldValueView;

    open spec fn deep_view(&self) -> FieldValueView {
        match self {
            FieldValue::Number(number) => FieldValueView::Number(*number),
            FieldValue::Text(text) => FieldValueView::Text(text@),
            FieldValue::Bytes(bytes) => FieldValueView::Bytes(bytes@),
            FieldValue::Pack(bytes) => FieldValueView::Pack(bytes@),
        }
    }
}

impl DeepView for Field {
    type V = FieldView;

    open spec fn deep_view(&self) -> FieldView {
        FieldView { name: self.name@, value: self.value.deep_view() }
    }
}

/// The entry that gives a number under a name.
pub open spec fn number_field(name: &'static str, value: u64) -> FieldView {
    FieldView { name: name@, value: FieldValueView::Number(value) }
}

/// The entry that gives a name under a name.
pub open spec fn text_field(name: &'static str, value: &'static str) -> FieldView {
    FieldView { name: name@, value: FieldValueView::Text(value@) }
}

/// The two entries every record has: the names of the kind and of the
/// category. A record of a decoded message gives the category first.
pub open spec fn heading(message: MessageView, parsed: bool) -> Seq<FieldView> {
    let kind = text_field("type", message.kind().spec_name());
    let category = text_field("category", message.category().spec_name());
    if parsed {
        seq![category, kind]
    } else {
        seq![kind, category]
    }
}

/// The entries for the fields of the message, in the order of its constructor.
pub open spec fn own_fields(message: MessageView) -> Seq<FieldView> {
    match message {
        MessageView::NoteOff { note, velocity, channel } => seq![
            number_field("note", note as u64),
            number_field("velocity", velocity as u64),
            number_field("channel", channel as u64),
        ],
        MessageView::NoteOn { note, velocity, channel } => seq![
            number_field("note", note as u64),
            number_field("velocity", velocity as u64),
            number_field("channel", channel as u64),
        ],
        MessageView::PolyAfterTouch { note, pressure, channel } => seq![
            number_field("note", note as u64),
            number_field("pressure", pressure as u64),
            number_field("channel", channel as u64),
        ],
        MessageView::ControlChange { note, value, channel } => seq![
            number_field("note", note as u64),
            number_field("value", value as u64),
            number_field("channel", channel as u64),
        ],
        MessageView::ProgramChange { program, channel } => seq![
            number_field("program", program as u64),
            number_field("channel", channel as u64),
        ],
        MessageView::AfterTouch { pressure, channel } => seq![
            number_field("pressure", pressure as u64),
            number_field("channel", channel as u64),
        ],
        MessageView::PitchBend { bend_amount, channel } => seq![
            number_field("bend_amount", bend_amount as u64),
            number_field("channel", channel as u64),
        ],
        MessageView::AllSoundOff { value, channel }
        | MessageView::ResetAllControllers { value, channel }
        | MessageView::LocalControl { value, channel }
        | MessageView::AllNotesOff { value, channel }
        | MessageView::OmniModeOff { value, channel }
        | MessageView::OmniModeOn { value, channel }
        | MessageView::MonoModeOn { value, channel }
        | MessageView::PolyModeOn { value, channel } => seq![
            number_field("value", value as u64),
            number_field("channel", channel as u64),
        ],
        MessageView::SystemExclusive { manufacturer_id, .. } => seq![
            FieldView { name: "manufacturer_id"@, value: FieldValueView::Bytes(manufacturer_id) },
        ],
        MessageView::TimeCodeQuarterFrame { message_type, values } => seq![
            number_field("message_type", message_type as u64),
            number_field("values", values as u64),
        ],
        MessageView::SongPosition { midi_beats_elapsed } => seq![
            number_field("midi_beats_elapsed", midi_beats_elapsed as u64),
        ],
        MessageView::SongSelect { number } => seq![number_field("number", number as u64)],
        _ => Seq::empty(),
    }
}

/// The entry for the bytes of a concrete message. A sentinel has none.
pub open spec fn packing(message: MessageView) -> Seq<FieldView> {
    if message.kind().spec_is_concrete() {
        seq![FieldView { name: "pack"@, value: FieldValueView::Pack(message.wire()) }]
    } else {
        Seq::empty()
    }
}

/// The entry that tells the controller number of a channel-mode message.
pub open spec fn controller_note(message: MessageView) -> Seq<FieldView> {
    match message {
        MessageView::AllSoundOff { .. } => seq![number_field("note", 120)],
        MessageView::ResetAllControllers { .. } => seq![number_field("note", 121)],
        MessageView::LocalControl { .. } => seq![number_field("note", 122)],
        MessageView::AllNotesOff { .. } => seq![number_field("note", 123)],
        MessageView::OmniModeOff { .. } => seq![number_field("note", 124)],
        MessageView::OmniModeOn { .. } => seq![number_field("note", 125)],
        MessageView::MonoModeOn { .. } => seq![number_field("note", 126)],
        MessageView::PolyModeOn { .. } => seq![number_field("note", 127)],
        _ => Seq::empty(),
    }
}

/// The record of a message. The record of a decoded channel-mode message
/// ends with its controller number; the record of a constructed one has no
/// such entry.
pub open spec fn record(message: MessageView, parsed: bool) -> Seq<FieldView> {
    heading(message, parsed) + own_fields(message) + packing(message) + if parsed {
        controller_note(message)
    } else {
        Seq::empty()
    }
}

/// Makes the entry that gives a number under a name.
fn number(name: &'static str, value: u64) -> (field: Field)
    ensures
        field.deep_view() == number_field(name, value),
{
    Field { name, value: FieldValue::Number(value) }
}

/// Makes the entry that gives a name under a name.
fn text(name: &'static str, value: &'static str) -> (field: Field)
    ensures
        field.deep_view() == text_field(name, value),
{
    Field { name, value: FieldValue::Text(value) }
}

/// Appends the entries for the fields of the message.
fn push_own_fields(fields: &mut Vec<Field>, message: &Message)
    ensures
        final(fields).deep_view() == old(fields).deep_view() + own_fields(message@),
{
    let ghost before = fields.deep_view();
    match message {
        Message::NoteOff(m) => {
            fields.push(number("note", m.note() as u64));
            fields.push(number("velocity", m.velocity() as u64));
            fields.push(number("channel", m.channel() as u64));
        },
        Message::NoteOn(m) => {
            fields.push(number("note", m.note() as u64));
            fields.push(number("velocity", m.velocity() as u64));
            fields.push(number("channel", m.channel() as u64));
        },
        Message::PolyAfterTouch(m) => {
            fields.push(number("note", m.note() as u64));
            fields.push(number("pressure", m.pressure() as u64));
            fields.push(number("channel", m.channel() as u64));
        },
        Message::ControlChange(m) => {
            fields.push(number("note", m.note() as u64));
            fields.push(number("value", m.value() as u64));
            fields.push(number("channel", m.channel() as u64));
        },
        Message::ProgramChange(m) => {
            fields.push(number("program", m.program() as u64));
            fields.push(number("channel", m.channel() as u64));
        },
        Message::AfterTouch(m) => {
            fields.push(number("pressure", m.pressure() as u64));
            fields.push(number("channel", m.channel() as u64));
        },
        Message::PitchBend(m) => {
            fields.push(number("bend_amount", m.bend_amount() as u64));
            fields.push(number("channel", m.channel() as u64));
        },
        Message::AllSoundOff(m) => {
            fields.push(number("value", m.value() as u64));
            fields.push(number("channel", m.channel() as u64));
        },
        Message::ResetAllControllers(m) => {
            fields.push(number("value", m.value() as u64));
            fields.push(number("channel", m.channel() as u64));
        },
        Message::LocalControl(m) => {
            fields.push(number("value", m.value() as u64));
            fields.push(number("channel", m.channel() as u64));
        },
        Message::AllNotesOff(m) => {
            fields.push(number("value", m.value() as u64));
            fields.push(number("channel", m.channel() as u64));
        },
        Message::OmniModeOff(m) => {
            fields.push(number("value", m.value() as u64));
            fields.push(number("channel", m.channel() as u64));
        },
        Message::OmniModeOn(m) => {
            fields.push(number("value", m.value() as u64));
            fields.push(number("channel", m.channel() as u64));
        },
        Message::MonoModeOn(m) => {
            fields.push(number("value", m.value() as u64));
            fields.push(number("channel", m.channel() as u64));
        },
        Message::PolyModeOn(m) => {
            fields.push(number("value", m.value() as u64));
            fields.push(number("channel", m.channel() as u64));
        },
        Message::SystemExclusive(m) => {
            fields.push(
                Field {
                    name: "manufacturer_id",
                    value: FieldValue::Bytes(slice_to_vec(m.manufacturer_id())),
                },
            );
        },
        Message::TimeCodeQuarterFrame(m) => {
            fields.push(number("message_type", m.message_type() as u64));
            fields.push(number("values", m.values() as u64));
        },
        Message::SongPosition(m) => {
            fields.push(number("midi_beats_elapsed", m.midi_beats_elapsed() as u64));
        },
        Message::SongSelect(m) => {
            fields.push(number("number", m.number() as u64));
        },
        _ => {},
    }
    proof {
        assert(fields.deep_view() =~= before + own_fields(message@));
    }
}

/// Lists the entries of the record of a message, in order. `parsed` tells
/// whether the message was decoded from bytes or built by a constructor.
pub fn describe(message: &Message, parsed: bool) -> (fields: Vec<Field>)
    ensures
        fields.deep_view() == record(message@, parsed),
{
    let mut fields: Vec<Field> = Vec::new();
    let kind = message.kind();
    if parsed {
        fields.push(text("category", kind.category().name()));
        fields.push(text("type", kind.name()));
    } else {
        fields.push(text("type", kind.name()));
        fields.push(text("category", kind.category().name()));
    }
    proof {
        assert(fields.deep_view() =~= heading(message@, parsed));
    }
    push_own_fields(&mut fields, message);
    if kind.is_concrete() {
        fields.push(Field { name: "pack", value: FieldValue::Pack(slice_to_vec(message.pack())) });
    }
    proof {
        assert(fields.deep_view() =~= heading(message@, parsed) + own_fields(message@) + packing(
            message@,
        ));
    }
    if parsed {
        match message {
            Message::AllSoundOff(_) => {
                fields.push(number("note", 120));
            },
            Message::ResetAllControllers(_) => {
                fields.push(number("note", 121));
            },
            Message::LocalControl(_) => {
                fields.push(number("note", 122));
            },
            Message::AllNotesOff(_) => {
                fields.push(number("note", 123));
            },
            Message::OmniModeOff(_) => {
                fields.push(number("note", 124));
            },
            Message::OmniModeOn(_) => {
                fields.push(number("note", 125));
            },
            Message::MonoModeOn(_) => {
                fields.push(number("note", 126));
            },
            Message::PolyModeOn(_) => {
                fields.push(number("note", 127));
            },
            _ => {},
        }
    }
    proof {
        assert(fields.deep_view() =~= record(message@, parsed));
    }
    fields
}

} // verus!
