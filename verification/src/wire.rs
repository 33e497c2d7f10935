//! Byte-level arithmetic shared by every message kind: clamping of
//! caller-supplied numbers, the status byte and its channel nibble, the
//! 14-bit split into two 7-bit data bytes, and the packed quarter-frame byte.
//!
//! The specifications are stated with `+`, `/` and `%`; the executable
//! functions use the masks and shifts of the wire format and are proved to
//! agree with them.

use vstd::prelude::*;

verus! {

/// Largest value of a 7-bit data byte.
pub const DATA_MAX: u8 = 127;

/// Largest channel number.
pub const CHANNEL_MAX: u8 = 15;

/// Largest value of a 14-bit quantity.
pub const WIDE_MAX: u16 = 16383;

/// Largest quarter-frame message type.
pub const FRAME_TYPE_MAX: u8 = 7;

/// Largest quarter-frame nibble.
pub const FRAME_VALUE_MAX: u8 = 15;

/// `value`, or `limit` where `value` exceeds it.
pub open spec fn at_most(value: u64, limit: u64) -> u64 {
    if value <= limit {
        value
    } else {
        limit
    }
}

/// The status byte of a channel message: family in the high nibble, channel in the low one.
pub open spec fn status_byte(family: u8, channel: u8) -> u8
    recommends
        family % 16 == 0,
        channel <= CHANNEL_MAX,
{
    (family + channel) as u8
}

/// The channel carried by a status byte.
pub open spec fn channel_of(status: u8) -> u8 {
    status % 16
}

/// The family of a status byte: the byte with its channel nibble cleared.
pub open spec fn family_of(status: u8) -> u8 {
    (status - status % 16) as u8
}

/// The first data byte of a 14-bit quantity: its low seven bits.
pub open spec fn low7(value: u16) -> u8 {
    (value % 128) as u8
}

/// The second data byte of a 14-bit quantity: the seven bits above the low seven.
pub open spec fn high7(value: u16) -> u8 {
    (value / 128 % 128) as u8
}

/// The 14-bit quantity that two data bytes carry, least significant first.
pub open spec fn join14(lsb: u8, msb: u8) -> u16
    recommends
        lsb <= DATA_MAX,
        msb <= DATA_MAX,
{
    (msb * 128 + lsb) as u16
}

/// The data byte of a quarter frame: the type above the low nibble.
pub open spec fn frame_byte(message_type: u8, values: u8) -> u8
    recommends
        message_type <= FRAME_TYPE_MAX,
        values <= FRAME_VALUE_MAX,
{
    (message_type * 16 + values) as u8
}

/// The message type packed in a quarter-frame data byte.
pub open spec fn frame_type_of(data: u8) -> u8 {
    (data / 16 % 8) as u8
}

/// The nibble packed in a quarter-frame data byte.
pub open spec fn frame_values_of(data: u8) -> u8 {
    data % 16
}

/// Splitting a 14-bit quantity and joining the halves gives it back.
pub proof fn lemma_join_split(value: u16)
    requires
        value <= WIDE_MAX,
    ensures
        low7(value) <= DATA_MAX,
        high7(value) <= DATA_MAX,
        join14(low7(value), high7(value)) == value,
{
}

/// Joining two data bytes and splitting the result gives them back.
pub proof fn lemma_split_join(lsb: u8, msb: u8)
    requires
        lsb <= DATA_MAX,
        msb <= DATA_MAX,
    ensures
        join14(lsb, msb) <= WIDE_MAX,
        low7(join14(lsb, msb)) == lsb,
        high7(join14(lsb, msb)) == msb,
{
}

/// Caps a number at `limit`.
pub fn clamp_u8(value: u64, limit: u8) -> (r: u8)
    ensures
        r == at_most(value, limit as u64),
{
    if value <= limit as u64 {
        value as u8
    } else {
        limit
    }
}

/// Caps a number at the largest 14-bit value.
pub fn clamp_wide(value: u64) -> (r: u16)
    ensures
        r == at_most(value, WIDE_MAX as u64),
{
    if value <= WIDE_MAX as u64 {
        value as u16
    } else {
        WIDE_MAX
    }
}

/// Composes a status byte from a family and a channel.
pub fn make_status(family: u8, channel: u8) -> (r: u8)
    requires
        family % 16 == 0,
        channel <= CHANNEL_MAX,
    ensures
        r == status_byte(family, channel),
        channel_of(r) == channel,
        family_of(r) == family,
{
    assert(family % 16 == 0 && channel <= 15 ==> (family | channel) == family + channel) by (bit_vector);
    family | channel
}

/// Reads the channel nibble of a status byte.
pub fn channel_nibble(status: u8) -> (r: u8)
    ensures
        r == channel_of(status),
        r <= CHANNEL_MAX,
{
    assert(status & 0x0F == status % 16) by (bit_vector);
    status & 0x0F
}

/// Reads the family of a status byte.
pub fn family_nibble(status: u8) -> (r: u8)
    ensures
        r == family_of(status),
        r % 16 == 0,
{
    assert(status & 0xF0 == status - status % 16) by (bit_vector);
    status & 0xF0
}

/// Splits a 14-bit quantity into its two data bytes, least significant first.
pub fn split_wide(value: u16) -> (r: (u8, u8))
    requires
        value <= WIDE_MAX,
    ensures
        r.0 == low7(value),
        r.1 == high7(value),
        r.0 <= DATA_MAX,
        r.1 <= DATA_MAX,
{
    assert(((value & 0xFF) as u8) & 0x7F == value % 128) by (bit_vector);
    assert((((value >> 7) & 0xFF) as u8) & 0x7F == value / 128 % 128) by (bit_vector);
    assert(value as u8 == (value & 0xFF) as u8) by (bit_vector);
    assert((value >> 7) as u8 == ((value >> 7) & 0xFF) as u8) by (bit_vector);
    let msb: u8 = ((value >> 7) as u8) & 0b0111_1111;
    let lsb: u8 = (value as u8) & 0b0111_1111;
    (lsb, msb)
}

/// Joins two data bytes, least significant first, into the 14-bit quantity they carry.
pub fn join_wide(lsb: u8, msb: u8) -> (r: u16)
    requires
        lsb <= DATA_MAX,
        msb <= DATA_MAX,
    ensures
        r == join14(lsb, msb),
        r <= WIDE_MAX,
{
    assert(lsb <= 127 && msb <= 127 ==> (((msb as u16) << 7) | (lsb as u16)) == msb * 128 + lsb) by (bit_vector);
    ((msb as u16) << 7) | (lsb as u16)
}

/// Packs a quarter-frame type and nibble into one data byte.
pub fn pack_frame(message_type: u8, values: u8) -> (r: u8)
    requires
        message_type <= FRAME_TYPE_MAX,
        values <= FRAME_VALUE_MAX,
    ensures
        r == frame_byte(message_type, values),
        r <= DATA_MAX,
        frame_type_of(r) == message_type,
        frame_values_of(r) == values,
{
    assert(message_type <= 7 && values <= 15 ==> ((message_type << 4) | values) == message_type * 16 + values) by (bit_vector);
    (message_type << 4) | values
}

/// Unpacks the type and the nibble of a quarter-frame data byte.
pub fn unpack_frame(data: u8) -> (r: (u8, u8))
    ensures
        r.0 == frame_type_of(data),
        r.1 == frame_values_of(data),
        r.0 <= FRAME_TYPE_MAX,
        r.1 <= FRAME_VALUE_MAX,
{
    assert((data & 0b0111_0000) >> 4 == data / 16 % 8) by (bit_vector);
    assert(data & 0b0000_1111 == data % 16) by (bit_vector);
    ((data & 0b0111_0000) >> 4, data & 0b0000_1111)
}

} // verus!
