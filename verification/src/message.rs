//! The three MIDI messages that the bridge forwards, and their wire form.

use vstd::prelude::*;

verus! {

/// Status byte of a Note Off message on channel 0.
pub const NOTE_OFF: u8 = 0x80;

/// Status byte of a Note On message on channel 0.
pub const NOTE_ON: u8 = 0x90;

/// Status byte of a Control Change message on channel 0.
pub const CONTROL_CHANGE: u8 = 0xB0;

/// Highest channel number.
pub const MAX_CHANNEL: u8 = 15;

/// Highest value of a data byte.
pub const MAX_DATA: u8 = 127;

/// A raw byte reduced to a channel number: its low four bits.
pub open spec fn mask_channel(raw: u8) -> u8 {
    raw & 0x0f
}

/// A raw byte reduced to a 7-bit data value.
pub open spec fn mask_data(raw: u8) -> u8 {
    raw & 0x7f
}

/// Masking keeps a value inside its range, whatever the raw byte was.
pub proof fn lemma_masks_in_range(raw: u8)
    ensures
        mask_channel(raw) <= MAX_CHANNEL,
        mask_data(raw) <= MAX_DATA,
        raw <= MAX_CHANNEL ==> mask_channel(raw) == raw,
        raw <= MAX_DATA ==> mask_data(raw) == raw,
        mask_channel(mask_channel(raw)) == mask_channel(raw),
        mask_data(mask_data(raw)) == mask_data(raw),
{
    assert(raw & 0x0f <= 15) by (bit_vector);
    assert(raw & 0x7f <= 127) by (bit_vector);
    assert(raw <= 15 ==> raw & 0x0f == raw) by (bit_vector);
    assert(raw <= 127 ==> raw & 0x7f == raw) by (bit_vector);
    assert((raw & 0x0f) & 0x0f == raw & 0x0f) by (bit_vector);
    assert((raw & 0x7f) & 0x7f == raw & 0x7f) by (bit_vector);
}

/// Reduces a raw byte to a channel number.
pub fn channel_bits(raw: u8) -> (channel: u8)
    ensures
        channel == mask_channel(raw),
        channel <= MAX_CHANNEL,
{
    proof {
        lemma_masks_in_range(raw);
    }
    raw & 0x0f
}

/// Reduces a raw byte to a 7-bit data value.
pub fn data_bits(raw: u8) -> (value: u8)
    ensures
        value == mask_data(raw),
        value <= MAX_DATA,
{
    proof {
        lemma_masks_in_range(raw);
    }
    raw & 0x7f
}

/// A MIDI channel voice message of one of the three supported families.
#[derive(Clone, Copy, Debug, PartialEq, Eq, Structural)]
pub enum MidiMessage {
    /// A key was pressed.
    NoteOn { channel: u8, pitch: u8, velocity: u8 },
    /// A key was released.
    NoteOff { channel: u8, pitch: u8, velocity: u8 },
    /// A controller was set to a value.
    ControlChange { channel: u8, controller: u8, value: u8 },
}

impl MidiMessage {
    /// The channel field as stored.
    pub open spec fn channel(self) -> u8 {
        match self {
            MidiMessage::NoteOn { channel, .. } => channel,
            MidiMessage::NoteOff { channel, .. } => channel,
            MidiMessage::ControlChange { channel, .. } => channel,
        }
    }

    /// The first data field as stored: the pitch or the controller number.
    pub open spec fn data1(self) -> u8 {
        match self {
            MidiMessage::NoteOn { pitch, .. } => pitch,
            MidiMessage::NoteOff { pitch, .. } => pitch,
            MidiMessage::ControlChange { controller, .. } => controller,
        }
    }

    /// The second data field as stored: the velocity or the controller value.
    pub open spec fn data2(self) -> u8 {
        match self {
            MidiMessage::NoteOn { velocity, .. } => velocity,
            MidiMessage::NoteOff { velocity, .. } => velocity,
            MidiMessage::ControlChange { value, .. } => value,
        }
    }

    /// The status byte of the message's family on channel 0.
    pub open spec fn family(self) -> u8 {
        match self {
            MidiMessage::NoteOn { .. } => NOTE_ON,
            MidiMessage::NoteOff { .. } => NOTE_OFF,
            MidiMessage::ControlChange { .. } => CONTROL_CHANGE,
        }
    }

    /// All three fields lie in their ranges: the channel in 0..=15, both data
    /// values in 0..=127.
    pub open spec fn in_range(self) -> bool {
        &&& self.channel() <= MAX_CHANNEL
        &&& self.data1() <= MAX_DATA
        &&& self.data2() <= MAX_DATA
    }

    /// The status byte on the wire: the family's status byte with the masked
    /// channel in its low four bits.
    pub open spec fn status(self) -> u8 {
        self.family() | mask_channel(self.channel())
    }

    /// The three bytes that go to the MIDI-out sink: status, data 1, data 2,
    /// each field masked into its range.
    pub open spec fn wire(self) -> Seq<u8> {
        seq![self.status(), mask_data(self.data1()), mask_data(self.data2())]
    }

    /// Tells whether all three fields lie in their ranges.
    pub fn is_in_range(&self) -> (ok: bool)
        ensures
            ok == self.in_range(),
    {
        match *self {
            MidiMessage::NoteOn { channel, pitch, velocity } => {
                channel <= MAX_CHANNEL && pitch <= MAX_DATA && velocity <= MAX_DATA
            },
            MidiMessage::NoteOff { channel, pitch, velocity } => {
                channel <= MAX_CHANNEL && pitch <= MAX_DATA && velocity <= MAX_DATA
            },
            MidiMessage::ControlChange { channel, controller, value } => {
                channel <= MAX_CHANNEL && controller <= MAX_DATA && value <= MAX_DATA
            },
        }
    }

    /// Serializes the message for the MIDI-out sink. Masking is applied to
    /// every field on every call, so no byte leaves its range even if a field
    /// was set out of range by hand.
    pub fn to_bytes(&self) -> (bytes: [u8; 3])
        ensures
            bytes@ == self.wire(),
            bytes[0] & 0xf0 == self.family(),
            bytes[0] & 0x0f == mask_channel(self.channel()),
            bytes[1] <= MAX_DATA,
            bytes[2] <= MAX_DATA,
            self.in_range() ==> bytes[0] == self.family() + self.channel(),
            self.in_range() ==> bytes[1] == self.data1() && bytes[2] == self.data2(),
    {
        let (family, channel, first, second): (u8, u8, u8, u8) = match *self {
            MidiMessage::NoteOn { channel, pitch, velocity } => (NOTE_ON, channel, pitch, velocity),
            MidiMessage::NoteOff { channel, pitch, velocity } => (
                NOTE_OFF,
                channel,
                pitch,
                velocity,
            ),
            MidiMessage::ControlChange { channel, controller, value } => (
                CONTROL_CHANGE,
                channel,
                controller,
                value,
            ),
        };
        let status: u8 = family | channel_bits(channel);
        let bytes: [u8; 3] = [status, data_bits(first), data_bits(second)];
        proof {
            lemma_masks_in_range(first);
            lemma_masks_in_range(second);
            lemma_status_parts(family, channel);
        }
        bytes
    }
}

/// A family's status byte joined with a masked channel can be taken apart
/// again, and on a channel in range the join is a sum.
pub proof fn lemma_status_parts(family: u8, channel: u8)
    requires
        family == NOTE_ON || family == NOTE_OFF || family == CONTROL_CHANGE,
    ensures
        (family | mask_channel(channel)) & 0xf0 == family,
        (family | mask_channel(channel)) & 0x0f == mask_channel(channel),
        channel <= MAX_CHANNEL ==> (family | mask_channel(channel)) == family + channel,
{
    assert((0x90u8 | (channel & 0x0f)) & 0xf0 == 0x90u8) by (bit_vector);
    assert((0x80u8 | (channel & 0x0f)) & 0xf0 == 0x80u8) by (bit_vector);
    assert((0xB0u8 | (channel & 0x0f)) & 0xf0 == 0xB0u8) by (bit_vector);
    assert((0x90u8 | (channel & 0x0f)) & 0x0f == channel & 0x0f) by (bit_vector);
    assert((0x80u8 | (channel & 0x0f)) & 0x0f == channel & 0x0f) by (bit_vector);
    assert((0xB0u8 | (channel & 0x0f)) & 0x0f == channel & 0x0f) by (bit_vector);
    assert(channel <= 15 ==> (0x90u8 | (channel & 0x0f)) == 0x90u8 + channel) by (bit_vector);
    assert(channel <= 15 ==> (0x80u8 | (channel & 0x0f)) == 0x80u8 + channel) by (bit_vector);
    assert(channel <= 15 ==> (0xB0u8 | (channel & 0x0f)) == 0xB0u8 + channel) by (bit_vector);
}

/// Builds a Note On message, masking each argument into its range.
pub fn create_note_on(channel: u8, note: u8, velocity: u8) -> (msg: MidiMessage)
    ensures
        msg == (MidiMessage::NoteOn {
            channel: mask_channel(channel),
            pitch: mask_data(note),
            velocity: mask_data(velocity),
        }),
        msg.in_range(),
{
    MidiMessage::NoteOn {
        channel: channel_bits(channel),
        pitch: data_bits(note),
        velocity: data_bits(velocity),
    }
}

/// Builds a Note Off message, masking each argument into its range.
pub fn create_note_off(channel: u8, note: u8, velocity: u8) -> (msg: MidiMessage)
    ensures
        msg == (MidiMessage::NoteOff {
            channel: mask_channel(channel),
            pitch: mask_data(note),
            velocity: mask_data(velocity),
        }),
        msg.in_range(),
{
    MidiMessage::NoteOff {
        channel: channel_bits(channel),
        pitch: data_bits(note),
        velocity: data_bits(velocity),
    }
}

/// Builds a Control Change message, masking each argument into its range.
pub fn create_cc(channel: u8, cc: u8, value: u8) -> (msg: MidiMessage)
    ensures
        msg == (MidiMessage::ControlChange {
            channel: mask_channel(channel),
            controller: mask_data(cc),
            value: mask_data(value),
        }),
        msg.in_range(),
{
    MidiMessage::ControlChange {
        channel: channel_bits(channel),
        controller: data_bits(cc),
        value: data_bits(value),
    }
}

} // verus!
