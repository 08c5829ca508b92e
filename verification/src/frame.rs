//! Three-byte frames as they arrive from the serial line, and their
//! classification into messages.

use vstd::prelude::*;
use crate::message::{
    create_cc, create_note_off, create_note_on, data_bits, lemma_masks_in_range, mask_channel,
    mask_data, MidiMessage, MAX_DATA,
};

verus! {

/// Number of bytes in a frame.
pub const FRAME_LEN: usize = 3;

/// Lowest status byte of the Note family.
pub const NOTE_FIRST: u8 = 0x90;

/// Highest status byte of the Note family.
pub const NOTE_LAST: u8 = 0x9F;

/// Lowest status byte of the Control Change family.
pub const CONTROL_FIRST: u8 = 0xB0;

/// Highest status byte of the Control Change family.
pub const CONTROL_LAST: u8 = 0xBF;

/// Three consecutive bytes read from the serial line, taken by position as
/// status byte, first data byte and second data byte.
#[derive(Clone, Copy, Debug, PartialEq, Eq, Structural)]
pub struct RawFrame {
    pub status: u8,
    pub data1: u8,
    pub data2: u8,
}

impl RawFrame {
    /// The bytes of the frame in the order in which they were read.
    pub open spec fn bytes(self) -> Seq<u8> {
        seq![self.status, self.data1, self.data2]
    }

    /// The status byte belongs to the Note family.
    pub open spec fn is_note(self) -> bool {
        NOTE_FIRST <= self.status <= NOTE_LAST
    }

    /// The status byte belongs to the Control Change family.
    pub open spec fn is_control_change(self) -> bool {
        CONTROL_FIRST <= self.status <= CONTROL_LAST
    }

    /// The status byte belongs to one of the two supported families.
    pub open spec fn is_recognized(self) -> bool {
        self.is_note() || self.is_control_change()
    }

    /// The velocity of the frame is zero once it is masked to seven bits.
    /// This holds of the raw bytes 0 and 128 and of no other.
    pub open spec fn is_silent(self) -> bool {
        mask_data(self.data2) == 0
    }

    /// The message that the frame stands for, if any.
    ///
    /// A Note frame whose masked velocity is zero is a Note Off with velocity
    /// zero, since a Note On of velocity zero means Note Off. That includes
    /// the raw velocity byte 128: it is not zero as read, but the mask takes
    /// its only set bit, so it goes out as Note Off and never as a Note On of
    /// velocity zero. Every other Note frame is a Note On, its velocity masked
    /// to seven bits. A frame of neither family stands for no message.
    pub open spec fn message(self) -> Option<MidiMessage> {
        if self.is_note() {
            if self.is_silent() {
                Some(
                    MidiMessage::NoteOff {
                        channel: mask_channel(self.status),
                        pitch: mask_data(self.data1),
                        velocity: 0,
                    },
                )
            } else {
                Some(
                    MidiMessage::NoteOn {
                        channel: mask_channel(self.status),
                        pitch: mask_data(self.data1),
                        velocity: mask_data(self.data2),
                    },
                )
            }
        } else if self.is_control_change() {
            Some(
                MidiMessage::ControlChange {
                    channel: mask_channel(self.status),
                    controller: mask_data(self.data1),
                    value: mask_data(self.data2),
                },
            )
        } else {
            None
        }
    }

    /// Puts three bytes together as a frame.
    pub fn new(status: u8, data1: u8, data2: u8) -> (frame: RawFrame)
        ensures
            frame == (RawFrame { status, data1, data2 }),
    {
        RawFrame { status, data1, data2 }
    }

    /// Takes a buffer as a frame if it holds exactly three bytes.
    pub fn from_slice(buffer: &[u8]) -> (frame: Option<RawFrame>)
        ensures
            buffer@.len() == FRAME_LEN ==> frame == Some(
                RawFrame { status: buffer@[0], data1: buffer@[1], data2: buffer@[2] },
            ),
            buffer@.len() != FRAME_LEN ==> frame is None,
            frame matches Some(f) ==> f.bytes() == buffer@,
    {
        if buffer.len() == FRAME_LEN {
            let frame = RawFrame { status: buffer[0], data1: buffer[1], data2: buffer[2] };
            Some(frame)
        } else {
            None
        }
    }

    /// The frame's bytes in the order in which they were read.
    pub fn to_bytes(&self) -> (bytes: [u8; 3])
        ensures
            bytes@ == self.bytes(),
    {
        let bytes: [u8; 3] = [self.status, self.data1, self.data2];
        bytes
    }

    /// Classifies the frame by its status byte and builds the message it
    /// stands for.
    ///
    /// A Note frame is told apart by its velocity after masking: the raw
    /// velocity bytes 0 and 128 both give a Note Off with velocity zero, and
    /// no Note On that comes out of here has velocity zero.
    pub fn classify(&self) -> (result: Option<MidiMessage>)
        ensures
            result == self.message(),
            self.is_note() && mask_data(self.data2) == 0 ==> result == Some(
                MidiMessage::NoteOff {
                    channel: mask_channel(self.status),
                    pitch: mask_data(self.data1),
                    velocity: 0,
                },
            ),
            self.is_note() && mask_data(self.data2) != 0 ==> result == Some(
                MidiMessage::NoteOn {
                    channel: mask_channel(self.status),
                    pitch: mask_data(self.data1),
                    velocity: mask_data(self.data2),
                },
            ),
            mask_data(self.data2) == 0 <==> self.data2 == 0 || self.data2 == 128,
            self.is_note() && (self.data2 == 0 || self.data2 == 128) ==> result == Some(
                MidiMessage::NoteOff {
                    channel: mask_channel(self.status),
                    pitch: mask_data(self.data1),
                    velocity: 0,
                },
            ),
            result matches Some(MidiMessage::NoteOn { velocity, .. }) ==> 1 <= velocity <= 127,
            self.is_control_change() ==> result == Some(
                MidiMessage::ControlChange {
                    channel: mask_channel(self.status),
                    controller: mask_data(self.data1),
                    value: mask_data(self.data2),
                },
            ),
            result is None <==> !self.is_recognized(),
            result matches Some(msg) ==> msg.in_range(),
    {
        proof {
            lemma_silent_velocities(self.data2);
            lemma_masks_in_range(self.data2);
            lemma_masks_in_range(0);
        }
        let status = self.status;
        if NOTE_FIRST <= status && status <= NOTE_LAST {
            if data_bits(self.data2) == 0 {
                Some(create_note_off(status, self.data1, 0))
            } else {
                Some(create_note_on(status, self.data1, self.data2))
            }
        } else if CONTROL_FIRST <= status && status <= CONTROL_LAST {
            Some(create_cc(status, self.data1, self.data2))
        } else {
            None
        }
    }
}

/// The raw velocity bytes that mask to zero are 0 and 128.
pub proof fn lemma_silent_velocities(raw: u8)
    ensures
        mask_data(raw) == 0 <==> raw == 0 || raw == 128,
{
    assert(raw & 0x7f == 0 <==> raw == 0 || raw == 128) by (bit_vector);
}

/// A frame of a supported family whose data bytes are in range goes out as it
/// came in, byte for byte. The one exception is a Note frame of velocity zero,
/// which goes out under the Note Off status of the same channel.
pub proof fn lemma_wire_follows_frame(frame: RawFrame, msg: MidiMessage)
    requires
        frame.message() == Some(msg),
        frame.data1 <= MAX_DATA,
        frame.data2 <= MAX_DATA,
    ensures
        !(frame.is_note() && frame.is_silent()) ==> msg.wire() == frame.bytes(),
        frame.is_note() && frame.is_silent() ==> msg.wire() == seq![
            (frame.status - 0x10) as u8,
            frame.data1,
            0u8,
        ],
{
    let status = frame.status;
    lemma_masks_in_range(status);
    lemma_masks_in_range(frame.data1);
    lemma_masks_in_range(frame.data2);
    assert(0x90 <= status <= 0x9F ==> 0x90u8 | (status & 0x0f) == status) by (bit_vector);
    assert(0x90 <= status <= 0x9F ==> 0x80u8 | (status & 0x0f) == (status - 0x10) as u8)
        by (bit_vector);
    assert(0xB0 <= status <= 0xBF ==> 0xB0u8 | (status & 0x0f) == status) by (bit_vector);
}

} // verus!
