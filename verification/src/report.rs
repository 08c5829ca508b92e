//! The lines of text by which the bridge reports what it forwards and what
//! goes wrong.

use vstd::prelude::*;
use vstd::string::StringExecFns;
use crate::frame::RawFrame;
use crate::message::{channel_bits, data_bits, mask_channel, mask_data, MidiMessage};

verus! {

/// The character of a decimal digit.
pub open spec fn digit_char(digit: nat) -> char
    recommends
        digit < 10,
{
    ('0' as nat + digit) as char
}

/// A number written in decimal, without sign and without leading zeros.
pub open spec fn decimal(n: nat) -> Seq<char>
    decreases n,
{
    if n < 10 {
        seq![digit_char(n)]
    } else {
        decimal(n / 10).push(digit_char(n % 10))
    }
}

/// The text of one decimal digit.
fn digit_text(digit: u8) -> (text: &'static str)
    requires
        digit < 10,
    ensures
        text@ == seq![digit_char(digit as nat)],
{
    proof {
        reveal_strlit("0");
        reveal_strlit("1");
        reveal_strlit("2");
        reveal_strlit("3");
        reveal_strlit("4");
        reveal_strlit("5");
        reveal_strlit("6");
        reveal_strlit("7");
        reveal_strlit("8");
        reveal_strlit("9");
    }
    let text = match digit {
        0 => "0",
        1 => "1",
        2 => "2",
        3 => "3",
        4 => "4",
        5 => "5",
        6 => "6",
        7 => "7",
        8 => "8",
        _ => "9",
    };
    text
}

/// Appends a number in decimal to a text.
pub fn append_decimal(text: &mut String, n: usize)
    ensures
        final(text)@ == old(text)@ + decimal(n as nat),
    decreases n,
{
    if n >= 10 {
        append_decimal(text, n / 10);
    }
    text.append(digit_text((n % 10) as u8));
}

/// A text between square brackets.
pub open spec fn in_brackets(text: Seq<char>) -> Seq<char> {
    seq!['['] + text + seq![']']
}

/// Puts a text between square brackets. Around the clock's text, written in
/// `TIMECODE_FORMAT`, this makes the time code of a report line.
pub fn bracketed(text: &str) -> (result: String)
    ensures
        result@ == in_brackets(text@),
{
    proof {
        reveal_strlit("[");
        reveal_strlit("]");
    }
    let mut result = String::new();
    result.append("[");
    result.append(text);
    result.append("]");
    result
}

/// The format in which a time code writes the local date and time, in the
/// notation of `strftime`. The caller reads the clock and writes it so; the
/// text between square brackets is the time code that opens a report line.
pub const TIMECODE_FORMAT: &'static str = "%Y-%m-%d %H:%M:%S";

/// The line that reports a forwarded message: the time code, the family, the
/// channel counted from one, and the data values as they go out on the wire.
/// The line of a Note Off leaves the velocity out.
pub open spec fn message_text(timecode: Seq<char>, msg: MidiMessage) -> Seq<char> {
    let channel = decimal((mask_channel(msg.channel()) + 1) as nat);
    let first = decimal(mask_data(msg.data1()) as nat);
    let second = decimal(mask_data(msg.data2()) as nat);
    match msg {
        MidiMessage::NoteOn { .. } => timecode + " NOTE ON [Ch: "@ + channel + " | Pitch: "@
            + first + " | Vel: "@ + second + "]"@,
        MidiMessage::NoteOff { .. } => timecode + " NOTE OFF [Ch: "@ + channel + " | Pitch: "@
            + first + "]"@,
        MidiMessage::ControlChange { .. } => timecode + " CONTROL CHANGE [Ch: "@ + channel
            + " | CC: "@ + first + " | Value: "@ + second + "]"@,
    }
}

/// Writes the line that reports a forwarded message.
pub fn message_line(timecode: &str, msg: &MidiMessage) -> (line: String)
    ensures
        line@ == message_text(timecode@, *msg),
{
    let mut line = String::new();
    line.append(timecode);
    match *msg {
        MidiMessage::NoteOn { channel, pitch, velocity } => {
            line.append(" NOTE ON [Ch: ");
            append_decimal(&mut line, channel_bits(channel) as usize + 1);
            line.append(" | Pitch: ");
            append_decimal(&mut line, data_bits(pitch) as usize);
            line.append(" | Vel: ");
            append_decimal(&mut line, data_bits(velocity) as usize);
        },
        MidiMessage::NoteOff { channel, pitch, velocity: _ } => {
            line.append(" NOTE OFF [Ch: ");
            append_decimal(&mut line, channel_bits(channel) as usize + 1);
            line.append(" | Pitch: ");
            append_decimal(&mut line, data_bits(pitch) as usize);
        },
        MidiMessage::ControlChange { channel, controller, value } => {
            line.append(" CONTROL CHANGE [Ch: ");
            append_decimal(&mut line, channel_bits(channel) as usize + 1);
            line.append(" | CC: ");
            append_decimal(&mut line, data_bits(controller) as usize);
            line.append(" | Value: ");
            append_decimal(&mut line, data_bits(value) as usize);
        },
    }
    line.append("]");
    line
}

/// The line that reports a frame of an unsupported status byte: its three
/// bytes in decimal, as read.
pub open spec fn unknown_text(frame: RawFrame) -> Seq<char> {
    "Unknown MIDI message: ["@ + decimal(frame.status as nat) + ", "@ + decimal(
        frame.data1 as nat,
    ) + ", "@ + decimal(frame.data2 as nat) + "]"@
}

/// Writes the line that reports a frame of an unsupported status byte.
pub fn unknown_line(frame: &RawFrame) -> (line: String)
    ensures
        line@ == unknown_text(*frame),
{
    let mut line = String::new();
    line.append("Unknown MIDI message: [");
    append_decimal(&mut line, frame.status as usize);
    line.append(", ");
    append_decimal(&mut line, frame.data1 as usize);
    line.append(", ");
    append_decimal(&mut line, frame.data2 as usize);
    line.append("]");
    line
}

/// The diagnostic for a serial transport that could not be opened: it names
/// the device and gives the reason.
pub open spec fn open_failure_text(port_name: Seq<char>, reason: Seq<char>) -> Seq<char> {
    "Failed to open \""@ + port_name + "\". Error: "@ + reason
}

/// Writes the diagnostic for a serial transport that could not be opened.
pub fn open_failure_line(port_name: &str, reason: &str) -> (line: String)
    ensures
        line@ == open_failure_text(port_name@, reason@),
{
    let mut line = String::new();
    line.append("Failed to open \"");
    line.append(port_name);
    line.append("\". Error: ");
    line.append(reason);
    line
}

/// Bytes written in decimal, separated by a comma and a space.
pub open spec fn byte_list(bytes: Seq<u8>) -> Seq<char>
    decreases bytes.len(),
{
    if bytes.len() == 0 {
        Seq::empty()
    } else if bytes.len() == 1 {
        decimal(bytes[0] as nat)
    } else {
        byte_list(bytes.drop_last()) + ", "@ + decimal(bytes.last() as nat)
    }
}

/// The line that reports a frame that a failed read cut short: the bytes
/// that had arrived and are dropped, in decimal, as read.
pub open spec fn cut_short_text(received: Seq<u8>) -> Seq<char> {
    "Incomplete MIDI message dropped: ["@ + byte_list(received) + "]"@
}

/// Writes the line that reports the bytes dropped with a frame that a failed
/// read cut short. There is a line if and only if a byte is dropped.
pub fn cut_short_line(received: &[u8]) -> (line: Option<String>)
    ensures
        received@.len() == 0 ==> line is None,
        received@.len() > 0 ==> line is Some,
        line matches Some(text) ==> text@ == cut_short_text(received@),
{
    if received.len() == 0 {
        return None;
    }
    let mut text = String::new();
    text.append("Incomplete MIDI message dropped: [");
    append_decimal(&mut text, received[0] as usize);
    let mut i: usize = 1;
    assert(received@.take(1).drop_last().len() == 0);
    while i < received.len()
        invariant
            1 <= i <= received@.len(),
            text@ == "Incomplete MIDI message dropped: ["@ + byte_list(received@.take(i as int)),
        decreases received@.len() - i,
    {
        text.append(", ");
        append_decimal(&mut text, received[i] as usize);
        proof {
            let longer = received@.take(i + 1);
            assert(longer.drop_last() =~= received@.take(i as int));
            assert(longer.last() == received@[i as int]);
        }
        i += 1;
    }
    assert(received@.take(i as int) =~= received@);
    text.append("]");
    Some(text)
}

} // verus!
