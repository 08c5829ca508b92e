use rusemi::frame::RawFrame;
use rusemi::message::MidiMessage;
use rusemi::report::{
    append_decimal, bracketed, cut_short_line, message_line, open_failure_line, unknown_line,
    TIMECODE_FORMAT,
};

#[test]
fn decimal_of_every_byte() {
    for n in 0u8..=255 {
        let mut text = String::from("n=");
        append_decimal(&mut text, n as usize);
        assert_eq!(text, format!("n={}", n));
    }
}

#[test]
fn decimal_edge_values() {
    for (n, expected) in [
        (0usize, "0"),
        (9, "9"),
        (10, "10"),
        (99, "99"),
        (100, "100"),
        (255, "255"),
        (1000, "1000"),
        (31250, "31250"),
    ] {
        let mut text = String::new();
        append_decimal(&mut text, n);
        assert_eq!(text, expected);
    }
}

#[test]
fn decimal_of_the_largest_number() {
    let mut text = String::new();
    append_decimal(&mut text, usize::MAX);
    assert_eq!(text, format!("{}", usize::MAX));
}

#[test]
fn brackets_go_round_the_text() {
    assert_eq!(bracketed("2021-03-04 05:06:07"), "[2021-03-04 05:06:07]");
    assert_eq!(bracketed(""), "[]");
}

#[test]
fn note_on_line() {
    let message = MidiMessage::NoteOn { channel: 1, pitch: 60, velocity: 64 };
    assert_eq!(
        message_line("[2021-03-04 05:06:07]", &message),
        "[2021-03-04 05:06:07] NOTE ON [Ch: 2 | Pitch: 60 | Vel: 64]"
    );
}

#[test]
fn note_off_line() {
    let message = MidiMessage::NoteOff { channel: 0, pitch: 127, velocity: 0 };
    assert_eq!(
        message_line("[2021-03-04 05:06:07]", &message),
        "[2021-03-04 05:06:07] NOTE OFF [Ch: 1 | Pitch: 127]"
    );
}

#[test]
fn control_change_line() {
    let message = MidiMessage::ControlChange { channel: 15, controller: 7, value: 100 };
    assert_eq!(
        message_line("[2021-03-04 05:06:07]", &message),
        "[2021-03-04 05:06:07] CONTROL CHANGE [Ch: 16 | CC: 7 | Value: 100]"
    );
}

#[test]
fn lines_show_what_goes_out_on_the_wire() {
    let message = MidiMessage::NoteOn { channel: 0xFF, pitch: 0xBC, velocity: 0xC0 };
    assert_eq!(message_line("", &message), " NOTE ON [Ch: 16 | Pitch: 60 | Vel: 64]");
}

#[test]
fn unknown_frame_line() {
    assert_eq!(unknown_line(&RawFrame::new(0xA0, 0, 0)), "Unknown MIDI message: [160, 0, 0]");
    assert_eq!(
        unknown_line(&RawFrame::new(255, 9, 10)),
        format!("Unknown MIDI message: {:?}", vec![255u8, 9, 10])
    );
}

#[test]
fn open_failure_names_the_device() {
    assert_eq!(
        open_failure_line("/dev/ttyUSB0", "No such file or directory"),
        "Failed to open \"/dev/ttyUSB0\". Error: No such file or directory"
    );
}

#[test]
fn timecode_format_is_date_and_time() {
    assert_eq!(TIMECODE_FORMAT, "%Y-%m-%d %H:%M:%S");
}

#[test]
fn cut_short_frame_line_lists_the_dropped_bytes() {
    assert_eq!(cut_short_line(&[]), None);
    assert_eq!(
        cut_short_line(&[0x91]),
        Some(String::from("Incomplete MIDI message dropped: [145]"))
    );
    assert_eq!(
        cut_short_line(&[0x91, 0x3C]),
        Some(String::from("Incomplete MIDI message dropped: [145, 60]"))
    );
    assert_eq!(
        cut_short_line(&[0, 255, 7, 100]),
        Some(format!("Incomplete MIDI message dropped: {:?}", vec![0u8, 255, 7, 100]))
    );
}
