use rusemi::message::{
    channel_bits, create_cc, create_note_off, create_note_on, data_bits, MidiMessage,
    CONTROL_CHANGE, MAX_CHANNEL, MAX_DATA, NOTE_OFF, NOTE_ON,
};

#[test]
fn constants_have_their_midi_values() {
    assert_eq!(NOTE_OFF, 0x80);
    assert_eq!(NOTE_ON, 0x90);
    assert_eq!(CONTROL_CHANGE, 0xB0);
    assert_eq!(MAX_CHANNEL, 15);
    assert_eq!(MAX_DATA, 127);
}

#[test]
fn masks_keep_low_bits() {
    assert_eq!(channel_bits(0x91), 1);
    assert_eq!(channel_bits(0x0F), 15);
    assert_eq!(channel_bits(0x10), 0);
    assert_eq!(data_bits(0x7F), 127);
    assert_eq!(data_bits(0x80), 0);
    assert_eq!(data_bits(0xFF), 127);
    for raw in 0u8..=255 {
        assert!(channel_bits(raw) <= 15);
        assert!(data_bits(raw) <= 127);
        assert_eq!(channel_bits(raw), raw % 16);
        assert_eq!(data_bits(raw), raw % 128);
    }
}

#[test]
fn note_on_is_built_masked() {
    assert_eq!(
        create_note_on(1, 60, 64),
        MidiMessage::NoteOn { channel: 1, pitch: 60, velocity: 64 }
    );
    assert_eq!(
        create_note_on(0x11, 0xBC, 0xC0),
        MidiMessage::NoteOn { channel: 1, pitch: 60, velocity: 64 }
    );
}

#[test]
fn note_off_is_built_masked() {
    assert_eq!(
        create_note_off(1, 60, 0),
        MidiMessage::NoteOff { channel: 1, pitch: 60, velocity: 0 }
    );
    assert_eq!(
        create_note_off(0xF3, 0xFF, 0x85),
        MidiMessage::NoteOff { channel: 3, pitch: 127, velocity: 5 }
    );
}

#[test]
fn control_change_is_built_masked() {
    assert_eq!(
        create_cc(2, 7, 127),
        MidiMessage::ControlChange { channel: 2, controller: 7, value: 127 }
    );
    assert_eq!(
        create_cc(0x22, 0x87, 0xFF),
        MidiMessage::ControlChange { channel: 2, controller: 7, value: 127 }
    );
}

#[test]
fn wire_bytes_of_each_family() {
    assert_eq!(create_note_on(1, 60, 64).to_bytes(), [0x91, 0x3C, 0x40]);
    assert_eq!(create_note_off(1, 60, 0).to_bytes(), [0x81, 0x3C, 0x00]);
    assert_eq!(create_cc(2, 7, 127).to_bytes(), [0xB2, 0x07, 0x7F]);
    assert_eq!(create_note_on(15, 127, 127).to_bytes(), [0x9F, 0x7F, 0x7F]);
    assert_eq!(create_note_on(0, 0, 0).to_bytes(), [0x90, 0x00, 0x00]);
}

#[test]
fn serializing_masks_fields_set_by_hand() {
    let message = MidiMessage::NoteOn { channel: 0xF1, pitch: 0xBC, velocity: 0xC0 };
    assert!(!message.is_in_range());
    assert_eq!(message.to_bytes(), [0x91, 0x3C, 0x40]);
    let message = MidiMessage::ControlChange { channel: 16, controller: 128, value: 255 };
    assert!(!message.is_in_range());
    assert_eq!(message.to_bytes(), [0xB0, 0x00, 0x7F]);
}

#[test]
fn range_check_tells_the_ranges() {
    assert!(MidiMessage::NoteOn { channel: 15, pitch: 127, velocity: 127 }.is_in_range());
    assert!(!MidiMessage::NoteOn { channel: 16, pitch: 0, velocity: 0 }.is_in_range());
    assert!(!MidiMessage::NoteOff { channel: 0, pitch: 128, velocity: 0 }.is_in_range());
    assert!(!MidiMessage::ControlChange { channel: 0, controller: 0, value: 128 }.is_in_range());
    assert!(MidiMessage::ControlChange { channel: 0, controller: 0, value: 0 }.is_in_range());
}

#[test]
fn wire_bytes_stay_in_range_for_all_arguments() {
    for channel in 0u8..=255 {
        for data in [0u8, 1, 63, 64, 127, 128, 129, 200, 255] {
            for bytes in [
                create_note_on(channel, data, data).to_bytes(),
                create_note_off(channel, data, data).to_bytes(),
                create_cc(channel, data, data).to_bytes(),
            ] {
                assert_eq!(bytes[0] & 0x0F, channel & 0x0F);
                assert!(matches!(bytes[0] & 0xF0, 0x80 | 0x90 | 0xB0));
                assert!(bytes[1] <= 127);
                assert!(bytes[2] <= 127);
                assert_eq!(bytes[1], data & 0x7F);
            }
        }
    }
}
