use rusemi::port::{port_line, read_number_below, select_port};

fn names() -> Vec<String> {
    vec![
        String::from("/dev/ttyUSB0"),
        String::from("/dev/ttyACM0"),
        String::from("/dev/cu.usbmodem14101"),
    ]
}

#[test]
fn line_with_newline_selects_by_position() {
    assert_eq!(select_port(&names(), "0\n"), Some(String::from("/dev/ttyUSB0")));
    assert_eq!(select_port(&names(), "1\n"), Some(String::from("/dev/ttyACM0")));
    assert_eq!(select_port(&names(), "  2 \r\n"), Some(String::from("/dev/cu.usbmodem14101")));
}

#[test]
fn plus_sign_and_leading_zeros_are_accepted() {
    assert_eq!(select_port(&names(), "+1"), Some(String::from("/dev/ttyACM0")));
    assert_eq!(select_port(&names(), "0002"), Some(String::from("/dev/cu.usbmodem14101")));
    assert_eq!(select_port(&names(), "+000"), Some(String::from("/dev/ttyUSB0")));
}

#[test]
fn position_outside_the_list_selects_nothing() {
    assert_eq!(select_port(&names(), "3"), None);
    assert_eq!(select_port(&names(), "99999999999999999999999999999999"), None);
    assert_eq!(select_port(&Vec::new(), "0"), None);
}

#[test]
fn text_that_is_no_number_selects_nothing() {
    for line in ["", "\n", "   ", "+", "-1", "1 2", "1a", "a1", "0x1", "1.0", "++1", "+ 1", "１"] {
        assert_eq!(select_port(&names(), line), None);
    }
}

#[test]
fn number_is_read_below_the_limit_only() {
    assert_eq!(read_number_below("41", 42), Some(41));
    assert_eq!(read_number_below("42", 42), None);
    assert_eq!(read_number_below("0", 0), None);
    assert_eq!(read_number_below("\u{a0}7\u{3000}", 8), Some(7));
    assert_eq!(read_number_below("18446744073709551614", usize::MAX), Some(18446744073709551614));
    assert_eq!(read_number_below("18446744073709551615", usize::MAX), None);
    assert_eq!(read_number_below("18446744073709551616", usize::MAX), None);
}

#[test]
fn reading_agrees_with_trim_and_parse() {
    let pieces = ["", " ", "\t", "\n", "\u{85}", "\u{2003}", "+", "-", "0", "1", "7", "12", "a", "９"];
    let limit: usize = 100;
    for a in pieces {
        for b in pieces {
            for c in pieces {
                for d in pieces {
                    let line = format!("{}{}{}{}", a, b, c, d);
                    let expected = line.trim().parse::<usize>().ok().filter(|n| *n < limit);
                    assert_eq!(read_number_below(&line, limit), expected);
                }
            }
        }
    }
}

#[test]
fn port_is_listed_under_its_position() {
    assert_eq!(port_line(0, "/dev/ttyUSB0"), "[0] /dev/ttyUSB0");
    assert_eq!(port_line(12, "COM3"), "[12] COM3");
    assert_eq!(port_line(7, ""), "[7] ");
}

#[test]
fn listed_number_selects_the_listed_port() {
    let names: Vec<String> = (0..120).map(|k| format!("/dev/tty{}", k * 7)).collect();
    for (position, name) in names.iter().enumerate() {
        let line = port_line(position, name);
        let number = &line[1..line.find(']').unwrap()];
        assert_eq!(select_port(&names, number), Some(name.clone()));
        assert_eq!(select_port(&names, &format!("{}\n", number)), Some(name.clone()));
    }
}
