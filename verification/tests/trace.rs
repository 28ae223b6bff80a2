use uart_echo::trace::{printable, received_line, PLACEHOLDER};

#[test]
fn line_for_capital_a() {
    assert_eq!(&received_line(0x41), b"0x41 'A'");
}

#[test]
fn line_for_bell_uses_the_placeholder() {
    assert_eq!(&received_line(0x07), b"0x07 '.'");
}

#[test]
fn placeholder_is_a_dot() {
    assert_eq!(PLACEHOLDER, b'.');
}

#[test]
fn hex_digits_are_upper_case_and_zero_padded() {
    assert_eq!(&received_line(0x00), b"0x00 '.'");
    assert_eq!(&received_line(0x0A), b"0x0A '.'");
    assert_eq!(&received_line(0x9F), b"0x9F '.'");
    assert_eq!(&received_line(0xAB), b"0xAB '.'");
    assert_eq!(&received_line(0xFF), b"0xFF '.'");
    assert_eq!(&received_line(0x6A), b"0x6A 'j'");
}

#[test]
fn printable_range_is_space_through_tilde() {
    assert!(!printable(0x00));
    assert!(!printable(0x1F));
    assert!(printable(0x20));
    assert!(printable(0x41));
    assert!(printable(0x7E));
    assert!(!printable(0x7F));
    assert!(!printable(0x80));
    assert!(!printable(0xFF));
    assert_eq!(&received_line(0x1F), b"0x1F '.'");
    assert_eq!(&received_line(0x20), b"0x20 ' '");
    assert_eq!(&received_line(0x7E), b"0x7E '~'");
    assert_eq!(&received_line(0x7F), b"0x7F '.'");
}

#[test]
fn quote_and_dot_are_shown_as_themselves() {
    assert_eq!(&received_line(0x27), b"0x27 '''");
    assert_eq!(&received_line(0x2E), b"0x2E '.'");
}

#[test]
fn every_byte_has_the_same_shape() {
    for b in 0..=255u8 {
        let shown = if (0x20..=0x7E).contains(&b) { b as char } else { '.' };
        let expected = format!("0x{:02X} '{}'", b, shown);
        let line = received_line(b);
        assert_eq!(line.len(), 8);
        assert_eq!(line.to_vec(), expected.into_bytes());
        assert_eq!(printable(b), (0x20..=0x7E).contains(&b));
    }
}
