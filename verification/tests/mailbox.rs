use uart_echo::mailbox::Mailbox;

#[test]
fn new_mailbox_is_empty() {
    let mut m = Mailbox::new();
    assert!(!m.is_valid());
    assert_eq!(m.peek(), None);
    assert_eq!(m.take(), None);
}

#[test]
fn put_marks_the_slot_valid() {
    let mut m = Mailbox::new();
    m.put(0x42);
    assert!(m.is_valid());
    assert_eq!(m.peek(), Some(0x42));
    // peeking leaves the byte in place
    assert_eq!(m.peek(), Some(0x42));
    assert!(m.is_valid());
}

#[test]
fn take_returns_the_byte_and_clears_the_slot() {
    let mut m = Mailbox::new();
    m.put(0x42);
    assert_eq!(m.take(), Some(0x42));
    assert!(!m.is_valid());
    assert_eq!(m.peek(), None);
}

#[test]
fn second_take_without_put_is_empty() {
    let mut m = Mailbox::new();
    m.put(0xA5);
    assert_eq!(m.take(), Some(0xA5));
    assert_eq!(m.take(), None);
    assert_eq!(m.take(), None);
}

#[test]
fn put_replaces_a_waiting_byte() {
    let mut m = Mailbox::new();
    m.put(0x31);
    m.put(0x32);
    assert_eq!(m.take(), Some(0x32));
    assert_eq!(m.take(), None);
}

#[test]
fn zero_byte_is_a_byte_like_any_other() {
    let mut m = Mailbox::new();
    m.put(0x00);
    assert!(m.is_valid());
    assert_eq!(m.take(), Some(0x00));
    assert!(!m.is_valid());
}

#[test]
fn slot_can_be_used_again_after_take() {
    let mut m = Mailbox::new();
    m.put(1);
    assert_eq!(m.take(), Some(1));
    m.put(2);
    assert_eq!(m.take(), Some(2));
    assert_eq!(m.take(), None);
}

#[test]
fn every_byte_value_comes_out_unchanged_and_once() {
    let mut m = Mailbox::new();
    for b in 0..=255u8 {
        m.put(b);
        assert!(m.is_valid());
        assert_eq!(m.take(), Some(b));
        assert!(!m.is_valid());
        assert_eq!(m.take(), None);
    }
}
