use uart_echo::boot::{Boot, BootStep};

#[test]
fn boot_starts_unarmed() {
    let b = Boot::new();
    assert!(!b.is_armed());
}

#[test]
fn steps_come_in_order_with_unmask_last() {
    let mut b = Boot::new();
    assert_eq!(b.next_step(), Some(BootStep::ConfigureSerial));
    assert!(!b.is_armed());
    assert_eq!(b.next_step(), Some(BootStep::EnableReceiveInterrupt));
    assert!(!b.is_armed());
    assert_eq!(b.next_step(), Some(BootStep::UnmaskInterrupt));
    assert!(b.is_armed());
}

#[test]
fn nothing_is_left_once_armed() {
    let mut b = Boot::new();
    let mut steps = Vec::new();
    while let Some(step) = b.next_step() {
        steps.push(step);
        assert!(steps.len() <= 3);
    }
    assert_eq!(
        steps,
        vec![
            BootStep::ConfigureSerial,
            BootStep::EnableReceiveInterrupt,
            BootStep::UnmaskInterrupt
        ]
    );
    assert!(b.is_armed());
    assert_eq!(b.next_step(), None);
    assert_eq!(b.next_step(), None);
    assert!(b.is_armed());
}
