use tatoteco::handoff::Handoff;

#[test]
fn fresh_slot_is_empty_and_hands_out_nothing() {
    let mut slot: Handoff<u32> = Handoff::new();
    assert!(slot.is_empty());
    assert_eq!(slot.take(), None);
    assert!(slot.is_empty());
}

#[test]
fn deposited_value_is_taken_once() {
    let mut slot: Handoff<String> = Handoff::new();
    slot.deposit("producer".to_string());
    assert!(!slot.is_empty());
    assert_eq!(slot.take(), Some("producer".to_string()));
    assert_eq!(slot.take(), None);
    assert_eq!(slot.take(), None);
}

#[test]
fn spent_slot_never_becomes_empty_again() {
    let mut slot: Handoff<u8> = Handoff::new();
    slot.deposit(9);
    assert!(!slot.is_empty());
    assert_eq!(slot.take(), Some(9));
    assert!(!slot.is_empty());
}
