use threadbeam::state::{RecvStep, ThreadBeamState, HAS_DATA, RX, TX};

fn is_value(step: &RecvStep<u32>, expected: u32) -> bool {
    match step {
        RecvStep::Value(v) => *v == expected,
        _ => false,
    }
}

#[test]
fn status_bits_are_the_three_high_bits() {
    assert_eq!(HAS_DATA, 0b1000_0000);
    assert_eq!(TX, 0b0100_0000);
    assert_eq!(RX, 0b0010_0000);
}

#[test]
fn fresh_cell_is_open_and_empty() {
    let s = ThreadBeamState::<u32>::new();
    assert!(!s.has_data());
    assert!(!s.hung_up());
    assert!(s.must_wait());
}

#[test]
fn set_data_marks_the_slot_full() {
    let mut s = ThreadBeamState::<u32>::new();
    s.set_data(5);
    assert!(s.has_data());
    assert!(!s.hung_up());
    assert!(!s.must_wait());
    assert_eq!(s.take_data(), Some(5));
    assert!(!s.has_data());
    assert_eq!(s.take_data(), None);
}

#[test]
fn put_keeps_a_full_slot() {
    let mut s = ThreadBeamState::<u32>::new();
    s.put(1);
    s.put(2);
    assert_eq!(s.take_data(), Some(1));
    s.put(3);
    assert_eq!(s.take_data(), Some(3));
}

#[test]
fn first_release_is_not_last_second_is() {
    let mut s = ThreadBeamState::<u32>::new();
    assert!(!s.drop_tx());
    assert!(s.hung_up());
    assert!(s.drop_rx());

    let mut s = ThreadBeamState::<u32>::new();
    assert!(!s.drop_rx());
    assert!(s.hung_up());
    assert!(s.drop_tx());
}

#[test]
fn release_leaves_the_slot_alone() {
    let mut s = ThreadBeamState::<u32>::new();
    s.set_data(9);
    assert!(!s.drop_tx());
    assert!(s.has_data());
    assert!(s.drop_rx());
    assert!(s.has_data());
    s.clear();
    assert!(!s.has_data());
}

#[test]
fn clear_on_an_empty_slot_changes_nothing() {
    let mut s = ThreadBeamState::<u32>::new();
    s.clear();
    assert!(!s.has_data());
    assert!(!s.hung_up());
}

#[test]
fn poll_waits_on_a_fresh_cell() {
    let mut s = ThreadBeamState::<u32>::new();
    assert!(matches!(s.poll(), RecvStep::Wait));
    assert!(!s.hung_up());
}

#[test]
fn poll_finds_the_value_before_and_after_the_sender_closed() {
    let mut s = ThreadBeamState::<u32>::new();
    s.put(11);
    assert!(is_value(&s.poll(), 11));
    assert!(matches!(s.poll(), RecvStep::Wait));

    let mut s = ThreadBeamState::<u32>::new();
    s.put(12);
    s.close_tx();
    assert!(is_value(&s.poll(), 12));
    assert!(matches!(s.poll(), RecvStep::HungUp));
}

#[test]
fn poll_reports_a_hang_up_when_the_sender_closed_without_sending() {
    let mut s = ThreadBeamState::<u32>::new();
    s.close_tx();
    assert!(!s.must_wait());
    assert!(matches!(s.poll(), RecvStep::HungUp));
    assert_eq!(s.take_data(), None);
}

#[test]
fn waiting_receiver_sees_the_hang_up_after_the_close() {
    let mut s = ThreadBeamState::<u32>::new();
    assert!(s.must_wait());
    s.close_tx();
    assert!(!s.must_wait());
    assert_eq!(s.take_data(), None);
}

#[test]
fn send_after_receiver_closed_is_stored_then_destroyed() {
    let mut s = ThreadBeamState::<u32>::new();
    s.close_rx();
    assert!(s.hung_up());
    s.put(4);
    assert!(s.has_data());
    s.close_tx();
    assert!(!s.has_data());
    assert!(s.hung_up());
}

#[test]
fn closing_both_sides_empties_the_slot_in_either_order() {
    let mut s = ThreadBeamState::<u32>::new();
    s.put(1);
    s.close_tx();
    assert!(s.has_data());
    s.close_rx();
    assert!(!s.has_data());

    let mut s = ThreadBeamState::<u32>::new();
    s.put(1);
    s.close_rx();
    assert!(s.has_data());
    s.close_tx();
    assert!(!s.has_data());
}
