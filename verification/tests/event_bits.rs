use freertos_rt::event_group::{EventGroupState, CONNECTED_BIT, ESPTOUCH_DONE_BIT};

#[test]
fn bits_are_distinct_single_bits() {
    assert_eq!(CONNECTED_BIT, 1 << 0);
    assert_eq!(ESPTOUCH_DONE_BIT, 1 << 1);
}

#[test]
fn set_and_clear_move_only_the_masked_bits() {
    let mut group = EventGroupState::new();
    assert_eq!(group.get_bits(), 0);
    assert_eq!(group.set_bits(CONNECTED_BIT), CONNECTED_BIT);
    assert_eq!(group.set_bits(ESPTOUCH_DONE_BIT), CONNECTED_BIT | ESPTOUCH_DONE_BIT);
    // clear returns the bits as they stood before the clear
    assert_eq!(group.clear_bits(CONNECTED_BIT), CONNECTED_BIT | ESPTOUCH_DONE_BIT);
    assert_eq!(group.get_bits(), ESPTOUCH_DONE_BIT);
}

#[test]
fn wait_returns_the_observed_bits_and_clears_on_wake() {
    // The scenario: starting bitset zero, one set, one wait on either bit.
    let mut group = EventGroupState::new();
    group.set_bits(CONNECTED_BIT);

    let woke = group
        .try_wait_bits(CONNECTED_BIT | ESPTOUCH_DONE_BIT, true, false)
        .expect("a set bit satisfies an any-bit wait");
    assert_ne!(woke & CONNECTED_BIT, 0);

    // clear-on-wake: the awaited bits are gone from the group, so a
    // second immediate wait blocks (times out).
    assert_eq!(group.get_bits(), 0);
    assert_eq!(
        group.try_wait_bits(CONNECTED_BIT | ESPTOUCH_DONE_BIT, true, false),
        None
    );
}

#[test]
fn wait_without_clear_leaves_the_bits_readable() {
    let mut group = EventGroupState::new();
    group.set_bits(ESPTOUCH_DONE_BIT);
    let woke = group
        .try_wait_bits(CONNECTED_BIT | ESPTOUCH_DONE_BIT, false, false)
        .expect("satisfied");
    assert_eq!(woke, ESPTOUCH_DONE_BIT);
    assert_eq!(group.get_bits(), ESPTOUCH_DONE_BIT);
}

#[test]
fn wait_for_all_needs_every_masked_bit() {
    let mut group = EventGroupState::new();
    group.set_bits(CONNECTED_BIT);
    assert_eq!(
        group.try_wait_bits(CONNECTED_BIT | ESPTOUCH_DONE_BIT, false, true),
        None
    );
    group.set_bits(ESPTOUCH_DONE_BIT);
    assert_eq!(
        group.try_wait_bits(CONNECTED_BIT | ESPTOUCH_DONE_BIT, false, true),
        Some(CONNECTED_BIT | ESPTOUCH_DONE_BIT)
    );
}
