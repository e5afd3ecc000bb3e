use hass::json::Id;
use hass::sync::atomic::AtomicId;

fn assert_sequence(id: &AtomicId, count: Id) {
    for expected in 1..=count {
        assert_eq!(expected, id.next());
    }
}

#[test]
fn new() {
    let id = AtomicId::new();
    assert_sequence(&id, 10);
}

#[test]
fn independence() {
    let id1 = AtomicId::new();
    let id2 = AtomicId::new();

    assert_sequence(&id1, 100);
    assert_sequence(&id2, 100);
}

#[test]
fn overflow() {
    let id = AtomicId::starting_at(u64::MAX);
    assert_eq!(u64::MAX, id.next());
    for expected in 0..10 {
        assert_eq!(expected, id.next());
    }
}

#[test]
fn identifier_of_each_count() {
    let id = AtomicId::new();
    assert_eq!(id.nth(0), 1);
    assert_eq!(id.nth(1), 2);
    assert_eq!(id.nth(41), 42);
    assert_eq!(id.nth(u64::MAX - 1), u64::MAX);
    assert_eq!(id.nth(u64::MAX), 0);
    let late = AtomicId::starting_at(u64::MAX - 1);
    assert_eq!(late.nth(0), u64::MAX - 1);
    assert_eq!(late.nth(1), u64::MAX);
    assert_eq!(late.nth(2), 0);
    assert_eq!(late.nth(3), 1);
    // asking does not count
    assert_eq!(late.next(), u64::MAX - 1);
    assert_eq!(late.next(), u64::MAX);
    assert_eq!(late.next(), 0);
}

#[test]
fn starting_point() {
    let id = AtomicId::starting_at(7);
    assert_eq!(id.next(), 7);
    assert_eq!(id.next(), 8);
    let zero = AtomicId::starting_at(0);
    assert_eq!(zero.next(), 0);
    assert_eq!(zero.next(), 1);
}
