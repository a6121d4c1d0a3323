//! The bounded history.

use rusty_c64::history::History;

#[test]
fn history_fills_up_to_its_limit() {
    let mut history: History<u8> = History::new(3);
    assert_eq!(history.len(), 0);
    assert_eq!(history.newest(), None);
    history.push(1);
    history.push(2);
    assert_eq!(history.to_vec(), vec![1, 2]);
    assert_eq!(history.capacity(), 3);
}

#[test]
fn history_drops_the_oldest_entry() {
    let mut history: History<u8> = History::new(3);
    for item in 1..=5 {
        history.push(item);
    }
    assert_eq!(history.to_vec(), vec![3, 4, 5]);
    assert_eq!(history.len(), 3);
    assert_eq!(history.get(0), Some(&3));
    assert_eq!(history.get(3), None);
    assert_eq!(history.newest(), Some(5));
}

#[test]
fn history_without_room_keeps_nothing() {
    let mut history: History<u8> = History::new(0);
    history.push(1);
    assert_eq!(history.len(), 0);
    assert!(history.to_vec().is_empty());
}
