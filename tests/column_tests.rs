use owoverlay::column::{KeyColumn, KeyEvent};
use owoverlay::config::ColumnProps;
use owoverlay::history::CAPACITY;

fn column(keys: Vec<u32>) -> KeyColumn {
    let labels: Vec<String> = keys.iter().map(|k| format!("K{}", k)).collect();
    KeyColumn::new(ColumnProps::new(None, keys), &labels)
}

fn ev(key: u32, pressed: bool, time: u64) -> KeyEvent {
    KeyEvent { key, pressed, time }
}

fn history(c: &KeyColumn) -> Vec<u64> {
    (0..c.times.len()).map(|i| c.times.get(i)).collect()
}

#[test]
fn single_press_and_release() {
    let mut c = column(vec![1]);
    c.set_key_pressed(ev(1, true, 0));
    c.set_key_pressed(ev(1, false, 1));
    assert!(!c.pressed);
    assert_eq!(c.count, 1);
    assert_eq!(history(&c), vec![1, 0]);
}

#[test]
fn new_column_is_released_and_named_from_labels() {
    let c = column(vec![3, 4, 3]);
    assert!(!c.pressed);
    assert_eq!(c.count, 0);
    assert_eq!(c.times.len(), 0);
    assert_eq!(c.name, "K3K4K3");
    assert_eq!(c.pressed_keys, vec![(3, false), (4, false)]);
}

#[test]
fn configured_name_wins() {
    let props = ColumnProps::new(Some("left".to_string()), vec![1, 2]);
    let c = KeyColumn::new(props, &vec!["A".to_string(), "B".to_string()]);
    assert_eq!(c.name, "left");
}

#[test]
fn duplicate_state_is_ignored() {
    let mut c = column(vec![1]);
    c.set_key_pressed(ev(1, true, 10));
    c.set_key_pressed(ev(1, true, 20));
    assert_eq!(c.count, 1);
    assert_eq!(history(&c), vec![10]);
    c.set_key_pressed(ev(1, false, 30));
    c.set_key_pressed(ev(1, false, 40));
    assert_eq!(c.count, 1);
    assert_eq!(history(&c), vec![30, 10]);
}

#[test]
fn release_of_unpressed_key_is_ignored() {
    let mut c = column(vec![1]);
    c.set_key_pressed(ev(1, false, 5));
    assert_eq!(c.count, 0);
    assert_eq!(c.times.len(), 0);
}

#[test]
fn non_member_key_is_ignored() {
    let mut c = column(vec![1]);
    c.set_key_pressed(ev(2, true, 5));
    assert!(!c.pressed);
    assert_eq!(c.count, 0);
    assert_eq!(c.times.len(), 0);
}

#[test]
fn overlapping_members_count_once() {
    let mut c = column(vec![1, 2]);
    c.set_key_pressed(ev(1, true, 1));
    c.set_key_pressed(ev(2, true, 2));
    assert!(c.pressed);
    assert_eq!(c.count, 1);
    c.set_key_pressed(ev(1, false, 3));
    assert!(c.pressed);
    assert_eq!(history(&c), vec![1]);
    c.set_key_pressed(ev(2, false, 4));
    assert!(!c.pressed);
    assert_eq!(history(&c), vec![4, 1]);
    c.set_key_pressed(ev(2, true, 5));
    assert_eq!(c.count, 2);
    assert_eq!(history(&c), vec![5, 4, 1]);
}

#[test]
fn parity_holds_on_a_mixed_run() {
    let mut c = column(vec![1, 2, 3]);
    let run = [(1, true), (2, true), (1, false), (3, true), (2, false), (3, false), (3, true), (3, true)];
    for (t, &(k, p)) in run.iter().enumerate() {
        c.set_key_pressed(ev(k, p, t as u64));
        let any = c.pressed_keys.iter().any(|&(_, v)| v);
        assert_eq!(c.pressed, any);
        assert_eq!(c.times.len() % 2 == 0, !c.pressed);
    }
    assert_eq!(c.count, 2);
}

#[test]
fn history_keeps_the_most_recent_transitions() {
    let mut c = column(vec![7]);
    for t in 0..2000u64 {
        c.set_key_pressed(ev(7, t % 2 == 0, t));
    }
    assert_eq!(c.times.len(), CAPACITY);
    assert_eq!(c.times.len(), 1024);
    let h = history(&c);
    let expected: Vec<u64> = (976..2000u64).rev().collect();
    assert_eq!(h, expected);
    assert_eq!(c.count, 1000);
}
