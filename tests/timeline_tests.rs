use owoverlay::column::{KeyColumn, KeyEvent};
use owoverlay::config::ColumnProps;
use owoverlay::timeline::duration_between;

fn column_with(events: &[(bool, u64)]) -> KeyColumn {
    let mut c = KeyColumn::new(ColumnProps::new(None, vec![1]), &vec!["A".to_string()]);
    for &(pressed, time) in events {
        c.set_key_pressed(KeyEvent { key: 1, pressed, time });
    }
    c
}

#[test]
fn open_interval_ends_now() {
    let c = column_with(&[(true, 0), (false, 2), (true, 5)]);
    assert_eq!(c.intervals(7), vec![(5, 7), (0, 2)]);
    assert_eq!(c.interval_count(), 2);
    assert_eq!(c.interval_at(7, 0), (5, 7));
    assert_eq!(c.interval_at(7, 1), (0, 2));
}

#[test]
fn closed_intervals_pair_press_and_release() {
    let c = column_with(&[(true, 1), (false, 3), (true, 4), (false, 9)]);
    assert_eq!(c.intervals(20), vec![(4, 9), (1, 3)]);
}

#[test]
fn empty_history_has_no_interval() {
    let c = column_with(&[]);
    assert_eq!(c.intervals(5), Vec::<(u64, u64)>::new());
}

#[test]
fn duration_is_symmetric() {
    assert_eq!(duration_between(10, 4), 6);
    assert_eq!(duration_between(4, 10), 6);
    assert_eq!(duration_between(4, 4), 0);
}
