use owoverlay::config::{BoxPlacement, ColumnProps, Config, ScrollDirection, WindowProps};
use owoverlay::defaults;

#[test]
fn default_values() {
    assert!(defaults::yes());
    assert_eq!(defaults::window::width(), 420);
    assert_eq!(defaults::window::height(), 690);
    assert_eq!(defaults::key_placement(), BoxPlacement::Inside);
    assert_eq!(defaults::counter_placement(), BoxPlacement::Outside);
    assert_eq!(defaults::key_spacing(), 10);
    assert_eq!(defaults::default_key_width(), 100);
    assert_eq!(defaults::key_height(), 100);
    assert_eq!(defaults::column::width(), 100);
    assert_eq!(defaults::column::color(), 0x63ffec);
    assert_eq!(defaults::column::hover_color(), 0x555555);
    assert_eq!(defaults::column::border_color(), 0xeeeeee);
    assert_eq!(defaults::column::alpha(), 50);
}

#[test]
fn default_window_and_direction() {
    let w = WindowProps::default();
    assert!(w.transparent && w.resizable);
    assert_eq!((w.width, w.height), (420, 690));
    assert_eq!(ScrollDirection::default(), ScrollDirection::Up);
}

#[test]
fn column_props_defaults() {
    let p = ColumnProps::new(None, vec![4, 5]);
    assert_eq!(p.name, None);
    assert_eq!(p.keys, vec![4, 5]);
    assert_eq!(p.width, 100);
    assert_eq!(p.color, 0x63ffec);
    assert_eq!(p.alpha, 50);
}

fn config(columns: Vec<ColumnProps>) -> Config {
    Config {
        speed: 300,
        direction: ScrollDirection::Up,
        display_keys: true,
        key_placement: BoxPlacement::Inside,
        display_counters: true,
        counter_placement: BoxPlacement::Outside,
        key_spacing: 10,
        default_key_width: 100,
        key_height: 100,
        window: WindowProps::default(),
        columns,
    }
}

#[test]
fn column_without_keys_is_found() {
    let ok = config(vec![ColumnProps::new(None, vec![1]), ColumnProps::new(None, vec![2, 3])]);
    assert_eq!(ok.empty_column(), None);
    let bad = config(vec![
        ColumnProps::new(None, vec![1]),
        ColumnProps::new(None, vec![]),
        ColumnProps::new(None, vec![]),
    ]);
    assert_eq!(bad.empty_column(), Some(1));
}
