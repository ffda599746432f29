use owoverlay::column::{KeyColumn, KeyEvent};
use owoverlay::config::{BoxPlacement, ColumnProps, Config, ScrollDirection, WindowProps};
use owoverlay::draw::{DrawCommand, TextKind};
use owoverlay::layout::Size;
use owoverlay::scene::KeyOverlayScene;

fn config(columns: Vec<ColumnProps>) -> Config {
    Config {
        speed: 300,
        direction: ScrollDirection::Up,
        display_keys: true,
        key_placement: BoxPlacement::Inside,
        display_counters: true,
        counter_placement: BoxPlacement::Outside,
        key_spacing: 10,
        default_key_width: 100,
        key_height: 100,
        window: WindowProps::default(),
        columns,
    }
}

fn scene(keys: Vec<Vec<u32>>) -> KeyOverlayScene {
    let props: Vec<ColumnProps> = keys.into_iter().map(|k| ColumnProps::new(None, k)).collect();
    let cfg = config(props.clone());
    let cols = props
        .into_iter()
        .map(|p| {
            let labels = p.keys.iter().map(|k| k.to_string()).collect();
            KeyColumn::new(p, &labels)
        })
        .collect();
    KeyOverlayScene::new(&cfg, cols, 0)
}

fn ev(key: u32, pressed: bool, time: u64) -> KeyEvent {
    KeyEvent { key, pressed, time }
}

#[test]
fn events_reach_their_columns() {
    let mut s = scene(vec![vec![1], vec![2, 3]]);
    s.update(&vec![ev(1, true, 1), ev(3, true, 2), ev(2, true, 3), ev(9, true, 4)], 10);
    assert!(s.columns[0].pressed);
    assert!(s.columns[1].pressed);
    assert_eq!(s.columns[0].count, 1);
    assert_eq!(s.columns[1].count, 1);
    assert_eq!(s.now, 10);
    assert_eq!(s.frame_count, 1);
}

#[test]
fn shared_key_goes_to_first_column() {
    let s = scene(vec![vec![1], vec![1, 2]]);
    assert_eq!(s.column_of(1), Some(0));
    assert_eq!(s.column_of(2), Some(1));
    assert_eq!(s.column_of(5), None);
    let mut s = s;
    s.apply_event(ev(1, true, 1));
    assert!(s.columns[0].pressed);
    assert!(!s.columns[1].pressed);
}

#[test]
fn unknown_key_changes_nothing() {
    let mut s = scene(vec![vec![1]]);
    s.apply_event(ev(42, true, 1));
    assert!(!s.columns[0].pressed);
    assert_eq!(s.columns[0].times.len(), 0);
}

#[test]
fn duration_since_now_is_absolute() {
    let mut s = scene(vec![vec![1]]);
    s.update(&vec![], 100);
    assert_eq!(s.duration_since_now(40), 60);
    assert_eq!(s.duration_since_now(130), 30);
}

#[test]
fn ctrl_d_release_toggles_debug() {
    let mut s = scene(vec![vec![1]]);
    s.inapp_key_event(true, false, Some('d'), false);
    assert!(!s.debug_mode);
    s.inapp_key_event(true, true, Some('d'), true);
    assert!(!s.debug_mode);
    s.inapp_key_event(false, true, Some('d'), false);
    assert!(!s.debug_mode);
    s.inapp_key_event(true, true, Some('x'), false);
    assert!(!s.debug_mode);
    s.inapp_key_event(true, true, Some('d'), false);
    assert!(s.debug_mode);
    s.inapp_key_event(true, true, Some('d'), false);
    assert!(!s.debug_mode);
}

#[test]
fn debug_figures_refresh() {
    let mut s = scene(vec![vec![1], vec![2]]);
    s.inapp_key_event(true, true, Some('d'), false);
    s.update(&vec![ev(1, true, 5)], 1000);
    assert_eq!(s.frame_deltas, vec![1000]);
    assert_eq!(s.debug_average_delta, Some(1000));
    assert_eq!(s.debug_history_lens, vec![1, 0]);
    s.update(&vec![], 4000);
    assert_eq!(s.frame_deltas, vec![1000, 3000]);
    assert_eq!(s.debug_average_delta, Some(1000));
    assert_eq!(s.average_delta(), 2000);
}

#[test]
fn frame_deltas_keep_the_latest_sixty() {
    let mut s = scene(vec![vec![1]]);
    s.inapp_key_event(true, true, Some('d'), false);
    for t in 1..=70u64 {
        s.update(&vec![], t * 10);
    }
    assert_eq!(s.frame_deltas.len(), 60);
    assert!(s.frame_deltas.iter().all(|&d| d == 10));
}

#[test]
fn frame_without_debug_is_the_columns() {
    let mut s = scene(vec![vec![1], vec![2]]);
    s.update(&vec![ev(1, true, 0), ev(1, false, 500_000_000)], 1_000_000_000);
    let sizes = vec![(Size { w: 8, h: 8 }, Size { w: 8, h: 8 }); 2];
    let out = s.draw(420, 690, &sizes);
    assert_eq!(out.len(), 7);
    assert!(matches!(out[3], DrawCommand::Rect(_)));
}

#[test]
fn frame_in_debug_mode_ends_with_the_panel() {
    let mut s = scene(vec![vec![1]]);
    s.inapp_key_event(true, true, Some('d'), false);
    s.update(&vec![], 10);
    let sizes = vec![(Size { w: 8, h: 8 }, Size { w: 8, h: 8 })];
    let out = s.draw(420, 690, &sizes);
    assert_eq!(out.len(), 3 + 4);
    match out[4] {
        DrawCommand::Text(t) => {
            assert_eq!(t.text, TextKind::DrawStats { rects: 1, texts: 4 });
            assert_eq!((t.x, t.y), (20, 20));
        }
        _ => panic!("stats text expected"),
    }
    match out[3] {
        DrawCommand::Rect(r) => assert_eq!((r.rect.y, r.rect.w, r.rect.h), (0, 1680, 220)),
        _ => panic!("backdrop expected"),
    }
}
