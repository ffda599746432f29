use owoverlay::column::{KeyColumn, KeyEvent};
use owoverlay::config::{BoxPlacement, ColumnProps, ScrollDirection};
use owoverlay::draw::{center_from, square, DrawCommand, DrawRect, DrawText, TextKind};
use owoverlay::layout::{Anchor, OwoRect, Point, Rect, Size};
use owoverlay::render::FrameSettings;

const SEC: u64 = 1_000_000_000;

fn settings(direction: ScrollDirection, kp: BoxPlacement, cp: BoxPlacement) -> FrameSettings {
    FrameSettings {
        speed: 300,
        direction,
        display_keys: true,
        key_placement: kp,
        display_counters: true,
        counter_placement: cp,
        key_spacing: 10,
        default_key_width: 100,
        key_height: 100,
    }
}

fn column_with(events: &[(bool, u64)]) -> KeyColumn {
    let mut c = KeyColumn::new(ColumnProps::new(None, vec![1]), &vec!["A".to_string()]);
    for &(pressed, time) in events {
        c.set_key_pressed(KeyEvent { key: 1, pressed, time });
    }
    c
}

fn layout(s: &FrameSettings, i: usize, n: usize, c: &KeyColumn, now: u64) -> Vec<DrawCommand> {
    let mut out = Vec::new();
    s.layout_column(420, 690, i, n, c, Size { w: 80, h: 40 }, Size { w: 30, h: 36 }, now, &mut out);
    out
}

fn rects(cmds: &[DrawCommand]) -> Vec<Rect> {
    cmds.iter()
        .filter_map(|c| match c {
            DrawCommand::Rect(r) => Some(r.rect),
            _ => None,
        })
        .collect()
}

fn texts(cmds: &[DrawCommand]) -> Vec<DrawText> {
    cmds.iter()
        .filter_map(|c| match c {
            DrawCommand::Text(t) => Some(*t),
            _ => None,
        })
        .collect()
}

#[test]
fn owo_rect_corners() {
    let r = OwoRect { pos: Point { x: 100, y: 200 }, size: Size { w: 40, h: 21 }, origin: Anchor::BC };
    assert_eq!(r.top_left(), Point { x: 80, y: 179 });
    assert_eq!(r.center(), Point { x: 100, y: 189 });
    assert_eq!(r.anchor(Anchor::TR), Point { x: 120, y: 179 });
    assert_eq!(r.anchor(Anchor::BL), Point { x: 80, y: 200 });
    assert_eq!(r.to_rect(), Rect { x: 80, y: 179, w: 40, h: 21 });
}

#[test]
fn center_from_and_square() {
    let p = Point { x: 100, y: 100 };
    assert_eq!(center_from(p, 10, Anchor::TL), Point { x: 90, y: 100 });
    assert_eq!(center_from(p, 10, Anchor::CC), Point { x: 95, y: 95 });
    assert_eq!(center_from(p, 10, Anchor::BR), Point { x: 100, y: 90 });
    assert_eq!(square(p, 7), Rect { x: 100, y: 100, w: 7, h: 7 });
}

#[test]
fn key_box_and_texts_inside_outside() {
    let s = settings(ScrollDirection::Up, BoxPlacement::Inside, BoxPlacement::Outside);
    let c = column_with(&[]);
    let out = layout(&s, 0, 4, &c, 0);
    assert_eq!(out.len(), 3);
    assert_eq!(
        out[0],
        DrawCommand::Rect(DrawRect {
            rect: Rect { x: 10, y: 2240, w: 400, h: 400 },
            color: 0x111111,
            border_color: 0xeeeeee,
            border_width: 32,
            corner_radius: 8,
            bordered: true,
            alpha: 100,
        })
    );
    let t = texts(&out);
    assert_eq!(t[0], DrawText { text: TextKind::Label(0), x: 170, y: 2420, size: 25, color: 0xeeeeee, alpha: 100 });
    assert_eq!(t[1], DrawText { text: TextKind::Counter(0), x: 195, y: 2660, size: 20, color: 0xeeeeee, alpha: 100 });
    assert_eq!(s.font_sizes(), (25, 20));
}

#[test]
fn columns_are_centered_and_evenly_spaced() {
    let s = settings(ScrollDirection::Up, BoxPlacement::Inside, BoxPlacement::Inside);
    let c = column_with(&[]);
    let xs: Vec<i64> = (0..4).map(|i| rects(&layout(&s, i, 4, &c, 0))[0].x).collect();
    assert_eq!(xs, vec![10, 430, 850, 1270]);
}

#[test]
fn inside_inside_stacks_texts() {
    let s = settings(ScrollDirection::Down, BoxPlacement::Inside, BoxPlacement::Inside);
    let c = column_with(&[]);
    let out = layout(&s, 0, 1, &c, 0);
    assert_eq!(rects(&out)[0], Rect { x: 640, y: 120, w: 400, h: 400 });
    let t = texts(&out);
    assert_eq!((t[0].x, t[0].y, t[0].size), (800, 272, 25));
    assert_eq!((t[1].x, t[1].y, t[1].size), (825, 328, 20));
}

#[test]
fn outside_inside_swaps_roles() {
    let s = settings(ScrollDirection::Down, BoxPlacement::Outside, BoxPlacement::Inside);
    let c = column_with(&[]);
    let t = texts(&layout(&s, 0, 1, &c, 0));
    assert_eq!((t[0].x, t[0].y, t[0].size), (800, 60, 20));
    assert_eq!((t[1].x, t[1].y, t[1].size), (825, 302, 25));
}

#[test]
fn outside_outside_mirrors_between_directions() {
    let c = column_with(&[]);
    let up = texts(&layout(&settings(ScrollDirection::Up, BoxPlacement::Outside, BoxPlacement::Outside), 0, 1, &c, 0));
    let down =
        texts(&layout(&settings(ScrollDirection::Down, BoxPlacement::Outside, BoxPlacement::Outside), 0, 1, &c, 0));
    assert_eq!((up[0].x, up[0].y), (672, 2660));
    assert_eq!((down[0].x, down[0].y), (672, 60));
    assert_eq!((up[1].x, up[1].y), (978, 2660));
    assert_eq!((down[1].x, down[1].y), (978, 64));
    assert_eq!(up[0].x, down[0].x);
    assert_eq!(up[1].x, down[1].x);
    let (up_near, down_near) = (2240 + 400, 120);
    assert_eq!(up[0].y - up_near, down_near - (down[0].y + 40));
    assert_eq!(up[1].y - up_near, down_near - (down[1].y + 36));
}

#[test]
fn history_bar_geometry() {
    let s = settings(ScrollDirection::Up, BoxPlacement::Inside, BoxPlacement::Outside);
    let c = column_with(&[(true, SEC), (false, SEC + SEC / 2)]);
    let out = layout(&s, 0, 4, &c, 2 * SEC);
    assert_eq!(out.len(), 4);
    assert_eq!(
        out[3],
        DrawCommand::Rect(DrawRect {
            rect: Rect { x: 10, y: 1040, w: 400, h: 600 },
            color: 0x63ffec,
            border_color: 0,
            border_width: 0,
            corner_radius: 0,
            bordered: false,
            alpha: 50,
        })
    );
    let down = settings(ScrollDirection::Down, BoxPlacement::Inside, BoxPlacement::Outside);
    assert_eq!(rects(&layout(&down, 0, 4, &c, 2 * SEC))[1], Rect { x: 10, y: 520 + 1200, w: 400, h: -600 });
}

#[test]
fn held_key_bar_reaches_the_key_row() {
    let s = settings(ScrollDirection::Up, BoxPlacement::Inside, BoxPlacement::Outside);
    let c = column_with(&[(true, SEC)]);
    let out = layout(&s, 0, 4, &c, 2 * SEC);
    let r = rects(&out);
    assert_eq!(r[1], Rect { x: 10, y: 2240 - 1200, w: 400, h: 1200 });
    match out[0] {
        DrawCommand::Rect(k) => assert_eq!(k.color, 0x555555),
        _ => panic!("key box first"),
    }
}

#[test]
fn start_is_clamped_to_the_viewport() {
    let s = settings(ScrollDirection::Up, BoxPlacement::Inside, BoxPlacement::Outside);
    let c = column_with(&[(true, 0), (false, 9 * SEC)]);
    let r = rects(&layout(&s, 0, 4, &c, 10 * SEC));
    assert_eq!(r[1], Rect { x: 10, y: 2240 - 2760, w: 400, h: 2760 - 1200 });
}

#[test]
fn offscreen_interval_stops_older_bars() {
    let s = settings(ScrollDirection::Up, BoxPlacement::Inside, BoxPlacement::Outside);
    let ms = SEC / 10;
    let c = column_with(&[
        (true, 97 * ms),
        (false, 98 * ms),
        (true, 10 * ms),
        (false, 20 * ms),
        (true, 90 * ms),
        (false, 95 * ms),
    ]);
    assert_eq!(c.intervals(100 * ms).len(), 3);
    let out = layout(&s, 0, 4, &c, 100 * ms);
    assert_eq!(rects(&out).len(), 2);
    assert_eq!(rects(&out)[1], Rect { x: 10, y: 2240 - 1200, w: 400, h: 600 });
}

#[test]
fn hidden_texts_are_not_emitted() {
    let mut s = settings(ScrollDirection::Up, BoxPlacement::Inside, BoxPlacement::Outside);
    s.display_keys = false;
    let c = column_with(&[]);
    let t = texts(&layout(&s, 0, 1, &c, 0));
    assert_eq!(t.len(), 1);
    assert_eq!(t[0].text, TextKind::Counter(0));
    s.display_counters = false;
    assert_eq!(texts(&layout(&s, 0, 1, &c, 0)).len(), 0);
}
