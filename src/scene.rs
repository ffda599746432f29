//! The overlay scene: routing of key events to columns, the frame tick,
//! and the frame's draw commands.

use vstd::prelude::*;

use std::collections::HashMap;

use crate::column::{step, ColumnState, KeyColumn, KeyEvent};
use crate::config::{Config, PhysicalKey, ScrollDirection};
use crate::draw::{DrawCommand, DrawRect, DrawText, TextKind};
use crate::layout::{Rect, Size};
use crate::render::{FrameSettings, MAX_COLUMNS, OPAQUE};
use crate::timeline::{duration_between, elapsed};

verus! {

/// `c` has `k` among its members.
pub open spec fn has_key(c: KeyColumn, k: PhysicalKey) -> bool {
    exists|j: int| 0 <= j < c.pressed_keys@.len() && (#[trigger] c.pressed_keys@[j]).0 == k
}

/// Column `i` is the first of `cols` with member `k`.
pub open spec fn first_owner(cols: Seq<KeyColumn>, k: PhysicalKey, i: int) -> bool {
    &&& 0 <= i < cols.len()
    &&& has_key(cols[i], k)
    &&& forall|l: int| 0 <= l < i ==> !has_key(#[trigger] cols[l], k)
}

/// `owners` maps each key that some column has to the first such column.
pub open spec fn indexes(owners: Map<PhysicalKey, usize>, cols: Seq<KeyColumn>) -> bool {
    &&& forall|k: PhysicalKey|
        #[trigger] owners.contains_key(k) <==> exists|i: int| 0 <= i < cols.len() && has_key(#[trigger] cols[i], k)
    &&& forall|k: PhysicalKey| #[trigger] owners.contains_key(k) ==> first_owner(cols, k, owners[k] as int)
}

/// Column states after `e` goes to the first column owning its key.
pub open spec fn deliver(ms: Seq<ColumnState>, owners: Map<PhysicalKey, usize>, e: KeyEvent) -> Seq<ColumnState> {
    if owners.contains_key(e.key) && owners[e.key] < ms.len() {
        ms.update(owners[e.key] as int, step(ms[owners[e.key] as int], e))
    } else {
        ms
    }
}

/// Column states after each of `es`, in order.
pub open spec fn deliver_all(ms: Seq<ColumnState>, owners: Map<PhysicalKey, usize>, es: Seq<KeyEvent>) -> Seq<ColumnState>
    decreases es.len(),
{
    if es.len() == 0 {
        ms
    } else {
        deliver(deliver_all(ms, owners, es.drop_last()), owners, es.last())
    }
}

/// Latest frame durations after `d` is recorded: at most `DEBUG_WINDOW`,
/// the oldest dropped first.
pub open spec fn windowed(ds: Seq<u64>, d: u64) -> Seq<u64> {
    if ds.len() >= DEBUG_WINDOW {
        ds.subrange(ds.len() - (DEBUG_WINDOW - 1), ds.len() as int).push(d)
    } else {
        ds.push(d)
    }
}

/// Sum of `ds`.
pub open spec fn total(ds: Seq<u64>) -> nat
    decreases ds.len(),
{
    if ds.len() == 0 {
        0
    } else {
        (total(ds.drop_last()) + ds.last()) as nat
    }
}

/// Mean of `ds`, rounded down; zero when empty.
pub open spec fn mean(ds: Seq<u64>) -> nat {
    if ds.len() == 0 {
        0
    } else {
        total(ds) / ds.len()
    }
}

/// The frames counted so far, held at the largest `u64`.
pub open spec fn next_frame(n: u64) -> u64 {
    if n < u64::MAX {
        (n + 1) as u64
    } else {
        n
    }
}

/// Derived debug figures are refreshed on every `DEBUG_REFRESH_FRAMES`-th frame.
pub open spec fn refreshes(debug_mode: bool, frame_count: u64) -> bool {
    debug_mode && frame_count % DEBUG_REFRESH_FRAMES == 0
}


/// Number of rectangle commands in `cs`.
pub open spec fn rect_count(cs: Seq<DrawCommand>) -> nat
    decreases cs.len(),
{
    if cs.len() == 0 {
        0
    } else {
        rect_count(cs.drop_last()) + if cs.last() is Rect {
            1nat
        } else {
            0nat
        }
    }
}

/// Height of a debug text line, in layout units.
pub const DEBUG_LINE: i64 = 60;
/// Margin round the debug panel, in layout units.
pub const DEBUG_MARGIN: i64 = 20;
/// Font size of the debug texts, in pixels.
pub const DEBUG_FONT_SIZE: u32 = 15;
/// Colour of the debug texts.
pub const DEBUG_TEXT_COLOR: u32 = 0x64ff64;

/// Top of the debug panel's first line, for `lines` lines after the first:
/// at the top of the viewport when scrolling up, at its bottom when down.
pub open spec fn debug_top(dir: ScrollDirection, vh: u32, lines: int) -> int {
    match dir {
        ScrollDirection::Up => DEBUG_MARGIN as int,
        ScrollDirection::Down => 4 * vh - DEBUG_MARGIN - DEBUG_LINE * (lines + 1),
    }
}

/// The debug panel over a frame that draws `rects` rectangles and `texts`
/// texts: a backdrop, the counts, then `lines` further lines.
pub open spec fn debug_panel(dir: ScrollDirection, vw: u32, vh: u32, lines: int, rects: u64, texts: u64) -> Seq<DrawCommand> {
    let top = debug_top(dir, vh, lines);
    let backdrop = DrawCommand::Rect(
        DrawRect {
            rect: Rect {
                x: 0,
                y: (top - DEBUG_MARGIN) as i64,
                w: (4 * vw) as i64,
                h: (DEBUG_LINE * (lines + 1) + 2 * DEBUG_MARGIN) as i64,
            },
            color: 0,
            border_color: 0,
            border_width: 0,
            corner_radius: 0,
            bordered: false,
            alpha: OPAQUE,
        },
    );
    let stats = DrawCommand::Text(
        DrawText {
            text: TextKind::DrawStats { rects, texts },
            x: DEBUG_MARGIN,
            y: top as i64,
            size: DEBUG_FONT_SIZE,
            color: DEBUG_TEXT_COLOR,
            alpha: OPAQUE,
        },
    );
    let line = |i: int, kind: TextKind| DrawCommand::Text(
        DrawText {
            text: kind,
            x: DEBUG_MARGIN,
            y: (top + DEBUG_LINE * (i + 1)) as i64,
            size: DEBUG_FONT_SIZE,
            color: DEBUG_TEXT_COLOR,
            alpha: OPAQUE,
        },
    );
    seq![backdrop, stats] + if lines == 2 {
        seq![line(0, TextKind::HistoryLengths), line(1, TextKind::FrameTime)]
    } else {
        Seq::empty()
    }
}

/// Frames between two refreshes of the debug figures.
pub const DEBUG_REFRESH_FRAMES: u64 = 100;
/// Frame durations that the debug average covers.
pub const DEBUG_WINDOW: usize = 60;

/// The overlay: its columns, the key index, the frame instant, and the
/// debug figures.
pub struct KeyOverlayScene {
    pub columns: Vec<KeyColumn>,
    /// Each member key to the first column that has it.
    pub key_column_map: HashMap<PhysicalKey, usize>,
    /// Instant of the current frame, in nanoseconds.
    pub now: u64,
    pub debug_mode: bool,
    pub frame_count: u64,
    /// Durations of the latest frames, oldest first, in nanoseconds.
    pub frame_deltas: Vec<u64>,
    /// History length of each column at the last debug refresh.
    pub debug_history_lens: Vec<usize>,
    /// Mean of `frame_deltas` at the last debug refresh, if any.
    pub debug_average_delta: Option<u64>,
    pub settings: FrameSettings,
}

impl KeyOverlayScene {
    pub open spec fn wf(&self) -> bool {
        &&& forall|i: int| 0 <= i < self.columns@.len() ==> (#[trigger] self.columns@[i]).wf()
        &&& indexes(self.key_column_map@, self.columns@)
        &&& self.frame_deltas@.len() <= DEBUG_WINDOW
    }

    /// States of the columns.
    pub open spec fn states(&self) -> Seq<ColumnState> {
        self.columns@.map_values(|c: KeyColumn| c@)
    }

    /// A scene over `key_columns` with the settings of `config`, at instant
    /// `now`. A key of several columns is routed to the first of them.
    pub fn new(config: &Config, key_columns: Vec<KeyColumn>, now: u64) -> (r: KeyOverlayScene)
        requires
            forall|i: int| 0 <= i < key_columns@.len() ==> (#[trigger] key_columns@[i]).wf(),
        ensures
            r.wf(),
            r.columns@ == key_columns@,
            r.now == now,
            !r.debug_mode,
            r.frame_count == 0,
            r.frame_deltas@.len() == 0,
            r.debug_history_lens@.len() == 0,
            r.debug_average_delta is None,
            r.settings == (FrameSettings {
                speed: config.speed,
                direction: config.direction,
                display_keys: config.display_keys,
                key_placement: config.key_placement,
                display_counters: config.display_counters,
                counter_placement: config.counter_placement,
                key_spacing: config.key_spacing,
                default_key_width: config.default_key_width,
                key_height: config.key_height,
            }),
    {
        broadcast use vstd::std_specs::hash::group_hash_axioms;

        let mut key_column_map: HashMap<PhysicalKey, usize> = HashMap::new();
        let mut i: usize = 0;
        while i < key_columns.len()
            invariant
                i <= key_columns@.len(),
                indexes(key_column_map@, key_columns@.subrange(0, i as int)),
            decreases key_columns@.len() - i,
        {
            let ghost pre = key_columns@.subrange(0, i as int);
            let ghost post = key_columns@.subrange(0, i as int + 1);
            let ghost before = key_column_map@;
            let col = &key_columns[i];
            let mut j: usize = 0;
            while j < col.pressed_keys.len()
                invariant
                    i < key_columns@.len(),
                    col == key_columns@[i as int],
                    j <= col.pressed_keys@.len(),
                    pre == key_columns@.subrange(0, i as int),
                    post == key_columns@.subrange(0, i as int + 1),
                    indexes(before, pre),
                    forall|k: PhysicalKey| #[trigger] key_column_map@.contains_key(k) <==> (before.contains_key(k)
                        || exists|l: int| 0 <= l < j && (#[trigger] col.pressed_keys@[l]).0 == k),
                    forall|k: PhysicalKey| #[trigger] key_column_map@.contains_key(k) ==> first_owner(
                        post,
                        k,
                        key_column_map@[k] as int,
                    ),
                decreases col.pressed_keys@.len() - j,
            {
                let key = col.pressed_keys[j].0;
                if !key_column_map.contains_key(&key) {
                    key_column_map.insert(key, i);
                }
                proof {
                    assert(has_key(post[i as int], key));
                    if !before.contains_key(key) {
                        assert forall|l: int| 0 <= l < i implies !has_key(#[trigger] post[l], key) by {
                            assert(pre[l] == post[l]);
                        }
                    }
                    assert forall|k: PhysicalKey| #[trigger] key_column_map@.contains_key(k) implies first_owner(
                        post,
                        k,
                        key_column_map@[k] as int,
                    ) by {
                        if before.contains_key(k) {
                            assert(first_owner(pre, k, before[k] as int));
                            assert(pre[before[k] as int] == post[before[k] as int]);
                            assert forall|l: int| 0 <= l < before[k] as int implies !has_key(#[trigger] post[l], k) by {
                                assert(pre[l] == post[l]);
                            }
                        }
                    }
                }
                j = j + 1;
            }
            proof {
                assert forall|k: PhysicalKey|
                    #[trigger] key_column_map@.contains_key(k) <==> exists|l: int|
                        0 <= l < post.len() && has_key(#[trigger] post[l], k) by {
                    if exists|l: int| 0 <= l < post.len() && has_key(#[trigger] post[l], k) {
                        let l = choose|l: int| 0 <= l < post.len() && has_key(#[trigger] post[l], k);
                        if l < i {
                            assert(pre[l] == post[l]);
                        }
                    }
                    if before.contains_key(k) {
                        let l = choose|l: int| 0 <= l < pre.len() && has_key(#[trigger] pre[l], k);
                        assert(pre[l] == post[l]);
                    }
                }
            }
            i = i + 1;
        }
        assert(key_columns@.subrange(0, key_columns@.len() as int) =~= key_columns@);
        KeyOverlayScene {
            columns: key_columns,
            key_column_map,
            now,
            debug_mode: false,
            frame_count: 0,
            frame_deltas: Vec::new(),
            debug_history_lens: Vec::new(),
            debug_average_delta: None,
            settings: FrameSettings {
                speed: config.speed,
                direction: config.direction,
                display_keys: config.display_keys,
                key_placement: config.key_placement,
                display_counters: config.display_counters,
                counter_placement: config.counter_placement,
                key_spacing: config.key_spacing,
                default_key_width: config.default_key_width,
                key_height: config.key_height,
            },
        }
    }
    /// Distance between the frame instant and `time`, in nanoseconds.
    pub fn duration_since_now(&self, time: u64) -> (r: u64)
        ensures
            r == elapsed(self.now, time),
    {
        duration_between(self.now, time)
    }

    /// Index of the first column that has `key`, if any.
    pub fn column_of(&self, key: PhysicalKey) -> (r: Option<usize>)
        requires
            self.wf(),
        ensures
            r == (if self.key_column_map@.contains_key(key) {
                Some(self.key_column_map@[key])
            } else {
                None
            }),
            r is Some ==> first_owner(self.columns@, key, r->Some_0 as int),
            r is None ==> forall|i: int| 0 <= i < self.columns@.len() ==> !has_key(#[trigger] self.columns@[i], key),
    {
        broadcast use vstd::std_specs::hash::group_hash_axioms;

        match self.key_column_map.get(&key) {
            Some(i) => Some(*i),
            None => None,
        }
    }

    /// Routes `e` to the first column that has its key; an event of no
    /// column's key changes nothing.
    pub fn apply_event(&mut self, e: KeyEvent)
        requires
            old(self).wf(),
        ensures
            final(self).wf(),
            final(self).states() == deliver(old(self).states(), old(self).key_column_map@, e),
            final(self).key_column_map@ == old(self).key_column_map@,
            final(self).columns@.len() == old(self).columns@.len(),
            final(self).now == old(self).now,
            final(self).debug_mode == old(self).debug_mode,
            final(self).frame_count == old(self).frame_count,
            final(self).frame_deltas@ == old(self).frame_deltas@,
            final(self).debug_history_lens@ == old(self).debug_history_lens@,
            final(self).debug_average_delta == old(self).debug_average_delta,
            final(self).settings == old(self).settings,
    {
        let ghost old_cols = self.columns@;
        match self.column_of(e.key) {
            Some(i) => {
                self.columns[i].set_key_pressed(e);
                proof {
                    let oc = old_cols[i as int];
                    let nc = self.columns@[i as int];
                    assert(nc.pressed_keys@ == crate::column::applied(oc.pressed_keys@, e));
                    assert forall|k: PhysicalKey| has_key(nc, k) == has_key(oc, k) by {
                        if has_key(oc, k) {
                            let j = choose|j: int| 0 <= j < oc.pressed_keys@.len() && (#[trigger] oc.pressed_keys@[j]).0 == k;
                            assert(nc.pressed_keys@[j].0 == k);
                        }
                        if has_key(nc, k) {
                            let j = choose|j: int| 0 <= j < nc.pressed_keys@.len() && (#[trigger] nc.pressed_keys@[j]).0 == k;
                            assert(oc.pressed_keys@[j].0 == k);
                        }
                    }
                    assert forall|l: int| 0 <= l < self.columns@.len() implies #[trigger] has_key(self.columns@[l], e.key)
                        == has_key(old_cols[l], e.key) by {
                        if l != i {
                            assert(self.columns@[l] == old_cols[l]);
                        }
                    }
                    assert forall|l: int, k: PhysicalKey| 0 <= l < self.columns@.len() implies #[trigger] has_key(
                        self.columns@[l],
                        k,
                    ) == has_key(old_cols[l], k) by {
                        if l != i {
                            assert(self.columns@[l] == old_cols[l]);
                        } else {
                            assert(has_key(nc, k) == has_key(oc, k));
                        }
                    }
                    let cols = self.columns@;
                    let owners = self.key_column_map@;
                    assert forall|k: PhysicalKey| #[trigger] owners.contains_key(k) <==> exists|l: int|
                        0 <= l < cols.len() && has_key(#[trigger] cols[l], k) by {
                        if owners.contains_key(k) {
                            let l = choose|l: int| 0 <= l < old_cols.len() && has_key(#[trigger] old_cols[l], k);
                            assert(has_key(cols[l], k));
                        }
                        if exists|l: int| 0 <= l < cols.len() && has_key(#[trigger] cols[l], k) {
                            let l = choose|l: int| 0 <= l < cols.len() && has_key(#[trigger] cols[l], k);
                            assert(has_key(old_cols[l], k));
                        }
                    }
                    assert forall|k: PhysicalKey| #[trigger] owners.contains_key(k) implies first_owner(
                        cols,
                        k,
                        owners[k] as int,
                    ) by {
                        assert(first_owner(old_cols, k, owners[k] as int));
                        assert(has_key(cols[owners[k] as int], k));
                        assert forall|l: int| 0 <= l < owners[k] as int implies !has_key(#[trigger] cols[l], k) by {
                            assert(!has_key(old_cols[l], k));
                        }
                    }
                    assert(self.states() =~= deliver(old_cols.map_values(|c: KeyColumn| c@), self.key_column_map@, e));
                }
            },
            None => {
                proof {
                    assert(!self.key_column_map@.contains_key(e.key));
                }
            },
        }
    }
    /// Mean of the recorded frame durations.
    pub fn average_delta(&self) -> (r: u64)
        requires
            self.frame_deltas@.len() <= DEBUG_WINDOW,
        ensures
            r == mean(self.frame_deltas@),
    {
        let n = self.frame_deltas.len();
        let mut sum: u128 = 0;
        let mut i: usize = 0;
        while i < n
            invariant
                n == self.frame_deltas@.len(),
                n <= DEBUG_WINDOW,
                i <= n,
                sum == total(self.frame_deltas@.subrange(0, i as int)),
                sum <= i * 0xffff_ffff_ffff_ffff,
            decreases n - i,
        {
            let ghost pre = self.frame_deltas@.subrange(0, i as int);
            assert(self.frame_deltas@.subrange(0, i as int + 1).drop_last() =~= pre);
            sum = sum + self.frame_deltas[i] as u128;
            i = i + 1;
        }
        assert(self.frame_deltas@.subrange(0, n as int) =~= self.frame_deltas@);
        if n == 0 {
            0
        } else {
            proof {
                assert((sum as int) / (n as int) <= 0xffff_ffff_ffff_ffff) by (nonlinear_arith)
                    requires
                        sum <= n * 0xffff_ffff_ffff_ffff,
                        n > 0,
                ;
            }
            (sum / n as u128) as u64
        }
    }

    /// Advances to the frame at `now`. In debug mode the frame's duration
    /// joins the recorded ones and, every `DEBUG_REFRESH_FRAMES` frames, the
    /// history lengths and the mean duration are taken anew.
    pub fn record_frame(&mut self, now: u64)
        requires
            old(self).wf(),
        ensures
            final(self).wf(),
            final(self).columns@ == old(self).columns@,
            final(self).key_column_map@ == old(self).key_column_map@,
            final(self).settings == old(self).settings,
            final(self).debug_mode == old(self).debug_mode,
            final(self).now == now,
            final(self).frame_count == next_frame(old(self).frame_count),
            final(self).frame_deltas@ == (if old(self).debug_mode {
                windowed(old(self).frame_deltas@, elapsed(old(self).now, now) as u64)
            } else {
                old(self).frame_deltas@
            }),
            refreshes(old(self).debug_mode, old(self).frame_count) ==> {
                &&& final(self).debug_average_delta == Some(mean(final(self).frame_deltas@) as u64)
                &&& final(self).debug_history_lens@ == old(self).columns@.map_values(|c: KeyColumn| c.times@.len() as usize)
            },
            !refreshes(old(self).debug_mode, old(self).frame_count) ==> {
                &&& final(self).debug_average_delta == old(self).debug_average_delta
                &&& final(self).debug_history_lens@ == old(self).debug_history_lens@
            },
    {
        if self.debug_mode {
            let ghost ds = self.frame_deltas@;
            if self.frame_deltas.len() >= DEBUG_WINDOW {
                self.frame_deltas.remove(0);
            }
            let delta = self.duration_since_now(now);
            self.frame_deltas.push(delta);
            assert(self.frame_deltas@ =~= windowed(ds, delta));
            if self.frame_count % DEBUG_REFRESH_FRAMES == 0 {
                let mut lens: Vec<usize> = Vec::new();
                let mut i: usize = 0;
                while i < self.columns.len()
                    invariant
                        self.wf(),
                        i <= self.columns@.len(),
                        lens@ =~= self.columns@.subrange(0, i as int).map_values(|c: KeyColumn| c.times@.len() as usize),
                    decreases self.columns@.len() - i,
                {
                    assert(self.columns@[i as int].wf());
                    lens.push(self.columns[i].times.len());
                    i = i + 1;
                }
                assert(self.columns@.subrange(0, self.columns@.len() as int) =~= self.columns@);
                self.debug_history_lens = lens;
                self.debug_average_delta = Some(self.average_delta());
            }
        }
        self.now = now;
        if self.frame_count < u64::MAX {
            self.frame_count = self.frame_count + 1;
        }
    }

    /// One tick: `events`, in arrival order, go to their columns, then the
    /// frame advances to `now`.
    pub fn update(&mut self, events: &Vec<KeyEvent>, now: u64)
        requires
            old(self).wf(),
        ensures
            final(self).wf(),
            final(self).states() == deliver_all(old(self).states(), old(self).key_column_map@, events@),
            final(self).key_column_map@ == old(self).key_column_map@,
            final(self).settings == old(self).settings,
            final(self).now == now,
            final(self).frame_count == next_frame(old(self).frame_count),
            final(self).debug_mode == old(self).debug_mode,
            final(self).frame_deltas@ == (if old(self).debug_mode {
                windowed(old(self).frame_deltas@, elapsed(old(self).now, now) as u64)
            } else {
                old(self).frame_deltas@
            }),
            refreshes(old(self).debug_mode, old(self).frame_count) ==> {
                &&& final(self).debug_average_delta == Some(mean(final(self).frame_deltas@) as u64)
                &&& final(self).debug_history_lens@ == final(self).columns@.map_values(|c: KeyColumn| c.times@.len() as usize)
            },
            !refreshes(old(self).debug_mode, old(self).frame_count) ==> {
                &&& final(self).debug_average_delta == old(self).debug_average_delta
                &&& final(self).debug_history_lens@ == old(self).debug_history_lens@
            },
    {
        let ghost ms = self.states();
        let ghost owners = self.key_column_map@;
        let mut i: usize = 0;
        while i < events.len()
            invariant
                self.wf(),
                i <= events@.len(),
                self.key_column_map@ == owners,
                self.settings == old(self).settings,
                self.frame_count == old(self).frame_count,
                self.now == old(self).now,
                self.debug_mode == old(self).debug_mode,
                self.frame_deltas@ == old(self).frame_deltas@,
                self.debug_history_lens@ == old(self).debug_history_lens@,
                self.debug_average_delta == old(self).debug_average_delta,
                self.states() == deliver_all(ms, owners, events@.subrange(0, i as int)),
            decreases events@.len() - i,
        {
            assert(events@.subrange(0, i as int + 1).drop_last() =~= events@.subrange(0, i as int));
            self.apply_event(events[i]);
            i = i + 1;
        }
        assert(events@.subrange(0, events@.len() as int) =~= events@);
        let ghost done = self.states();
        self.record_frame(now);
        assert(self.states() =~= done);
    }
    /// Commands of the first `k` columns, in column order; `texts` holds the
    /// label and counter extents of each column.
    pub open spec fn columns_commands(&self, vw: u32, vh: u32, texts: Seq<(Size, Size)>, k: int) -> Seq<DrawCommand>
        decreases k,
    {
        if k <= 0 {
            Seq::empty()
        } else {
            self.columns_commands(vw, vh, texts, k - 1) + self.settings.column_commands(
                vw,
                vh,
                k - 1,
                self.columns@.len() as int,
                self.columns@[k - 1],
                texts[k - 1].0,
                texts[k - 1].1,
                self.now,
            )
        }
    }

    /// Lines of the debug panel after the counts.
    pub open spec fn debug_lines(&self) -> int {
        if self.debug_average_delta is Some {
            2
        } else {
            0
        }
    }

    /// The frame: every column's commands, then in debug mode the panel,
    /// whose text count includes the panel's own two first texts.
    pub open spec fn frame_commands(&self, vw: u32, vh: u32, texts: Seq<(Size, Size)>) -> Seq<DrawCommand> {
        let cols = self.columns_commands(vw, vh, texts, self.columns@.len() as int);
        if self.debug_mode {
            cols + debug_panel(
                self.settings.direction,
                vw,
                vh,
                self.debug_lines(),
                rect_count(cols) as u64,
                (cols.len() - rect_count(cols) + 2) as u64,
            )
        } else {
            cols
        }
    }

    /// Lays out the frame in a viewport of `vw` by `vh` pixels, `texts[i]`
    /// being the extents of the label and the counter of column `i` at the
    /// font sizes of `FrameSettings::font_sizes`.
    pub fn draw(&self, vw: u32, vh: u32, texts: &Vec<(Size, Size)>) -> (r: Vec<DrawCommand>)
        requires
            self.wf(),
            texts@.len() == self.columns@.len(),
            self.columns@.len() <= MAX_COLUMNS,
            forall|i: int| 0 <= i < texts@.len() ==> (#[trigger] texts@[i]).0.fits() && texts@[i].1.fits(),
        ensures
            r@ == self.frame_commands(vw, vh, texts@),
    {
        let n = self.columns.len();
        let mut out: Vec<DrawCommand> = Vec::new();
        let mut i: usize = 0;
        while i < n
            invariant
                self.wf(),
                n == self.columns@.len(),
                n <= MAX_COLUMNS,
                texts@.len() == n,
                forall|i: int| 0 <= i < texts@.len() ==> (#[trigger] texts@[i]).0.fits() && texts@[i].1.fits(),
                i <= n,
                out@ == self.columns_commands(vw, vh, texts@, i as int),
            decreases n - i,
        {
            assert(self.columns@[i as int].wf());
            assert(texts@[i as int].0.fits());
            self.settings.layout_column(vw, vh, i, n, &self.columns[i], texts[i].0, texts[i].1, self.now, &mut out);
            i = i + 1;
        }
        if self.debug_mode {
            let ghost cols = out@;
            let mut rects: u64 = 0;
            let mut j: usize = 0;
            while j < out.len()
                invariant
                    j <= out@.len(),
                    rects <= j,
                    rects == rect_count(out@.subrange(0, j as int)),
                decreases out@.len() - j,
            {
                assert(out@.subrange(0, j as int + 1).drop_last() =~= out@.subrange(0, j as int));
                if let DrawCommand::Rect(_) = out[j] {
                    rects = rects + 1;
                }
                j = j + 1;
            }
            assert(out@.subrange(0, out@.len() as int) =~= out@);
            let texts_drawn = (out.len() as u128 - rects as u128 + 2) as u64;
            self.push_debug_panel(vw, vh, rects, texts_drawn, &mut out);
        }
        out
    }

    /// Appends the debug panel for a frame of `rects` rectangles and
    /// `texts` texts.
    pub fn push_debug_panel(&self, vw: u32, vh: u32, rects: u64, texts: u64, out: &mut Vec<DrawCommand>)
        ensures
            final(out)@ == old(out)@ + debug_panel(self.settings.direction, vw, vh, self.debug_lines(), rects, texts),
    {
        let lines: i64 = if self.debug_average_delta.is_some() {
            2
        } else {
            0
        };
        let top = match self.settings.direction {
            ScrollDirection::Up => DEBUG_MARGIN,
            ScrollDirection::Down => 4 * vh as i64 - DEBUG_MARGIN - DEBUG_LINE * (lines + 1),
        };
        let ghost start = out@;
        out.push(
            DrawCommand::Rect(
                DrawRect {
                    rect: Rect {
                        x: 0,
                        y: top - DEBUG_MARGIN,
                        w: 4 * vw as i64,
                        h: DEBUG_LINE * (lines + 1) + 2 * DEBUG_MARGIN,
                    },
                    color: 0,
                    border_color: 0,
                    border_width: 0,
                    corner_radius: 0,
                    bordered: false,
                    alpha: OPAQUE,
                },
            ),
        );
        out.push(
            DrawCommand::Text(
                DrawText {
                    text: TextKind::DrawStats { rects, texts },
                    x: DEBUG_MARGIN,
                    y: top,
                    size: DEBUG_FONT_SIZE,
                    color: DEBUG_TEXT_COLOR,
                    alpha: OPAQUE,
                },
            ),
        );
        if lines == 2 {
            out.push(
                DrawCommand::Text(
                    DrawText {
                        text: TextKind::HistoryLengths,
                        x: DEBUG_MARGIN,
                        y: top + DEBUG_LINE,
                        size: DEBUG_FONT_SIZE,
                        color: DEBUG_TEXT_COLOR,
                        alpha: OPAQUE,
                    },
                ),
            );
            out.push(
                DrawCommand::Text(
                    DrawText {
                        text: TextKind::FrameTime,
                        x: DEBUG_MARGIN,
                        y: top + 2 * DEBUG_LINE,
                        size: DEBUG_FONT_SIZE,
                        color: DEBUG_TEXT_COLOR,
                        alpha: OPAQUE,
                    },
                ),
            );
        }
        assert(out@ =~= start + debug_panel(self.settings.direction, vw, vh, self.debug_lines(), rects, texts));
    }

    /// Reacts to a key event of the overlay window itself: releasing `d`
    /// with Control held, other than by auto-repeat, toggles debug mode.
    pub fn inapp_key_event(&mut self, control: bool, released: bool, character: Option<char>, repeat: bool)
        ensures
            final(self).debug_mode == (old(self).debug_mode != (control && released && character == Some('d')
                && !repeat)),
            final(self).columns@ == old(self).columns@,
            final(self).key_column_map@ == old(self).key_column_map@,
            final(self).frame_deltas@ == old(self).frame_deltas@,
            final(self).now == old(self).now,
            final(self).frame_count == old(self).frame_count,
            final(self).debug_history_lens@ == old(self).debug_history_lens@,
            final(self).debug_average_delta == old(self).debug_average_delta,
            final(self).settings == old(self).settings,
    {
        let is_d = match character {
            Some(c) => c == 'd',
            None => false,
        };
        if control && released && is_d && !repeat {
            self.debug_mode = !self.debug_mode;
        }
    }
}

} // verus!
