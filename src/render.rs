//! Layout of one column: key box, texts and history bars, from the
//! column's state, the viewport and the current instant.

use vstd::prelude::*;

use crate::column::KeyColumn;
use crate::config::{BoxPlacement, ScrollDirection};
use crate::draw::{DrawCommand, DrawRect, DrawText, TextKind};
use crate::layout::{Anchor, OwoRect, Point, Rect, Size};
use crate::timeline::{duration_between, elapsed, interval, interval_count};

verus! {
/// Distance of the key row from its viewport edge, in layout units.
pub const KEY_MARGIN: i64 = 120;
/// Border width of a key box, in layout units.
pub const KEY_BORDER_WIDTH: i64 = 32;
/// Corner radius of a key box, in layout units.
pub const KEY_CORNER_RADIUS: i64 = 8;
/// Gap between a key box and a text placed outside it, in layout units.
pub const OUTSIDE_TEXT_GAP: i64 = 20;
/// Half the gap between two texts stacked inside a key box, in layout units.
pub const CENTER_TEXT_GAP: i64 = 8;
/// Font size of the prominent text of a key box, in pixels.
pub const BIG_FONT_SIZE: u32 = 25;
/// Font size of the secondary text of a key box, in pixels.
pub const SMALL_FONT_SIZE: u32 = 20;
/// Fill colour of a released key box.
pub const IDLE_KEY_COLOR: u32 = 0x111111;
/// Colour of the label and counter texts.
pub const TEXT_COLOR: u32 = 0xeeeeee;
/// Opacity of key boxes and texts, in hundredths.
pub const OPAQUE: u32 = 100;
/// Most columns a frame lays out.
pub const MAX_COLUMNS: usize = 65536;
/// Nanoseconds in a second.
pub const NANOS_PER_SEC: u128 = 1_000_000_000;

/// The settings that shape a frame.
#[derive(Debug, Clone, Copy, PartialEq, Eq, Structural)]
pub struct FrameSettings {
    /// Scroll speed of the history, in pixels per second.
    pub speed: u32,
    pub direction: ScrollDirection,
    pub display_keys: bool,
    pub key_placement: BoxPlacement,
    pub display_counters: bool,
    pub counter_placement: BoxPlacement,
    /// Gap between key boxes, in pixels.
    pub key_spacing: u32,
    /// Width of a key box, in pixels.
    pub default_key_width: u32,
    /// Height of a key box, in pixels.
    pub key_height: u32,
}

/// Font sizes of the label and of the counter under a placement pair: the
/// text inside the box is the big one, and both are small when both are
/// outside.
pub open spec fn font_sizes(kp: BoxPlacement, cp: BoxPlacement) -> (u32, u32) {
    match (kp, cp) {
        (BoxPlacement::Inside, BoxPlacement::Inside) => (BIG_FONT_SIZE, SMALL_FONT_SIZE),
        (BoxPlacement::Inside, BoxPlacement::Outside) => (BIG_FONT_SIZE, SMALL_FONT_SIZE),
        (BoxPlacement::Outside, BoxPlacement::Inside) => (SMALL_FONT_SIZE, BIG_FONT_SIZE),
        (BoxPlacement::Outside, BoxPlacement::Outside) => (SMALL_FONT_SIZE, SMALL_FONT_SIZE),
    }
}

/// Where a text of a key box goes, relative to that box.
#[derive(Debug, Clone, Copy, PartialEq, Eq, Structural)]
pub enum TextSpot {
    /// Centred in the box.
    Center,
    /// Centred horizontally, its bottom `CENTER_TEXT_GAP` above the centre.
    UpperHalf,
    /// Centred horizontally, its top `CENTER_TEXT_GAP` below the centre.
    LowerHalf,
    /// Centred horizontally past the box's far edge along the scroll axis.
    Beyond,
    /// Past the far edge, flush with the left border's inner side.
    BeyondLeft,
    /// Past the far edge, flush with the right border's inner side.
    BeyondRight,
}

/// Spots of the label and of the counter under a placement pair.
pub open spec fn text_spots(kp: BoxPlacement, cp: BoxPlacement) -> (TextSpot, TextSpot) {
    match (kp, cp) {
        (BoxPlacement::Inside, BoxPlacement::Inside) => (TextSpot::UpperHalf, TextSpot::LowerHalf),
        (BoxPlacement::Inside, BoxPlacement::Outside) => (TextSpot::Center, TextSpot::Beyond),
        (BoxPlacement::Outside, BoxPlacement::Inside) => (TextSpot::Beyond, TextSpot::Center),
        (BoxPlacement::Outside, BoxPlacement::Outside) => (TextSpot::BeyondLeft, TextSpot::BeyondRight),
    }
}

/// Top edge of a text of height `h` whose near side lies `OUTSIDE_TEXT_GAP`
/// past the far edge of the box `(top, kh)`: below it when scrolling up,
/// above it when scrolling down.
pub open spec fn beyond_top(dir: ScrollDirection, top: int, kh: int, h: int) -> int {
    match dir {
        ScrollDirection::Up => top + kh + OUTSIDE_TEXT_GAP,
        ScrollDirection::Down => top - OUTSIDE_TEXT_GAP - h,
    }
}

/// Top-left corner of a text of size `t` at `spot` of the box with corner
/// `(left, top)` and size `(kw, kh)`.
pub open spec fn text_corner(
    dir: ScrollDirection,
    spot: TextSpot,
    left: int,
    top: int,
    kw: int,
    kh: int,
    t: Size,
) -> (int, int) {
    let cx = left + kw / 2 - t.w / 2;
    match spot {
        TextSpot::Center => (cx, top + kh / 2 - t.h / 2),
        TextSpot::UpperHalf => (cx, top + kh / 2 - CENTER_TEXT_GAP - t.h),
        TextSpot::LowerHalf => (cx, top + kh / 2 + CENTER_TEXT_GAP),
        TextSpot::Beyond => (cx, beyond_top(dir, top, kh, t.h as int)),
        TextSpot::BeyondLeft => (left + KEY_BORDER_WIDTH, beyond_top(dir, top, kh, t.h as int)),
        TextSpot::BeyondRight => (left + kw - KEY_BORDER_WIDTH - t.w, beyond_top(dir, top, kh, t.h as int)),
    }
}

impl FrameSettings {
    /// Key box width, in layout units.
    pub open spec fn key_w(self) -> int {
        4 * self.default_key_width
    }

    /// Key box height, in layout units.
    pub open spec fn key_h(self) -> int {
        4 * self.key_height
    }

    /// Left edge of the key box of column `i` of `n`: the row is centred on
    /// the viewport of width `vw` pixels, the `i`-th box centred at
    /// `(i + 1/2 - n/2) * (width + spacing/2)` pixels from the middle.
    pub open spec fn key_left(self, vw: u32, i: int, n: int) -> int {
        2 * vw + (2 * i + 1 - n) * (2 * self.default_key_width + self.key_spacing) - 2 * self.default_key_width
    }

    /// Top edge of every key box: `KEY_MARGIN` from the bottom of a viewport
    /// of height `vh` pixels when scrolling up, from its top when down.
    pub open spec fn key_top(self, vh: u32) -> int {
        match self.direction {
            ScrollDirection::Up => 4 * vh - KEY_MARGIN - self.key_h(),
            ScrollDirection::Down => KEY_MARGIN as int,
        }
    }

    /// How far from the key row the instant `t` lies at `now`, in layout units.
    pub open spec fn offset(self, now: u64, t: u64) -> int {
        (elapsed(now, t) * self.speed * 4) / (NANOS_PER_SEC as int)
    }

    /// The bar of held interval `k` of column `c`, with key box corner
    /// `(left, top)`, in a viewport `vh` pixels high. Offsets are clamped
    /// to the viewport.
    pub open spec fn bar(self, c: KeyColumn, left: int, top: int, vh: u32, now: u64, k: int) -> DrawCommand {
        let iv = interval(c.times@, c.pressed, now, k);
        let ext = 4 * vh;
        let ys = if self.offset(now, iv.0) <= ext { self.offset(now, iv.0) } else { ext };
        let ye = self.offset(now, iv.1);
        let (y, h) = match self.direction {
            ScrollDirection::Up => (top - ys, ys - ye),
            ScrollDirection::Down => (top + self.key_h() + ys, ye - ys),
        };
        DrawCommand::Rect(
            DrawRect {
                rect: Rect { x: left as i64, y: y as i64, w: self.key_w() as i64, h: h as i64 },
                color: c.props.color,
                border_color: 0,
                border_width: 0,
                corner_radius: 0,
                bordered: false,
                alpha: c.props.alpha,
            },
        )
    }

    /// Bars of the held intervals from the `k`-th on, newest first, up to
    /// the first whose newer end lies at or past the viewport's far edge.
    pub open spec fn bars_from(self, c: KeyColumn, left: int, top: int, vh: u32, now: u64, k: nat) -> Seq<DrawCommand>
        decreases interval_count(c.times@, c.pressed) - k,
    {
        if k >= interval_count(c.times@, c.pressed) {
            Seq::empty()
        } else if self.offset(now, interval(c.times@, c.pressed, now, k as int).1) >= 4 * vh {
            Seq::empty()
        } else {
            seq![self.bar(c, left, top, vh, now, k as int)] + self.bars_from(c, left, top, vh, now, (k + 1) as nat)
        }
    }

    /// The commands of column `i` of `n`, with `label` and `counter` the
    /// extents of its two texts at their font sizes: key box, label and
    /// counter when shown, then the history bars.
    pub open spec fn column_commands(
        self,
        vw: u32,
        vh: u32,
        i: int,
        n: int,
        c: KeyColumn,
        label: Size,
        counter: Size,
        now: u64,
    ) -> Seq<DrawCommand> {
        let left = self.key_left(vw, i, n);
        let top = self.key_top(vh);
        let key = DrawCommand::Rect(
            DrawRect {
                rect: Rect { x: left as i64, y: top as i64, w: self.key_w() as i64, h: self.key_h() as i64 },
                color: if c.pressed { c.props.hover_color } else { IDLE_KEY_COLOR },
                border_color: c.props.border_color,
                border_width: KEY_BORDER_WIDTH,
                corner_radius: KEY_CORNER_RADIUS,
                bordered: true,
                alpha: OPAQUE,
            },
        );
        let spots = text_spots(self.key_placement, self.counter_placement);
        let fonts = font_sizes(self.key_placement, self.counter_placement);
        let lc = text_corner(self.direction, spots.0, left, top, self.key_w(), self.key_h(), label);
        let cc = text_corner(self.direction, spots.1, left, top, self.key_w(), self.key_h(), counter);
        let label_cmd = DrawCommand::Text(
            DrawText { text: TextKind::Label(i as usize), x: lc.0 as i64, y: lc.1 as i64, size: fonts.0, color: TEXT_COLOR, alpha: OPAQUE },
        );
        let counter_cmd = DrawCommand::Text(
            DrawText { text: TextKind::Counter(i as usize), x: cc.0 as i64, y: cc.1 as i64, size: fonts.1, color: TEXT_COLOR, alpha: OPAQUE },
        );
        seq![key] + (if self.display_keys { seq![label_cmd] } else { Seq::empty() }) + (if self.display_counters {
            seq![counter_cmd]
        } else {
            Seq::empty()
        }) + self.bars_from(c, left, top, vh, now, 0)
    }

    /// Font sizes of the label and of the counter.
    pub fn font_sizes(&self) -> (r: (u32, u32))
        ensures
            r == font_sizes(self.key_placement, self.counter_placement),
    {
        match (self.key_placement, self.counter_placement) {
            (BoxPlacement::Inside, BoxPlacement::Inside) => (BIG_FONT_SIZE, SMALL_FONT_SIZE),
            (BoxPlacement::Inside, BoxPlacement::Outside) => (BIG_FONT_SIZE, SMALL_FONT_SIZE),
            (BoxPlacement::Outside, BoxPlacement::Inside) => (SMALL_FONT_SIZE, BIG_FONT_SIZE),
            (BoxPlacement::Outside, BoxPlacement::Outside) => (SMALL_FONT_SIZE, SMALL_FONT_SIZE),
        }
    }
    /// Spots of the label and of the counter.
    pub fn text_spots(&self) -> (r: (TextSpot, TextSpot))
        ensures
            r == text_spots(self.key_placement, self.counter_placement),
    {
        match (self.key_placement, self.counter_placement) {
            (BoxPlacement::Inside, BoxPlacement::Inside) => (TextSpot::UpperHalf, TextSpot::LowerHalf),
            (BoxPlacement::Inside, BoxPlacement::Outside) => (TextSpot::Center, TextSpot::Beyond),
            (BoxPlacement::Outside, BoxPlacement::Inside) => (TextSpot::Beyond, TextSpot::Center),
            (BoxPlacement::Outside, BoxPlacement::Outside) => (TextSpot::BeyondLeft, TextSpot::BeyondRight),
        }
    }

    /// Top-left corner of a text of size `t` at `spot` of `key`.
    pub fn place_text(&self, key: &OwoRect, spot: TextSpot, t: Size) -> (r: Point)
        requires
            key.fits(),
            t.fits(),
            -0x100_0000_0000_0000 <= key.pos.x <= 0x100_0000_0000_0000,
            -0x100_0000_0000_0000 <= key.pos.y <= 0x100_0000_0000_0000,
        ensures
            (r.x as int, r.y as int) == text_corner(
                self.direction,
                spot,
                key.left(),
                key.top(),
                key.size.w as int,
                key.size.h as int,
                t,
            ),
    {
        let text = match spot {
            TextSpot::Center => OwoRect { pos: key.center(), size: t, origin: Anchor::CC },
            TextSpot::UpperHalf => {
                let c = key.center();
                OwoRect { pos: Point { x: c.x, y: c.y - CENTER_TEXT_GAP }, size: t, origin: Anchor::BC }
            },
            TextSpot::LowerHalf => {
                let c = key.center();
                OwoRect { pos: Point { x: c.x, y: c.y + CENTER_TEXT_GAP }, size: t, origin: Anchor::TC }
            },
            TextSpot::Beyond => match self.direction {
                ScrollDirection::Up => {
                    let a = key.anchor(Anchor::BC);
                    OwoRect { pos: Point { x: a.x, y: a.y + OUTSIDE_TEXT_GAP }, size: t, origin: Anchor::TC }
                },
                ScrollDirection::Down => {
                    let a = key.anchor(Anchor::TC);
                    OwoRect { pos: Point { x: a.x, y: a.y - OUTSIDE_TEXT_GAP }, size: t, origin: Anchor::BC }
                },
            },
            TextSpot::BeyondLeft => match self.direction {
                ScrollDirection::Up => {
                    let a = key.anchor(Anchor::BL);
                    OwoRect {
                        pos: Point { x: a.x + KEY_BORDER_WIDTH, y: a.y + OUTSIDE_TEXT_GAP },
                        size: t,
                        origin: Anchor::TL,
                    }
                },
                ScrollDirection::Down => {
                    let a = key.anchor(Anchor::TL);
                    OwoRect {
                        pos: Point { x: a.x + KEY_BORDER_WIDTH, y: a.y - OUTSIDE_TEXT_GAP },
                        size: t,
                        origin: Anchor::BL,
                    }
                },
            },
            TextSpot::BeyondRight => match self.direction {
                ScrollDirection::Up => {
                    let a = key.anchor(Anchor::BR);
                    OwoRect {
                        pos: Point { x: a.x - KEY_BORDER_WIDTH, y: a.y + OUTSIDE_TEXT_GAP },
                        size: t,
                        origin: Anchor::TR,
                    }
                },
                ScrollDirection::Down => {
                    let a = key.anchor(Anchor::TR);
                    OwoRect {
                        pos: Point { x: a.x - KEY_BORDER_WIDTH, y: a.y - OUTSIDE_TEXT_GAP },
                        size: t,
                        origin: Anchor::BR,
                    }
                },
            },
        };
        text.top_left()
    }
    /// How far from the key row the instant `t` lies at `now`, in layout units.
    pub fn offset_of(&self, now: u64, t: u64) -> (r: u128)
        ensures
            r == self.offset(now, t),
    {
        let e = duration_between(now, t) as u128;
        let v = self.speed as u128;
        proof {
            assert(e * v <= 0xffff_ffff_ffff_ffff * 0xffff_ffff) by (nonlinear_arith)
                requires
                    e <= 0xffff_ffff_ffff_ffff,
                    v <= 0xffff_ffff,
            ;
        }
        e * v * 4 / NANOS_PER_SEC
    }

    /// Appends the commands of column `i` of `n` in a viewport of `vw` by
    /// `vh` pixels at instant `now`; `label` and `counter` are the extents
    /// of the column's texts at the font sizes of `font_sizes`.
    pub fn layout_column(
        &self,
        vw: u32,
        vh: u32,
        i: usize,
        n: usize,
        c: &KeyColumn,
        label: Size,
        counter: Size,
        now: u64,
        out: &mut Vec<DrawCommand>,
    )
        requires
            c.wf(),
            i < n,
            n <= MAX_COLUMNS,
            label.fits(),
            counter.fits(),
        ensures
            final(out)@ == old(out)@ + self.column_commands(vw, vh, i as int, n as int, *c, label, counter, now),
    {
        let kw = self.default_key_width as u64 * 4;
        let kh = self.key_height as u64 * 4;
        let factor = 2 * self.default_key_width as i64 + self.key_spacing as i64;
        let slot = 2 * i as i64 + 1 - n as i64;
        proof {
            assert(-0x20000 * 0x3_0000_0000 <= slot * factor <= 0x20000 * 0x3_0000_0000) by (nonlinear_arith)
                requires
                    -0x20000 <= slot <= 0x20000,
                    0 <= factor <= 0x3_0000_0000,
            ;
        }
        let x = 2 * vw as i64 + slot * factor;
        let key_rect = match self.direction {
            ScrollDirection::Up => OwoRect {
                pos: Point { x, y: 4 * vh as i64 - KEY_MARGIN },
                size: Size { w: kw, h: kh },
                origin: Anchor::BC,
            },
            ScrollDirection::Down => OwoRect {
                pos: Point { x, y: KEY_MARGIN },
                size: Size { w: kw, h: kh },
                origin: Anchor::TC,
            },
        };
        let ghost left = self.key_left(vw, i as int, n as int);
        let ghost top = self.key_top(vh);
        assert(key_rect.left() == left);
        assert(key_rect.top() == top);

        let ghost start = out@;
        let color = if c.pressed {
            c.props.hover_color
        } else {
            IDLE_KEY_COLOR
        };
        out.push(
            DrawCommand::Rect(
                DrawRect {
                    rect: key_rect.to_rect(),
                    color,
                    border_color: c.props.border_color,
                    border_width: KEY_BORDER_WIDTH,
                    corner_radius: KEY_CORNER_RADIUS,
                    bordered: true,
                    alpha: OPAQUE,
                },
            ),
        );
        let spots = self.text_spots();
        let fonts = self.font_sizes();
        if self.display_keys {
            let p = self.place_text(&key_rect, spots.0, label);
            out.push(
                DrawCommand::Text(
                    DrawText { text: TextKind::Label(i), x: p.x, y: p.y, size: fonts.0, color: TEXT_COLOR, alpha: OPAQUE },
                ),
            );
        }
        if self.display_counters {
            let p = self.place_text(&key_rect, spots.1, counter);
            out.push(
                DrawCommand::Text(
                    DrawText { text: TextKind::Counter(i), x: p.x, y: p.y, size: fonts.1, color: TEXT_COLOR, alpha: OPAQUE },
                ),
            );
        }

        let base = key_rect.anchor(
            match self.direction {
                ScrollDirection::Up => Anchor::TL,
                ScrollDirection::Down => Anchor::BL,
            },
        );
        let ext = 4 * vh as u128;
        let count = c.interval_count();
        let ghost head = out@;
        let ghost bars = self.bars_from(*c, left, top, vh, now, 0);
        let mut k: usize = 0;
        let mut done = false;
        while k < count && !done
            invariant
                c.wf(),
                count == interval_count(c.times@, c.pressed),
                k <= count,
                base.x == left,
                base.y == match self.direction {
                    ScrollDirection::Up => top,
                    ScrollDirection::Down => top + self.key_h(),
                },
                -0x100_0000_0000_0000 <= left <= 0x100_0000_0000_0000,
                -0x100_0000_0000_0000 <= top <= 0x100_0000_0000_0000,
                ext == 4 * vh,
                kw == self.key_w(),
                out@ + self.bars_from(*c, left, top, vh, now, k as nat) == head + bars,
                done ==> self.bars_from(*c, left, top, vh, now, k as nat) == Seq::<DrawCommand>::empty(),
            decreases count - k + (if done { 0int } else { 1int }),
        {
            let iv = c.interval_at(now, k);
            let ye = self.offset_of(now, iv.1);
            if ye >= ext {
                done = true;
            } else {
                let ys0 = self.offset_of(now, iv.0);
                let ys = if ys0 <= ext {
                    ys0
                } else {
                    ext
                };
                let (y, h) = match self.direction {
                    ScrollDirection::Up => (base.y - ys as i64, ys as i64 - ye as i64),
                    ScrollDirection::Down => (base.y + ys as i64, ye as i64 - ys as i64),
                };
                let bar = DrawCommand::Rect(
                    DrawRect {
                        rect: Rect { x: base.x, y, w: kw as i64, h },
                        color: c.props.color,
                        border_color: 0,
                        border_width: 0,
                        corner_radius: 0,
                        bordered: false,
                        alpha: c.props.alpha,
                    },
                );
                assert(bar == self.bar(*c, left, top, vh, now, k as int));
                let ghost rest = self.bars_from(*c, left, top, vh, now, (k + 1) as nat);
                assert(self.bars_from(*c, left, top, vh, now, k as nat) == seq![bar] + rest);
                out.push(bar);
                assert(out@ + rest =~= head + bars);
                k = k + 1;
            }
        }
        assert(out@ =~= head + bars);
        assert(out@ =~= start + self.column_commands(vw, vh, i as int, n as int, *c, label, counter, now));
    }
}

/// Once the newer end of a held interval lies at or past the viewport's
/// far edge, no bar is drawn for it or for any older interval.
pub proof fn lemma_offscreen_stops(
    s: FrameSettings,
    c: KeyColumn,
    left: int,
    top: int,
    vh: u32,
    now: u64,
    k: nat,
)
    requires
        k < interval_count(c.times@, c.pressed),
        s.offset(now, interval(c.times@, c.pressed, now, k as int).1) >= 4 * vh,
    ensures
        s.bars_from(c, left, top, vh, now, 0).len() <= k,
{
    lemma_bars_before(s, c, left, top, vh, now, 0, k);
}

proof fn lemma_bars_before(s: FrameSettings, c: KeyColumn, left: int, top: int, vh: u32, now: u64, j: nat, k: nat)
    requires
        j <= k < interval_count(c.times@, c.pressed),
        s.offset(now, interval(c.times@, c.pressed, now, k as int).1) >= 4 * vh,
    ensures
        s.bars_from(c, left, top, vh, now, j).len() <= k - j,
    decreases k - j,
{
    if j < k {
        lemma_bars_before(s, c, left, top, vh, now, j + 1, k);
    }
}

/// With both texts outside the box, the texts of a column scrolling up and
/// of the same column scrolling down share their horizontal position, and
/// lie at the same distance past the box's near edge on either side: below
/// its bottom when up, above its top when down.
pub proof fn lemma_outside_mirrors(left: int, top_up: int, top_down: int, kw: int, kh: int, label: Size, counter: Size)
    ensures
        ({
            let spots = text_spots(BoxPlacement::Outside, BoxPlacement::Outside);
            let lu = text_corner(ScrollDirection::Up, spots.0, left, top_up, kw, kh, label);
            let ld = text_corner(ScrollDirection::Down, spots.0, left, top_down, kw, kh, label);
            let cu = text_corner(ScrollDirection::Up, spots.1, left, top_up, kw, kh, counter);
            let cd = text_corner(ScrollDirection::Down, spots.1, left, top_down, kw, kh, counter);
            &&& lu.0 == ld.0
            &&& cu.0 == cd.0
            &&& lu.1 - (top_up + kh) == top_down - (ld.1 + label.h)
            &&& cu.1 - (top_up + kh) == top_down - (cd.1 + counter.h)
        }),
{
}

} // verus!
