//! Draw commands handed to the renderer, and small shape helpers.

use vstd::prelude::*;

use crate::layout::{part, Anchor, Point, Rect, COORD_LIMIT, SIZE_LIMIT};

verus! {

/// What a text command draws.
#[derive(Debug, Clone, Copy, PartialEq, Eq, Structural)]
pub enum TextKind {
    /// The name of the column of that index.
    Label(usize),
    /// The press counter of the column of that index, in decimal.
    Counter(usize),
    /// How many rectangles and texts the frame draws.
    DrawStats { rects: u64, texts: u64 },
    /// The history length of each column.
    HistoryLengths,
    /// The mean frame duration.
    FrameTime,
}

/// A filled rectangle, optionally bordered and rounded.
#[derive(Debug, Clone, Copy, PartialEq, Eq, Structural)]
pub struct DrawRect {
    pub rect: Rect,
    /// Fill colour (0xRRGGBB).
    pub color: u32,
    /// Border colour (0xRRGGBB).
    pub border_color: u32,
    /// Border width, in layout units.
    pub border_width: i64,
    /// Corner radius, in layout units.
    pub corner_radius: i64,
    /// Whether all four borders are drawn; if not, none is.
    pub bordered: bool,
    /// Opacity, in hundredths.
    pub alpha: u32,
}

/// A text whose top-left corner lies at (`x`, `y`).
#[derive(Debug, Clone, Copy, PartialEq, Eq, Structural)]
pub struct DrawText {
    pub text: TextKind,
    pub x: i64,
    pub y: i64,
    /// Font size, in pixels.
    pub size: u32,
    /// Colour (0xRRGGBB).
    pub color: u32,
    /// Opacity, in hundredths.
    pub alpha: u32,
}

/// One primitive for the renderer.
#[derive(Debug, Clone, Copy, PartialEq, Eq, Structural)]
pub enum DrawCommand {
    Rect(DrawRect),
    Text(DrawText),
}

/// Point reached from `pos` by going left the part of `size` that lies
/// after `anchor` horizontally and up the part that lies before it
/// vertically.
pub fn center_from(pos: Point, size: u64, anchor: Anchor) -> (r: Point)
    requires
        pos.fits(),
        size <= SIZE_LIMIT,
    ensures
        r.x == pos.x - part(size as int, 2 - anchor.halves_x()),
        r.y == pos.y - part(size as int, anchor.halves_y()),
{
    let after = match anchor {
        Anchor::TL | Anchor::CL | Anchor::BL => size,
        Anchor::TC | Anchor::CC | Anchor::BC => size / 2,
        _ => 0,
    };
    Point { x: pos.x - after as i64, y: pos.y - anchor.dy(size) as i64 }
}

/// A square of side `size` with its top-left corner at `corner`.
pub fn square(corner: Point, size: u64) -> (r: Rect)
    requires
        size <= SIZE_LIMIT,
    ensures
        r.x == corner.x,
        r.y == corner.y,
        r.w == size,
        r.h == size,
{
    Rect { x: corner.x, y: corner.y, w: size as i64, h: size as i64 }
}

} // verus!
