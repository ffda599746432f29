//! Plane geometry of the overlay, in fixed point: every coordinate and
//! length is a whole number of quarter pixels, and a half of an odd length
//! rounds down.

use vstd::prelude::*;

verus! {

/// Layout units in one pixel.
pub const UNITS_PER_PX: i64 = 4;

/// Largest coordinate magnitude that the geometry accepts.
pub const COORD_LIMIT: i64 = 0x1000_0000_0000_0000;

/// Largest length that the geometry accepts.
pub const SIZE_LIMIT: u64 = 0x100_0000_0000;

/// A point, in layout units; `y` grows downward.
#[derive(Debug, Clone, Copy, PartialEq, Eq, Structural)]
pub struct Point {
    pub x: i64,
    pub y: i64,
}

/// A width and a height, in layout units.
#[derive(Debug, Clone, Copy, PartialEq, Eq, Structural)]
pub struct Size {
    pub w: u64,
    pub h: u64,
}

/// An axis-aligned rectangle by its top-left corner and its extent; a
/// negative height extends upward.
#[derive(Debug, Clone, Copy, PartialEq, Eq, Structural)]
pub struct Rect {
    pub x: i64,
    pub y: i64,
    pub w: i64,
    pub h: i64,
}

/// One of nine reference points of a rectangle: Top/Center/Bottom row,
/// Left/Center/Right column.
#[derive(Debug, Clone, Copy, PartialEq, Eq, Structural)]
pub enum Anchor {
    TL,
    TC,
    TR,
    CL,
    CC,
    CR,
    BL,
    BC,
    BR,
}

pub open spec fn coord_ok(v: int) -> bool {
    -COORD_LIMIT <= v <= COORD_LIMIT
}

impl Point {
    pub open spec fn fits(self) -> bool {
        coord_ok(self.x as int) && coord_ok(self.y as int)
    }
}

impl Size {
    pub open spec fn fits(self) -> bool {
        self.w <= SIZE_LIMIT && self.h <= SIZE_LIMIT
    }
}

/// Part of a length `len` that lies before a reference column or row:
/// none, the rounded-down half, or all of it.
pub open spec fn part(len: int, halves: int) -> int {
    if halves == 0 {
        0
    } else if halves == 1 {
        len / 2
    } else {
        len
    }
}

impl Anchor {
    /// Horizontal position of the anchor, in halves of the width.
    pub open spec fn halves_x(self) -> int {
        match self {
            Anchor::TL | Anchor::CL | Anchor::BL => 0,
            Anchor::TC | Anchor::CC | Anchor::BC => 1,
            _ => 2,
        }
    }

    /// Vertical position of the anchor, in halves of the height.
    pub open spec fn halves_y(self) -> int {
        match self {
            Anchor::TL | Anchor::TC | Anchor::TR => 0,
            Anchor::CL | Anchor::CC | Anchor::CR => 1,
            _ => 2,
        }
    }

    /// Horizontal distance from the left edge of a box of width `w`.
    pub fn dx(self, w: u64) -> (r: u64)
        ensures
            r == part(w as int, self.halves_x()),
    {
        match self {
            Anchor::TL | Anchor::CL | Anchor::BL => 0,
            Anchor::TC | Anchor::CC | Anchor::BC => w / 2,
            _ => w,
        }
    }

    /// Vertical distance from the top edge of a box of height `h`.
    pub fn dy(self, h: u64) -> (r: u64)
        ensures
            r == part(h as int, self.halves_y()),
    {
        match self {
            Anchor::TL | Anchor::TC | Anchor::TR => 0,
            Anchor::CL | Anchor::CC | Anchor::CR => h / 2,
            _ => h,
        }
    }
}

/// A box placed by one of its anchors: `origin` of the box lies at `pos`.
#[derive(Debug, Clone, Copy, PartialEq, Eq, Structural)]
pub struct OwoRect {
    pub pos: Point,
    pub size: Size,
    pub origin: Anchor,
}

impl OwoRect {
    pub open spec fn fits(self) -> bool {
        self.pos.fits() && self.size.fits()
    }

    pub open spec fn left(self) -> int {
        self.pos.x - part(self.size.w as int, self.origin.halves_x())
    }

    pub open spec fn top(self) -> int {
        self.pos.y - part(self.size.h as int, self.origin.halves_y())
    }

    /// Top-left corner.
    pub fn top_left(&self) -> (r: Point)
        requires
            self.fits(),
        ensures
            r.x == self.left(),
            r.y == self.top(),
    {
        Point {
            x: self.pos.x - self.origin.dx(self.size.w) as i64,
            y: self.pos.y - self.origin.dy(self.size.h) as i64,
        }
    }

    /// Centre, with halves rounded down.
    pub fn center(&self) -> (r: Point)
        requires
            self.fits(),
        ensures
            r.x == self.left() + self.size.w / 2,
            r.y == self.top() + self.size.h / 2,
    {
        self.anchor(Anchor::CC)
    }

    /// Where `anchor` of this box lies.
    pub fn anchor(&self, anchor: Anchor) -> (r: Point)
        requires
            self.fits(),
        ensures
            r.x == self.left() + part(self.size.w as int, anchor.halves_x()),
            r.y == self.top() + part(self.size.h as int, anchor.halves_y()),
    {
        let tl = self.top_left();
        Point { x: tl.x + anchor.dx(self.size.w) as i64, y: tl.y + anchor.dy(self.size.h) as i64 }
    }

    /// The box as a rectangle by its top-left corner.
    pub fn to_rect(&self) -> (r: Rect)
        requires
            self.fits(),
        ensures
            r.x == self.left(),
            r.y == self.top(),
            r.w == self.size.w,
            r.h == self.size.h,
    {
        let tl = self.top_left();
        Rect { x: tl.x, y: tl.y, w: self.size.w as i64, h: self.size.h as i64 }
    }
}

} // verus!
