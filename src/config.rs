//! Configuration surface of the overlay.

use vstd::prelude::*;

use crate::defaults;

verus! {

/// Identifier of a physical key: a code that the input source assigns.
pub type PhysicalKey = u32;

/// Properties of the overlay window.
#[derive(Debug, Clone)]
pub struct WindowProps {
    pub transparent: bool,
    pub resizable: bool,
    pub width: u32,
    pub height: u32,
}

impl Default for WindowProps {
    fn default() -> (r: Self)
        ensures
            r.transparent,
            r.resizable,
            r.width == 420,
            r.height == 690,
    {
        WindowProps {
            transparent: defaults::yes(),
            resizable: defaults::yes(),
            width: defaults::window::width(),
            height: defaults::window::height(),
        }
    }
}

/// Where a text is drawn relative to its key box.
#[derive(Debug, Clone, Copy, PartialEq, Eq, Structural)]
pub enum BoxPlacement {
    Inside,
    Outside,
}

/// Which way the history scrolls away from the key row.
#[derive(Debug, Clone, Copy, PartialEq, Eq, Structural)]
pub enum ScrollDirection {
    /// Keys at the bottom of the viewport, history grows upward.
    Up,
    /// Keys at the top of the viewport, history grows downward.
    Down,
}

impl Default for ScrollDirection {
    fn default() -> (r: Self)
        ensures
            r == ScrollDirection::Up,
    {
        ScrollDirection::Up
    }
}

/// The overlay configuration.
#[derive(Debug, Clone)]
pub struct Config {
    /// Scroll speed of the history, in pixels per second.
    pub speed: u32,
    pub direction: ScrollDirection,
    pub display_keys: bool,
    pub key_placement: BoxPlacement,
    pub display_counters: bool,
    pub counter_placement: BoxPlacement,
    /// Gap between key boxes, in pixels.
    pub key_spacing: u32,
    /// Width of every key box, in pixels.
    pub default_key_width: u32,
    /// Height of every key box, in pixels.
    pub key_height: u32,
    pub window: WindowProps,
    pub columns: Vec<ColumnProps>,
}

impl Config {
    /// Index of the first column without keys, if any: such a configuration
    /// is rejected.
    pub fn empty_column(&self) -> (r: Option<usize>)
        ensures
            r is None ==> forall|i: int| 0 <= i < self.columns@.len() ==> (#[trigger] self.columns@[i]).keys@.len() > 0,
            r is Some ==> {
                &&& r->Some_0 < self.columns@.len()
                &&& self.columns@[r->Some_0 as int].keys@.len() == 0
                &&& forall|i: int| 0 <= i < r->Some_0 ==> (#[trigger] self.columns@[i]).keys@.len() > 0
            },
    {
        let mut i: usize = 0;
        while i < self.columns.len()
            invariant
                i <= self.columns@.len(),
                forall|j: int| 0 <= j < i ==> (#[trigger] self.columns@[j]).keys@.len() > 0,
            decreases self.columns@.len() - i,
        {
            if self.columns[i].keys.len() == 0 {
                return Some(i);
            }
            i = i + 1;
        }
        None
    }
}

/// Configuration of one column.
#[derive(Debug, Clone)]
pub struct ColumnProps {
    /// Label of the column; derived from its keys when absent.
    pub name: Option<String>,
    /// The physical keys merged into this column.
    pub keys: Vec<PhysicalKey>,
    pub width: u32,
    /// Fill colour of the history bars (0xRRGGBB).
    pub color: u32,
    /// Fill colour of the key box while held (0xRRGGBB).
    pub hover_color: u32,
    /// Border colour of the key box (0xRRGGBB).
    pub border_color: u32,
    /// Opacity of the history bars, in hundredths.
    pub alpha: u32,
}

impl ColumnProps {
    /// Column with the given name and keys and default visual properties.
    pub fn new(name: Option<String>, keys: Vec<PhysicalKey>) -> (r: ColumnProps)
        ensures
            r.name == name,
            r.keys@ == keys@,
            r.width == 100,
            r.color == 0x63ffec,
            r.hover_color == 0x555555,
            r.border_color == 0xeeeeee,
            r.alpha == 50,
    {
        ColumnProps {
            name,
            keys,
            width: defaults::column::width(),
            color: defaults::column::color(),
            hover_color: defaults::column::hover_color(),
            border_color: defaults::column::border_color(),
            alpha: defaults::column::alpha(),
        }
    }
}

} // verus!
