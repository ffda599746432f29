//! Default values of the configuration.

pub mod column;
pub mod window;

use vstd::prelude::*;

use crate::config::BoxPlacement;

verus! {

/// Default for the boolean switches of the configuration.
pub fn yes() -> (r: bool)
    ensures
        r,
{
    true
}

/// By default the key label is drawn inside the key box.
pub fn key_placement() -> (r: BoxPlacement)
    ensures
        r == BoxPlacement::Inside,
{
    BoxPlacement::Inside
}

/// By default the press counter is drawn outside the key box.
pub fn counter_placement() -> (r: BoxPlacement)
    ensures
        r == BoxPlacement::Outside,
{
    BoxPlacement::Outside
}

/// Default gap between key boxes, in pixels.
pub fn key_spacing() -> (r: u32)
    ensures
        r == 10,
{
    10
}

/// Default key box width, in pixels.
pub fn default_key_width() -> (r: u32)
    ensures
        r == 100,
{
    100
}

/// Default key box height, in pixels.
pub fn key_height() -> (r: u32)
    ensures
        r == 100,
{
    100
}

} // verus!
