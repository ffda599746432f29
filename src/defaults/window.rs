use vstd::prelude::*;

verus! {

/// Default window width, in pixels.
pub fn width() -> (r: u32)
    ensures
        r == 420,
{
    420
}

/// Default window height, in pixels.
pub fn height() -> (r: u32)
    ensures
        r == 690,
{
    690
}

} // verus!
