use vstd::prelude::*;

verus! {

/// Default column width, in pixels.
pub fn width() -> (r: u32)
    ensures
        r == 100,
{
    100
}

/// Default fill colour of the history bars (0xRRGGBB).
pub fn color() -> (r: u32)
    ensures
        r == 0x63ffec,
{
    0x63ffec
}

/// Default fill colour of a held key box (0xRRGGBB).
pub fn hover_color() -> (r: u32)
    ensures
        r == 0x555555,
{
    0x555555
}

/// Default border colour of a key box (0xRRGGBB).
pub fn border_color() -> (r: u32)
    ensures
        r == 0xeeeeee,
{
    0xeeeeee
}

/// Default opacity of the history bars, in hundredths (50 is half opaque).
pub fn alpha() -> (r: u32)
    ensures
        r == 50,
{
    50
}

} // verus!
