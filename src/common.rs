use vstd::prelude::*;

verus! {

/// Bytes per pixel of every image buffer handled by this crate (red, green, blue, alpha).
pub const RGBA_CHANNELS: usize = 4;

/// A width and a height in pixels.
#[derive(Clone, Copy, Debug, PartialEq, Eq, Structural)]
pub struct Dimension {
    pub width: usize,
    pub height: usize,
}

/// A pixel position.
#[derive(Clone, Copy, Debug, PartialEq, Eq, Structural)]
pub struct Offset {
    pub x_offset: usize,
    pub y_offset: usize,
}

/// A rectangle of pixels: its top left corner and its size.
#[derive(Clone, Copy, Debug, PartialEq, Eq, Structural)]
pub struct OffsetAndDimension {
    pub x_offset: usize,
    pub y_offset: usize,
    pub width: usize,
    pub height: usize,
}

impl OffsetAndDimension {
    pub fn new(x_offset: usize, y_offset: usize, width: usize, height: usize) -> (r: OffsetAndDimension)
        ensures
            r == (OffsetAndDimension { x_offset, y_offset, width, height }),
    {
        OffsetAndDimension { x_offset, y_offset, width, height }
    }
}

impl Offset {
    pub fn new(x_offset: usize, y_offset: usize) -> (r: Offset)
        ensures
            r == (Offset { x_offset, y_offset }),
    {
        Offset { x_offset, y_offset }
    }
}

} // verus!
