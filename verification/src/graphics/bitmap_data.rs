//! Metadata of a bitmap.
use vstd::prelude::*;

verus! {

/// Metadata for an `Bitmap`.
#[derive(Debug, Copy, Clone, PartialEq, Eq, Structural, Hash)]
pub struct BitmapData {
    width: i32,
    height: i32,
    rowbytes: i32,
    hasmask: i32,
}

impl BitmapData {
    /// The width in pixels.
    pub closed spec fn width_spec(&self) -> i32 {
        self.width
    }

    /// The number of rows.
    pub closed spec fn height_spec(&self) -> i32 {
        self.height
    }

    /// The number of bytes per row.
    pub closed spec fn row_bytes_spec(&self) -> i32 {
        self.rowbytes
    }

    /// The device's mask flag: non-zero when a mask is attached.
    pub closed spec fn hasmask_spec(&self) -> i32 {
        self.hasmask
    }

    /// Builds the metadata from the values the device reports for a bitmap.
    pub fn new(width: i32, height: i32, rowbytes: i32, hasmask: i32) -> (r: Self)
        ensures
            r.width_spec() == width,
            r.height_spec() == height,
            r.row_bytes_spec() == rowbytes,
            r.hasmask_spec() == hasmask,
    {
        Self { width, height, rowbytes, hasmask }
    }

    /// The number of pixels (or, columns) per row of the bitmap.
    ///
    /// Each pixel is a single bit, and there may be more bytes (as determined by `row_bytes()`) in
    /// a row than required to hold all the pixels.
    pub fn width(&self) -> (r: i32)
        ensures
            r == self.width_spec(),
    {
        self.width
    }

    /// The number of rows in the bitmap.
    pub fn height(&self) -> (r: i32)
        ensures
            r == self.height_spec(),
    {
        self.height
    }

    /// The number of bytes per row of the bitmap.
    pub fn row_bytes(&self) -> (r: i32)
        ensures
            r == self.row_bytes_spec(),
    {
        self.rowbytes
    }

    /// Whether the bitmap has a mask attached, via `set_mask_bitmap()`.
    pub fn has_mask(&self) -> (r: bool)
        ensures
            r == (self.hasmask_spec() != 0),
    {
        self.hasmask != 0
    }
}

} // verus!
