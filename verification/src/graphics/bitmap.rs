//! Access to the individual pixels of a bitmap's pixel bytes.
use vstd::prelude::*;
use super::bitmap_data::BitmapData;
use super::color::{PixelColor, pixel_bit, lemma_or_pixel};

verus! {

/// How a bitmap is flipped when drawn or tested for collision.
#[derive(Debug, Copy, Clone, PartialEq, Eq, Structural)]
pub enum BitmapFlip {
    Unflipped,
    FlippedX,
    FlippedY,
    FlippedXY,
}

/// Information about a single bitmap (referred to by a `B`), used in testing for collision between
/// two bitmaps opaque pixels.
pub struct BitmapCollider<'a, B> {
    /// A bitmap being tested for collision.
    pub bitmap: &'a B,
    /// If the bitmap is flipped along each axis.
    pub flipped: BitmapFlip,
    /// The bitmap's x position.
    pub x: i32,
    /// The bitmap's y position.
    pub y: i32,
}

/// The index of the byte that holds pixel `(x, y)`, for rows of `row_bytes` bytes.
pub open spec fn pixel_byte_index(row_bytes: int, x: int, y: int) -> int {
    row_bytes * y + x / 8
}

/// Whether pixel `(x, y)` can be read from `len` bytes of rows of `row_bytes` bytes.
pub open spec fn pixel_in_bounds(row_bytes: int, len: int, x: int, y: int) -> bool {
    &&& row_bytes >= 0
    &&& 0 <= pixel_byte_index(row_bytes, x, y) < len
}

/// The color bit of pixel `(x, y)` in `bytes`, rows of `row_bytes` bytes, where each byte holds 8
/// pixels with the highest bit the leftmost.
pub open spec fn pixel_spec(bytes: Seq<u8>, row_bytes: int, x: int, y: int) -> bool {
    pixel_bit(bytes[pixel_byte_index(row_bytes, x, y)], (x % 8) as u8)
}

/// Whether `after` is `before` with pixel `(x, y)` written with the color bit `v`: that byte holds
/// `v` in the pixel's column and its other pixels as they were, and every other byte is unchanged.
pub open spec fn pixel_written(
    before: Seq<u8>,
    after: Seq<u8>,
    row_bytes: int,
    x: int,
    y: int,
    v: bool,
) -> bool {
    let i = pixel_byte_index(row_bytes, x, y);
    &&& after.len() == before.len()
    &&& forall|j: int| 0 <= j < before.len() && j != i ==> after[j] == before[j]
    &&& forall|col: u8|
        col < 8 ==> #[trigger] pixel_bit(after[i], col) == if col == (x % 8) as u8 {
            v
        } else {
            pixel_bit(before[i], col)
        }
}

/// Reading a pixel after writing it gives the written color, and writing a pixel leaves every
/// pixel stored at another bit of the bytes as it was.
pub proof fn lemma_get_after_set(
    before: Seq<u8>,
    after: Seq<u8>,
    row_bytes: int,
    x: int,
    y: int,
    v: bool,
    x2: int,
    y2: int,
)
    requires
        x >= 0,
        y >= 0,
        x2 >= 0,
        y2 >= 0,
        pixel_in_bounds(row_bytes, before.len() as int, x, y),
        pixel_in_bounds(row_bytes, before.len() as int, x2, y2),
        pixel_written(before, after, row_bytes, x, y, v),
    ensures
        pixel_spec(after, row_bytes, x, y) == v,
        pixel_byte_index(row_bytes, x2, y2) != pixel_byte_index(row_bytes, x, y) || x2 % 8 != x
            % 8 ==> pixel_spec(after, row_bytes, x2, y2) == pixel_spec(before, row_bytes, x2, y2),
{
    let i = pixel_byte_index(row_bytes, x, y);
    let i2 = pixel_byte_index(row_bytes, x2, y2);
    assert(pixel_bit(after[i], (x % 8) as u8) == v);
    if i2 == i && x2 % 8 != x % 8 {
        assert(pixel_bit(after[i], (x2 % 8) as u8) == pixel_bit(before[i], (x2 % 8) as u8));
    }
}

/// Reading the bit of column `col` by shifting it down is the same as testing it in place.
proof fn lemma_shifted_bit(b: u8, col: u8)
    by (bit_vector)
    requires
        col < 8,
    ensures
        ((b >> ((7 - col) as u8)) & 1u8 == 1u8) == pixel_bit(b, col),
{
}

/// Clearing the bit of column `col` clears that pixel and leaves every other pixel as it was.
proof fn lemma_clear_pixel(b: u8, col: u8, other: u8)
    by (bit_vector)
    requires
        col < 8,
        other < 8,
    ensures
        pixel_bit(b & !(1u8 << ((7 - col) as u8)), other) == if other == col {
            false
        } else {
            pixel_bit(b, other)
        },
{
}

/// Reads the pixel `(x, y)` from pixel bytes.
fn read_pixel(data: &BitmapData, pixels: &[u8], x: usize, y: usize) -> (r: PixelColor)
    requires
        pixel_in_bounds(data.row_bytes_spec() as int, pixels@.len() as int, x as int, y as int),
    ensures
        r.bit() == pixel_spec(pixels@, data.row_bytes_spec() as int, x as int, y as int),
{
    let row_bytes = data.row_bytes() as usize;
    let _len = pixels.len();
    proof {
        assert(row_bytes == data.row_bytes_spec() as int);
        assert(row_bytes * y + x / 8 < pixels@.len());
        assert(0 <= row_bytes * y <= row_bytes * y + x / 8) by (nonlinear_arith)
            requires
                row_bytes >= 0,
                y >= 0,
        ;
    }
    let byte_index = row_bytes * y + x / 8;
    let bit_index = x % 8;
    let bit = (pixels[byte_index] >> (7 - bit_index) as u8) & 0x1 == 0x1;
    proof {
        lemma_shifted_bit(pixels@[byte_index as int], bit_index as u8);
    }
    PixelColor::from_bit(bit)
}

/// Provide readonly access to the pixels in an Bitmap, through its BitmapData.
pub struct BitmapPixels<'bitmap> {
    data: BitmapData,
    pixels: &'bitmap [u8],
}

impl<'bitmap> BitmapPixels<'bitmap> {
    /// The bitmap's metadata.
    pub closed spec fn data_spec(&self) -> BitmapData {
        self.data
    }

    /// The bitmap's pixel bytes.
    pub closed spec fn bytes_spec(&self) -> Seq<u8> {
        self.pixels@
    }

    /// Gives read access to the pixel bytes `pixels` of a bitmap with metadata `data`.
    pub fn new(data: BitmapData, pixels: &'bitmap [u8]) -> (r: Self)
        ensures
            r.data_spec() == data,
            r.bytes_spec() == pixels@,
    {
        BitmapPixels { data, pixels }
    }

    /// Get the color of the pixel at position `(x, y)`.
    pub fn get(&self, x: usize, y: usize) -> (r: PixelColor)
        requires
            pixel_in_bounds(
                self.data_spec().row_bytes_spec() as int,
                self.bytes_spec().len() as int,
                x as int,
                y as int,
            ),
        ensures
            r.bit() == pixel_spec(
                self.bytes_spec(),
                self.data_spec().row_bytes_spec() as int,
                x as int,
                y as int,
            ),
    {
        read_pixel(&self.data, self.pixels, x, y)
    }
}

/// Provide mutable access to the pixels in an Bitmap, through its BitmapData.
pub struct BitmapPixelsMut<'bitmap> {
    data: BitmapData,
    pixels: &'bitmap mut [u8],
}

impl<'bitmap> BitmapPixelsMut<'bitmap> {
    /// The bitmap's metadata.
    pub closed spec fn data_spec(&self) -> BitmapData {
        self.data
    }

    /// The bitmap's pixel bytes.
    pub closed spec fn bytes_spec(&self) -> Seq<u8> {
        self.pixels@
    }

    /// Gives read-write access to the pixel bytes `pixels` of a bitmap with metadata `data`.
    pub fn new(data: BitmapData, pixels: &'bitmap mut [u8]) -> (r: Self)
        ensures
            r.data_spec() == data,
            r.bytes_spec() == old(pixels)@,
    {
        BitmapPixelsMut { data, pixels }
    }

    /// Get the color of the pixel at position `(x, y)`.
    pub fn get(&self, x: usize, y: usize) -> (r: PixelColor)
        requires
            pixel_in_bounds(
                self.data_spec().row_bytes_spec() as int,
                self.bytes_spec().len() as int,
                x as int,
                y as int,
            ),
        ensures
            r.bit() == pixel_spec(
                self.bytes_spec(),
                self.data_spec().row_bytes_spec() as int,
                x as int,
                y as int,
            ),
    {
        read_pixel(&self.data, self.pixels, x, y)
    }

    /// Set the pixel at position `(x, y)` to the `PixelColor`.
    pub fn set(&mut self, x: usize, y: usize, new_value: PixelColor)
        requires
            pixel_in_bounds(
                old(self).data_spec().row_bytes_spec() as int,
                old(self).bytes_spec().len() as int,
                x as int,
                y as int,
            ),
        ensures
            final(self).data_spec() == old(self).data_spec(),
            final(self).bytes_spec().len() == old(self).bytes_spec().len(),
            pixel_written(
                old(self).bytes_spec(),
                final(self).bytes_spec(),
                old(self).data_spec().row_bytes_spec() as int,
                x as int,
                y as int,
                new_value.bit(),
            ),
    {
        let row_bytes = self.data.row_bytes() as usize;
        let _len = self.pixels.len();
        proof {
            assert(row_bytes == self.data.row_bytes_spec() as int);
            assert(row_bytes * y + x / 8 < self.pixels@.len());
            assert(0 <= row_bytes * y <= row_bytes * y + x / 8) by (nonlinear_arith)
                requires
                    row_bytes >= 0,
                    y >= 0,
            ;
        }
        let byte_index = row_bytes * y + x / 8;
        let bit_index = x % 8;
        let old_byte = self.pixels[byte_index];
        if new_value.to_bit() {
            self.pixels[byte_index] = old_byte | (1u8 << (7 - bit_index) as u8);
            proof {
                assert forall|col: u8| col < 8 implies #[trigger] pixel_bit(
                    self.pixels@[byte_index as int],
                    col,
                ) == if col == bit_index as u8 {
                    true
                } else {
                    pixel_bit(old_byte, col)
                } by {
                    lemma_or_pixel(old_byte, bit_index as u8, col, 1);
                }
            }
        } else {
            self.pixels[byte_index] = old_byte & !(1u8 << (7 - bit_index) as u8);
            proof {
                assert forall|col: u8| col < 8 implies #[trigger] pixel_bit(
                    self.pixels@[byte_index as int],
                    col,
                ) == if col == bit_index as u8 {
                    false
                } else {
                    pixel_bit(old_byte, col)
                } by {
                    lemma_clear_pixel(old_byte, bit_index as u8, col);
                }
            }
        }
    }
}

} // verus!
