//! Colors, and 8x8 patterns of pixel colors with a draw mask.
use vstd::prelude::*;

verus! {

/// A pattern is 8 bytes representing 8x8 bits of `PixelColor`s followed by 8 bytes representing 8x8
/// bits of a mask to apply the color bits (or to not apply them).
pub const PATTERN_SIZE: usize = 16;

/// Whether the pixel in column `col` (0 is leftmost) of a row byte is set: the highest bit is the
/// leftmost pixel.
pub open spec fn pixel_bit(byte: u8, col: u8) -> bool {
    byte & (0x80u8 >> col) != 0
}

/// The color bit a pattern stores for a masked pixel: the color's bit, or black when the pixel is
/// not drawn.
pub open spec fn masked_color_bit(c: Option<PixelColor>) -> bool {
    match c {
        Some(color) => color.bit(),
        None => false,
    }
}

/// Whether `bytes` is the pattern that draws `colors` (row-major, 8 per row) at every pixel: each
/// of the first 8 bytes holds a row of color bits, and the mask bytes are all set.
pub open spec fn is_unmasked_pattern(bytes: Seq<u8>, colors: Seq<PixelColor>) -> bool {
    &&& bytes.len() == 16
    &&& forall|row: int, col: u8|
        0 <= row < 8 && col < 8 ==> #[trigger] pixel_bit(bytes[row], col) == colors[8 * row
            + col].bit()
    &&& forall|row: int| 8 <= row < 16 ==> bytes[row] == 0xffu8
}

/// Whether `bytes` is the pattern that draws the color of each `Some` of `colors` (row-major, 8
/// per row) and nothing at each `None`: the first 8 bytes hold rows of color bits (black where
/// nothing is drawn), the last 8 rows of mask bits.
pub open spec fn is_masked_pattern(bytes: Seq<u8>, colors: Seq<Option<PixelColor>>) -> bool {
    &&& bytes.len() == 16
    &&& forall|row: int, col: u8|
        0 <= row < 8 && col < 8 ==> #[trigger] pixel_bit(bytes[row], col) == masked_color_bit(
            colors[8 * row + col],
        )
    &&& forall|row: int, col: u8|
        0 <= row < 8 && col < 8 ==> #[trigger] pixel_bit(bytes[row + 8], col) == colors[8 * row
            + col] is Some
}

/// A byte has all eight pixels set exactly when it is `0xff`.
proof fn lemma_full_byte(b: u8)
    by (bit_vector)
    ensures
        (b == 0xffu8) == (pixel_bit(b, 0) && pixel_bit(b, 1) && pixel_bit(b, 2) && pixel_bit(b, 3)
            && pixel_bit(b, 4) && pixel_bit(b, 5) && pixel_bit(b, 6) && pixel_bit(b, 7)),
{
}

/// The pattern drawing every pixel of `colors` is the masked pattern in which every pixel is
/// drawn with its color.
pub proof fn lemma_unmasked_is_masked_with_every_pixel_drawn(bytes: Seq<u8>, colors: Seq<PixelColor>)
    requires
        colors.len() == 64,
    ensures
        is_unmasked_pattern(bytes, colors) == is_masked_pattern(
            bytes,
            colors.map_values(|c: PixelColor| Some(c)),
        ),
{
    let masked = colors.map_values(|c: PixelColor| Some(c));
    if is_unmasked_pattern(bytes, colors) {
        assert forall|row: int, col: u8| 0 <= row < 8 && col < 8 implies #[trigger] pixel_bit(
            bytes[row + 8],
            col,
        ) == masked[8 * row + col] is Some by {
            lemma_full_byte(bytes[row + 8]);
            assert(bytes[row + 8] == 0xffu8);
        }
        assert forall|row: int, col: u8| 0 <= row < 8 && col < 8 implies #[trigger] pixel_bit(
            bytes[row],
            col,
        ) == masked_color_bit(masked[8 * row + col]) by {}
    }
    if is_masked_pattern(bytes, masked) {
        assert forall|row: int| 8 <= row < 16 implies bytes[row] == 0xffu8 by {
            let r = row - 8;
            lemma_full_byte(bytes[row]);
            assert(pixel_bit(bytes[r + 8], 0u8) && pixel_bit(bytes[r + 8], 1u8) && pixel_bit(bytes[r + 8], 2u8)
                && pixel_bit(bytes[r + 8], 3u8) && pixel_bit(bytes[r + 8], 4u8) && pixel_bit(bytes[r + 8], 5u8)
                && pixel_bit(bytes[r + 8], 6u8) && pixel_bit(bytes[r + 8], 7u8));
        }
        assert forall|row: int, col: u8| 0 <= row < 8 && col < 8 implies #[trigger] pixel_bit(
            bytes[row],
            col,
        ) == colors[8 * row + col].bit() by {
            assert(masked_color_bit(masked[8 * row + col]) == colors[8 * row + col].bit());
        }
    }
}

/// Setting the pixel of column `col` with `v` sets that pixel when `v` is 1 and leaves every other
/// pixel of the byte as it was.
pub(crate) proof fn lemma_or_pixel(b: u8, col: u8, other: u8, v: u8)
    by (bit_vector)
    requires
        col < 8,
        other < 8,
        v <= 1,
    ensures
        pixel_bit(b | (v << ((7 - col) as u8)), other) == if other == col {
            pixel_bit(b, other) || v == 1
        } else {
            pixel_bit(b, other)
        },
{
}

/// The zero byte has no pixel set.
proof fn lemma_zero_has_no_pixel(col: u8)
    by (bit_vector)
    ensures
        !pixel_bit(0u8, col),
{
}

/// One of the solid colors the device can draw with.
#[derive(Debug, Copy, Clone, PartialEq, Eq, Structural)]
pub enum SolidColor {
    Black,
    White,
    Clear,
    XOR,
}

impl SolidColor {
    /// The value the device uses for this color.
    pub fn to_c_value(self) -> (r: u32)
        ensures
            r == match self {
                SolidColor::Black => 0u32,
                SolidColor::White => 1u32,
                SolidColor::Clear => 2u32,
                SolidColor::XOR => 3u32,
            },
    {
        match self {
            SolidColor::Black => 0,
            SolidColor::White => 1,
            SolidColor::Clear => 2,
            SolidColor::XOR => 3,
        }
    }
}

/// Represents a method used for operations that draw to the display or a bitmap.
#[derive(Debug)]
pub enum Color<'a> {
    /// A single color, which is one of `SolidColor`.
    Solid(SolidColor),
    /// A reference to a 16 byte buffer, the first 8 bytes are 8x8 pixels (each pixel is 1 bit) and
    /// the last 8 bytes are 8x8 masks (each mask is 1 bit) that each defines if the corresponding
    /// pixel is used.
    Pattern(&'a Pattern),
}

/// A single pixel's color, either black or white.
#[derive(Debug, Copy, Clone, PartialEq, Eq, Structural)]
pub struct PixelColor(bool);

impl PixelColor {
    /// Black: the `false` bit.
    pub fn black() -> (r: PixelColor)
        ensures
            !r.bit(),
    {
        PixelColor(false)
    }

    /// White: the `true` bit.
    pub fn white() -> (r: PixelColor)
        ensures
            r.bit(),
    {
        PixelColor(true)
    }

    /// The bit of the color: black is `false`, white is `true`.
    pub closed spec fn bit(self) -> bool {
        self.0
    }

    /// The text of the color for debugging output: its name, in a tuple of `PixelColor`.
    pub fn to_debug_string(&self) -> (r: String)
        ensures
            r@ == if self.bit() {
                "PixelColor(\"WHITE\")"@
            } else {
                "PixelColor(\"BLACK\")"@
            },
    {
        if self.0 {
            "PixelColor(\"WHITE\")".to_owned()
        } else {
            "PixelColor(\"BLACK\")".to_owned()
        }
    }

    /// Returns a bool representation of the color, where black becomes `false` and white becomes
    /// `true`.
    pub fn to_bit(self) -> (r: bool)
        ensures
            r == self.bit(),
    {
        self.0
    }

    /// Converts from a bool representation to a color. A `false` becomes black, and `true`
    /// becomes white.
    pub fn from_bit(b: bool) -> (r: PixelColor)
        ensures
            r.bit() == b,
    {
        PixelColor(b)
    }
}

/// A pattern is 8x8 bits of data that repeats over a surface. The pattern includes two pieces of
/// data: 8x8 pixels of black/white colors, and an 8x8 mask which is used to draw the pixel color or
/// omit it. Together this forms an 8x8 tri-state of (draw black, draw white, draw nothing).
#[derive(Debug)]
pub struct Pattern([u8; 16]);

impl Pattern {
    /// The 16 bytes of the pattern: 8 rows of colors, then 8 rows of mask.
    pub closed spec fn bytes_spec(&self) -> Seq<u8> {
        self.0@
    }

    /// Creates a `Pattern` from an array of pattern data, in the same format it's stored
    /// internally.
    pub fn new(arr: [u8; 16]) -> (r: Pattern)
        ensures
            r.bytes_spec() == arr@,
    {
        Pattern(arr)
    }

    /// Creates a `Pattern` from an array of pattern data, in the same format it's stored
    /// internally.
    ///
    /// Each byte of the first 8 bytes represents a row of color values, where for each bit, `1` is
    /// white and `0` is black. Each byte of the last 8 bytes represents a row of a mask, where for
    /// each bit `1` means to draw the pattern's color and `0` means to not draw.
    pub fn from_raw_array(arr: [u8; 16]) -> (r: Pattern)
        ensures
            r.bytes_spec() == arr@,
    {
        Pattern(arr)
    }

    /// Creates a `Pattern` from an 8x8 set of colors.
    ///
    /// The pattern is opaque, so all colors will be drawn when the pattern is used. The values are
    /// provided in row-major order, so the first 8 elements make up the first row.
    pub fn new_unmasked(colors: [PixelColor; 64]) -> (r: Self)
        ensures
            is_unmasked_pattern(r.bytes_spec(), colors@),
    {
        let mut arr: [u8; 16] = [0u8; 16];
        let mut bit: usize = 0;
        let mut byte: usize = 0;
        let mut i: usize = 0;
        proof {
            assert forall|row: int, col: u8| 0 <= row < 8 && col < 8 implies !#[trigger] pixel_bit(arr@[row], col) by {
                lemma_zero_has_no_pixel(col);
            }
        }
        while i < 64
            invariant
                i <= 64,
                bit < 8,
                i == 8 * byte + bit,
                forall|row: int, col: u8|
                    0 <= row < 8 && col < 8 ==> #[trigger] pixel_bit(arr@[row], col) == (8 * row
                        + col < i && colors@[8 * row + col].bit()),
                forall|row: int| 8 <= row < 16 ==> arr@[row] == 0u8,
            decreases 64 - i,
        {
            let color = colors[i];
            let shift = 7 - bit;
            let v: u8 = if color.to_bit() {
                1
            } else {
                0
            };
            let ghost before = arr@;
            arr[byte] = arr[byte] | (v << shift as u8);
            proof {
                assert forall|row: int, col: u8|
                    0 <= row < 8 && col < 8 implies #[trigger] pixel_bit(arr@[row], col) == (8 * row
                    + col < i + 1 && colors@[8 * row + col].bit()) by {
                    if row == byte {
                        lemma_or_pixel(before[row], bit as u8, col, v);
                    } else {
                        assert(arr@[row] == before[row]);
                    }
                }
            }
            bit = (bit + 1) % 8;
            if bit == 0 {
                byte += 1;
            }
            i += 1;
        }
        let mut j: usize = PATTERN_SIZE / 2;
        while j < PATTERN_SIZE
            invariant
                8 <= j <= 16,
                forall|row: int, col: u8|
                    0 <= row < 8 && col < 8 ==> #[trigger] pixel_bit(arr@[row], col)
                        == colors@[8 * row + col].bit(),
                forall|row: int| 8 <= row < j ==> arr@[row] == 0xffu8,
            decreases 16 - j,
        {
            arr[j] = 0xff;
            j += 1;
        }
        Pattern(arr)
    }

    /// Creates a `Pattern` from an 8x8 set of masked colors.
    ///
    /// For each input value, if it's None, then the pattern draws nothing. Otherwise, the pattern
    /// draws the given color. The values are provided in row-major order, so the first 8 elements
    /// make up the first row.
    pub fn new_masked(colors: [Option<PixelColor>; 64]) -> (r: Self)
        ensures
            is_masked_pattern(r.bytes_spec(), colors@),
    {
        let mut arr: [u8; 16] = [0u8; 16];
        let mut bit: usize = 0;
        let mut byte: usize = 0;
        let mut i: usize = 0;
        proof {
            assert forall|row: int, col: u8| 0 <= row < 16 && col < 8 implies !#[trigger] pixel_bit(arr@[row], col) by {
                lemma_zero_has_no_pixel(col);
            }
        }
        while i < 64
            invariant
                i <= 64,
                bit < 8,
                i == 8 * byte + bit,
                forall|row: int, col: u8|
                    0 <= row < 8 && col < 8 ==> #[trigger] pixel_bit(arr@[row], col) == (8 * row
                        + col < i && masked_color_bit(colors@[8 * row + col])),
                forall|row: int, col: u8|
                    0 <= row < 8 && col < 8 ==> #[trigger] pixel_bit(arr@[row + 8], col) == (8 * row
                        + col < i && colors@[8 * row + col] is Some),
            decreases 64 - i,
        {
            let ghost before = arr@;
            if let Some(color) = colors[i] {
                let shift = 7 - bit;
                let v: u8 = if color.to_bit() {
                    1
                } else {
                    0
                };
                arr[byte] = arr[byte] | (v << shift as u8);
                let ghost middle = arr@;
                arr[byte + PATTERN_SIZE / 2] = arr[byte + PATTERN_SIZE / 2] | (1u8 << shift as u8);
                proof {
                    assert forall|row: int, col: u8| 0 <= row < 8 && col < 8 implies #[trigger] pixel_bit(
                        arr@[row],
                        col,
                    ) == (8 * row + col < i + 1 && masked_color_bit(colors@[8 * row + col])) by {
                        if row == byte {
                            lemma_or_pixel(before[row], bit as u8, col, v);
                        } else {
                            assert(arr@[row] == before[row]);
                        }
                    }
                    assert forall|row: int, col: u8| 0 <= row < 8 && col < 8 implies #[trigger] pixel_bit(
                        arr@[row + 8],
                        col,
                    ) == (8 * row + col < i + 1 && colors@[8 * row + col] is Some) by {
                        if row == byte {
                            lemma_or_pixel(middle[row + 8], bit as u8, col, 1);
                        } else {
                            assert(arr@[row + 8] == before[row + 8]);
                        }
                    }
                }
            } else {
                proof {
                    assert forall|row: int, col: u8| 0 <= row < 8 && col < 8 implies #[trigger] pixel_bit(
                        arr@[row],
                        col,
                    ) == (8 * row + col < i + 1 && masked_color_bit(colors@[8 * row + col])) by {
                        if 8 * row + col == i {
                        }
                    }
                    assert forall|row: int, col: u8| 0 <= row < 8 && col < 8 implies #[trigger] pixel_bit(
                        arr@[row + 8],
                        col,
                    ) == (8 * row + col < i + 1 && colors@[8 * row + col] is Some) by {
                        if 8 * row + col == i {
                        }
                    }
                }
            }
            bit = (bit + 1) % 8;
            if bit == 0 {
                byte += 1;
            }
            i += 1;
        }
        Pattern(arr)
    }

    /// The pattern data, in the layout the device reads.
    pub fn as_bytes(&self) -> (r: &[u8; 16])
        ensures
            r@ == self.bytes_spec(),
    {
        &self.0
    }
}

} // verus!
