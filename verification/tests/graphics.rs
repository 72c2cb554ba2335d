use playdate::graphics::bitmap::{BitmapPixels, BitmapPixelsMut};
use playdate::graphics::bitmap_data::BitmapData;
use playdate::graphics::color::{Color, Pattern, PixelColor, SolidColor};

fn checkerboard() -> [PixelColor; 64] {
    let mut colors = [PixelColor::black(); 64];
    for i in 0..64 {
        let (row, col) = (i / 8, i % 8);
        colors[i] = PixelColor::from_bit((row + col) % 2 == 0);
    }
    colors
}

#[test]
fn unmasked_pattern_bytes() {
    let p = Pattern::new_unmasked(checkerboard());
    let expected: [u8; 16] = [
        0xaa, 0x55, 0xaa, 0x55, 0xaa, 0x55, 0xaa, 0x55, 0xff, 0xff, 0xff, 0xff, 0xff, 0xff, 0xff,
        0xff,
    ];
    assert_eq!(p.as_bytes(), &expected);
}

#[test]
fn unmasked_pattern_leftmost_pixel_is_high_bit() {
    let mut colors = [PixelColor::black(); 64];
    colors[0] = PixelColor::white();
    colors[15] = PixelColor::white();
    let p = Pattern::new_unmasked(colors);
    assert_eq!(p.as_bytes()[0], 0x80);
    assert_eq!(p.as_bytes()[1], 0x01);
    assert_eq!(p.as_bytes()[2], 0x00);
}

#[test]
fn masked_pattern_bytes() {
    let mut colors: [Option<PixelColor>; 64] = [None; 64];
    colors[0] = Some(PixelColor::white());
    colors[1] = Some(PixelColor::black());
    colors[63] = Some(PixelColor::white());
    colors[9] = Some(PixelColor::white());
    let p = Pattern::new_masked(colors);
    let b = p.as_bytes();
    assert_eq!(b[0], 0x80);
    assert_eq!(b[8], 0xc0);
    assert_eq!(b[1], 0x40);
    assert_eq!(b[9], 0x40);
    assert_eq!(b[7], 0x01);
    assert_eq!(b[15], 0x01);
    for i in [2usize, 3, 4, 5, 6, 10, 11, 12, 13, 14] {
        assert_eq!(b[i], 0);
    }
}

#[test]
fn masked_pattern_with_all_colors_matches_unmasked() {
    let colors = checkerboard();
    let mut masked = [None; 64];
    for i in 0..64 {
        masked[i] = Some(colors[i]);
    }
    assert_eq!(Pattern::new_masked(masked).as_bytes(), Pattern::new_unmasked(colors).as_bytes());
}

#[test]
fn raw_pattern_round_trip() {
    let arr: [u8; 16] = [1, 2, 3, 4, 5, 6, 7, 8, 9, 10, 11, 12, 13, 14, 15, 16];
    assert_eq!(Pattern::from_raw_array(arr).as_bytes(), &arr);
    assert_eq!(Pattern::new(arr).as_bytes(), &arr);
}

#[test]
fn pixel_colors() {
    assert!(!PixelColor::black().to_bit());
    assert!(PixelColor::white().to_bit());
    assert_eq!(PixelColor::from_bit(true), PixelColor::white());
    assert_eq!(SolidColor::Black.to_c_value(), 0);
    assert_eq!(SolidColor::White.to_c_value(), 1);
    assert_eq!(SolidColor::Clear.to_c_value(), 2);
    assert_eq!(SolidColor::XOR.to_c_value(), 3);
    let p = Pattern::new([0; 16]);
    assert!(matches!(Color::Pattern(&p), Color::Pattern(_)));
    assert!(matches!(Color::Solid(SolidColor::White), Color::Solid(SolidColor::White)));
}

#[test]
fn bitmap_data_getters() {
    let d = BitmapData::new(20, 3, 4, 1);
    assert_eq!(d.width(), 20);
    assert_eq!(d.height(), 3);
    assert_eq!(d.row_bytes(), 4);
    assert!(d.has_mask());
    assert!(!BitmapData::new(20, 3, 4, 0).has_mask());
}

#[test]
fn read_pixels() {
    let data = BitmapData::new(12, 2, 2, 0);
    let bytes = [0b1000_0001u8, 0b0001_0000, 0, 0b0000_0100];
    let pixels = BitmapPixels::new(data, &bytes);
    assert!(pixels.get(0, 0).to_bit());
    assert!(!pixels.get(1, 0).to_bit());
    assert!(pixels.get(7, 0).to_bit());
    assert!(pixels.get(11, 0).to_bit());
    assert!(!pixels.get(11, 1).to_bit());
    assert!(pixels.get(13, 1).to_bit());
}

#[test]
fn set_then_get_pixel() {
    let data = BitmapData::new(16, 2, 2, 0);
    let mut bytes = vec![0u8, 0xff, 0x0f, 0];
    {
        let mut pixels = BitmapPixelsMut::new(data, &mut bytes[..]);
        pixels.set(3, 0, PixelColor::white());
        assert!(pixels.get(3, 0).to_bit());
        pixels.set(8, 0, PixelColor::black());
        assert!(!pixels.get(8, 0).to_bit());
        assert!(pixels.get(9, 0).to_bit());
        pixels.set(4, 1, PixelColor::black());
        assert!(!pixels.get(4, 1).to_bit());
        assert!(pixels.get(5, 1).to_bit());
        pixels.set(4, 1, PixelColor::white());
        assert!(pixels.get(4, 1).to_bit());
    }
    assert_eq!(bytes, vec![0x10, 0x7f, 0x0f, 0]);
}

#[test]
fn pixel_color_debug_strings() {
    assert_eq!(PixelColor::black().to_debug_string(), "PixelColor(\"BLACK\")");
    assert_eq!(PixelColor::white().to_debug_string(), "PixelColor(\"WHITE\")");
}
