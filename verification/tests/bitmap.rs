use daily_wallpaper::bitmap::{Bitmap, Rgba};

fn px(r: u8, g: u8, b: u8, a: u8) -> Rgba {
    Rgba { r, g, b, a }
}

#[test]
fn filled_bitmap_has_size_and_pixel() {
    let image = Bitmap::filled(3, 2, px(1, 2, 3, 4)).unwrap();
    assert_eq!(image.width(), 3);
    assert_eq!(image.height(), 2);
    for y in 0..2 {
        for x in 0..3 {
            assert_eq!(image.get_pixel(x, y), px(1, 2, 3, 4));
        }
    }
}

#[test]
fn empty_bitmap_is_allowed() {
    let image = Bitmap::filled(0, 7, px(0, 0, 0, 0)).unwrap();
    assert_eq!(image.width(), 0);
    assert_eq!(image.height(), 7);
    assert_eq!(image.to_raw(), Vec::<u8>::new());
    assert_eq!(image.pixel_at(0, 0), None);
}

#[test]
fn from_raw_reads_rows_of_rgba() {
    let bytes: Vec<u8> = (0u8..24).collect();
    let image = Bitmap::from_raw(3, 2, &bytes).unwrap();
    assert_eq!(image.get_pixel(0, 0), px(0, 1, 2, 3));
    assert_eq!(image.get_pixel(2, 0), px(8, 9, 10, 11));
    assert_eq!(image.get_pixel(0, 1), px(12, 13, 14, 15));
    assert_eq!(image.get_pixel(2, 1), px(20, 21, 22, 23));
}

#[test]
fn from_raw_rejects_wrong_length() {
    let bytes: Vec<u8> = vec![0; 23];
    assert!(Bitmap::from_raw(3, 2, &bytes).is_none());
    let bytes: Vec<u8> = vec![0; 25];
    assert!(Bitmap::from_raw(3, 2, &bytes).is_none());
    let bytes: Vec<u8> = vec![0; 24];
    assert!(Bitmap::from_raw(2, 3, &bytes).is_some());
    assert!(Bitmap::from_raw(0, 0, &Vec::new()).is_some());
    assert!(Bitmap::from_raw(u32::MAX, u32::MAX, &bytes).is_none());
}

#[test]
fn to_raw_round_trips() {
    let bytes: Vec<u8> = (0u8..48).map(|v| v.wrapping_mul(5)).collect();
    let image = Bitmap::from_raw(4, 3, &bytes).unwrap();
    assert_eq!(image.to_raw(), bytes);
}

#[test]
fn put_pixel_changes_one_pixel() {
    let mut image = Bitmap::filled(4, 3, px(9, 9, 9, 9)).unwrap();
    image.put_pixel(2, 1, px(1, 2, 3, 4));
    for y in 0..3 {
        for x in 0..4 {
            let expected = if (x, y) == (2, 1) { px(1, 2, 3, 4) } else { px(9, 9, 9, 9) };
            assert_eq!(image.get_pixel(x, y), expected);
        }
    }
    assert_eq!(image.width(), 4);
    assert_eq!(image.height(), 3);
}

#[test]
fn pixel_at_checks_bounds() {
    let image = Bitmap::filled(2, 2, px(5, 6, 7, 8)).unwrap();
    assert_eq!(image.pixel_at(1, 1), Some(px(5, 6, 7, 8)));
    assert_eq!(image.pixel_at(2, 0), None);
    assert_eq!(image.pixel_at(0, 2), None);
    assert_eq!(image.pixel_at(u32::MAX, u32::MAX), None);
}
