use daily_wallpaper::bitmap::{Bitmap, Rgba};
use daily_wallpaper::modifiers::compositing::{blend, blend_channel, composite_cell, composite_cells, GlyphCell};
use daily_wallpaper::modifiers::layout::LayoutBox;

fn px(r: u8, g: u8, b: u8, a: u8) -> Rgba {
    Rgba { r, g, b, a }
}

fn cell(x: i32, y: i32, color: Rgba) -> GlyphCell {
    GlyphCell { x, y, width: 1, height: 1, color }
}

fn region() -> LayoutBox {
    LayoutBox { x_offset: 4, y_offset: 2, width: 4, height: 3 }
}

fn canvas() -> Bitmap {
    let mut bytes = Vec::new();
    for y in 0..6u8 {
        for x in 0..8u8 {
            bytes.extend_from_slice(&[x * 10, y * 10, x + y, 100 + x]);
        }
    }
    Bitmap::from_raw(8, 6, &bytes).unwrap()
}

#[test]
fn blend_half_coverage_over_black() {
    let blended = blend(px(200, 100, 50, 128), px(0, 0, 0, 255));
    assert_eq!(blended, px(100, 50, 25, 255));
    assert_eq!(blend_channel(200, 0, 128), 100);
    assert_eq!(blend_channel(100, 0, 128), 50);
    assert_eq!(blend_channel(50, 0, 128), 25);
}

#[test]
fn blend_rounds_down() {
    // (255 * 1 + 0 * 254) / 255 = 1, (254 * 1) / 255 = 0.
    assert_eq!(blend_channel(255, 0, 1), 1);
    assert_eq!(blend_channel(254, 0, 1), 0);
    // (10 * 100 + 200 * 155) / 255 = 32000 / 255 = 125.49
    assert_eq!(blend_channel(10, 200, 100), 125);
}

#[test]
fn blend_with_full_coverage_is_the_foreground() {
    for fg in [0u8, 1, 77, 254, 255] {
        for bg in [0u8, 3, 128, 255] {
            assert_eq!(blend_channel(fg, bg, 255), fg);
        }
    }
    assert_eq!(blend(px(12, 34, 56, 255), px(200, 201, 202, 7)), px(12, 34, 56, 255));
}

#[test]
fn blend_without_coverage_is_the_background() {
    for fg in [0u8, 1, 77, 254, 255] {
        for bg in [0u8, 3, 128, 255] {
            assert_eq!(blend_channel(fg, bg, 0), bg);
        }
    }
}

#[test]
fn blend_keeps_the_larger_alpha() {
    assert_eq!(blend(px(0, 0, 0, 10), px(0, 0, 0, 200)).a, 200);
    assert_eq!(blend(px(0, 0, 0, 200), px(0, 0, 0, 10)).a, 200);
    assert_eq!(blend(px(0, 0, 0, 77), px(0, 0, 0, 77)).a, 77);
}

#[test]
fn cell_is_drawn_at_its_place_in_the_box() {
    let mut image = canvas();
    let before = canvas();
    composite_cell(&mut image, &region(), &cell(1, 2, px(200, 100, 50, 255)));
    for y in 0..6 {
        for x in 0..8 {
            if (x, y) == (5, 4) {
                assert_eq!(image.get_pixel(x, y), px(200, 100, 50, 255));
            } else {
                assert_eq!(image.get_pixel(x, y), before.get_pixel(x, y));
            }
        }
    }
}

#[test]
fn cell_is_blended_over_the_background() {
    let mut image = Bitmap::filled(8, 6, px(0, 0, 0, 255)).unwrap();
    composite_cell(&mut image, &region(), &cell(0, 0, px(200, 100, 50, 128)));
    assert_eq!(image.get_pixel(4, 2), px(100, 50, 25, 255));
}

#[test]
fn transparent_cell_changes_nothing() {
    let mut image = canvas();
    composite_cell(&mut image, &region(), &cell(1, 1, px(255, 255, 255, 0)));
    assert_eq!(image.to_raw(), canvas().to_raw());
}

#[test]
fn wide_cell_is_dropped() {
    let mut image = canvas();
    let wide = GlyphCell { x: 1, y: 1, width: 2, height: 1, color: px(255, 255, 255, 255) };
    composite_cell(&mut image, &region(), &wide);
    assert_eq!(image.to_raw(), canvas().to_raw());
}

#[test]
fn tall_cell_is_dropped() {
    let mut image = canvas();
    let tall = GlyphCell { x: 1, y: 1, width: 1, height: 2, color: px(255, 255, 255, 255) };
    composite_cell(&mut image, &region(), &tall);
    assert_eq!(image.to_raw(), canvas().to_raw());
    let flat = GlyphCell { x: 1, y: 1, width: 0, height: 1, color: px(255, 255, 255, 255) };
    composite_cell(&mut image, &region(), &flat);
    assert_eq!(image.to_raw(), canvas().to_raw());
}

#[test]
fn cells_outside_the_box_are_dropped() {
    let mut image = canvas();
    let white = px(255, 255, 255, 255);
    let outside = vec![
        cell(-1, 0, white),
        cell(0, -1, white),
        cell(4, 0, white),
        cell(0, 3, white),
        cell(i32::MAX, 0, white),
        cell(i32::MIN, i32::MIN, white),
    ];
    composite_cells(&mut image, &region(), &outside);
    assert_eq!(image.to_raw(), canvas().to_raw());
}

#[test]
fn compositing_writes_only_inside_the_box() {
    let mut image = canvas();
    let before = canvas();
    let mut cells = Vec::new();
    for y in -2..6 {
        for x in -2..8 {
            cells.push(cell(x, y, px(250, 240, 230, 200)));
        }
    }
    composite_cells(&mut image, &region(), &cells);
    for y in 0..6u32 {
        for x in 0..8u32 {
            let inside = (4..8).contains(&x) && (2..5).contains(&y);
            if inside {
                assert_eq!(image.get_pixel(x, y), blend(px(250, 240, 230, 200), before.get_pixel(x, y)));
            } else {
                assert_eq!(image.get_pixel(x, y), before.get_pixel(x, y));
            }
        }
    }
}

#[test]
fn cells_are_drawn_in_order() {
    let mut image = Bitmap::filled(8, 6, px(0, 0, 0, 0)).unwrap();
    let first = px(200, 0, 0, 128);
    let second = px(0, 100, 0, 64);
    composite_cells(&mut image, &region(), &vec![cell(0, 0, first), cell(0, 0, second)]);
    let expected = blend(second, blend(first, px(0, 0, 0, 0)));
    assert_eq!(image.get_pixel(4, 2), expected);
    assert_eq!(expected, px(74, 25, 0, 128));
}

#[test]
fn drawing_twice_blends_twice() {
    let mut once = Bitmap::filled(8, 6, px(0, 0, 0, 255)).unwrap();
    let cells = vec![cell(0, 0, px(200, 100, 50, 128))];
    composite_cells(&mut once, &region(), &cells);
    let mut twice = Bitmap::filled(8, 6, px(0, 0, 0, 255)).unwrap();
    composite_cells(&mut twice, &region(), &cells);
    composite_cells(&mut twice, &region(), &cells);
    assert_eq!(once.get_pixel(4, 2), px(100, 50, 25, 255));
    assert_eq!(twice.get_pixel(4, 2), px(150, 75, 37, 255));
}

#[test]
fn no_cells_change_nothing() {
    let mut image = canvas();
    composite_cells(&mut image, &region(), &Vec::new());
    assert_eq!(image.to_raw(), canvas().to_raw());
}
