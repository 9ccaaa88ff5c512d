use daily_wallpaper::modifiers::layout::{
    compute_layout, LayoutBox, OverlayError, StyleConfig, DEFAULT_BOX_WIDTH, DEFAULT_FONT_SIZE, TOP_MARGIN,
};

fn style(font_size: i32, box_width: i64) -> StyleConfig {
    StyleConfig { font_family: String::from("Arial"), font_size, box_width }
}

#[test]
fn default_style_is_arial_22_in_300() {
    let style = StyleConfig::default();
    assert_eq!(style.font_family, "Arial");
    assert_eq!(style.font_size, 22_000);
    assert_eq!(style.box_width, 300_000);
    assert_eq!(DEFAULT_FONT_SIZE, 22_000);
    assert_eq!(DEFAULT_BOX_WIDTH, 300_000);
    assert_eq!(TOP_MARGIN, 10);
}

#[test]
fn layout_of_default_style_on_full_hd() {
    let laid = compute_layout(1920, 1080, &StyleConfig::default(), 5);
    assert_eq!(laid, Ok(LayoutBox { x_offset: 1620, y_offset: 10, width: 300, height: 132 }));
}

#[test]
fn layout_height_is_rounded_down() {
    // 26.4 pixels a line: 3 lines are 79.2 pixels.
    let laid = compute_layout(400, 400, &StyleConfig::default(), 3).unwrap();
    assert_eq!(laid.height, 79);
    // 22.5 pixels make lines of 27 pixels.
    let laid = compute_layout(400, 400, &style(22_500, 300_000), 3).unwrap();
    assert_eq!(laid.height, 81);
}

#[test]
fn layout_with_fraction_of_a_pixel_in_width() {
    let laid = compute_layout(1920, 1080, &style(22_000, 300_500), 1).unwrap();
    assert_eq!(laid.x_offset, 1619);
    assert_eq!(laid.width, 300);
    assert_eq!(laid.y_offset, 10);
    assert_eq!(laid.height, 26);
}

#[test]
fn layout_x_offset_is_width_less_box_width() {
    for width in [300u32, 301, 640, 1920, 4096] {
        for box_width in [1u32, 100, 299, 300] {
            let laid = compute_layout(width, 1000, &style(10_000, box_width as i64 * 1000), 2).unwrap();
            assert_eq!(laid.x_offset, width - box_width);
            assert_eq!(laid.width, box_width);
        }
    }
}

#[test]
fn box_as_wide_as_the_image_starts_at_zero() {
    let laid = compute_layout(300, 100, &StyleConfig::default(), 1).unwrap();
    assert_eq!(laid, LayoutBox { x_offset: 0, y_offset: 10, width: 300, height: 26 });
}

#[test]
fn zero_font_size_is_invalid_style() {
    assert_eq!(compute_layout(1920, 1080, &style(0, 300_000), 5), Err(OverlayError::InvalidStyle));
    assert_eq!(compute_layout(1920, 1080, &style(-1, 300_000), 5), Err(OverlayError::InvalidStyle));
}

#[test]
fn negative_box_width_is_invalid_style() {
    assert_eq!(compute_layout(1920, 1080, &style(22_000, -1_000), 5), Err(OverlayError::InvalidStyle));
    assert_eq!(compute_layout(1920, 1080, &style(22_000, 0), 5), Err(OverlayError::InvalidStyle));
}

#[test]
fn invalid_style_comes_before_bounds() {
    assert_eq!(compute_layout(10, 10, &style(0, 300_000), 500), Err(OverlayError::InvalidStyle));
}

#[test]
fn box_wider_than_image_exceeds_bounds() {
    assert_eq!(compute_layout(299, 1080, &StyleConfig::default(), 1), Err(OverlayError::BoundsExceeded));
    assert_eq!(
        compute_layout(300, 1080, &style(22_000, 300_001), 1),
        Err(OverlayError::BoundsExceeded)
    );
    assert_eq!(compute_layout(0, 0, &StyleConfig::default(), 0), Err(OverlayError::BoundsExceeded));
}

#[test]
fn box_taller_than_image_exceeds_bounds() {
    // Five lines are 132 pixels, which start 10 pixels below the top.
    assert!(compute_layout(1920, 142, &StyleConfig::default(), 5).is_ok());
    assert_eq!(compute_layout(1920, 141, &StyleConfig::default(), 5), Err(OverlayError::BoundsExceeded));
    assert_eq!(compute_layout(1920, 9, &StyleConfig::default(), 0), Err(OverlayError::BoundsExceeded));
    assert!(compute_layout(1920, 10, &StyleConfig::default(), 0).is_ok());
}

#[test]
fn largest_inputs_do_not_overflow() {
    assert_eq!(
        compute_layout(u32::MAX, u32::MAX, &style(i32::MAX, i64::MAX), u32::MAX),
        Err(OverlayError::BoundsExceeded)
    );
    let laid = compute_layout(u32::MAX, u32::MAX, &style(1, u32::MAX as i64 * 1000), u32::MAX).unwrap();
    assert_eq!(laid.x_offset, 0);
    assert_eq!(laid.width, u32::MAX);
    assert_eq!(laid.height, 4_294_967);
}
