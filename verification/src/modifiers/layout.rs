//! Where the caption box lies on a picture.
//!
//! Lengths that the user configures (font size, box width) are fixed-point numbers:
//! integers that count thousandths of a pixel. Everything derived for the bitmap is in
//! whole pixels, rounded down.

use crate::bitmap::Grid;
use vstd::prelude::*;
use vstd::string::*;

verus! {

/// How many units of a configured length make one pixel.
pub const UNITS_PER_PIXEL: u64 = 1000;

/// The distance in pixels between the top of the picture and the caption box.
pub const TOP_MARGIN: u32 = 10;

/// The font size used when none is configured: 22 pixels.
pub const DEFAULT_FONT_SIZE: i32 = 22_000;

/// The box width used when none is configured: 300 pixels.
pub const DEFAULT_BOX_WIDTH: i64 = 300_000;

/// Added to the body's font size for the title: 2 pixels.
pub const TITLE_FONT_SIZE_BONUS: i32 = 2_000;

/// Added to the body's line height for the title: 2.4 pixels.
pub const TITLE_LINE_HEIGHT_BONUS: i64 = 2_400;

/// How a caption is drawn. `font_size` and `box_width` count thousandths of a pixel.
#[derive(Clone, Debug)]
pub struct StyleConfig {
    pub font_family: String,
    pub font_size: i32,
    pub box_width: i64,
}

impl Default for StyleConfig {
    /// Arial at 22 pixels in a box 300 pixels wide.
    fn default() -> (style: StyleConfig)
        ensures
            style.font_family@ == "Arial"@,
            style.font_size == DEFAULT_FONT_SIZE,
            style.box_width == DEFAULT_BOX_WIDTH,
    {
        StyleConfig {
            font_family: String::from_str("Arial"),
            font_size: DEFAULT_FONT_SIZE,
            box_width: DEFAULT_BOX_WIDTH,
        }
    }
}

/// Why a caption cannot be laid over a picture.
#[derive(Clone, Copy, Debug, PartialEq, Eq, Structural)]
pub enum OverlayError {
    /// The font size or the box width is not positive.
    InvalidStyle,
    /// The caption box does not lie inside the picture.
    BoundsExceeded,
}

/// The rectangle of pixels into which a caption is rendered.
#[derive(Clone, Copy, Debug, PartialEq, Eq, Structural)]
pub struct LayoutBox {
    pub x_offset: u32,
    pub y_offset: u32,
    pub width: u32,
    pub height: u32,
}

impl LayoutBox {
    /// Whether the whole box lies inside `grid`.
    pub open spec fn within(self, grid: Grid) -> bool {
        self.x_offset + self.width <= grid.width && self.y_offset + self.height <= grid.height
    }

    /// Whether the pixel `(x, y)` of the picture belongs to the box.
    pub open spec fn covers(self, x: int, y: int) -> bool {
        self.x_offset <= x < self.x_offset + self.width && self.y_offset <= y < self.y_offset
            + self.height
    }

    /// The number of pixels in the box.
    pub open spec fn area(self) -> nat {
        (self.width * self.height) as nat
    }
}

/// The height of one line of body text, 1.2 times the font size, in thousandths of a pixel.
pub open spec fn line_height(font_size: int) -> int {
    font_size * 6 / 5
}

/// The height in whole pixels of `lines` lines of body text.
pub open spec fn text_height(font_size: int, lines: int) -> int {
    line_height(font_size) * lines / 1000
}

/// A style can be rendered if its font size and its box width are positive.
pub open spec fn style_is_valid(font_size: int, box_width: int) -> bool {
    font_size > 0 && box_width > 0
}

/// The column of the picture at which the box starts: the picture's width less the box
/// width, in whole pixels.
pub open spec fn x_offset_of(image_width: int, box_width: int) -> int {
    (image_width * 1000 - box_width) / 1000
}

/// Whether a box of the given style and number of lines lies inside a picture of the
/// given size.
pub open spec fn box_fits(
    image_width: int,
    image_height: int,
    font_size: int,
    box_width: int,
    lines: int,
) -> bool {
    box_width <= image_width * 1000 && TOP_MARGIN + text_height(font_size, lines) <= image_height
}

/// The caption box for a picture of the given size, or the reason why there is none.
/// The box is anchored to the right edge, `TOP_MARGIN` pixels below the top.
pub open spec fn layout_of(
    image_width: int,
    image_height: int,
    font_size: int,
    box_width: int,
    lines: int,
) -> Result<LayoutBox, OverlayError> {
    if !style_is_valid(font_size, box_width) {
        Err(OverlayError::InvalidStyle)
    } else if !box_fits(image_width, image_height, font_size, box_width, lines) {
        Err(OverlayError::BoundsExceeded)
    } else {
        Ok(
            LayoutBox {
                x_offset: x_offset_of(image_width, box_width) as u32,
                y_offset: TOP_MARGIN,
                width: (box_width / 1000) as u32,
                height: text_height(font_size, lines) as u32,
            },
        )
    }
}

/// A style whose font size or box width is zero or negative is rejected as invalid,
/// whatever the picture and the text.
pub proof fn lemma_invalid_style_is_rejected(
    image_width: int,
    image_height: int,
    font_size: int,
    box_width: int,
    lines: int,
)
    requires
        font_size <= 0 || box_width <= 0,
    ensures
        layout_of(image_width, image_height, font_size, box_width, lines) == Err::<LayoutBox, OverlayError>(
            OverlayError::InvalidStyle,
        ),
{
}

/// A caption box, where there is one, lies inside the picture.
pub proof fn lemma_layout_within(image_width: int, image_height: int, font_size: int, box_width: int, lines: int)
    requires
        0 <= image_width <= u32::MAX,
        0 <= image_height <= u32::MAX,
        0 <= lines,
        layout_of(image_width, image_height, font_size, box_width, lines) is Ok,
    ensures
        ({
            let region = layout_of(image_width, image_height, font_size, box_width, lines)->Ok_0;
            &&& region.x_offset == x_offset_of(image_width, box_width)
            &&& region.width == box_width / 1000
            &&& region.height == text_height(font_size, lines)
            &&& region.x_offset + region.width <= image_width
            &&& region.y_offset + region.height <= image_height
        }),
{
    lemma_x_offset_not_negative(image_width, box_width);
    assert(line_height(font_size) * lines >= 0) by (nonlinear_arith)
        requires
            line_height(font_size) >= 0,
            lines >= 0,
    ;
}

/// A box no wider than the picture starts at a column that is not negative: the column
/// `x_offset` is the picture's width less the box width, rounded down to a whole pixel,
/// and the box ends at or before the picture's right edge.
pub proof fn lemma_x_offset_not_negative(image_width: int, box_width: int)
    requires
        0 <= image_width,
        0 < box_width <= image_width * 1000,
    ensures
        0 <= x_offset_of(image_width, box_width),
        x_offset_of(image_width, box_width) * 1000 <= image_width * 1000 - box_width,
        image_width * 1000 - box_width < (x_offset_of(image_width, box_width) + 1) * 1000,
        x_offset_of(image_width, box_width) + box_width / 1000 <= image_width,
        box_width % 1000 == 0 ==> x_offset_of(image_width, box_width) == image_width - box_width
            / 1000,
{
}

/// Computes the caption box for a picture `image_width` by `image_height` pixels whose
/// caption was laid out in `line_count` lines.
pub fn compute_layout(image_width: u32, image_height: u32, style: &StyleConfig, line_count: u32) -> (laid:
    Result<LayoutBox, OverlayError>)
    ensures
        laid == layout_of(
            image_width as int,
            image_height as int,
            style.font_size as int,
            style.box_width as int,
            line_count as int,
        ),
        laid is Ok ==> laid->Ok_0.x_offset + laid->Ok_0.width <= image_width,
        laid is Ok ==> laid->Ok_0.y_offset + laid->Ok_0.height <= image_height,
{
    if style.font_size <= 0 || style.box_width <= 0 {
        return Err(OverlayError::InvalidStyle);
    }
    let box_width: u64 = style.box_width as u64;
    let full_width: u64 = image_width as u64 * UNITS_PER_PIXEL;
    let line: u64 = style.font_size as u64 * 6 / 5;
    assert(line * line_count <= 0xFFFF_FFFF * 0xFFFF_FFFF) by (nonlinear_arith)
        requires
            0 <= line <= 0xFFFF_FFFF,
            0 <= line_count <= 0xFFFF_FFFF,
    ;
    let height: u64 = line * line_count as u64 / 1000;
    if box_width > full_width || height + TOP_MARGIN as u64 > image_height as u64 {
        return Err(OverlayError::BoundsExceeded);
    }
    proof {
        lemma_x_offset_not_negative(image_width as int, style.box_width as int);
    }
    Ok(
        LayoutBox {
            x_offset: ((full_width - box_width) / UNITS_PER_PIXEL) as u32,
            y_offset: TOP_MARGIN,
            width: (box_width / UNITS_PER_PIXEL) as u32,
            height: height as u32,
        },
    )
}

} // verus!
