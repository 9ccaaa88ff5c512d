//! Drawing a picture's caption over its top-right corner.
//!
//! Shaping and rasterising text is the work of a text engine that this library does not
//! contain. The modifier says what to hand to it and decides everything else, in three
//! steps: `layout_request` gives the text runs to shape; `text_color` takes the number
//! of lines that shaping produced and gives the colour to rasterise with; `draw` takes
//! the rasterised cells and blends them into the picture.

use crate::bitmap::Bitmap;
use crate::config::Config;
use crate::modifiers::compositing::{composite_cells, composite_of, GlyphCell};
use crate::modifiers::contrast::{choose_text_color, text_color_of, Rgb};
use crate::modifiers::layout::{
    compute_layout,
    layout_of,
    line_height,
    style_is_valid,
    OverlayError,
    StyleConfig,
    DEFAULT_BOX_WIDTH,
    DEFAULT_FONT_SIZE,
    TITLE_FONT_SIZE_BONUS,
    TITLE_LINE_HEIGHT_BONUS,
};
use crate::modifiers::ImageModifierError;
use crate::picture_io::Metadata;
use vstd::prelude::*;
use vstd::string::*;

verus! {

/// A piece of text with the size of its font and the height of its lines, both in
/// thousandths of a pixel.
#[derive(Debug)]
pub struct TextRun {
    pub text: String,
    pub bold: bool,
    pub font_size: i64,
    pub line_height: i64,
}

/// What the text engine is asked to shape: the title, set in bold and larger, then the
/// body, both in the same font and wrapped to `wrap_width` thousandths of a pixel.
#[derive(Debug)]
pub struct LayoutRequest {
    pub font_family: String,
    pub wrap_width: i64,
    pub title: TextRun,
    pub body: TextRun,
}

/// The text of an optional part of a caption: nothing where the part is missing.
pub open spec fn part_text(part: Option<String>) -> Seq<char> {
    match part {
        Some(text) => text@,
        None => Seq::empty(),
    }
}

/// The title as it is drawn: after an information sign and a space, and followed by an
/// empty line.
pub open spec fn title_text(title: Option<String>) -> Seq<char> {
    "\u{24d8} "@ + part_text(title) + "\n\n"@
}

/// Draws the title and the description of a picture over the picture.
pub struct MetaDataModifier<'a> {
    metadata: Metadata,
    config: &'a Config,
}

impl<'a> MetaDataModifier<'a> {
    /// The caption that is drawn.
    pub closed spec fn caption(self) -> Metadata {
        self.metadata
    }

    /// The settings that the style is taken from.
    pub closed spec fn settings(self) -> Config {
        *self.config
    }

    /// The font's name: the configured one, or Arial.
    pub open spec fn font_family_text(self) -> Seq<char> {
        match self.settings().metadata_font {
            Some(name) => name@,
            None => "Arial"@,
        }
    }

    /// The font size in thousandths of a pixel: the configured one, or 22 pixels.
    pub open spec fn font_size(self) -> int {
        match self.settings().metadata_font_size {
            Some(size) => size as int,
            None => DEFAULT_FONT_SIZE as int,
        }
    }

    /// The box width in thousandths of a pixel: the configured one, or 300 pixels.
    pub open spec fn box_width(self) -> int {
        match self.settings().metadata_width {
            Some(width) => width as int,
            None => DEFAULT_BOX_WIDTH as int,
        }
    }

    /// The picture after drawing `cells` for a caption of `lines` lines, or the reason
    /// why nothing is drawn.
    pub open spec fn drawn(self, grid: crate::bitmap::Grid, lines: int, cells: Seq<GlyphCell>) -> Result<
        crate::bitmap::Grid,
        OverlayError,
    > {
        match layout_of(grid.width as int, grid.height as int, self.font_size(), self.box_width(), lines) {
            Ok(region) => Ok(composite_of(grid, region, cells)),
            Err(error) => Err(error),
        }
    }

    /// A modifier that draws `metadata` in the style that `config` asks for.
    pub fn new(metadata: Metadata, config: &'a Config) -> (modifier: Self)
        ensures
            modifier.caption() == metadata,
            modifier.settings() == *config,
    {
        MetaDataModifier { metadata, config }
    }

    /// The style of the caption, with the defaults for what is not configured.
    pub fn style(&self) -> (style: StyleConfig)
        ensures
            style.font_family@ == self.font_family_text(),
            style.font_size == self.font_size(),
            style.box_width == self.box_width(),
    {
        let font_family = match &self.config.metadata_font {
            Some(name) => name.clone(),
            None => String::from_str("Arial"),
        };
        let font_size = match self.config.metadata_font_size {
            Some(size) => size,
            None => DEFAULT_FONT_SIZE,
        };
        let box_width = match self.config.metadata_width {
            Some(width) => width,
            None => DEFAULT_BOX_WIDTH,
        };
        StyleConfig { font_family, font_size, box_width }
    }

    /// What to shape: the title in bold, in a font 2 pixels larger than the body's and with lines
    /// 2.4 pixels higher, then the description, whose lines are 1.2 times as high as its
    /// font. Fails with `InvalidStyle` where the font size or the box width is not
    /// positive.
    pub fn layout_request(&self) -> (request: Result<LayoutRequest, OverlayError>)
        ensures
            request is Ok <==> style_is_valid(self.font_size(), self.box_width()),
            request is Err ==> request == Err::<LayoutRequest, OverlayError>(OverlayError::InvalidStyle),
            request is Ok ==> {
                let asked = request->Ok_0;
                &&& asked.font_family@ == self.font_family_text()
                &&& asked.wrap_width == self.box_width()
                &&& asked.title.text@ == title_text(self.caption().title)
                &&& asked.title.bold
                &&& asked.title.font_size == self.font_size() + TITLE_FONT_SIZE_BONUS
                &&& asked.title.line_height == line_height(self.font_size()) + TITLE_LINE_HEIGHT_BONUS
                &&& asked.body.text@ == part_text(self.caption().description)
                &&& !asked.body.bold
                &&& asked.body.font_size == self.font_size()
                &&& asked.body.line_height == line_height(self.font_size())
            },
    {
        let style = self.style();
        if style.font_size <= 0 || style.box_width <= 0 {
            return Err(OverlayError::InvalidStyle);
        }
        let body_height: i64 = style.font_size as i64 * 6 / 5;
        let mut title = String::from_str("\u{24d8} ");
        match &self.metadata.title {
            Some(text) => title.append(text.as_str()),
            None => {},
        }
        title.append("\n\n");
        let body = match &self.metadata.description {
            Some(text) => text.clone(),
            None => String::new(),
        };
        Ok(
            LayoutRequest {
                font_family: style.font_family,
                wrap_width: style.box_width,
                title: TextRun {
                    text: title,
                    bold: true,
                    font_size: style.font_size as i64 + TITLE_FONT_SIZE_BONUS as i64,
                    line_height: body_height + TITLE_LINE_HEIGHT_BONUS,
                },
                body: TextRun {
                    text: body,
                    bold: false,
                    font_size: style.font_size as i64,
                    line_height: body_height,
                },
            },
        )
    }

    /// The colour in which to rasterise a caption that was laid out in `line_count`
    /// lines: the one that stands out against the part of `image` behind the caption
    /// box. Fails with `InvalidStyle` where the font size or the box width is not
    /// positive, and with `BoundsExceeded` where the box does not lie inside `image`.
    pub fn text_color(&self, image: &Bitmap, line_count: u32) -> (chosen: Result<Rgb, OverlayError>)
        ensures
            chosen == match layout_of(
                image@.width as int,
                image@.height as int,
                self.font_size(),
                self.box_width(),
                line_count as int,
            ) {
                Ok(region) => Ok::<Rgb, OverlayError>(text_color_of(image@, region)),
                Err(error) => Err(error),
            },
    {
        let style = self.style();
        match compute_layout(image.width(), image.height(), &style, line_count) {
            Ok(region) => Ok(choose_text_color(image, &region)),
            Err(error) => Err(error),
        }
    }

    /// Blends the rasterised `cells` of a caption of `line_count` lines into `image`.
    /// Fails as `text_color` does, and then leaves `image` as it is. No pixel outside
    /// the caption box is changed.
    pub fn draw(&self, image: &mut Bitmap, line_count: u32, cells: &Vec<GlyphCell>) -> (done: Result<
        (),
        OverlayError,
    >)
        ensures
            match self.drawn(old(image)@, line_count as int, cells@) {
                Ok(grid) => done is Ok && final(image)@ == grid,
                Err(error) => done == Err::<(), OverlayError>(error) && final(image)@ == old(image)@,
            },
            final(image)@.well_formed(),
            final(image)@.width == old(image)@.width,
            final(image)@.height == old(image)@.height,
            forall|x: int, y: int|
                old(image)@.contains(x, y) && !(layout_of(
                    old(image)@.width as int,
                    old(image)@.height as int,
                    self.font_size(),
                    self.box_width(),
                    line_count as int,
                ) matches Ok(region) && region.covers(x, y)) ==> #[trigger] final(image)@.at(x, y)
                    == old(image)@.at(x, y),
    {
        let style = self.style();
        match compute_layout(image.width(), image.height(), &style, line_count) {
            Ok(region) => {
                composite_cells(image, &region, cells);
                proof {
                    use_type_invariant(&*image);
                }
                Ok(())
            },
            Err(error) => Err(error),
        }
    }
}

/// The error that a modifier reports where the caption cannot be drawn.
pub fn overlay_failure(error: OverlayError) -> (reported: ImageModifierError)
    ensures
        error == OverlayError::InvalidStyle ==> (reported matches ImageModifierError::InvalidMetadata(
            detail,
        ) && detail@ == "Font size and box width must be greater than zero"@),
        error == OverlayError::BoundsExceeded ==> (reported matches ImageModifierError::ImageProcessingError(
            detail,
        ) && detail@ == "Caption box does not fit inside the image"@),
{
    match error {
        OverlayError::InvalidStyle => ImageModifierError::InvalidMetadata(
            String::from_str("Font size and box width must be greater than zero"),
        ),
        OverlayError::BoundsExceeded => ImageModifierError::ImageProcessingError(
            String::from_str("Caption box does not fit inside the image"),
        ),
    }
}

} // verus!
