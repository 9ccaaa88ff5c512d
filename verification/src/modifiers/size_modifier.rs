//! Resizing a picture so that it fills the screen.

use crate::bitmap::{pixels_of_bytes, Bitmap, Grid};
use crate::modifiers::{ImageModifier, ImageModifierError};
use vstd::prelude::*;
use vstd::string::*;

verus! {

/// A modifier that resizes a picture to the given dimensions: the picture is scaled,
/// keeping its proportions, until it covers the target, and what sticks out is cut off.
pub struct SizeModifier {
    width: u32,
    height: u32,
}

/// The detail of the error for a target without width or without height.
pub open spec fn zero_target_text() -> Seq<char> {
    "Width and height must be greater than zero"@
}

/// The detail of the error for sizes that cannot be resampled on this machine.
pub open spec fn unsupported_size_text() -> Seq<char> {
    "Image dimensions are not supported"@
}

/// The detail of the error for a resampled picture that is not of the target size.
pub open spec fn unexpected_result_text() -> Seq<char> {
    "Resized image does not have the requested dimensions"@
}

/// The texts of the two errors of resizing are not the same text.
pub proof fn lemma_error_texts_differ()
    ensures
        zero_target_text() != unsupported_size_text(),
{
    reveal_strlit("Width and height must be greater than zero");
    reveal_strlit("Image dimensions are not supported");
    assert(zero_target_text().len() != unsupported_size_text().len());
}

/// An upper bound on the length that `length` takes when a picture is scaled by
/// `target / source`, rounded to a whole pixel.
pub open spec fn scaled_bound(length: int, target: int, source: int) -> int {
    length * target / source + 1
}

/// Whether a buffer with sixteen bytes for each pixel of a picture `across` by `down`
/// is no larger than an allocation may be.
pub open spec fn buffer_fits(across: int, down: int) -> bool {
    16 * across * down <= isize::MAX
}

/// Whether a picture `width` by `height` can be resampled to `target_width` by
/// `target_height` within the machine's limits: nothing is empty, the scaled picture's
/// sides are 32-bit numbers, and no buffer that resampling allocates is larger than an
/// allocation may be. Such a buffer is as wide as the picture, the target or the scaled
/// picture, and as high as the target or the scaled picture.
pub open spec fn resizable(width: int, height: int, target_width: int, target_height: int) -> bool {
    &&& width > 0 && height > 0
    &&& target_width > 0 && target_height > 0
    &&& scaled_bound(height, target_width, width) <= u32::MAX
    &&& scaled_bound(width, target_height, height) <= u32::MAX
    &&& buffer_fits(width, target_height)
    &&& buffer_fits(width, scaled_bound(height, target_width, width))
    &&& buffer_fits(target_width, target_height)
    &&& buffer_fits(target_width, scaled_bound(height, target_width, width))
    &&& buffer_fits(scaled_bound(width, target_height, height), target_height)
    &&& buffer_fits(
        scaled_bound(width, target_height, height),
        scaled_bound(height, target_width, width),
    )
}

/// Whether a buffer for a picture `across` by `down`, two 32-bit numbers, fits.
fn fits(across: u128, down: u128) -> (fitting: bool)
    requires
        across <= u32::MAX,
        down <= u32::MAX,
    ensures
        fitting == buffer_fits(across as int, down as int),
{
    assert(16 * across * down <= 16 * 0xFFFF_FFFF * 0xFFFF_FFFF) by (nonlinear_arith)
        requires
            0 <= across <= 0xFFFF_FFFF,
            0 <= down <= 0xFFFF_FFFF,
    ;
    16 * across * down <= isize::MAX as u128
}

/// A picture as resampling hands it back: its size and its RGBA bytes, row by row.
#[derive(Debug)]
pub struct Resampled {
    pub width: u32,
    pub height: u32,
    pub bytes: Vec<u8>,
}

/// Resamples the RGBA picture `width` by `height` that `bytes` holds to `target_width`
/// by `target_height`, by `image::DynamicImage::resize_to_fill` with the Lanczos filter
/// of window 3, and hands back the new picture; `None` where `bytes` is
/// too short for the picture. The precondition keeps the call away from empty pictures
/// and from sizes whose buffers would overflow. Not proved here: that the new picture
/// is there and has exactly the target's size, with four bytes for each pixel. That
/// crate scales the picture until both sides reach the target, one of them exactly, and
/// crops the other to the target. Nothing is claimed of the pixels.
#[verifier::external_body]
fn resize_to_fill(width: u32, height: u32, bytes: Vec<u8>, target_width: u32, target_height: u32) -> (resized:
    Option<Resampled>)
    requires
        resizable(width as int, height as int, target_width as int, target_height as int),
        bytes@.len() == 4 * (width * height),
    ensures
        resized is Some,
        resized->0.width == target_width,
        resized->0.height == target_height,
        resized->0.bytes@.len() == 4 * (target_width * target_height),
{
    match image::RgbaImage::from_raw(width, height, bytes) {
        Some(source) => {
            let filter = image::imageops::FilterType::Lanczos3;
            let scaled = image::DynamicImage::ImageRgba8(source).resize_to_fill(target_width, target_height, filter);
            let pixels = scaled.into_rgba8();
            Some(Resampled { width: pixels.width(), height: pixels.height(), bytes: pixels.into_raw() })
        },
        None => None,
    }
}

/// Whether a resampled picture is what was asked for: it is there, it has the target's
/// size, and it holds four bytes for each pixel.
pub open spec fn acceptable(resized: Option<Resampled>, target_width: u32, target_height: u32) -> bool {
    &&& resized is Some
    &&& resized->0.width == target_width
    &&& resized->0.height == target_height
    &&& resized->0.bytes@.len() == 4 * (target_width * target_height)
}

/// Replaces `image` by the resampled picture `resized` if that is acceptable for the
/// target; otherwise reports an error and leaves `image` as it is.
pub fn install_resized(
    image: &mut Bitmap,
    target_width: u32,
    target_height: u32,
    resized: Option<Resampled>,
) -> (done: Result<(), ImageModifierError>)
    ensures
        acceptable(resized, target_width, target_height) ==> done is Ok && final(image)@ == (Grid {
            width: target_width as nat,
            height: target_height as nat,
            pixels: pixels_of_bytes(resized->0.bytes@),
        }),
        !acceptable(resized, target_width, target_height) ==> final(image)@ == old(image)@ && (
        done matches Err(ImageModifierError::ImageProcessingError(detail)) && detail@
            == unexpected_result_text()),
        final(image)@.well_formed(),
{
    proof {
        use_type_invariant(&*image);
    }
    if let Some(picture) = resized {
        if picture.width == target_width && picture.height == target_height {
            if let Some(replacement) = Bitmap::from_raw(picture.width, picture.height, &picture.bytes) {
                *image = replacement;
                return Ok(());
            }
        }
    }
    Err(
        ImageModifierError::ImageProcessingError(
            String::from_str("Resized image does not have the requested dimensions"),
        ),
    )
}

impl SizeModifier {
    /// The width to resize to.
    pub closed spec fn target_width(self) -> u32 {
        self.width
    }

    /// The height to resize to.
    pub closed spec fn target_height(self) -> u32 {
        self.height
    }

    /// A modifier that resizes to `width` by `height` pixels.
    pub fn new(width: u32, height: u32) -> (modifier: SizeModifier)
        ensures
            modifier.target_width() == width,
            modifier.target_height() == height,
    {
        SizeModifier { width, height }
    }

    /// Checks that the target has a width and a height.
    pub fn validate_dimensions(&self) -> (checked: Result<(), ImageModifierError>)
        ensures
            checked is Ok <==> self.target_width() > 0 && self.target_height() > 0,
            checked is Err ==> (checked matches Err(ImageModifierError::ImageProcessingError(detail))
                && detail@ == zero_target_text()),
    {
        if self.width == 0 || self.height == 0 {
            Err(
                ImageModifierError::ImageProcessingError(
                    String::from_str("Width and height must be greater than zero"),
                ),
            )
        } else {
            Ok(())
        }
    }

    /// Whether `image` can be resampled to the target within the machine's limits.
    pub fn can_resize(&self, image: &Bitmap) -> (possible: bool)
        ensures
            possible == resizable(
                image@.width as int,
                image@.height as int,
                self.target_width() as int,
                self.target_height() as int,
            ),
    {
        let width: u128 = image.width() as u128;
        let height: u128 = image.height() as u128;
        let target_width: u128 = self.width as u128;
        let target_height: u128 = self.height as u128;
        if width == 0 || height == 0 || target_width == 0 || target_height == 0 {
            return false;
        }
        assert(height * target_width <= 0xFFFF_FFFF * 0xFFFF_FFFF) by (nonlinear_arith)
            requires
                0 <= height <= 0xFFFF_FFFF,
                0 <= target_width <= 0xFFFF_FFFF,
        ;
        assert(width * target_height <= 0xFFFF_FFFF * 0xFFFF_FFFF) by (nonlinear_arith)
            requires
                0 <= width <= 0xFFFF_FFFF,
                0 <= target_height <= 0xFFFF_FFFF,
        ;
        let scaled_height: u128 = height * target_width / width + 1;
        let scaled_width: u128 = width * target_height / height + 1;
        if scaled_height > u32::MAX as u128 || scaled_width > u32::MAX as u128 {
            return false;
        }
        fits(width, target_height) && fits(width, scaled_height) && fits(target_width, target_height)
            && fits(target_width, scaled_height) && fits(scaled_width, target_height) && fits(
            scaled_width,
            scaled_height,
        )
    }
}

impl ImageModifier for SizeModifier {
    /// Resizes `image` to the target, which succeeds exactly when the picture can be
    /// resampled to the target within the machine's limits. It fails, leaving `image` as
    /// it is, in two cases and no other: where the target has no width or no height,
    /// and where the target has both but the sizes are beyond the machine's limits or
    /// the picture is empty.
    fn modify(&self, image: &mut Bitmap) -> (done: Result<(), ImageModifierError>)
        ensures
            done is Ok <==> resizable(
                old(image)@.width as int,
                old(image)@.height as int,
                self.target_width() as int,
                self.target_height() as int,
            ),
            (done matches Err(ImageModifierError::ImageProcessingError(detail)) && detail@
                == zero_target_text()) <==> (self.target_width() == 0 || self.target_height() == 0),
            (done matches Err(ImageModifierError::ImageProcessingError(detail)) && detail@
                == unsupported_size_text()) <==> (self.target_width() > 0 && self.target_height() > 0
                && !resizable(
                old(image)@.width as int,
                old(image)@.height as int,
                self.target_width() as int,
                self.target_height() as int,
            )),
            done is Err ==> final(image)@ == old(image)@,
            done is Ok ==> final(image)@.width == self.target_width() && final(image)@.height
                == self.target_height(),
            final(image)@.well_formed(),
    {
        proof {
            lemma_error_texts_differ();
        }
        let width = image.width();
        let height = image.height();
        let checked = self.validate_dimensions();
        if checked.is_err() {
            return checked;
        }
        if !self.can_resize(image) {
            return Err(
                ImageModifierError::ImageProcessingError(
                    String::from_str("Image dimensions are not supported"),
                ),
            );
        }
        let bytes = image.to_raw();
        let resized = resize_to_fill(width, height, bytes, self.width, self.height);
        install_resized(image, self.width, self.height, resized)
    }
}

} // verus!
