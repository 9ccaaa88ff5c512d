//! Modifiers that change a decoded picture before it is saved.

use crate::bitmap::Bitmap;
use vstd::prelude::*;
use vstd::string::*;

pub mod compositing;
pub mod contrast;
pub mod layout;
pub mod metadata_modifier;
pub mod size_modifier;

verus! {

/// Something that changes a picture in place.
pub trait ImageModifier {
    /// Applies the modifier to `image`.
    fn modify(&self, image: &mut Bitmap) -> Result<(), ImageModifierError>;
}

/// Why a modifier could not be applied.
#[derive(Debug)]
pub enum ImageModifierError {
    /// The caption or its style cannot be rendered.
    InvalidMetadata(String),
    /// The picture cannot be processed as asked.
    ImageProcessingError(String),
}

impl ImageModifierError {
    /// The text that describes the error: a prefix naming the kind, then the detail.
    pub open spec fn message_text(self) -> Seq<char> {
        match self {
            ImageModifierError::InvalidMetadata(detail) => "Invalid metadata: "@ + detail@,
            ImageModifierError::ImageProcessingError(detail) => "Image processing error: "@ + detail@,
        }
    }

    /// The error as a line of text for the user.
    pub fn message(&self) -> (text: String)
        ensures
            text@ == self.message_text(),
    {
        match self {
            ImageModifierError::InvalidMetadata(detail) => {
                String::from_str("Invalid metadata: ").concat(detail.as_str())
            },
            ImageModifierError::ImageProcessingError(detail) => {
                String::from_str("Image processing error: ").concat(detail.as_str())
            },
        }
    }
}

} // verus!
