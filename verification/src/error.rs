//! Why an image could not be loaded.

use vstd::prelude::*;

verus! {

/// The ways in which loading an image fails. The three that come from
/// outside carry the text of the outside error.
#[derive(Debug, Clone, PartialEq, Eq)]
pub enum ImageLoadError {
    /// The bytes are no image of a supported format.
    DecodeError(String),
    /// The path has no form that the platform understands.
    InvalidPath,
    /// The file could not be opened or read.
    Io(String),
    /// The graphics device could not hold the decoded pixels.
    TextureError(String),
}

/// The four kinds of failure, without their texts.
#[derive(Debug, Clone, Copy, PartialEq, Eq, Structural)]
pub enum ImageLoadErrorKind {
    Decode,
    InvalidPath,
    Io,
    Texture,
}

impl ImageLoadError {
    /// The kind of this failure.
    pub open spec fn spec_kind(&self) -> ImageLoadErrorKind {
        match self {
            ImageLoadError::DecodeError(_) => ImageLoadErrorKind::Decode,
            ImageLoadError::InvalidPath => ImageLoadErrorKind::InvalidPath,
            ImageLoadError::Io(_) => ImageLoadErrorKind::Io,
            ImageLoadError::TextureError(_) => ImageLoadErrorKind::Texture,
        }
    }

    pub fn kind(&self) -> (k: ImageLoadErrorKind)
        ensures
            k == self.spec_kind(),
    {
        match self {
            ImageLoadError::DecodeError(_) => ImageLoadErrorKind::Decode,
            ImageLoadError::InvalidPath => ImageLoadErrorKind::InvalidPath,
            ImageLoadError::Io(_) => ImageLoadErrorKind::Io,
            ImageLoadError::TextureError(_) => ImageLoadErrorKind::Texture,
        }
    }
}

} // verus!
