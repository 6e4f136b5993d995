//! The format validator: the two content types that are accepted, and the file
//! extension that each is stored under.

use vstd::prelude::*;
use vstd::string::StringExecFns;
use crate::error::UploadError;

verus! {

/// A supported image codec.
#[derive(Clone, Copy, Debug, PartialEq, Eq, Structural)]
pub enum ImageKind {
    Png,
    Jpeg,
}

impl ImageKind {
    /// The content type that declares this codec.
    pub open spec fn mime(self) -> Seq<char> {
        match self {
            ImageKind::Png => "image/png"@,
            ImageKind::Jpeg => "image/jpeg"@,
        }
    }

    /// The extension of the files that hold an image of this codec.
    pub open spec fn extension(self) -> Seq<char> {
        match self {
            ImageKind::Png => "png"@,
            ImageKind::Jpeg => "jpeg"@,
        }
    }

    /// The extension as text.
    pub fn extension_str(&self) -> (ext: &'static str)
        ensures
            ext@ == self.extension(),
    {
        match self {
            ImageKind::Png => "png",
            ImageKind::Jpeg => "jpeg",
        }
    }
}

/// The codec that a declared content type stands for, if it is supported.
pub open spec fn kind_of(content_type: Option<Seq<char>>) -> Option<ImageKind> {
    match content_type {
        None => None,
        Some(declared) => if declared == ImageKind::Png.mime() {
            Some(ImageKind::Png)
        } else if declared == ImageKind::Jpeg.mime() {
            Some(ImageKind::Jpeg)
        } else {
            None
        },
    }
}

/// The format validator. Exactly `image/png` and `image/jpeg` are supported;
/// any other declared type, and a field that declares none, is refused as an
/// unsupported format.
pub fn validate_content_type(content_type: Option<&str>) -> (outcome: Result<ImageKind, UploadError>)
    ensures
        outcome == match kind_of(
            match content_type {
                Some(declared) => Some(declared@),
                None => None,
            },
        ) {
            Some(kind) => Ok::<ImageKind, UploadError>(kind),
            None => Err(UploadError::UnsupportedFormat),
        },
{
    match content_type {
        None => Err(UploadError::UnsupportedFormat),
        Some(declared) => {
            let declared = String::from_str(declared);
            if declared == String::from_str("image/png") {
                Ok(ImageKind::Png)
            } else if declared == String::from_str("image/jpeg") {
                Ok(ImageKind::Jpeg)
            } else {
                Err(UploadError::UnsupportedFormat)
            }
        },
    }
}

} // verus!
