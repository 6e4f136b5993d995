//! The failures an upload request can end in, and the HTTP status of each.

use vstd::prelude::*;

verus! {

/// Status of a request whose every field was stored.
pub const STATUS_OK: u16 = 200;

/// Status of a request that cannot be read as an upload.
pub const STATUS_BAD_REQUEST: u16 = 400;

/// Status of a request whose declared length is over the ceiling.
pub const STATUS_PAYLOAD_TOO_LARGE: u16 = 413;

/// Status of a request with a field that is neither PNG nor JPEG.
pub const STATUS_UNSUPPORTED_MEDIA_TYPE: u16 = 415;

/// Status of a request that failed while a field was stored or previewed.
pub const STATUS_INTERNAL_SERVER_ERROR: u16 = 500;

/// Why an upload request was refused or broke off.
#[derive(Clone, Copy, Debug, PartialEq, Eq, Structural)]
pub enum UploadError {
    /// The declared length is missing or is no number, or the body could not
    /// be read as multipart fields.
    MalformedRequest,
    /// The declared length exceeds the ceiling.
    RequestTooLarge,
    /// A field's content type is outside the supported set.
    UnsupportedFormat,
    /// A field's payload cannot be decoded as the declared format, or decodes
    /// to an image that has no preview.
    DecodeFailure,
    /// A file could not be created or written, or the preview could not be
    /// encoded for writing.
    StorageFailure,
    /// The driver reported an event that the request was not waiting for.
    OutOfSequence,
}

impl UploadError {
    /// The HTTP status that answers a request ended by this error.
    pub open spec fn status(self) -> u16 {
        match self {
            UploadError::MalformedRequest => STATUS_BAD_REQUEST,
            UploadError::RequestTooLarge => STATUS_PAYLOAD_TOO_LARGE,
            UploadError::UnsupportedFormat => STATUS_UNSUPPORTED_MEDIA_TYPE,
            UploadError::DecodeFailure => STATUS_INTERNAL_SERVER_ERROR,
            UploadError::StorageFailure => STATUS_INTERNAL_SERVER_ERROR,
            UploadError::OutOfSequence => STATUS_INTERNAL_SERVER_ERROR,
        }
    }

    /// Validation errors answer with their own 4xx status; every processing
    /// fault answers with 500.
    pub fn status_code(&self) -> (code: u16)
        ensures
            code == self.status(),
    {
        match self {
            UploadError::MalformedRequest => STATUS_BAD_REQUEST,
            UploadError::RequestTooLarge => STATUS_PAYLOAD_TOO_LARGE,
            UploadError::UnsupportedFormat => STATUS_UNSUPPORTED_MEDIA_TYPE,
            UploadError::DecodeFailure => STATUS_INTERNAL_SERVER_ERROR,
            UploadError::StorageFailure => STATUS_INTERNAL_SERVER_ERROR,
            UploadError::OutOfSequence => STATUS_INTERNAL_SERVER_ERROR,
        }
    }
}

} // verus!
