//! The ways in which an operation of this crate can fail.

use image::error::ImageError;
use vstd::prelude::*;

verus! {

/// The error type of the `image` crate, carried through unopened.
#[verifier::external_type_specification]
#[verifier::external_body]
pub struct ExImageError(ImageError);

/// Why an operation failed.
#[derive(Debug)]
pub enum Error {
    /// The image codec refused to encode the pixels.
    Image(ImageError),
    /// The pixel buffer does not have the length the device's images have.
    InvalidImageSize,
    /// The key index is not below the device's key count.
    InvalidKeyIndex,
    /// The product identifier belongs to no supported model.
    UnrecognisedPID,
    /// The device reported that nothing has happened since the last read.
    NoData,
}

impl Error {
    /// A short description of the failure.
    pub fn message(&self) -> (text: String)
        ensures
            self is InvalidImageSize ==> text@ == "invalid image size"@,
            self is InvalidKeyIndex ==> text@ == "invalid key index"@,
            self is UnrecognisedPID ==> text@ == "unrecognised pid"@,
            self is NoData ==> text@ == "no data"@,
    {
        match self {
            Error::Image(e) => describe_image_error(e),
            Error::InvalidImageSize => "invalid image size".to_string(),
            Error::InvalidKeyIndex => "invalid key index".to_string(),
            Error::UnrecognisedPID => "unrecognised pid".to_string(),
            Error::NoData => "no data".to_string(),
        }
    }
}

/// The text that `image::error::ImageError` displays for itself. Nothing is
/// claimed about it.
#[verifier::external_body]
fn describe_image_error(e: &ImageError) -> String {
    format!("{}", e)
}

} // verus!
