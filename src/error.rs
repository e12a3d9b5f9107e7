use vstd::prelude::*;

verus! {

/// The ways in which a run can fail before anything is written.
#[derive(Clone, Copy, Debug, PartialEq, Eq, Structural)]
pub enum WallpaperError {
    /// The metadata response listed no image.
    NoImages,
    /// The image address could not be parsed as an absolute URL.
    MalformedUrl,
    /// The image address has no `id` query parameter.
    MissingId,
    /// The picture id cannot name a file inside the save directory: it is
    /// empty, `.` or `..`, or holds a `/`.
    BadId,
}

impl WallpaperError {
    /// A short human-readable description of the error.
    pub fn message(&self) -> (r: &'static str)
        ensures
            *self == WallpaperError::NoImages ==> r@ == "the metadata response lists no images"@,
            *self == WallpaperError::MalformedUrl ==> r@ == "the image address is not a valid URL"@,
            *self == WallpaperError::MissingId ==> r@ == "there is no picture id"@,
            *self == WallpaperError::BadId ==> r@ == "the picture id is not a plain file name"@,
    {
        match self {
            WallpaperError::NoImages => "the metadata response lists no images",
            WallpaperError::MalformedUrl => "the image address is not a valid URL",
            WallpaperError::MissingId => "there is no picture id",
            WallpaperError::BadId => "the picture id is not a plain file name",
        }
    }
}

} // verus!
