//! The shape of the provider's metadata response: an ordered list of image
//! entries, each carrying a date key and the URL of the image bytes.

use vstd::prelude::*;

verus! {

/// One image entry of the metadata response.
pub struct Image {
    /// Date key of the day this image belongs to, e.g. `"20240501"`.
    pub startdate: String,
    /// URL of the image bytes.
    pub url: String,
}

/// The whole metadata response: image entries, newest first.
pub struct WallpaperResponse {
    pub images: Vec<Image>,
}

} // verus!
