use vstd::prelude::*;

use crate::error::WallpaperError;

verus! {

/// One wallpaper as the metadata endpoint describes it.
#[derive(Clone, Debug, PartialEq, Eq, Default)]
pub struct Image {
    /// Address of the image, relative to the provider's host.
    pub url: String,
    pub copyright: String,
    pub title: String,
}

/// The decoded metadata response.
#[derive(Clone, Debug, PartialEq, Eq, Default)]
pub struct Ret {
    pub images: Vec<Image>,
}

impl Ret {
    /// The relative addresses of the listed images, in order.
    pub open spec fn urls(&self) -> Seq<Seq<char>> {
        self.images@.map_values(|i: Image| i.url@)
    }
}

/// The relative address of the first listed image.
pub fn get_image_url(ret: &Ret) -> (r: Result<String, WallpaperError>)
    ensures
        ret.images@.len() > 0 <==> r is Ok,
        r is Ok ==> r->Ok_0@ == ret.urls()[0],
        r is Err ==> r->Err_0 == WallpaperError::NoImages,
{
    if ret.images.len() == 0 {
        Err(WallpaperError::NoImages)
    } else {
        let first = &ret.images[0];
        Ok(first.url.clone())
    }
}

} // verus!
