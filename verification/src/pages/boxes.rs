//! The bounding boxes of a PDF page.

use vstd::prelude::*;

verus! {

/// The bounding boxes that define the dimensions of a PDF page: the media box,
/// which every page has, and the optional trim, bleed and crop boxes. `R` is
/// the rectangle type the boxes are given in.
pub struct PageBoxes<R> {
    pub media_box: R,
    pub trim_box: Option<R>,
    pub bleed_box: Option<R>,
    pub crop_box: Option<R>,
}

impl<R> PageBoxes<R> {
    /// The finished-page rectangle: the trim box if the page has one, else its media box.
    pub open spec fn finished_box(&self) -> R {
        match self.trim_box {
            Some(t) => t,
            None => self.media_box,
        }
    }

    /// The trim box if the page has one, otherwise the media box.
    pub fn trim_or_media(&self) -> (r: &R)
        ensures
            *r == self.finished_box(),
    {
        match &self.trim_box {
            Some(t) => t,
            None => &self.media_box,
        }
    }
}

} // verus!
