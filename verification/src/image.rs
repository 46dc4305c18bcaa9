use vstd::prelude::*;

use crate::position::Rect;

verus! {

/// The identifier of an image in the image map.
#[derive(Clone, Copy, Debug, PartialEq, Eq, Structural, Hash)]
pub struct ImageId {
    pub index: usize,
}

/// Unique `State` to be stored between updates for the `Image`.
#[derive(Copy, Clone, Debug)]
pub struct State {
    /// The rectangular area of the image that we wish to display.
    ///
    /// If `None`, the entire image will be used.
    pub src_rect: Option<Rect>,
    /// The unique identifier for the image's associated data that will be drawn.
    pub image_id: ImageId,
}

} // verus!
