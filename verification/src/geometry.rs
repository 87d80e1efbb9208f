//! Pixel geometry: the size of an image, a point, and a face rectangle.
//!
//! Coordinates count pixels from the top left corner of the image, columns
//! along `x` and rows along `y`. A rectangle's four edges are inclusive.

use vstd::prelude::*;

verus! {

/// The extent of a decoded image, in pixels.
#[derive(Clone, Copy, Debug, PartialEq, Eq, Structural)]
pub struct ImageSize {
    pub width: usize,
    pub height: usize,
}

/// A position in pixel coordinates.
#[derive(Clone, Copy, Debug, PartialEq, Eq, Structural)]
pub struct Point {
    pub x: i64,
    pub y: i64,
}

/// A rectangle of pixels: columns `left..=right`, rows `top..=bottom`.
#[derive(Clone, Copy, Debug, PartialEq, Eq, Structural)]
pub struct Rectangle {
    pub left: i64,
    pub top: i64,
    pub right: i64,
    pub bottom: i64,
}

/// Whether `coordinate` names one of `extent` pixels counted from zero.
pub open spec fn indexes(coordinate: i64, extent: usize) -> bool {
    0 <= coordinate < extent
}

fn is_index(coordinate: i64, extent: usize) -> (b: bool)
    ensures
        b == indexes(coordinate, extent),
{
    coordinate >= 0 && (coordinate as u64) < (extent as u64)
}

impl ImageSize {
    /// Whether the image holds no pixel.
    pub open spec fn is_empty(&self) -> bool {
        self.width == 0 || self.height == 0
    }
}

impl Point {
    /// Whether the point is a pixel of an image of size `image`.
    pub open spec fn spec_inside(&self, image: &ImageSize) -> bool {
        indexes(self.x, image.width) && indexes(self.y, image.height)
    }

    /// Tells whether the point is a pixel of an image of size `image`.
    #[verifier::when_used_as_spec(spec_inside)]
    pub fn inside(&self, image: &ImageSize) -> (b: bool)
        ensures
            b == self.spec_inside(image),
    {
        is_index(self.x, image.width) && is_index(self.y, image.height)
    }
}

impl Rectangle {
    /// Whether the rectangle is degenerate: it covers no pixel.
    pub open spec fn is_empty(&self) -> bool {
        self.right < self.left || self.bottom < self.top
    }

    /// Whether the rectangle covers at least one pixel and every pixel it
    /// covers is a pixel of an image of size `image`.
    pub open spec fn spec_within(&self, image: &ImageSize) -> bool {
        &&& 0 <= self.left <= self.right < image.width
        &&& 0 <= self.top <= self.bottom < image.height
    }

    /// Whether the rectangle lies fully outside an image of size `image`:
    /// it ends before the first column or row, or begins after the last.
    pub open spec fn outside(&self, image: &ImageSize) -> bool {
        ||| self.right < 0
        ||| self.left >= image.width
        ||| self.bottom < 0
        ||| self.top >= image.height
    }

    /// Tells whether the rectangle is a region of an image of size `image`
    /// on which landmarks may be predicted.
    #[verifier::when_used_as_spec(spec_within)]
    pub fn within(&self, image: &ImageSize) -> (b: bool)
        ensures
            b == self.spec_within(image),
    {
        0 <= self.left && self.left <= self.right && is_index(self.right, image.width)
            && 0 <= self.top && self.top <= self.bottom && is_index(self.bottom, image.height)
    }

    /// A region on which landmarks may be predicted is not degenerate, and
    /// lies in an image that is not empty.
    pub proof fn lemma_within_is_valid(&self, image: &ImageSize)
        requires
            self.within(image),
        ensures
            !self.is_empty(),
            !image.is_empty(),
    {
    }

    /// A rectangle fully outside the image is never a region on which
    /// landmarks may be predicted, whatever its shape and whatever the
    /// image.
    pub proof fn lemma_outside_is_rejected(&self, image: &ImageSize)
        requires
            self.outside(image),
        ensures
            !self.within(image),
    {
    }
}

} // verus!
