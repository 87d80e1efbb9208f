//! The landmark set that a prediction yields.

use vstd::prelude::*;
use crate::geometry::{ImageSize, Point, Rectangle};

verus! {

/// The landmarks predicted for one face: the points, in the order in which
/// the model defines them, and the rectangle they were predicted for.
///
/// The set owns its points; it shares nothing with the predictor or the
/// image it came from.
#[derive(Clone, Debug, PartialEq, Eq)]
pub struct FaceLandmarks {
    rect: Rectangle,
    points: Vec<Point>,
}

/// A [`FaceLandmarks`] as a mathematical value.
pub struct FaceLandmarksView {
    pub rect: Rectangle,
    pub points: Seq<Point>,
}

impl View for FaceLandmarks {
    type V = FaceLandmarksView;

    closed spec fn view(&self) -> FaceLandmarksView {
        FaceLandmarksView { rect: self.rect, points: self.points@ }
    }
}

impl FaceLandmarksView {
    /// Whether every point is a pixel of an image of size `image`.
    pub open spec fn inside(self, image: &ImageSize) -> bool {
        forall|i: int| 0 <= i < self.points.len() ==> (#[trigger] self.points[i]).inside(image)
    }
}

impl FaceLandmarks {
    /// The landmark set of `points`, anchored to `rect`.
    pub fn new(rect: Rectangle, points: Vec<Point>) -> (landmarks: FaceLandmarks)
        ensures
            landmarks@ == (FaceLandmarksView { rect, points: points@ }),
    {
        FaceLandmarks { rect, points }
    }

    /// The rectangle the landmarks were predicted for.
    pub fn rect(&self) -> (rect: Rectangle)
        ensures
            rect == self@.rect,
    {
        self.rect
    }

    /// The number of landmarks.
    pub fn len(&self) -> (n: usize)
        ensures
            n == self@.points.len(),
    {
        self.points.len()
    }

    /// The landmarks, in the model's order.
    pub fn points(&self) -> (points: &[Point])
        ensures
            points@ == self@.points,
    {
        self.points.as_slice()
    }

    /// The landmark at `index` in the model's order, if there is one.
    pub fn point(&self, index: usize) -> (p: Option<Point>)
        ensures
            p == (if index < self@.points.len() {
                Some(self@.points[index as int])
            } else {
                None
            }),
    {
        if index < self.points.len() {
            Some(self.points[index])
        } else {
            None
        }
    }

    /// Tells whether every landmark is a pixel of an image of size `image`.
    pub fn inside(&self, image: &ImageSize) -> (b: bool)
        ensures
            b == self@.inside(image),
    {
        let mut i: usize = 0;
        while i < self.points.len()
            invariant
                i <= self.points.len(),
                forall|j: int| 0 <= j < i ==> (#[trigger] self.points@[j]).inside(image),
            decreases self.points.len() - i,
        {
            if !self.points[i].inside(image) {
                assert(!self@.points[i as int].inside(image));
                return false;
            }
            i += 1;
        }
        true
    }
}

} // verus!
