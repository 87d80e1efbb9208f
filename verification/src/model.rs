//! The landmark predictor: how one comes to be, and what it yields.
//!
//! The model itself lives on the native side. The caller performs the native
//! work and hands in what came of it; this module decides what that amounts
//! to. A predictor is constructed in two steps: the caller asks
//! [`path_as_cstring`](crate::path::path_as_cstring) for the native form of
//! the path and, only if there is one, lets the native loader deserialize
//! the file; then [`LandmarkPredictor::open`] turns the loader's outcome into
//! a predictor or an error. A value of [`LandmarkPredictor`] is always
//! loaded: there is no other way to make one, and none to unload it.

use vstd::prelude::*;
use crate::error::{ErrorKind, OpenError};
use crate::geometry::{ImageSize, Point, Rectangle};
use crate::landmarks::{FaceLandmarks, FaceLandmarksView};
use crate::path::{is_representable, representable};

verus! {

/// A loaded landmark predictor, owning the handle `H` to its native model.
///
/// The handle is released when the predictor is dropped. A clone owns a
/// clone of the handle, so how two clones stand to each other is for the
/// handle to say.
#[derive(Debug)]
pub struct LandmarkPredictor<H> {
    inner: H,
}

impl<H: Clone> Clone for LandmarkPredictor<H> {
    fn clone(&self) -> (copy: Self)
        ensures
            cloned::<H>(self@, copy@),
    {
        LandmarkPredictor { inner: self.inner.clone() }
    }
}

impl<H> View for LandmarkPredictor<H> {
    type V = H;

    closed spec fn view(&self) -> H {
        self.inner
    }
}

/// What opening the model at `path` comes to, where `outcome` is the handle
/// that the native loader filled, or `None` if it could not.
pub open spec fn opening<H>(path: Seq<char>, outcome: Option<H>) -> Result<H, ErrorKind> {
    if !representable(path) {
        Err(ErrorKind::PathEncoding)
    } else {
        match outcome {
            Some(handle) => Ok(handle),
            None => Err(ErrorKind::Deserialization),
        }
    }
}

/// What opening the bundled model at `location` comes to, where `present`
/// says whether the file is there once retrieval has had its turn.
pub open spec fn opening_bundled<H>(
    location: Seq<char>,
    present: bool,
    outcome: Option<H>,
) -> Result<H, ErrorKind> {
    if !present {
        Err(ErrorKind::Retrieval)
    } else {
        opening(location, outcome)
    }
}

/// Whether `result` is `expected`, as a predictor owning the expected handle
/// or as an error of the expected kind that carries `path`.
pub open spec fn reports<H>(
    result: Result<LandmarkPredictor<H>, OpenError>,
    path: Seq<char>,
    expected: Result<H, ErrorKind>,
) -> bool {
    match result {
        Ok(predictor) => expected == Ok::<H, ErrorKind>(predictor@),
        Err(error) => expected == Err::<H, ErrorKind>(error@.kind) && error@.path == path,
    }
}

impl<H> LandmarkPredictor<H> {
    /// Concludes the opening of the model file at `filename`.
    ///
    /// `outcome` is the handle that the native loader filled from the file,
    /// or `None` if it failed or was never asked. A path without a native
    /// form is refused whatever `outcome` holds. On failure the handle, if
    /// there is one, is dropped here.
    pub fn open(filename: &str, outcome: Option<H>) -> (result: Result<Self, OpenError>)
        ensures
            reports(result, filename@, opening(filename@, outcome)),
    {
        if !is_representable(filename) {
            return Err(OpenError::new(ErrorKind::PathEncoding, filename));
        }
        match outcome {
            Some(inner) => Ok(LandmarkPredictor { inner }),
            None => Err(OpenError::new(ErrorKind::Deserialization, filename)),
        }
    }

    /// Concludes the opening of the bundled model, resolved to `location`.
    ///
    /// `present` says whether the file is at `location` once retrieval has
    /// had its turn. If it is not, that is the error; if it is, the rest is
    /// [`open`](Self::open).
    pub fn default(location: &str, present: bool, outcome: Option<H>) -> (result: Result<
        Self,
        OpenError,
    >)
        ensures
            reports(result, location@, opening_bundled(location@, present, outcome)),
    {
        if !present {
            return Err(OpenError::new(ErrorKind::Retrieval, location));
        }
        Self::open(location, outcome)
    }

    /// The handle to the native model.
    pub fn handle(&self) -> (handle: &H)
        ensures
            *handle == self@,
    {
        &self.inner
    }

    /// The landmark set for the face in `rect`, from the points that the
    /// native model predicted for that region of an image of size `image`.
    ///
    /// The set is anchored to `rect` and keeps the points in the model's
    /// order. The predictor is only read.
    ///
    /// The region must be one on which landmarks may be predicted: not
    /// degenerate, and wholly within the image. For any other rectangle,
    /// one fully outside the image among them, no result is defined. A
    /// caller that cannot prove the region valid tests it with
    /// [`Rectangle::within`] and turns the request down before the native
    /// model is asked.
    pub fn face_landmarks(
        &self,
        image: &ImageSize,
        rect: &Rectangle,
        predicted: Vec<Point>,
    ) -> (landmarks: FaceLandmarks)
        requires
            rect.within(image),
        ensures
            landmarks@ == (FaceLandmarksView { rect: *rect, points: predicted@ }),
    {
        FaceLandmarks::new(*rect, predicted)
    }
}

/// Opening succeeds exactly when the path has a native form and the native
/// loader filled a handle; the predictor then owns that handle.
pub proof fn lemma_opening_succeeds<H>(path: Seq<char>, outcome: Option<H>)
    ensures
        opening(path, outcome) is Ok <==> representable(path) && outcome is Some,
        opening(path, outcome) matches Ok(handle) ==> outcome == Some(handle),
{
}

/// Where the native loader fails on a path that has a native form, be the
/// file missing, corrupt or unreadable, opening fails in deserialization.
pub proof fn lemma_failed_load_is_deserialization<H>(path: Seq<char>)
    requires
        representable(path),
    ensures
        opening(path, None::<H>) == Err::<H, ErrorKind>(ErrorKind::Deserialization),
{
}

/// A path without a native form fails in path encoding, whatever the native
/// loader's outcome: the outcome is not looked at.
pub proof fn lemma_unrepresentable_is_path_encoding<H>(path: Seq<char>, outcome: Option<H>)
    requires
        !representable(path),
    ensures
        opening(path, outcome) == Err::<H, ErrorKind>(ErrorKind::PathEncoding),
{
}

/// Opening the bundled model fails as opening its location does, and
/// besides only in retrieval, which comes first.
pub proof fn lemma_bundled_delegates<H>(location: Seq<char>, present: bool, outcome: Option<H>)
    ensures
        present ==> opening_bundled(location, present, outcome) == opening(location, outcome),
        !present ==> opening_bundled(location, present, outcome) == Err::<H, ErrorKind>(
            ErrorKind::Retrieval,
        ),
{
}

} // verus!
