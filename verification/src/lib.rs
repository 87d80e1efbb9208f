//! Verified core of a facial-landmark predictor binding.
//!
//! A landmark predictor maps a region of an image, the rectangle around a
//! detected face, to an ordered set of points on that face. The trained model
//! and all of its arithmetic belong to a native library. What is left on this
//! side is small and easy to get wrong: the form in which a path reaches the
//! native loader, the error that each failure becomes, the regions on which
//! the model may be asked at all, and the shape of what comes back. This
//! crate holds those decisions, each with a proved contract.
//!
//! Nothing here touches the file system or the native library. The caller
//! does that work and hands in what came of it as plain values:
//!
//! - [`path`]: the native form of a model file's path;
//! - [`error`]: the errors of constructing a predictor;
//! - [`geometry`]: image sizes, points and face rectangles;
//! - [`landmarks`]: the landmark set;
//! - [`model`]: the predictor itself.

pub mod error;
pub mod geometry;
pub mod landmarks;
pub mod model;
pub mod path;
