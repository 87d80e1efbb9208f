//! Why a landmark predictor could not be constructed.

use vstd::prelude::*;
use vstd::string::*;

verus! {

/// The three ways in which constructing a predictor fails.
#[derive(Clone, Copy, Debug, PartialEq, Eq, Structural)]
pub enum ErrorKind {
    /// The path has no native form; the native loader was never asked.
    PathEncoding,
    /// The native loader could not read a model from the file.
    Deserialization,
    /// The bundled model could not be made present at its location.
    Retrieval,
}

/// A failed construction: what went wrong, and the path it went wrong on.
#[derive(Clone, Debug, PartialEq, Eq)]
pub struct OpenError {
    pub kind: ErrorKind,
    pub path: String,
}

/// An [`OpenError`] as a mathematical value.
pub struct OpenErrorView {
    pub kind: ErrorKind,
    pub path: Seq<char>,
}

impl View for OpenError {
    type V = OpenErrorView;

    open spec fn view(&self) -> OpenErrorView {
        OpenErrorView { kind: self.kind, path: self.path@ }
    }
}

impl OpenErrorView {
    /// The text shown for this error: a fixed phrase for its kind, around
    /// the path in single quotes.
    pub open spec fn message(self) -> Seq<char> {
        match self.kind {
            ErrorKind::PathEncoding => "No native form for path '"@ + self.path + "'"@,
            ErrorKind::Deserialization => "Failed to deserialize '"@ + self.path + "'"@,
            ErrorKind::Retrieval => "Failed to retrieve '"@ + self.path + "'"@,
        }
    }
}

impl OpenError {
    /// An error of the given kind on `path`.
    pub fn new(kind: ErrorKind, path: &str) -> (e: OpenError)
        ensures
            e@ == (OpenErrorView { kind, path: path@ }),
    {
        OpenError { kind, path: String::from_str(path) }
    }

    /// The text to show for this error.
    pub fn message(&self) -> (text: String)
        ensures
            text@ == self@.message(),
    {
        let head = match self.kind {
            ErrorKind::PathEncoding => "No native form for path '",
            ErrorKind::Deserialization => "Failed to deserialize '",
            ErrorKind::Retrieval => "Failed to retrieve '",
        };
        let mut text = String::from_str(head);
        text.append(self.path.as_str());
        text.append("'");
        text
    }
}

} // verus!
