//! What can go wrong, by component.

use vstd::prelude::*;
use vstd::string::*;

verus! {

/// The component that failed.
#[derive(Clone, Copy, Debug, PartialEq, Eq, Structural)]
pub enum ErrorKind {
    /// A required hardware identity field could not be read.
    Identity,
    /// The root pointer could not be fetched or authenticated.
    Trust,
    /// The manifest could not be parsed, or lacks a named file.
    Manifest,
    /// A blob could not be obtained with the digest that was asked for.
    Integrity,
    /// An archive is malformed, lacks a member, or tries to leave its
    /// destination.
    Extraction,
    /// A directory could not be created, removed or renamed, or an object
    /// could not be stored.
    Filesystem,
    /// The host lacks what staging needs.
    Precondition,
}

/// A failure: its kind and a message for the caller.
#[derive(Debug, PartialEq, Eq)]
pub struct Error {
    pub kind: ErrorKind,
    pub detail: String,
}

/// The mathematical value of an [`Error`].
pub struct ErrorView {
    pub kind: ErrorKind,
    pub detail: Seq<char>,
}

impl View for Error {
    type V = ErrorView;

    open spec fn view(&self) -> ErrorView {
        ErrorView { kind: self.kind, detail: self.detail@ }
    }
}

impl Error {
    /// A failure of `kind` that says `detail`.
    pub fn new(kind: ErrorKind, detail: String) -> (e: Error)
        ensures
            e@ == (ErrorView { kind, detail: detail@ }),
    {
        Error { kind, detail }
    }

    /// The message to show to the caller.
    pub fn message(&self) -> (s: String)
        ensures
            s@ == self@.detail,
    {
        self.detail.clone()
    }
}

/// The view of a text or the failure to make it.
pub open spec fn text_view(r: Result<String, Error>) -> Result<Seq<char>, ErrorView> {
    match r {
        Ok(text) => Ok(text@),
        Err(e) => Err(e@),
    }
}

/// The view of bytes or the failure to get them.
pub open spec fn bytes_view(r: Result<Vec<u8>, Error>) -> Result<Seq<u8>, ErrorView> {
    match r {
        Ok(bytes) => Ok(bytes@),
        Err(e) => Err(e@),
    }
}

/// The view of a success or a failure.
pub open spec fn unit_view(r: Result<(), Error>) -> Result<(), ErrorView> {
    match r {
        Ok(()) => Ok(()),
        Err(e) => Err(e@),
    }
}

/// The view of a text or of the message in its place.
pub open spec fn told(r: Result<String, String>) -> Result<Seq<char>, Seq<char>> {
    match r {
        Ok(text) => Ok(text@),
        Err(detail) => Err(detail@),
    }
}

/// The view of a text that may be missing.
pub open spec fn maybe(text: Option<String>) -> Option<Seq<char>> {
    match text {
        Some(text) => Some(text@),
        None => None,
    }
}

/// The view of a success or of the message in its place.
pub open spec fn done(r: Result<(), String>) -> Result<(), Seq<char>> {
    match r {
        Ok(()) => Ok(()),
        Err(detail) => Err(detail@),
    }
}

/// The text that `Display` writes for `err`.
pub fn err_str<E: std::fmt::Display>(err: E) -> (s: String)
    ensures
        to_string_from_display_ensures::<E>(&err, s),
{
    err.to_string()
}

} // verus!
