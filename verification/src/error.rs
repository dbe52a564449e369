//! One error type carrying a classification and a message, surfaced
//! uniformly to the host for every failure of the facade.

use vstd::prelude::*;

verus! {

/// The four failure classes of the facade.
#[derive(Clone, Copy, Debug, PartialEq, Eq, Structural)]
pub enum ErrorKind {
    /// The input bytes or path do not decode as any supported format.
    Decode,
    /// The chosen container cannot represent the image, or writing failed.
    Encode,
    /// A caller-supplied parameter is malformed.
    Validation,
    /// A pixel coordinate lies outside the image rectangle.
    Bounds,
}

/// A structured failure: a class and a human-readable message.
#[derive(Debug)]
pub struct ImgError {
    pub kind: ErrorKind,
    pub message: String,
}

impl ImgError {
    pub fn new(kind: ErrorKind, message: &str) -> (e: ImgError)
        ensures
            e.kind == kind,
            e.message@ == message@,
    {
        ImgError { kind, message: message.to_owned() }
    }

    pub fn decode(message: &str) -> (e: ImgError)
        ensures
            e.kind == ErrorKind::Decode,
            e.message@ == message@,
    {
        ImgError::new(ErrorKind::Decode, message)
    }

    pub fn encode(message: &str) -> (e: ImgError)
        ensures
            e.kind == ErrorKind::Encode,
            e.message@ == message@,
    {
        ImgError::new(ErrorKind::Encode, message)
    }

    pub fn validation(message: &str) -> (e: ImgError)
        ensures
            e.kind == ErrorKind::Validation,
            e.message@ == message@,
    {
        ImgError::new(ErrorKind::Validation, message)
    }

    pub fn bounds(message: &str) -> (e: ImgError)
        ensures
            e.kind == ErrorKind::Bounds,
            e.message@ == message@,
    {
        ImgError::new(ErrorKind::Bounds, message)
    }

    pub fn kind(&self) -> (k: ErrorKind)
        ensures
            k == self.kind,
    {
        self.kind
    }

    /// The message, for hosts that render the failure as text.
    pub fn text(&self) -> (m: String)
        ensures
            m@ == self.message@,
    {
        self.message.clone()
    }
}

} // verus!
