//! The error that ends a translation.

use vstd::prelude::*;

verus! {

/// What kind of failure ended a translation.
#[derive(Clone, Copy, Debug, PartialEq, Eq)]
pub enum ErrorKind {
    /// A sheet name was refused: invalid, or used twice.
    SheetNaming,
    /// A date or date-time string is not ISO 8601.
    DateParse,
    /// An image could not be loaded, decoded or inserted.
    Image,
    /// The encoder refused a coordinate, a range or a style.
    SinkWrite,
    /// The finished document could not be assembled.
    Encoding,
}

/// A failure, with its kind and a message for people.
#[derive(Clone, Debug, PartialEq)]
pub struct WriteError {
    pub kind: ErrorKind,
    pub message: String,
}

impl WriteError {
    /// The message, for display.
    pub fn describe(&self) -> (r: String)
        ensures
            r@ == self.message@,
    {
        self.message.clone()
    }
}

} // verus!
