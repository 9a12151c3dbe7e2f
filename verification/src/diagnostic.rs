//! What a failed compilation reports.

use vstd::prelude::*;

verus! {

/// The four families of failure.
#[derive(Clone, Copy, Debug, PartialEq, Eq, Structural)]
pub enum ErrorKind {
    /// The tokens have the wrong shape, count or order.
    Shape,
    /// A run of characters is no base-ten number.
    Parse,
    /// The literal has more fractional digits than decimal places.
    Precision,
    /// A step leaves the 256-bit range.
    Overflow,
}

/// The part of the input that a diagnostic points at.
#[derive(Clone, Copy, Debug, PartialEq, Eq, Structural)]
pub enum Anchor {
    /// The input as a whole.
    Input,
    /// The token that holds the decimal places.
    Decimals,
    /// The sign token.
    Sign,
    /// The token that stands where the literal belongs.
    Literal,
    /// The first token after the literal.
    Trailing,
}

/// A failure: its family, where it points and what it says.
#[derive(Clone, Debug, PartialEq, Eq)]
pub struct Diagnostic {
    pub kind: ErrorKind,
    pub anchor: Anchor,
    pub message: String,
}

/// A diagnostic as contracts see it, with its message as characters.
pub struct Fault {
    pub kind: ErrorKind,
    pub anchor: Anchor,
    pub message: Seq<char>,
}

impl View for Diagnostic {
    type V = Fault;

    open spec fn view(&self) -> Fault {
        Fault { kind: self.kind, anchor: self.anchor, message: self.message@ }
    }
}

impl Diagnostic {
    /// A diagnostic with a message of its own.
    pub fn new(kind: ErrorKind, anchor: Anchor, message: &str) -> (d: Diagnostic)
        ensures
            d@ == (Fault { kind, anchor, message: message@ }),
    {
        Diagnostic { kind, anchor, message: message.to_owned() }
    }
}

} // verus!
