//! Exact fixed-point compilation of decimal literals into 256-bit integers.
//!
//! A request names a number of decimal places, an optional sign and a
//! literal such as `1.678`. Compiling it gives the integer
//! `1678 * 10^(places - 3)` as four 64-bit limbs: unsigned without a sign,
//! signed in two's complement with one. Nothing is ever rounded: a literal
//! with more fractional digits than places is turned down, and so is a value
//! that leaves the 256-bit range.
//!
//! [`expand::try_expand`] starts from the tokens of an invocation,
//! [`compile::compile`] from a request that is already taken apart. The
//! module [`laws`] states what holds of every compilation.

pub mod amount;
pub mod arith;
pub mod compile;
pub mod decimal;
pub mod diagnostic;
pub mod expand;
pub mod laws;
pub mod places;
pub mod scale;
pub mod token;
pub mod word;

pub use amount::Amount;
pub use compile::{compile, Expansion, Request};
pub use diagnostic::{Anchor, Diagnostic, ErrorKind};
pub use expand::try_expand;
pub use token::{Delimiter, Sign, Token};
