//! The tokens that a request is made of.

use vstd::prelude::*;

verus! {

/// The brackets around a group of tokens.
#[derive(Clone, Copy, Debug, PartialEq, Eq, Structural)]
pub enum Delimiter {
    /// `( ... )`
    Parenthesis,
    /// `{ ... }`
    Brace,
    /// `[ ... ]`
    Bracket,
    /// A group without written brackets.
    Invisible,
}

/// One token of the input: a group of further tokens, a word, a single
/// punctuation character or a literal with its text.
#[derive(Debug, PartialEq, Eq)]
pub enum Token {
    Group(Delimiter, Vec<Token>),
    Ident(String),
    Punct(char),
    Literal(String),
}

/// The polarity that a sign token asks for.
#[derive(Clone, Copy, Debug, PartialEq, Eq, Structural)]
pub enum Sign {
    Plus,
    Minus,
}

/// The sign that a punctuation character writes, if it writes one.
pub open spec fn sign_of(c: char) -> Option<Sign> {
    if c == '+' {
        Some(Sign::Plus)
    } else if c == '-' {
        Some(Sign::Minus)
    } else {
        None
    }
}

impl Sign {
    /// Reads `+` and `-`; no other character is a sign.
    pub fn from_char(c: char) -> (sign: Option<Sign>)
        ensures
            sign == sign_of(c),
    {
        if c == '+' {
            Some(Sign::Plus)
        } else if c == '-' {
            Some(Sign::Minus)
        } else {
            None
        }
    }
}

} // verus!
