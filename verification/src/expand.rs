//! From a sequence of tokens to a compiled amount.
//!
//! The tokens come in a fixed order: a group that holds the namespace, a
//! bracketed group that holds the decimal places, then the content: a
//! literal, with or without a sign in front of it. Nothing may follow.

use crate::amount::Quantity;
use crate::compile::{compile, compiled, Expansion, Request};
use crate::diagnostic::{Anchor, Diagnostic, ErrorKind, Fault};
use crate::places::{parse_places, places_of, PlacesFault};
use crate::token::{sign_of, Delimiter, Sign, Token};
use vstd::prelude::*;

verus! {

/// A request as contracts see it.
pub struct RequestView {
    pub namespace: Vec<Token>,
    pub decimals: nat,
    pub sign: Option<Sign>,
    pub literal: Seq<char>,
}

impl<'a> View for Request<'a> {
    type V = RequestView;

    open spec fn view(&self) -> RequestView {
        RequestView {
            namespace: *self.namespace,
            decimals: self.decimals as nat,
            sign: self.sign,
            literal: self.literal@,
        }
    }
}

/// A failure of the tokens' shape.
pub open spec fn shape_fault(anchor: Anchor, message: Seq<char>) -> Fault {
    Fault { kind: ErrorKind::Shape, anchor, message }
}

/// What is said of a text that is no count of decimal places.
pub open spec fn places_message(fault: PlacesFault) -> Seq<char> {
    match fault {
        PlacesFault::Empty => "parsing failed: cannot parse integer from empty string"@,
        PlacesFault::InvalidDigit => "parsing failed: invalid digit found in string"@,
        PlacesFault::TooLarge => "parsing failed: number too large to fit in target type"@,
    }
}

/// The decimal places that a token holds: it is a bracketed group of one
/// literal, and the literal's text is a count.
pub open spec fn decimals_of(token: Token) -> Result<nat, Fault> {
    match token {
        Token::Group(delimiter, inner) => if delimiter != Delimiter::Bracket {
            Err(shape_fault(Anchor::Decimals, "expected square brackets"@))
        } else if inner@.len() == 0 {
            Err(shape_fault(Anchor::Decimals, "unexpected end of input, expected literal"@))
        } else {
            match inner@[0] {
                Token::Literal(text) => match places_of(text@) {
                    Err(fault) => Err(
                        Fault {
                            kind: ErrorKind::Parse,
                            anchor: Anchor::Input,
                            message: places_message(fault),
                        },
                    ),
                    Ok(decimals) => if inner@.len() > 1 {
                        Err(shape_fault(Anchor::Decimals, "unexpected token"@))
                    } else {
                        Ok(decimals)
                    },
                },
                _ => Err(shape_fault(Anchor::Decimals, "expected literal"@)),
            }
        },
        _ => Err(shape_fault(Anchor::Input, "expected decimal number in group"@)),
    }
}

/// The sign and the place of the literal among the tokens. A punctuation
/// token in third place has to be a sign with a token behind it.
pub open spec fn sign_at(tokens: Seq<Token>) -> Result<(Option<Sign>, int), Fault>
    recommends
        tokens.len() > 2,
{
    match tokens[2] {
        Token::Punct(c) => if tokens.len() == 3 {
            Err(shape_fault(Anchor::Sign, "missing literal"@))
        } else {
            match sign_of(c) {
                Some(sign) => Ok((Some(sign), 3)),
                None => Err(shape_fault(Anchor::Sign, "expected sign or literal"@)),
            }
        },
        _ => Ok((None, 2)),
    }
}

/// The text of the literal that stands at a place and ends the tokens.
pub open spec fn literal_at(tokens: Seq<Token>, place: int) -> Result<Seq<char>, Fault>
    recommends
        0 <= place < tokens.len(),
{
    match tokens[place] {
        Token::Literal(text) => if tokens.len() > place + 1 {
            Err(shape_fault(Anchor::Trailing, "unexpected item"@))
        } else {
            Ok(text@)
        },
        _ => Err(shape_fault(Anchor::Literal, "expected literal"@)),
    }
}

/// The request that a sequence of tokens makes, or the first thing that is
/// wrong with it.
pub open spec fn request_of(tokens: Seq<Token>) -> Result<RequestView, Fault> {
    if tokens.len() == 0 {
        Err(shape_fault(Anchor::Input, "path expected"@))
    } else {
        match tokens[0] {
            Token::Group(_, namespace) => if tokens.len() == 1 {
                Err(shape_fault(Anchor::Input, "expected decimal number"@))
            } else {
                match decimals_of(tokens[1]) {
                    Err(fault) => Err(fault),
                    Ok(decimals) => if tokens.len() == 2 {
                        Err(shape_fault(Anchor::Input, "content is empty"@))
                    } else {
                        match sign_at(tokens) {
                            Err(fault) => Err(fault),
                            Ok((sign, place)) => match literal_at(tokens, place) {
                                Err(fault) => Err(fault),
                                Ok(literal) => Ok(
                                    RequestView { namespace, decimals, sign, literal },
                                ),
                            },
                        }
                    },
                }
            },
            _ => Err(shape_fault(Anchor::Input, "path expected"@)),
        }
    }
}

/// What a sequence of tokens expands to: the namespace to build in and the
/// quantity, or the first failure.
pub open spec fn expanded(tokens: Seq<Token>) -> Result<(Vec<Token>, Quantity), Fault> {
    match request_of(tokens) {
        Err(fault) => Err(fault),
        Ok(request) => match compiled(request.literal, request.decimals, request.sign) {
            Err(fault) => Err(fault),
            Ok(quantity) => Ok((request.namespace, quantity)),
        },
    }
}

fn shape_error(anchor: Anchor, message: &str) -> (d: Diagnostic)
    ensures
        d@ == shape_fault(anchor, message@),
{
    Diagnostic::new(ErrorKind::Shape, anchor, message)
}

/// Reads the decimal places out of their token.
pub fn parse_decimals(token: &Token) -> (r: Result<usize, Diagnostic>)
    ensures
        match r {
            Ok(decimals) => decimals_of(*token) == Ok::<nat, Fault>(decimals as nat),
            Err(d) => decimals_of(*token) == Err::<nat, Fault>(d@),
        },
{
    let (delimiter, inner) = match token {
        Token::Group(delimiter, inner) => (*delimiter, inner),
        _ => {
            return Err(shape_error(Anchor::Input, "expected decimal number in group"));
        },
    };
    match delimiter {
        Delimiter::Bracket => {},
        _ => {
            return Err(shape_error(Anchor::Decimals, "expected square brackets"));
        },
    }
    if inner.len() == 0 {
        return Err(shape_error(Anchor::Decimals, "unexpected end of input, expected literal"));
    }
    let text = match &inner[0] {
        Token::Literal(text) => text,
        _ => {
            return Err(shape_error(Anchor::Decimals, "expected literal"));
        },
    };
    let decimals = match parse_places(text.as_str()) {
        Ok(decimals) => decimals,
        Err(fault) => {
            let message = match fault {
                PlacesFault::Empty => "parsing failed: cannot parse integer from empty string",
                PlacesFault::InvalidDigit => "parsing failed: invalid digit found in string",
                PlacesFault::TooLarge => "parsing failed: number too large to fit in target type",
            };
            return Err(Diagnostic::new(ErrorKind::Parse, Anchor::Input, message));
        },
    };
    if inner.len() > 1 {
        return Err(shape_error(Anchor::Decimals, "unexpected token"));
    }
    Ok(decimals)
}

/// Checks the shape of the tokens and takes the request out of them.
pub fn parse_request<'a>(tokens: &'a [Token]) -> (r: Result<Request<'a>, Diagnostic>)
    ensures
        match r {
            Ok(request) => request_of(tokens@) == Ok::<RequestView, Fault>(request@),
            Err(d) => request_of(tokens@) == Err::<RequestView, Fault>(d@),
        },
{
    if tokens.len() == 0 {
        return Err(shape_error(Anchor::Input, "path expected"));
    }
    let namespace = match &tokens[0] {
        Token::Group(_, namespace) => namespace,
        _ => {
            return Err(shape_error(Anchor::Input, "path expected"));
        },
    };
    if tokens.len() == 1 {
        return Err(shape_error(Anchor::Input, "expected decimal number"));
    }
    let decimals = parse_decimals(&tokens[1])?;
    if tokens.len() == 2 {
        return Err(shape_error(Anchor::Input, "content is empty"));
    }
    let (sign, place): (Option<Sign>, usize) = match &tokens[2] {
        Token::Punct(c) => {
            if tokens.len() == 3 {
                return Err(shape_error(Anchor::Sign, "missing literal"));
            }
            match Sign::from_char(*c) {
                Some(sign) => (Some(sign), 3),
                None => {
                    return Err(shape_error(Anchor::Sign, "expected sign or literal"));
                },
            }
        },
        _ => (None, 2),
    };
    let literal = match &tokens[place] {
        Token::Literal(text) => text.as_str(),
        _ => {
            return Err(shape_error(Anchor::Literal, "expected literal"));
        },
    };
    if tokens.len() > place + 1 {
        return Err(shape_error(Anchor::Trailing, "unexpected item"));
    }
    Ok(Request { namespace, decimals, sign, literal })
}

/// Expands the tokens of one invocation: checks their shape, then compiles
/// the literal at the decimal places and under the sign that they give.
pub fn try_expand<'a>(tokens: &'a [Token]) -> (r: Result<Expansion<'a>, Diagnostic>)
    ensures
        match r {
            Ok(expansion) => expanded(tokens@) == Ok::<(Vec<Token>, Quantity), Fault>(
                (*expansion.namespace, expansion.amount@),
            ),
            Err(d) => expanded(tokens@) == Err::<(Vec<Token>, Quantity), Fault>(d@),
        },
{
    let request = parse_request(tokens)?;
    compile(&request)
}

} // verus!
