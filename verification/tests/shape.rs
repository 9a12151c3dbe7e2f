use unit_amount::amount::Amount;
use unit_amount::compile::Request;
use unit_amount::diagnostic::{Anchor, Diagnostic, ErrorKind};
use unit_amount::expand::{parse_decimals, parse_request, try_expand};
use unit_amount::places::{parse_places, PlacesFault};
use unit_amount::token::{Delimiter, Sign, Token};

fn literal(text: &str) -> Token {
    Token::Literal(text.to_string())
}

fn bracketed(tokens: Vec<Token>) -> Token {
    Token::Group(Delimiter::Bracket, tokens)
}

fn path() -> Token {
    bracketed(vec![Token::Ident("crate".to_string())])
}

fn shape(anchor: Anchor, message: &str) -> Diagnostic {
    Diagnostic { kind: ErrorKind::Shape, anchor, message: message.to_string() }
}

fn failure(tokens: Vec<Token>) -> Diagnostic {
    let parsed = parse_request(&tokens).map(|_| ()).unwrap_err();
    let expanded = try_expand(&tokens).map(|_| ()).unwrap_err();
    assert_eq!(parsed, expanded);
    parsed
}

#[test]
fn a_request_is_read_from_its_tokens() {
    let tokens = vec![path(), bracketed(vec![literal("6")]), Token::Punct('-'), literal("1.678")];
    let namespace = vec![Token::Ident("crate".to_string())];
    assert_eq!(
        parse_request(&tokens),
        Ok(Request { namespace: &namespace, decimals: 6, sign: Some(Sign::Minus), literal: "1.678" })
    );
    let tokens = vec![path(), bracketed(vec![literal("18")]), literal("1")];
    assert_eq!(
        parse_request(&tokens),
        Ok(Request { namespace: &namespace, decimals: 18, sign: None, literal: "1" })
    );
    let tokens = vec![path(), bracketed(vec![literal("0")]), Token::Punct('+'), literal("1")];
    assert_eq!(
        parse_request(&tokens),
        Ok(Request { namespace: &namespace, decimals: 0, sign: Some(Sign::Plus), literal: "1" })
    );
}

#[test]
fn any_group_holds_a_namespace() {
    let tokens = vec![
        Token::Group(Delimiter::Parenthesis, vec![]),
        bracketed(vec![literal("2")]),
        literal("1"),
    ];
    let expansion = try_expand(&tokens).unwrap();
    assert!(expansion.namespace.is_empty());
    assert_eq!(expansion.amount, Amount::Unsigned([100, 0, 0, 0]));
}

#[test]
fn no_tokens_have_no_path() {
    assert_eq!(failure(vec![]), shape(Anchor::Input, "path expected"));
}

#[test]
fn the_path_is_a_group() {
    assert_eq!(
        failure(vec![literal("18"), bracketed(vec![literal("18")]), literal("1")]),
        shape(Anchor::Input, "path expected")
    );
    assert_eq!(
        failure(vec![Token::Ident("crate".to_string())]),
        shape(Anchor::Input, "path expected")
    );
}

#[test]
fn the_decimal_places_are_required() {
    assert_eq!(failure(vec![path()]), shape(Anchor::Input, "expected decimal number"));
}

#[test]
fn the_decimal_places_stand_in_a_group() {
    assert_eq!(
        failure(vec![path(), literal("18"), literal("1")]),
        shape(Anchor::Input, "expected decimal number in group")
    );
}

#[test]
fn the_group_of_the_decimal_places_is_bracketed() {
    assert_eq!(
        failure(vec![
            path(),
            Token::Group(Delimiter::Parenthesis, vec![literal("18")]),
            literal("1")
        ]),
        shape(Anchor::Decimals, "expected square brackets")
    );
    assert_eq!(
        failure(vec![
            path(),
            Token::Group(Delimiter::Invisible, vec![literal("18")]),
            literal("1")
        ]),
        shape(Anchor::Decimals, "expected square brackets")
    );
}

#[test]
fn the_group_of_the_decimal_places_holds_one_literal() {
    assert_eq!(
        failure(vec![path(), bracketed(vec![]), literal("1")]),
        shape(Anchor::Decimals, "unexpected end of input, expected literal")
    );
    assert_eq!(
        failure(vec![path(), bracketed(vec![Token::Punct('-'), literal("18")]), literal("1")]),
        shape(Anchor::Decimals, "expected literal")
    );
    assert_eq!(
        failure(vec![path(), bracketed(vec![literal("18"), literal("2")]), literal("1")]),
        shape(Anchor::Decimals, "unexpected token")
    );
}

#[test]
fn the_decimal_places_are_a_count() {
    let parse = |message: &str| Diagnostic {
        kind: ErrorKind::Parse,
        anchor: Anchor::Input,
        message: message.to_string(),
    };
    assert_eq!(
        failure(vec![path(), bracketed(vec![literal("")]), literal("1")]),
        parse("parsing failed: cannot parse integer from empty string")
    );
    assert_eq!(
        failure(vec![path(), bracketed(vec![literal("1_8")]), literal("1")]),
        parse("parsing failed: invalid digit found in string")
    );
    assert_eq!(
        failure(vec![path(), bracketed(vec![literal("18usize"), literal("2")]), literal("1")]),
        parse("parsing failed: invalid digit found in string")
    );
    assert_eq!(
        failure(vec![
            path(),
            bracketed(vec![literal("340282366920938463463374607431768211456")]),
            literal("1")
        ]),
        parse("parsing failed: number too large to fit in target type")
    );
}

#[test]
fn parse_decimals_reads_the_count() {
    assert_eq!(parse_decimals(&bracketed(vec![literal("18")])), Ok(18));
    assert_eq!(parse_decimals(&bracketed(vec![literal("0")])), Ok(0));
    assert_eq!(parse_decimals(&bracketed(vec![literal("007")])), Ok(7));
    assert_eq!(
        parse_decimals(&literal("18")),
        Err(shape(Anchor::Input, "expected decimal number in group"))
    );
}

#[test]
fn parse_places_reads_digits() {
    assert_eq!(parse_places("0"), Ok(0));
    assert_eq!(parse_places("18"), Ok(18));
    assert_eq!(parse_places("+18"), Ok(18));
    assert_eq!(parse_places("000018"), Ok(18));
    assert_eq!(parse_places(&usize::MAX.to_string()), Ok(usize::MAX));
}

#[test]
fn parse_places_turns_down_what_is_no_count() {
    assert_eq!(parse_places(""), Err(PlacesFault::Empty));
    assert_eq!(parse_places("+"), Err(PlacesFault::InvalidDigit));
    assert_eq!(parse_places("-"), Err(PlacesFault::InvalidDigit));
    assert_eq!(parse_places("-1"), Err(PlacesFault::InvalidDigit));
    assert_eq!(parse_places("1+"), Err(PlacesFault::InvalidDigit));
    assert_eq!(parse_places("++1"), Err(PlacesFault::InvalidDigit));
    assert_eq!(parse_places("1 "), Err(PlacesFault::InvalidDigit));
    assert_eq!(parse_places("1.5"), Err(PlacesFault::InvalidDigit));
    assert_eq!(parse_places("١٨"), Err(PlacesFault::InvalidDigit));
    assert_eq!(parse_places(&format!("{}0", usize::MAX)), Err(PlacesFault::TooLarge));
    assert_eq!(
        parse_places(&(usize::MAX as u128 + 1).to_string()),
        Err(PlacesFault::TooLarge)
    );
    assert_eq!(
        parse_places("99999999999999999999999999x"),
        Err(PlacesFault::TooLarge)
    );
    assert_eq!(parse_places("9x99999999999999999999999999"), Err(PlacesFault::InvalidDigit));
}

#[test]
fn parse_places_agrees_with_the_standard_parser() {
    for text in ["", "+", "-", "0", "+0", "18", "1_8", "18usize", " 18", "+-1", "18446744073709551615",
        "18446744073709551616", "1844674407370955161x", "99999999999999999999x"]
    {
        assert_eq!(parse_places(text).ok(), text.parse::<usize>().ok());
    }
}

#[test]
fn the_content_is_required() {
    assert_eq!(
        failure(vec![path(), bracketed(vec![literal("18")])]),
        shape(Anchor::Input, "content is empty")
    );
}

#[test]
fn a_sign_needs_a_literal() {
    assert_eq!(
        failure(vec![path(), bracketed(vec![literal("18")]), Token::Punct('-')]),
        shape(Anchor::Sign, "missing literal")
    );
    assert_eq!(
        failure(vec![path(), bracketed(vec![literal("18")]), Token::Punct('*')]),
        shape(Anchor::Sign, "missing literal")
    );
}

#[test]
fn other_punctuation_is_no_sign() {
    assert_eq!(
        failure(vec![path(), bracketed(vec![literal("18")]), Token::Punct('*'), literal("1")]),
        shape(Anchor::Sign, "expected sign or literal")
    );
}

#[test]
fn the_content_is_a_literal() {
    assert_eq!(
        failure(vec![path(), bracketed(vec![literal("18")]), Token::Ident("one".to_string())]),
        shape(Anchor::Literal, "expected literal")
    );
    assert_eq!(
        failure(vec![
            path(),
            bracketed(vec![literal("18")]),
            Token::Punct('-'),
            Token::Punct('-'),
            literal("1")
        ]),
        shape(Anchor::Literal, "expected literal")
    );
    assert_eq!(
        failure(vec![path(), bracketed(vec![literal("18")]), bracketed(vec![literal("1")])]),
        shape(Anchor::Literal, "expected literal")
    );
}

#[test]
fn nothing_follows_the_literal() {
    assert_eq!(
        failure(vec![path(), bracketed(vec![literal("18")]), literal("1"), literal("2")]),
        shape(Anchor::Trailing, "unexpected item")
    );
    assert_eq!(
        failure(vec![
            path(),
            bracketed(vec![literal("18")]),
            Token::Punct('+'),
            literal("1"),
            Token::Punct('+')
        ]),
        shape(Anchor::Trailing, "unexpected item")
    );
}

#[test]
fn the_shape_is_checked_before_the_literal_is_read() {
    assert_eq!(
        failure(vec![path(), bracketed(vec![literal("18")]), literal("1x"), literal("2")]),
        shape(Anchor::Trailing, "unexpected item")
    );
    let tokens = vec![path(), bracketed(vec![literal("18")]), literal("1x")];
    assert!(parse_request(&tokens).is_ok());
    assert_eq!(
        try_expand(&tokens),
        Err(Diagnostic {
            kind: ErrorKind::Parse,
            anchor: Anchor::Literal,
            message: "invalid digit: x".to_string(),
        })
    );
}

#[test]
fn sign_from_char_reads_both_signs() {
    assert_eq!(Sign::from_char('+'), Some(Sign::Plus));
    assert_eq!(Sign::from_char('-'), Some(Sign::Minus));
    assert_eq!(Sign::from_char('*'), None);
    assert_eq!(Sign::from_char('1'), None);
}

#[test]
fn a_diagnostic_keeps_what_it_is_given() {
    let d = Diagnostic::new(ErrorKind::Overflow, Anchor::Literal, "overflow");
    assert_eq!(d.kind, ErrorKind::Overflow);
    assert_eq!(d.anchor, Anchor::Literal);
    assert_eq!(d.message, "overflow");
}
