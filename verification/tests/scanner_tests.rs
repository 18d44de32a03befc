use lox_scanner::scanner::Scanner;
use lox_scanner::token::{Error, Keyword, Kind, Position, Token};

fn scan(source: &str) -> Result<Vec<Token>, Error> {
    let mut scanner = Scanner::new(source.to_string());
    scanner.scan_tokens()
}

fn tokens(source: &str) -> Vec<Token> {
    scan(source).expect("scan should succeed")
}

#[test]
fn whitespace_and_comments_scan_to_nothing() {
    assert_eq!(tokens(""), vec![]);
    assert_eq!(tokens("   \t\r   "), vec![]);
    assert_eq!(tokens("\n\n\n"), vec![]);
    assert_eq!(tokens("// just a comment"), vec![]);
    assert_eq!(tokens("  // one\n\t// two\n"), vec![]);
}

#[test]
fn single_punctuation_marks() {
    let cases = vec![
        ("(", Kind::OpenParenthesis),
        (")", Kind::CloseParenthesis),
        ("{", Kind::OpenCurlyBracket),
        ("}", Kind::CloseCurlyBracket),
        (",", Kind::Comma),
        (".", Kind::Dot),
        ("-", Kind::Minus),
        ("+", Kind::Plus),
        (";", Kind::Semicolon),
        ("/", Kind::Slash),
        ("*", Kind::Asterisk),
    ];
    for (source, kind) in cases {
        let ts = tokens(source);
        assert_eq!(ts.len(), 1, "source {:?}", source);
        assert_eq!(ts[0].kind, kind, "source {:?}", source);
        assert_eq!(ts[0].position, Position { start: 0, end: 1, line: 1 });
    }
}

#[test]
fn one_and_two_character_operators() {
    let cases = vec![
        ("!", Kind::Exclamation, 1),
        ("!=", Kind::ExclamationEqual, 2),
        ("=", Kind::Equal, 1),
        ("==", Kind::EqualEqual, 2),
        ("<", Kind::Less, 1),
        ("<=", Kind::LessEqual, 2),
        (">", Kind::Greater, 1),
        (">=", Kind::GreaterEqual, 2),
    ];
    for (source, kind, end) in cases {
        let ts = tokens(source);
        assert_eq!(ts.len(), 1, "source {:?}", source);
        assert_eq!(ts[0].kind, kind, "source {:?}", source);
        assert_eq!(ts[0].position, Position { start: 0, end, line: 1 });
    }
}

#[test]
fn operator_lookahead_does_not_swallow_other_characters() {
    let ts = tokens("!x");
    assert_eq!(ts.len(), 2);
    assert_eq!(ts[0].kind, Kind::Exclamation);
    assert_eq!(ts[1].kind, Kind::Identifier("x".to_string()));
}

#[test]
fn comment_contributes_no_token_and_lines_advance() {
    let ts = tokens("// comment\n42");
    assert_eq!(ts.len(), 1);
    assert_eq!(ts[0].kind, Kind::Number("42".to_string()));
    assert_eq!(ts[0].position, Position { start: 11, end: 13, line: 2 });
    match &ts[0].kind {
        Kind::Number(lexeme) => assert_eq!(lexeme.parse::<f64>().unwrap(), 42.0),
        other => panic!("expected a number token, got {:?}", other),
    }
}

#[test]
fn string_literal_may_span_a_newline() {
    let ts = tokens("\"hello\nworld\"");
    assert_eq!(ts.len(), 1);
    assert_eq!(ts[0].kind, Kind::String("hello\nworld".to_string()));
    assert_eq!(ts[0].position.start, 0);
    assert_eq!(ts[0].position.end, 13);
    assert_eq!(ts[0].position.line, 1);
}

#[test]
fn line_counter_keeps_counting_inside_strings() {
    let ts = tokens("\"a\nb\" x");
    assert_eq!(ts.len(), 2);
    assert_eq!(ts[0].kind, Kind::String("a\nb".to_string()));
    assert_eq!(ts[0].position.line, 1);
    assert_eq!(ts[1].kind, Kind::Identifier("x".to_string()));
    assert_eq!(ts[1].position.line, 2);
}

#[test]
fn unterminated_string_fails() {
    let error = scan("\"abc").unwrap_err();
    assert_eq!(error.message, "EOF while scanning string literal");
    assert_eq!(error.line, 1);
}

#[test]
fn unterminated_string_reports_the_line_reached() {
    let error = scan("\"a\nb").unwrap_err();
    assert_eq!(error.message, "EOF while scanning string literal");
    assert_eq!(error.line, 2);
}

#[test]
fn number_with_fraction() {
    let ts = tokens("123.45");
    assert_eq!(ts.len(), 1);
    assert_eq!(ts[0].kind, Kind::Number("123.45".to_string()));
    assert_eq!(ts[0].position, Position { start: 0, end: 6, line: 1 });
    match &ts[0].kind {
        Kind::Number(lexeme) => assert_eq!(lexeme.parse::<f64>().unwrap(), 123.45),
        other => panic!("expected a number token, got {:?}", other),
    }
}

#[test]
fn trailing_dot_is_not_part_of_the_number() {
    let ts = tokens("123.");
    assert_eq!(ts.len(), 2);
    assert_eq!(ts[0].kind, Kind::Number("123".to_string()));
    assert_eq!(ts[0].position, Position { start: 0, end: 3, line: 1 });
    assert_eq!(ts[1].kind, Kind::Dot);
    assert_eq!(ts[1].position, Position { start: 3, end: 4, line: 1 });
    match &ts[0].kind {
        Kind::Number(lexeme) => assert_eq!(lexeme.parse::<f64>().unwrap(), 123.0),
        other => panic!("expected a number token, got {:?}", other),
    }
}

#[test]
fn keyword_needs_the_exact_span() {
    let ts = tokens("and");
    assert_eq!(ts.len(), 1);
    assert_eq!(ts[0].kind, Kind::Keyword(Keyword::And));

    let ts = tokens("andy");
    assert_eq!(ts.len(), 1);
    assert_eq!(ts[0].kind, Kind::Identifier("andy".to_string()));
}

#[test]
fn every_keyword_is_recognized() {
    let cases = vec![
        ("and", Keyword::And),
        ("class", Keyword::Class),
        ("else", Keyword::Else),
        ("false", Keyword::False),
        ("fun", Keyword::Fun),
        ("for", Keyword::For),
        ("if", Keyword::If),
        ("nil", Keyword::Nil),
        ("or", Keyword::Or),
        ("print", Keyword::Print),
        ("return", Keyword::Return),
        ("super", Keyword::Super),
        ("this", Keyword::This),
        ("true", Keyword::True),
        ("var", Keyword::Var),
        ("while", Keyword::While),
    ];
    for (source, keyword) in cases {
        let ts = tokens(source);
        assert_eq!(ts.len(), 1, "source {:?}", source);
        assert_eq!(ts[0].kind, Kind::Keyword(keyword), "source {:?}", source);
        assert_eq!(Keyword::from_str(source), Ok(keyword));
    }
    assert_eq!(Keyword::from_str("whale"), Err(()));
    assert_eq!(Keyword::from_str(""), Err(()));
}

#[test]
fn unrecognized_character_fails() {
    let error = scan("@").unwrap_err();
    assert_eq!(error.message, "Invalid syntax.");
    assert_eq!(error.line, 1);
}

#[test]
fn error_carries_the_line_it_happened_on() {
    let error = scan("(\n  @").unwrap_err();
    assert_eq!(error.message, "Invalid syntax.");
    assert_eq!(error.line, 2);
}

#[test]
fn error_discards_tokens_already_recognized() {
    assert!(scan("( ) @").is_err());
}

#[test]
fn spans_slice_back_to_the_classified_characters() {
    let source = "var x1 = (10.5 + 2) >= \"ok\" // tail\n!";
    let chars: Vec<char> = source.chars().collect();
    let ts = tokens(source);
    let expected = vec![
        (Kind::Keyword(Keyword::Var), "var"),
        (Kind::Identifier("x1".to_string()), "x1"),
        (Kind::Equal, "="),
        (Kind::OpenParenthesis, "("),
        (Kind::Number("10.5".to_string()), "10.5"),
        (Kind::Plus, "+"),
        (Kind::Number("2".to_string()), "2"),
        (Kind::CloseParenthesis, ")"),
        (Kind::GreaterEqual, ">="),
        (Kind::String("ok".to_string()), "\"ok\""),
        (Kind::Exclamation, "!"),
    ];
    assert_eq!(ts.len(), expected.len());
    for (token, (kind, lexeme)) in ts.iter().zip(expected.iter()) {
        assert_eq!(&token.kind, kind);
        let span: String =
            chars[token.position.start..token.position.end].iter().collect();
        assert_eq!(&span, lexeme);
        match &token.kind {
            Kind::Identifier(name) => assert_eq!(name, &span),
            Kind::Number(digits) => assert_eq!(digits, &span),
            Kind::String(contents) => {
                assert_eq!(format!("\"{}\"", contents), span);
            }
            _ => {}
        }
    }
    assert_eq!(ts[10].position.line, 2);
}

#[test]
fn scanning_is_restricted_to_characters_not_bytes() {
    let error = scan("\u{00b5}").unwrap_err();
    assert_eq!(error.message, "Invalid syntax.");
    assert_eq!(error.line, 1);
}
