use neatproto::error::ParseError;
use neatproto::source_file::SourceFile;
use neatproto::token::{LocalizedToken, Token};
use neatproto::tokens::Tokens;
use neatproto::types::BuiltinTypeName;

fn all_tokens(source: &str) -> Vec<LocalizedToken> {
    let source_file = SourceFile::new_from_source("file.np", source);
    let mut tokens = Tokens::new(&source_file);
    let mut all = vec![];
    while let Some(token) = tokens.next() {
        all.push(token);
    }
    all
}

fn kinds(source: &str) -> Vec<Token> {
    all_tokens(source).into_iter().map(|token| token.token).collect()
}

#[test]
fn test_every_kind_of_token() {
    assert_eq!(
        kinds("foo_1 _x 42 \"a b\" ( ) { } [ ] : ; = @ , #"),
        vec![
            Token::Identifier("foo_1".into()),
            Token::Identifier("_x".into()),
            Token::Digit("42".into()),
            Token::String("a b".into()),
            Token::ParenOpen,
            Token::ParenClose,
            Token::BraceOpen,
            Token::BraceClose,
            Token::SquareOpen,
            Token::SquareClose,
            Token::Colon,
            Token::Semicolon,
            Token::Equal,
            Token::At,
            Token::Comma,
            Token::Unknown('#'),
        ]
    );
}

#[test]
fn test_tokens_without_spaces() {
    assert_eq!(
        kinds("a:b[4];"),
        vec![
            Token::Identifier("a".into()),
            Token::Colon,
            Token::Identifier("b".into()),
            Token::SquareOpen,
            Token::Digit("4".into()),
            Token::SquareClose,
            Token::Semicolon,
        ]
    );
    assert_eq!(
        kinds("12ab"),
        vec![Token::Digit("12".into()), Token::Identifier("ab".into())]
    );
    assert_eq!(kinds("-1"), vec![Token::Unknown('-'), Token::Digit("1".into())]);
}

#[test]
fn test_unfinished_string() {
    assert_eq!(kinds("\"abc"), vec![Token::String("abc".into())]);
    assert_eq!(kinds("\""), vec![Token::String("".into())]);
    assert_eq!(
        kinds("\"a\\\"b"),
        vec![Token::String("a\\".into()), Token::Identifier("b".into())]
    );
}

#[test]
fn test_locations() {
    let tokens = all_tokens("ab  cd\n  \"xy\" z\n\n;");
    let places: Vec<(usize, usize)> =
        tokens.iter().map(|t| (t.location.line, t.location.column)).collect();
    // A string moves the column by the length of its text, without the quotes.
    assert_eq!(places, vec![(1, 1), (1, 5), (2, 3), (2, 6), (4, 1)]);
    assert!(tokens.iter().all(|t| t.location.file_path == "file.np"));
}

#[test]
fn test_column_counts_bytes() {
    let tokens = all_tokens("\u{e9}t\u{e9} x");
    assert_eq!(tokens[0].token, Token::Identifier("\u{e9}t\u{e9}".into()));
    assert_eq!(tokens[0].len(), 5);
    assert_eq!(tokens[1].location.column, 7);
}

#[test]
fn test_location_at_the_end() {
    let source_file = SourceFile::new_from_source("file.np", "a \n b  ");
    let mut tokens = source_file.tokens();
    assert_eq!(tokens.location().line, 1);
    assert_eq!(tokens.location().column, 1);
    tokens.next();
    assert_eq!(tokens.location().column, 2);
    tokens.next();
    assert_eq!((tokens.location().line, tokens.location().column), (2, 3));
    assert!(tokens.next().is_none());
    assert_eq!((tokens.location().line, tokens.location().column), (2, 5));
    assert!(tokens.next().is_none());
    assert_eq!((tokens.location().line, tokens.location().column), (2, 5));
}

#[test]
fn test_token_value_and_len() {
    assert_eq!(Token::Identifier("abc".into()).value(), "abc");
    assert_eq!(Token::Identifier("abc".into()).len(), 3);
    assert_eq!(Token::Digit("1234".into()).len(), 4);
    assert_eq!(Token::String("".into()).len(), 0);
    let marks = [
        (Token::ParenOpen, "("),
        (Token::ParenClose, ")"),
        (Token::BraceOpen, "{"),
        (Token::BraceClose, "}"),
        (Token::SquareOpen, "["),
        (Token::SquareClose, "]"),
        (Token::Colon, ":"),
        (Token::Semicolon, ";"),
        (Token::Equal, "="),
        (Token::At, "@"),
        (Token::Comma, ","),
        (Token::Unknown('\u{20ac}'), "\u{20ac}"),
    ];
    for (token, text) in marks {
        assert_eq!(token.value(), text);
        assert_eq!(token.len(), 1);
    }
}

#[test]
fn test_localized_token_value_and_len() {
    let tokens = all_tokens("hello");
    assert_eq!(tokens[0].value(), "hello");
    assert_eq!(tokens[0].len(), 5);
}

#[test]
fn test_token_equality() {
    assert_eq!(Token::Identifier("a".into()), Token::Identifier("a".into()));
    assert_ne!(Token::Identifier("a".into()), Token::Identifier("b".into()));
    assert_ne!(Token::Identifier("1".into()), Token::Digit("1".into()));
    assert_ne!(Token::BraceOpen, Token::BraceClose);
    assert_eq!(Token::Unknown('x'), Token::Unknown('x'));
}

#[test]
fn test_next_of_a_kind() {
    let source_file = SourceFile::new_from_source("f", "a = 1 ;");
    let mut tokens = source_file.tokens();
    assert_eq!(tokens.next_identifier().unwrap().token, Token::Identifier("a".into()));
    assert_eq!(tokens.next_kind(Token::Equal).unwrap().token, Token::Equal);
    assert_eq!(tokens.next_literal().unwrap().token, Token::Digit("1".into()));
    assert_eq!(tokens.next_or_err().unwrap().token, Token::Semicolon);
    assert!(matches!(tokens.next_or_err().unwrap_err().error, ParseError::UnexpectedEndOfFile));
    assert!(matches!(tokens.next_identifier().unwrap_err().error, ParseError::UnexpectedEndOfFile));
    assert!(matches!(tokens.next_literal().unwrap_err().error, ParseError::UnexpectedEndOfFile));
    let error = tokens.next_kind(Token::Comma).unwrap_err();
    assert!(matches!(error.error, ParseError::UnexpectedEndOfFile));
    assert_eq!((error.location.line, error.location.column), (1, 8));
}

#[test]
fn test_next_of_another_kind() {
    let source_file = SourceFile::new_from_source("f", "1 a b");
    let mut tokens = source_file.tokens();
    let error = tokens.next_identifier().unwrap_err();
    assert!(matches!(error.error, ParseError::ExpectedIdentifier));
    assert_eq!(error.location.column, 1);
    let error = tokens.next_literal().unwrap_err();
    assert!(matches!(error.error, ParseError::ExpectedLiteral));
    assert_eq!(error.location.column, 3);
    let error = tokens.next_kind(Token::Colon).unwrap_err();
    assert!(matches!(error.error, ParseError::ExpectedTokenOfKind(Token::Colon)));
    assert_eq!(error.location.column, 5);
    assert_eq!(error.to_string(), "Expected ':' in file 'f' at line 1:5");
}

#[test]
fn test_error_messages() {
    assert_eq!(ParseError::UnexpectedToken(Token::At).to_string(), "Unexpected token '@'");
    assert_eq!(ParseError::UnknownIdentifier("x".into()).to_string(), "Unknown identifier 'x'");
    assert_eq!(ParseError::ExpectedIdentifier.to_string(), "Expected an identifier");
    assert_eq!(ParseError::ExpectedTokenOfKind(Token::Comma).to_string(), "Expected ','");
    assert_eq!(ParseError::UnexpectedEndOfFile.to_string(), "Unexpected end of file");
    assert_eq!(ParseError::ExpectedLiteral.to_string(), "Expected a literal");
}

#[test]
fn test_error_location_with_many_digits() {
    let mut source = String::new();
    for _ in 0..120 {
        source.push('\n');
    }
    source.push_str("            ?");
    let source_file = SourceFile::new_from_source("deep/file.np", &source);
    let error = neatproto::parser::parse_block(&mut source_file.tokens()).unwrap_err();
    assert_eq!(error.to_string(), "Unexpected token '?' in file 'deep/file.np' at line 121:13");
}

#[test]
fn test_builtin_type_names() {
    let names = [
        ("uint8", BuiltinTypeName::Uint8),
        ("uint16", BuiltinTypeName::Uint16),
        ("uint32", BuiltinTypeName::Uint32),
        ("uint64", BuiltinTypeName::Uint64),
        ("uint128", BuiltinTypeName::Uint128),
        ("int8", BuiltinTypeName::Int8),
        ("int16", BuiltinTypeName::Int16),
        ("int32", BuiltinTypeName::Int32),
        ("int64", BuiltinTypeName::Int64),
        ("int128", BuiltinTypeName::Int128),
        ("float", BuiltinTypeName::Float32),
        ("float64", BuiltinTypeName::Float64),
        ("bool", BuiltinTypeName::Bool),
        ("string", BuiltinTypeName::String),
    ];
    for (name, builtin) in names {
        assert_eq!(BuiltinTypeName::parse(name), Some(builtin));
    }
    assert_eq!(BuiltinTypeName::parse("float32"), None);
    assert_eq!(BuiltinTypeName::parse("Uint8"), None);
    assert_eq!(BuiltinTypeName::parse(""), None);
}

#[test]
fn test_decimal() {
    assert_eq!(neatproto::text::decimal(0), "0");
    assert_eq!(neatproto::text::decimal(7), "7");
    assert_eq!(neatproto::text::decimal(10), "10");
    assert_eq!(neatproto::text::decimal(9051), "9051");
    assert_eq!(neatproto::text::decimal(usize::MAX), usize::MAX.to_string());
}

#[test]
fn test_characters() {
    assert_eq!(neatproto::text::characters("a\u{e9}\n"), vec!['a', '\u{e9}', '\n']);
    assert!(neatproto::text::characters("").is_empty());
}

#[test]
fn test_source_file() {
    let source_file = SourceFile::new_from_source("a/b.np", "alias A = B;");
    assert_eq!(source_file.path, "a/b.np");
    assert_eq!(source_file.contents, "alias A = B;");
    assert!(source_file.fits());
    assert!(SourceFile::new_from_source("", "").fits());
}
