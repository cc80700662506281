use rustic::compiler::lexer::{Lexer, Token, TokenType};
use rustic::diagnostics::Error;

fn kinds(source: &str) -> Vec<TokenType> {
    let mut lexer = Lexer::new(source, "test.rsc");
    let tokens: Vec<Token> = lexer.tokenize().expect("tokens");
    tokens.into_iter().map(|t| t.token_type).collect()
}

fn failure(source: &str) -> Error {
    let mut lexer = Lexer::new(source, "test.rsc");
    lexer.tokenize().expect_err("a lexical error")
}

#[test]
fn empty_input_is_only_eof() {
    assert_eq!(kinds(""), vec![TokenType::Eof]);
    assert_eq!(kinds("  \t \r"), vec![TokenType::Eof]);
}

#[test]
fn declaration_tokens() {
    assert_eq!(
        kinds("let x: Int = 42;"),
        vec![
            TokenType::Let,
            TokenType::Identifier("x".to_string()),
            TokenType::Colon,
            TokenType::IntType,
            TokenType::Assign,
            TokenType::Integer(42),
            TokenType::Semicolon,
            TokenType::Eof,
        ]
    );
}

#[test]
fn two_character_operators_are_greedy() {
    assert_eq!(
        kinds("-> == != <= >= && || - = ! < >"),
        vec![
            TokenType::Arrow,
            TokenType::Equal,
            TokenType::NotEqual,
            TokenType::LessEqual,
            TokenType::GreaterEqual,
            TokenType::And,
            TokenType::Or,
            TokenType::Minus,
            TokenType::Assign,
            TokenType::Not,
            TokenType::Less,
            TokenType::Greater,
            TokenType::Eof,
        ]
    );
}

#[test]
fn lone_ampersand_and_bar_are_errors() {
    assert_eq!(failure("a & b"), Error::LexError("Unexpected character: & at line 1, column 3".to_string()));
    assert_eq!(failure("a | b"), Error::LexError("Unexpected character: | at line 1, column 3".to_string()));
}

#[test]
fn unknown_character_is_an_error() {
    assert_eq!(
        failure("let # = 1"),
        Error::LexError("Unexpected character: # at line 1, column 5".to_string())
    );
    assert_eq!(
        failure("let a\n  = 1 ?"),
        Error::LexError("Unexpected character: ? at line 2, column 7".to_string())
    );
}

#[test]
fn string_escapes() {
    assert_eq!(
        kinds(r#""a\n\t\r\\\"b""#),
        vec![TokenType::String("a\n\t\r\\\"b".to_string()), TokenType::Eof]
    );
}

#[test]
fn unknown_escape_is_an_error() {
    assert_eq!(failure(r#""a\qb""#), Error::LexError("Invalid escape sequence: \\q".to_string()));
}

#[test]
fn unterminated_string_is_an_error() {
    assert_eq!(failure("let s: Str = \"abc"), Error::LexError("Unterminated string".to_string()));
    assert_eq!(failure("\"abc\\"), Error::LexError("Unterminated string".to_string()));
}

#[test]
fn numbers() {
    assert_eq!(
        kinds("0 007 3.14 9223372036854775807 1.x 2."),
        vec![
            TokenType::Integer(0),
            TokenType::Integer(7),
            TokenType::Float("3.14".to_string()),
            TokenType::Integer(9223372036854775807),
            TokenType::Integer(1),
            TokenType::Dot,
            TokenType::Identifier("x".to_string()),
            TokenType::Integer(2),
            TokenType::Dot,
            TokenType::Eof,
        ]
    );
}

#[test]
fn integer_out_of_range_is_an_error() {
    assert_eq!(
        failure("9223372036854775808"),
        Error::LexError("Integer literal out of range: 9223372036854775808".to_string())
    );
}

#[test]
fn keywords_and_identifiers() {
    assert_eq!(
        kinds("let var fn if else for in try catch return import struct throw"),
        vec![
            TokenType::Let,
            TokenType::Var,
            TokenType::Fn,
            TokenType::If,
            TokenType::Else,
            TokenType::For,
            TokenType::In,
            TokenType::Try,
            TokenType::Catch,
            TokenType::Return,
            TokenType::Import,
            TokenType::Struct,
            TokenType::Throw,
            TokenType::Eof,
        ]
    );
    assert_eq!(
        kinds("Int Float Str Bool List Void true false lets _x1 const"),
        vec![
            TokenType::IntType,
            TokenType::FloatType,
            TokenType::StrType,
            TokenType::BoolType,
            TokenType::ListType,
            TokenType::VoidType,
            TokenType::Boolean(true),
            TokenType::Boolean(false),
            TokenType::Identifier("lets".to_string()),
            TokenType::Identifier("_x1".to_string()),
            TokenType::Identifier("const".to_string()),
            TokenType::Eof,
        ]
    );
}

#[test]
fn comments_run_to_the_end_of_the_line() {
    assert_eq!(
        kinds("a // b c\nd // e"),
        vec![
            TokenType::Identifier("a".to_string()),
            TokenType::Newline,
            TokenType::Identifier("d".to_string()),
            TokenType::Eof,
        ]
    );
    assert_eq!(kinds("a / b"), vec![
        TokenType::Identifier("a".to_string()),
        TokenType::Slash,
        TokenType::Identifier("b".to_string()),
        TokenType::Eof,
    ]);
}

#[test]
fn spans_follow_lines_and_columns() {
    let mut lexer = Lexer::new("ab \"x\ny\"\n  c", "m.rsc");
    let tokens = lexer.tokenize().expect("tokens");
    let spans: Vec<(usize, usize, usize, usize)> = tokens
        .iter()
        .map(|t| (t.span.start_line, t.span.start_column, t.span.end_line, t.span.end_column))
        .collect();
    assert_eq!(
        spans,
        vec![(1, 1, 1, 3), (1, 4, 2, 3), (2, 3, 3, 1), (3, 3, 3, 4), (3, 4, 3, 4)]
    );
    assert!(tokens.iter().all(|t| t.span.file == "m.rsc"));
}
