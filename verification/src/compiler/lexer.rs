//! Lexical analysis: source text to located tokens.

use vstd::prelude::*;
use crate::diagnostics::{Error, ErrorView, Span, SpanView};
use crate::text::{
    all_digits, char_is_digit, char_is_ident_part, char_is_ident_start, chars_of, decimal_text,
    decimal_value, is_digit, is_ident_part, is_ident_start, parse_decimal, push_decimal,
    string_of,
};

verus! {

#[derive(Debug, Clone, PartialEq)]
pub enum TokenType {
    Integer(i64),
    /// A float literal, kept as the digits, the point and the digits
    /// that the source text holds.
    Float(String),
    String(String),
    Boolean(bool),
    Identifier(String),
    Let,
    Var,
    Fn,
    If,
    Else,
    For,
    In,
    Try,
    Catch,
    Return,
    Import,
    Struct,
    Throw,
    IntType,
    FloatType,
    StrType,
    BoolType,
    ListType,
    VoidType,
    Plus,
    Minus,
    Star,
    Slash,
    Percent,
    Equal,
    NotEqual,
    Less,
    LessEqual,
    Greater,
    GreaterEqual,
    And,
    Or,
    Not,
    Assign,
    LeftParen,
    RightParen,
    LeftBrace,
    RightBrace,
    LeftBracket,
    RightBracket,
    Comma,
    Dot,
    Colon,
    Semicolon,
    Arrow,
    Newline,
    Eof,
}

/// The mathematical value of a [`TokenType`].
pub enum TokenTypeView {
    Integer(int),
    Float(Seq<char>),
    String(Seq<char>),
    Boolean(bool),
    Identifier(Seq<char>),
    Let,
    Var,
    Fn,
    If,
    Else,
    For,
    In,
    Try,
    Catch,
    Return,
    Import,
    Struct,
    Throw,
    IntType,
    FloatType,
    StrType,
    BoolType,
    ListType,
    VoidType,
    Plus,
    Minus,
    Star,
    Slash,
    Percent,
    Equal,
    NotEqual,
    Less,
    LessEqual,
    Greater,
    GreaterEqual,
    And,
    Or,
    Not,
    Assign,
    LeftParen,
    RightParen,
    LeftBrace,
    RightBrace,
    LeftBracket,
    RightBracket,
    Comma,
    Dot,
    Colon,
    Semicolon,
    Arrow,
    Newline,
    Eof,
}

impl View for TokenType {
    type V = TokenTypeView;

    open spec fn view(&self) -> TokenTypeView {
        match self {
            TokenType::Integer(n) => TokenTypeView::Integer(*n as int),
            TokenType::Float(s) => TokenTypeView::Float(s@),
            TokenType::String(s) => TokenTypeView::String(s@),
            TokenType::Boolean(b) => TokenTypeView::Boolean(*b),
            TokenType::Identifier(s) => TokenTypeView::Identifier(s@),
            TokenType::Let => TokenTypeView::Let,
            TokenType::Var => TokenTypeView::Var,
            TokenType::Fn => TokenTypeView::Fn,
            TokenType::If => TokenTypeView::If,
            TokenType::Else => TokenTypeView::Else,
            TokenType::For => TokenTypeView::For,
            TokenType::In => TokenTypeView::In,
            TokenType::Try => TokenTypeView::Try,
            TokenType::Catch => TokenTypeView::Catch,
            TokenType::Return => TokenTypeView::Return,
            TokenType::Import => TokenTypeView::Import,
            TokenType::Struct => TokenTypeView::Struct,
            TokenType::Throw => TokenTypeView::Throw,
            TokenType::IntType => TokenTypeView::IntType,
            TokenType::FloatType => TokenTypeView::FloatType,
            TokenType::StrType => TokenTypeView::StrType,
            TokenType::BoolType => TokenTypeView::BoolType,
            TokenType::ListType => TokenTypeView::ListType,
            TokenType::VoidType => TokenTypeView::VoidType,
            TokenType::Plus => TokenTypeView::Plus,
            TokenType::Minus => TokenTypeView::Minus,
            TokenType::Star => TokenTypeView::Star,
            TokenType::Slash => TokenTypeView::Slash,
            TokenType::Percent => TokenTypeView::Percent,
            TokenType::Equal => TokenTypeView::Equal,
            TokenType::NotEqual => TokenTypeView::NotEqual,
            TokenType::Less => TokenTypeView::Less,
            TokenType::LessEqual => TokenTypeView::LessEqual,
            TokenType::Greater => TokenTypeView::Greater,
            TokenType::GreaterEqual => TokenTypeView::GreaterEqual,
            TokenType::And => TokenTypeView::And,
            TokenType::Or => TokenTypeView::Or,
            TokenType::Not => TokenTypeView::Not,
            TokenType::Assign => TokenTypeView::Assign,
            TokenType::LeftParen => TokenTypeView::LeftParen,
            TokenType::RightParen => TokenTypeView::RightParen,
            TokenType::LeftBrace => TokenTypeView::LeftBrace,
            TokenType::RightBrace => TokenTypeView::RightBrace,
            TokenType::LeftBracket => TokenTypeView::LeftBracket,
            TokenType::RightBracket => TokenTypeView::RightBracket,
            TokenType::Comma => TokenTypeView::Comma,
            TokenType::Dot => TokenTypeView::Dot,
            TokenType::Colon => TokenTypeView::Colon,
            TokenType::Semicolon => TokenTypeView::Semicolon,
            TokenType::Arrow => TokenTypeView::Arrow,
            TokenType::Newline => TokenTypeView::Newline,
            TokenType::Eof => TokenTypeView::Eof,
        }
    }
}

#[derive(Debug, Clone)]
pub struct Token {
    pub token_type: TokenType,
    pub span: Span,
}

/// The mathematical value of a [`Token`].
pub struct TokenView {
    pub token_type: TokenTypeView,
    pub span: SpanView,
}

impl View for Token {
    type V = TokenView;

    open spec fn view(&self) -> TokenView {
        TokenView { token_type: self.token_type@, span: self.span@ }
    }
}

impl DeepView for Token {
    type V = TokenView;

    open spec fn deep_view(&self) -> TokenView {
        self@
    }
}

/// The line, counted from 1, of the character at offset `pos`.
pub open spec fn line_at(input: Seq<char>, pos: int) -> nat
    decreases pos,
{
    if pos <= 0 {
        1
    } else if input[pos - 1] == '\n' {
        line_at(input, pos - 1) + 1
    } else {
        line_at(input, pos - 1)
    }
}

/// The column, counted from 1, of the character at offset `pos`.
pub open spec fn column_at(input: Seq<char>, pos: int) -> nat
    decreases pos,
{
    if pos <= 0 {
        1
    } else if input[pos - 1] == '\n' {
        1
    } else {
        column_at(input, pos - 1) + 1
    }
}

/// The span of the text between the offsets `start` and `end`.
pub open spec fn span_between(input: Seq<char>, file: Seq<char>, start: int, end: int) -> SpanView {
    SpanView {
        file,
        start_line: line_at(input, start),
        start_column: column_at(input, start),
        end_line: line_at(input, end),
        end_column: column_at(input, end),
    }
}

/// Blanks between tokens. A line feed is no blank: it is a token.
pub open spec fn is_blank(c: char) -> bool {
    c == ' ' || c == '\t' || c == '\r'
}

/// The first offset at or after `pos` that holds no blank.
pub open spec fn skip_blanks(input: Seq<char>, pos: int) -> int
    decreases input.len() - pos,
{
    if 0 <= pos < input.len() && is_blank(input[pos]) {
        skip_blanks(input, pos + 1)
    } else {
        pos
    }
}

/// The first offset at or after `pos` that holds a line feed, or the end
/// of the input.
pub open spec fn line_end(input: Seq<char>, pos: int) -> int
    decreases input.len() - pos,
{
    if 0 <= pos < input.len() && input[pos] != '\n' {
        line_end(input, pos + 1)
    } else {
        pos
    }
}

/// The first offset at or after `pos` that holds no decimal digit.
pub open spec fn digits_end(input: Seq<char>, pos: int) -> int
    decreases input.len() - pos,
{
    if 0 <= pos < input.len() && is_digit(input[pos]) {
        digits_end(input, pos + 1)
    } else {
        pos
    }
}

/// The first offset at or after `pos` that cannot continue an identifier.
pub open spec fn word_end(input: Seq<char>, pos: int) -> int
    decreases input.len() - pos,
{
    if 0 <= pos < input.len() && is_ident_part(input[pos]) {
        word_end(input, pos + 1)
    } else {
        pos
    }
}

/// What the lexer finds at one offset of the input.
pub enum Scanned {
    /// A token that ends before the offset `next`.
    Token { token: TokenTypeView, next: int },
    /// A comment that ends before the offset `next`.
    Comment { next: int },
    /// Malformed text.
    Failure { message: Seq<char> },
}

/// Whether the character at offset `pos` exists and is `expected`.
pub open spec fn holds(input: Seq<char>, pos: int, expected: char) -> bool {
    0 <= pos < input.len() && input[pos] == expected
}

/// The message for a character that starts no token, with the line and
/// the column at which it stands.
pub open spec fn unexpected_character(c: char, line: nat, column: nat) -> Seq<char> {
    "Unexpected character: "@.push(c) + " at line "@ + decimal_text(line) + ", column "@
        + decimal_text(column)
}

/// The message for the character at offset `pos`, which starts no
/// token.
pub open spec fn unexpected_at(input: Seq<char>, pos: int) -> Seq<char> {
    unexpected_character(input[pos], line_at(input, pos), column_at(input, pos))
}

pub open spec fn invalid_escape(c: char) -> Seq<char> {
    "Invalid escape sequence: \\"@.push(c)
}

pub open spec fn unterminated_string() -> Seq<char> {
    "Unterminated string"@
}

pub open spec fn integer_out_of_range(digits: Seq<char>) -> Seq<char> {
    "Integer literal out of range: "@ + digits
}

/// The character that the escape `\c` stands for, if it is an escape.
pub open spec fn escape_of(c: char) -> Option<char> {
    if c == 'n' {
        Some('\n')
    } else if c == 't' {
        Some('\t')
    } else if c == 'r' {
        Some('\r')
    } else if c == '\\' {
        Some('\\')
    } else if c == '"' {
        Some('"')
    } else {
        None
    }
}

/// The rest of a string literal: `pos` is an offset behind the opening
/// quote and `value` holds what the literal's text before `pos` denotes.
pub open spec fn scan_string_at(input: Seq<char>, pos: int, value: Seq<char>) -> Scanned
    decreases input.len() - pos,
{
    if pos < 0 || pos >= input.len() {
        Scanned::Failure { message: unterminated_string() }
    } else if input[pos] == '"' {
        Scanned::Token { token: TokenTypeView::String(value), next: pos + 1 }
    } else if input[pos] == '\\' {
        if pos + 1 >= input.len() {
            Scanned::Failure { message: unterminated_string() }
        } else {
            match escape_of(input[pos + 1]) {
                Some(c) => scan_string_at(input, pos + 2, value.push(c)),
                None => Scanned::Failure { message: invalid_escape(input[pos + 1]) },
            }
        }
    } else {
        scan_string_at(input, pos + 1, value.push(input[pos]))
    }
}

/// A number literal that starts at `pos`: a run of digits, and a float
/// where a point and another digit follow the run.
pub open spec fn scan_number_at(input: Seq<char>, pos: int) -> Scanned {
    let whole_end = digits_end(input, pos);
    if holds(input, whole_end, '.') && whole_end + 1 < input.len() && is_digit(
        input[whole_end + 1],
    ) {
        let end = digits_end(input, whole_end + 1);
        Scanned::Token { token: TokenTypeView::Float(input.subrange(pos, end)), next: end }
    } else {
        let digits = input.subrange(pos, whole_end);
        if decimal_value(digits) <= i64::MAX {
            Scanned::Token {
                token: TokenTypeView::Integer(decimal_value(digits) as int),
                next: whole_end,
            }
        } else {
            Scanned::Failure { message: integer_out_of_range(digits) }
        }
    }
}

/// The token of a word: a keyword, a type name, a truth value or an
/// identifier.
pub open spec fn word_token(word: Seq<char>) -> TokenTypeView {
    if word == "let"@ {
        TokenTypeView::Let
    } else if word == "var"@ {
        TokenTypeView::Var
    } else if word == "fn"@ {
        TokenTypeView::Fn
    } else if word == "if"@ {
        TokenTypeView::If
    } else if word == "else"@ {
        TokenTypeView::Else
    } else if word == "for"@ {
        TokenTypeView::For
    } else if word == "in"@ {
        TokenTypeView::In
    } else if word == "try"@ {
        TokenTypeView::Try
    } else if word == "catch"@ {
        TokenTypeView::Catch
    } else if word == "return"@ {
        TokenTypeView::Return
    } else if word == "import"@ {
        TokenTypeView::Import
    } else if word == "struct"@ {
        TokenTypeView::Struct
    } else if word == "throw"@ {
        TokenTypeView::Throw
    } else if word == "Int"@ {
        TokenTypeView::IntType
    } else if word == "Float"@ {
        TokenTypeView::FloatType
    } else if word == "Str"@ {
        TokenTypeView::StrType
    } else if word == "Bool"@ {
        TokenTypeView::BoolType
    } else if word == "List"@ {
        TokenTypeView::ListType
    } else if word == "Void"@ {
        TokenTypeView::VoidType
    } else if word == "true"@ {
        TokenTypeView::Boolean(true)
    } else if word == "false"@ {
        TokenTypeView::Boolean(false)
    } else {
        TokenTypeView::Identifier(word)
    }
}

/// The token of a character that is a token by itself.
pub open spec fn single_token(c: char) -> Option<TokenTypeView> {
    if c == '(' {
        Some(TokenTypeView::LeftParen)
    } else if c == ')' {
        Some(TokenTypeView::RightParen)
    } else if c == '{' {
        Some(TokenTypeView::LeftBrace)
    } else if c == '}' {
        Some(TokenTypeView::RightBrace)
    } else if c == '[' {
        Some(TokenTypeView::LeftBracket)
    } else if c == ']' {
        Some(TokenTypeView::RightBracket)
    } else if c == ',' {
        Some(TokenTypeView::Comma)
    } else if c == '.' {
        Some(TokenTypeView::Dot)
    } else if c == ':' {
        Some(TokenTypeView::Colon)
    } else if c == ';' {
        Some(TokenTypeView::Semicolon)
    } else if c == '+' {
        Some(TokenTypeView::Plus)
    } else if c == '%' {
        Some(TokenTypeView::Percent)
    } else if c == '*' {
        Some(TokenTypeView::Star)
    } else if c == '\n' {
        Some(TokenTypeView::Newline)
    } else {
        None
    }
}

/// One of two tokens: `paired` where `second` follows at `pos + 1`,
/// otherwise `alone`.
pub open spec fn one_or_two(
    input: Seq<char>,
    pos: int,
    second: char,
    paired: TokenTypeView,
    alone: TokenTypeView,
) -> Scanned {
    if holds(input, pos + 1, second) {
        Scanned::Token { token: paired, next: pos + 2 }
    } else {
        Scanned::Token { token: alone, next: pos + 1 }
    }
}

/// What starts at offset `pos`, which lies inside the input and holds no
/// blank.
pub open spec fn scan_at(input: Seq<char>, pos: int) -> Scanned {
    let c = input[pos];
    if single_token(c) is Some {
        Scanned::Token { token: single_token(c)->0, next: pos + 1 }
    } else if c == '-' {
        one_or_two(input, pos, '>', TokenTypeView::Arrow, TokenTypeView::Minus)
    } else if c == '/' {
        if holds(input, pos + 1, '/') {
            Scanned::Comment { next: line_end(input, pos + 2) }
        } else {
            Scanned::Token { token: TokenTypeView::Slash, next: pos + 1 }
        }
    } else if c == '=' {
        one_or_two(input, pos, '=', TokenTypeView::Equal, TokenTypeView::Assign)
    } else if c == '!' {
        one_or_two(input, pos, '=', TokenTypeView::NotEqual, TokenTypeView::Not)
    } else if c == '<' {
        one_or_two(input, pos, '=', TokenTypeView::LessEqual, TokenTypeView::Less)
    } else if c == '>' {
        one_or_two(input, pos, '=', TokenTypeView::GreaterEqual, TokenTypeView::Greater)
    } else if c == '&' {
        if holds(input, pos + 1, '&') {
            Scanned::Token { token: TokenTypeView::And, next: pos + 2 }
        } else {
            Scanned::Failure { message: unexpected_at(input, pos) }
        }
    } else if c == '|' {
        if holds(input, pos + 1, '|') {
            Scanned::Token { token: TokenTypeView::Or, next: pos + 2 }
        } else {
            Scanned::Failure { message: unexpected_at(input, pos) }
        }
    } else if c == '"' {
        scan_string_at(input, pos + 1, Seq::empty())
    } else if is_digit(c) {
        scan_number_at(input, pos)
    } else if is_ident_start(c) {
        let end = word_end(input, pos);
        Scanned::Token { token: word_token(input.subrange(pos, end)), next: end }
    } else {
        Scanned::Failure { message: unexpected_at(input, pos) }
    }
}

/// The end-of-input token of an input.
pub open spec fn eof_token(input: Seq<char>, file: Seq<char>) -> TokenView {
    TokenView {
        token_type: TokenTypeView::Eof,
        span: span_between(input, file, input.len() as int, input.len() as int),
    }
}

/// Blanks are skipped forwards, and never past the end of the input.
pub proof fn lemma_skip_blanks_bounds(input: Seq<char>, pos: int)
    requires
        0 <= pos <= input.len(),
    ensures
        pos <= skip_blanks(input, pos) <= input.len(),
    decreases input.len() - pos,
{
    if pos < input.len() && is_blank(input[pos]) {
        lemma_skip_blanks_bounds(input, pos + 1);
    }
}

pub proof fn lemma_line_end_bounds(input: Seq<char>, pos: int)
    requires
        0 <= pos <= input.len(),
    ensures
        pos <= line_end(input, pos) <= input.len(),
    decreases input.len() - pos,
{
    if pos < input.len() && input[pos] != '\n' {
        lemma_line_end_bounds(input, pos + 1);
    }
}

pub proof fn lemma_digits_end_bounds(input: Seq<char>, pos: int)
    requires
        0 <= pos <= input.len(),
    ensures
        pos <= digits_end(input, pos) <= input.len(),
    decreases input.len() - pos,
{
    if pos < input.len() && is_digit(input[pos]) {
        lemma_digits_end_bounds(input, pos + 1);
    }
}

pub proof fn lemma_word_end_bounds(input: Seq<char>, pos: int)
    requires
        0 <= pos <= input.len(),
    ensures
        pos <= word_end(input, pos) <= input.len(),
    decreases input.len() - pos,
{
    if pos < input.len() && is_ident_part(input[pos]) {
        lemma_word_end_bounds(input, pos + 1);
    }
}

pub proof fn lemma_scan_string_bounds(input: Seq<char>, pos: int, value: Seq<char>)
    requires
        0 <= pos <= input.len(),
    ensures
        scan_string_at(input, pos, value) matches Scanned::Token { next, .. } ==> pos < next
            <= input.len(),
        !(scan_string_at(input, pos, value) is Comment),
    decreases input.len() - pos,
{
    if pos >= input.len() {
    } else if input[pos] == '"' {
    } else if input[pos] == '\\' {
        if pos + 1 < input.len() {
            match escape_of(input[pos + 1]) {
                Some(c) => lemma_scan_string_bounds(input, pos + 2, value.push(c)),
                None => {},
            }
        }
    } else {
        lemma_scan_string_bounds(input, pos + 1, value.push(input[pos]));
    }
}

/// Every token and every comment holds at least one character and ends
/// inside the input.
pub proof fn lemma_scan_advances(input: Seq<char>, pos: int)
    requires
        0 <= pos < input.len(),
    ensures
        scan_at(input, pos) matches Scanned::Token { next, .. } ==> pos < next <= input.len(),
        scan_at(input, pos) matches Scanned::Comment { next } ==> pos < next <= input.len(),
{
    let c = input[pos];
    if c == '/' && holds(input, pos + 1, '/') {
        lemma_line_end_bounds(input, pos + 2);
    }
    if c == '"' {
        lemma_scan_string_bounds(input, pos + 1, Seq::empty());
    }
    if is_digit(c) {
        lemma_digits_end_bounds(input, pos + 1);
        let whole_end = digits_end(input, pos);
        if holds(input, whole_end, '.') && whole_end + 1 < input.len() {
            lemma_digits_end_bounds(input, whole_end + 1);
        }
    }
    if is_ident_start(c) {
        lemma_word_end_bounds(input, pos + 1);
    }
}

/// The tokens of the input from offset `pos` on, ended by the
/// end-of-input token, or the first lexical error.
pub open spec fn tokens_from(input: Seq<char>, file: Seq<char>, pos: int) -> Result<
    Seq<TokenView>,
    ErrorView,
>
    recommends
        0 <= pos <= input.len(),
    decreases input.len() - pos,
    when 0 <= pos <= input.len()
{
    let start = skip_blanks(input, pos);
    if start >= input.len() {
        Ok(seq![eof_token(input, file)])
    } else {
        proof {
            lemma_skip_blanks_bounds(input, pos);
            lemma_scan_advances(input, start);
        }
        match scan_at(input, start) {
            Scanned::Failure { message } => Err(ErrorView::LexError(message)),
            Scanned::Comment { next } => tokens_from(input, file, next),
            Scanned::Token { token, next } => match tokens_from(input, file, next) {
                Ok(rest) => Ok(
                    seq![
                        TokenView {
                            token_type: token,
                            span: span_between(input, file, start, next),
                        },
                    ] + rest,
                ),
                Err(e) => Err(e),
            },
        }
    }
}

/// The tokens of a whole source text.
pub open spec fn tokens_of(input: Seq<char>, file: Seq<char>) -> Result<Seq<TokenView>, ErrorView> {
    tokens_from(input, file, 0)
}

/// A result with `prefix` put before the tokens that it holds.
pub open spec fn prefixed(prefix: Seq<TokenView>, rest: Result<Seq<TokenView>, ErrorView>) -> Result<
    Seq<TokenView>,
    ErrorView,
> {
    match rest {
        Ok(tokens) => Ok(prefix + tokens),
        Err(e) => Err(e),
    }
}

/// Lines and columns never run ahead of the offset.
pub proof fn lemma_position_bounds(input: Seq<char>, pos: int)
    requires
        0 <= pos,
    ensures
        line_at(input, pos) <= pos + 1,
        column_at(input, pos) <= pos + 1,
    decreases pos,
{
    if pos > 0 {
        lemma_position_bounds(input, pos - 1);
    }
}

/// The token of a word.
fn classify_word(word: String) -> (token: TokenType)
    ensures
        token@ == word_token(word@),
{
    let text = word.as_str();
    if text.eq("let") {
        TokenType::Let
    } else if text.eq("var") {
        TokenType::Var
    } else if text.eq("fn") {
        TokenType::Fn
    } else if text.eq("if") {
        TokenType::If
    } else if text.eq("else") {
        TokenType::Else
    } else if text.eq("for") {
        TokenType::For
    } else if text.eq("in") {
        TokenType::In
    } else if text.eq("try") {
        TokenType::Try
    } else if text.eq("catch") {
        TokenType::Catch
    } else if text.eq("return") {
        TokenType::Return
    } else if text.eq("import") {
        TokenType::Import
    } else if text.eq("struct") {
        TokenType::Struct
    } else if text.eq("throw") {
        TokenType::Throw
    } else if text.eq("Int") {
        TokenType::IntType
    } else if text.eq("Float") {
        TokenType::FloatType
    } else if text.eq("Str") {
        TokenType::StrType
    } else if text.eq("Bool") {
        TokenType::BoolType
    } else if text.eq("List") {
        TokenType::ListType
    } else if text.eq("Void") {
        TokenType::VoidType
    } else if text.eq("true") {
        TokenType::Boolean(true)
    } else if text.eq("false") {
        TokenType::Boolean(false)
    } else {
        TokenType::Identifier(word)
    }
}

/// The error for a character that starts no token.
fn unexpected(c: char, line: usize, column: usize) -> (e: Error)
    ensures
        e@ == ErrorView::LexError(unexpected_character(c, line as nat, column as nat)),
{
    let mut message = String::from_str("Unexpected character: ");
    message.push(c);
    message.append(" at line ");
    push_decimal(&mut message, line as u64);
    message.append(", column ");
    push_decimal(&mut message, column as u64);
    Error::LexError(message)
}

/// A lexer over one source text.
pub struct Lexer {
    input: Vec<char>,
    position: usize,
    line: usize,
    column: usize,
    file_path: String,
}

impl Lexer {
    /// The characters of the source text.
    pub closed spec fn source(&self) -> Seq<char> {
        self.input@
    }

    /// The name of the file that the spans carry.
    pub closed spec fn file(&self) -> Seq<char> {
        self.file_path@
    }

    /// The offset of the next character to read.
    pub closed spec fn offset(&self) -> int {
        self.position as int
    }

    /// The offset lies inside the text, and the line and column are
    /// those of the offset.
    pub closed spec fn wf(&self) -> bool {
        &&& self.position <= self.input.len()
        &&& self.input.len() < usize::MAX
        &&& self.line == line_at(self.input@, self.position as int)
        &&& self.column == column_at(self.input@, self.position as int)
    }

    /// As `wf`, over the same text as `before`.
    spec fn follows(&self, before: &Lexer) -> bool {
        &&& self.wf()
        &&& self.input@ == before.input@
        &&& self.file_path@ == before.file_path@
    }

    /// A lexer at the start of `input`, whose spans name `file_path`.
    pub fn new(input: &str, file_path: &str) -> (lexer: Self)
        requires
            input@.len() < usize::MAX,
        ensures
            lexer.wf(),
            lexer.source() == input@,
            lexer.file() == file_path@,
            lexer.offset() == 0,
    {
        Self {
            input: chars_of(input),
            position: 0,
            line: 1,
            column: 1,
            file_path: String::from_str(file_path),
        }
    }

    fn is_at_end(&self) -> (at_end: bool)
        requires
            self.wf(),
        ensures
            at_end == (self.position >= self.input.len()),
    {
        self.position >= self.input.len()
    }

    fn peek(&self) -> (c: char)
        requires
            self.wf(),
            self.position < self.input.len(),
        ensures
            c == self.input@[self.position as int],
    {
        self.input[self.position]
    }

    fn advance(&mut self) -> (c: char)
        requires
            old(self).wf(),
            old(self).position < old(self).input.len(),
        ensures
            final(self).follows(old(self)),
            final(self).position == old(self).position + 1,
            c == old(self).input@[old(self).position as int],
    {
        proof {
            lemma_position_bounds(self.input@, self.position as int);
        }
        let c = self.input[self.position];
        self.position = self.position + 1;
        if c == '\n' {
            self.line = self.line + 1;
            self.column = 1;
        } else {
            self.column = self.column + 1;
        }
        c
    }

    fn match_char(&mut self, expected: char) -> (matched: bool)
        requires
            old(self).wf(),
        ensures
            final(self).follows(old(self)),
            matched == holds(old(self).input@, old(self).position as int, expected),
            final(self).position == if matched {
                old(self).position + 1
            } else {
                old(self).position as int
            },
    {
        if self.is_at_end() || self.peek() != expected {
            false
        } else {
            self.advance();
            true
        }
    }

    fn skip_whitespace(&mut self)
        requires
            old(self).wf(),
        ensures
            final(self).follows(old(self)),
            final(self).position == skip_blanks(old(self).input@, old(self).position as int),
    {
        while !self.is_at_end() && (self.peek() == ' ' || self.peek() == '\t' || self.peek()
            == '\r')
            invariant
                self.follows(old(self)),
                skip_blanks(self.input@, self.position as int) == skip_blanks(
                    old(self).input@,
                    old(self).position as int,
                ),
            decreases self.input.len() - self.position,
        {
            self.advance();
        }
    }

    /// The current position as a span from (`start_line`, `start_column`).
    fn span_from(&self, start_line: usize, start_column: usize) -> (span: Span)
        ensures
            span@ == (SpanView {
                file: self.file_path@,
                start_line: start_line as nat,
                start_column: start_column as nat,
                end_line: self.line as nat,
                end_column: self.column as nat,
            }),
    {
        Span {
            file: self.file_path.clone(),
            start_line,
            start_column,
            end_line: self.line,
            end_column: self.column,
        }
    }

    /// The tokens from the current offset to the end of the text,
    /// followed by the end-of-input token; or the first lexical error.
    pub fn tokenize(&mut self) -> (result: Result<Vec<Token>, Error>)
        requires
            old(self).wf(),
        ensures
            final(self).wf(),
            final(self).source() == old(self).source(),
            final(self).file() == old(self).file(),
            match tokens_from(old(self).source(), old(self).file(), old(self).offset()) {
                Ok(tokens) => result matches Ok(found) && found.deep_view() == tokens,
                Err(e) => result matches Err(found) && found@ == e,
            },
    {
        let mut tokens: Vec<Token> = Vec::new();
        let ghost all = tokens_from(self.input@, self.file_path@, self.position as int);
        assert(tokens.deep_view() == Seq::<TokenView>::empty());
        while !self.is_at_end()
            invariant
                self.follows(old(self)),
                all == tokens_from(
                    old(self).input@,
                    old(self).file_path@,
                    old(self).position as int,
                ),
                all == prefixed(
                    tokens.deep_view(),
                    tokens_from(self.input@, self.file_path@, self.position as int),
                ),
            ensures
                self.position == self.input.len(),
            decreases self.input.len() - self.position,
        {
            let ghost before = self.position as int;
            self.skip_whitespace();
            proof {
                lemma_skip_blanks_bounds(self.input@, before);
            }
            if self.is_at_end() {
                break ;
            }
            let ghost start = self.position as int;
            let start_line = self.line;
            let start_column = self.column;
            proof {
                lemma_scan_advances(self.input@, start);
            }
            match self.scan_token() {
                Err(e) => {
                    return Err(e);
                },
                Ok(None) => {},
                Ok(Some(token_type)) => {
                    let span = self.span_from(start_line, start_column);
                    let ghost shorter = tokens.deep_view();
                    let token = Token { token_type, span };
                    tokens.push(token);
                    assert(tokens.deep_view() == shorter.push(token@));
                    assert(forall|rest: Seq<TokenView>|
                        shorter + (seq![token@] + rest) == #[trigger] (shorter.push(token@)
                            + rest));
                },
            }
        }
        proof {
            lemma_skip_blanks_bounds(self.input@, self.position as int);
        }
        let ghost shorter = tokens.deep_view();
        let eof = Token { token_type: TokenType::Eof, span: self.span_from(self.line, self.column) };
        tokens.push(eof);
        assert(tokens.deep_view() == shorter + seq![eof@]);
        Ok(tokens)
    }

    /// What starts at the current offset: a token, a comment (`None`) or
    /// malformed text.
    fn scan_token(&mut self) -> (result: Result<Option<TokenType>, Error>)
        requires
            old(self).wf(),
            old(self).position < old(self).input.len(),
        ensures
            final(self).follows(old(self)),
            match scan_at(old(self).input@, old(self).position as int) {
                Scanned::Token { token, next } => result matches Ok(Some(found)) && found@ == token
                    && final(self).position == next,
                Scanned::Comment { next } => result matches Ok(None) && final(self).position
                    == next,
                Scanned::Failure { message } => result matches Err(e) && e@
                    == ErrorView::LexError(message),
            },
    {
        let ghost start = self.position as int;
        let line = self.line;
        let column = self.column;
        let c = self.advance();
        match c {
            '(' => Ok(Some(TokenType::LeftParen)),
            ')' => Ok(Some(TokenType::RightParen)),
            '{' => Ok(Some(TokenType::LeftBrace)),
            '}' => Ok(Some(TokenType::RightBrace)),
            '[' => Ok(Some(TokenType::LeftBracket)),
            ']' => Ok(Some(TokenType::RightBracket)),
            ',' => Ok(Some(TokenType::Comma)),
            '.' => Ok(Some(TokenType::Dot)),
            ':' => Ok(Some(TokenType::Colon)),
            ';' => Ok(Some(TokenType::Semicolon)),
            '+' => Ok(Some(TokenType::Plus)),
            '%' => Ok(Some(TokenType::Percent)),
            '*' => Ok(Some(TokenType::Star)),
            '\n' => Ok(Some(TokenType::Newline)),
            '-' => {
                if self.match_char('>') {
                    Ok(Some(TokenType::Arrow))
                } else {
                    Ok(Some(TokenType::Minus))
                }
            },
            '/' => {
                if self.match_char('/') {
                    while !self.is_at_end() && self.peek() != '\n'
                        invariant
                            self.follows(old(self)),
                            start + 2 <= self.position,
                            line_end(self.input@, self.position as int) == line_end(
                                self.input@,
                                start + 2,
                            ),
                        decreases self.input.len() - self.position,
                    {
                        self.advance();
                    }
                    Ok(None)
                } else {
                    Ok(Some(TokenType::Slash))
                }
            },
            '=' => {
                if self.match_char('=') {
                    Ok(Some(TokenType::Equal))
                } else {
                    Ok(Some(TokenType::Assign))
                }
            },
            '!' => {
                if self.match_char('=') {
                    Ok(Some(TokenType::NotEqual))
                } else {
                    Ok(Some(TokenType::Not))
                }
            },
            '<' => {
                if self.match_char('=') {
                    Ok(Some(TokenType::LessEqual))
                } else {
                    Ok(Some(TokenType::Less))
                }
            },
            '>' => {
                if self.match_char('=') {
                    Ok(Some(TokenType::GreaterEqual))
                } else {
                    Ok(Some(TokenType::Greater))
                }
            },
            '&' => {
                if self.match_char('&') {
                    Ok(Some(TokenType::And))
                } else {
                    Err(unexpected(c, line, column))
                }
            },
            '|' => {
                if self.match_char('|') {
                    Ok(Some(TokenType::Or))
                } else {
                    Err(unexpected(c, line, column))
                }
            },
            '"' => self.scan_string(),
            _ => {
                if char_is_digit(c) {
                    self.scan_number()
                } else if char_is_ident_start(c) {
                    self.scan_identifier()
                } else {
                    Err(unexpected(c, line, column))
                }
            },
        }
    }

    /// The rest of a string literal whose opening quote was just read.
    fn scan_string(&mut self) -> (result: Result<Option<TokenType>, Error>)
        requires
            old(self).wf(),
        ensures
            final(self).follows(old(self)),
            match scan_string_at(old(self).input@, old(self).position as int, Seq::empty()) {
                Scanned::Token { token, next } => result matches Ok(Some(found)) && found@ == token
                    && final(self).position == next,
                Scanned::Comment { next } => false,
                Scanned::Failure { message } => result matches Err(e) && e@
                    == ErrorView::LexError(message),
            },
    {
        let mut value = String::new();
        let ghost whole = scan_string_at(self.input@, self.position as int, Seq::empty());
        while !self.is_at_end() && self.peek() != '"'
            invariant
                self.follows(old(self)),
                whole == scan_string_at(old(self).input@, old(self).position as int, Seq::empty()),
                whole == scan_string_at(self.input@, self.position as int, value@),
            decreases self.input.len() - self.position,
        {
            let c = self.advance();
            if c == '\\' {
                if self.is_at_end() {
                    return Err(Error::LexError(String::from_str("Unterminated string")));
                }
                let escaped = self.advance();
                match escaped {
                    'n' => value.push('\n'),
                    't' => value.push('\t'),
                    'r' => value.push('\r'),
                    '\\' => value.push('\\'),
                    '"' => value.push('"'),
                    _ => {
                        let mut message = String::from_str("Invalid escape sequence: \\");
                        message.push(escaped);
                        return Err(Error::LexError(message));
                    },
                }
            } else {
                value.push(c);
            }
        }
        proof {
            lemma_scan_string_bounds(self.input@, self.position as int, value@);
        }
        if self.is_at_end() {
            return Err(Error::LexError(String::from_str("Unterminated string")));
        }
        self.advance();
        Ok(Some(TokenType::String(value)))
    }

    /// The rest of a number literal whose first digit was just read.
    fn scan_number(&mut self) -> (result: Result<Option<TokenType>, Error>)
        requires
            old(self).wf(),
            old(self).position >= 1,
            is_digit(old(self).input@[old(self).position - 1]),
        ensures
            final(self).follows(old(self)),
            match scan_number_at(old(self).input@, old(self).position - 1) {
                Scanned::Token { token, next } => result matches Ok(Some(found)) && found@ == token
                    && final(self).position == next,
                Scanned::Comment { next } => false,
                Scanned::Failure { message } => result matches Err(e) && e@
                    == ErrorView::LexError(message),
            },
    {
        let start = self.position - 1;
        self.skip_digits(start);
        let whole_end = self.position;
        if self.position + 1 < self.input.len() && self.input[self.position] == '.'
            && char_is_digit(self.input[self.position + 1]) {
            self.advance();
            let ghost fraction = self.position as int;
            self.skip_digits(self.position);
            proof {
                lemma_digits_end_bounds(self.input@, fraction);
            }
            Ok(Some(TokenType::Float(string_of(&self.input, start, self.position))))
        } else {
            match parse_decimal(&self.input, start, whole_end) {
                Some(value) => Ok(Some(TokenType::Integer(value))),
                None => {
                    let mut message = String::from_str("Integer literal out of range: ");
                    let digits = string_of(&self.input, start, whole_end);
                    message.append(digits.as_str());
                    Err(Error::LexError(message))
                },
            }
        }
    }

    /// Reads on to the end of the run of digits that holds `from`.
    fn skip_digits(&mut self, from: usize)
        requires
            old(self).wf(),
            from <= old(self).position,
            all_digits(old(self).input@.subrange(from as int, old(self).position as int)),
        ensures
            final(self).follows(old(self)),
            final(self).position == digits_end(old(self).input@, from as int),
            final(self).position >= old(self).position,
            all_digits(final(self).input@.subrange(from as int, final(self).position as int)),
    {
        proof {
            Self::lemma_digits_end_skips(self.input@, from as int, self.position as int);
        }
        while !self.is_at_end() && char_is_digit(self.peek())
            invariant
                self.follows(old(self)),
                from <= old(self).position <= self.position,
                all_digits(self.input@.subrange(from as int, self.position as int)),
                digits_end(self.input@, self.position as int) == digits_end(
                    self.input@,
                    from as int,
                ),
            decreases self.input.len() - self.position,
        {
            let ghost before = self.position as int;
            self.advance();
            assert forall|i: int| 0 <= i < self.position - from implies is_digit(
                #[trigger] self.input@.subrange(from as int, self.position as int)[i],
            ) by {
                if i < before - from {
                    assert(self.input@.subrange(from as int, before)[i] == self.input@[from + i]);
                }
            }
        }
    }

    /// A run of digits ends where any of its later parts ends.
    proof fn lemma_digits_end_skips(input: Seq<char>, from: int, to: int)
        requires
            0 <= from <= to <= input.len(),
            all_digits(input.subrange(from, to)),
        ensures
            digits_end(input, from) == digits_end(input, to),
        decreases to - from,
    {
        if from < to {
            assert(input.subrange(from, to)[0] == input[from]);
            assert forall|i: int| 0 <= i < to - (from + 1) implies is_digit(
                #[trigger] input.subrange(from + 1, to)[i],
            ) by {
                assert(input.subrange(from, to)[i + 1] == input[from + 1 + i]);
            }
            Self::lemma_digits_end_skips(input, from + 1, to);
        }
    }

    /// The rest of a word whose first character was just read.
    fn scan_identifier(&mut self) -> (result: Result<Option<TokenType>, Error>)
        requires
            old(self).wf(),
            old(self).position >= 1,
            is_ident_start(old(self).input@[old(self).position - 1]),
        ensures
            final(self).follows(old(self)),
            final(self).position == word_end(old(self).input@, old(self).position - 1),
            result matches Ok(Some(found)) && found@ == word_token(
                old(self).input@.subrange(old(self).position - 1, final(self).position as int),
            ),
    {
        let start = self.position - 1;
        while !self.is_at_end() && char_is_ident_part(self.peek())
            invariant
                self.follows(old(self)),
                start + 1 <= self.position,
                word_end(self.input@, self.position as int) == word_end(
                    self.input@,
                    start as int,
                ),
            decreases self.input.len() - self.position,
        {
            self.advance();
        }
        let word = string_of(&self.input, start, self.position);
        Ok(Some(classify_word(word)))
    }
}

} // verus!
