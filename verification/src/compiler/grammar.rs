//! The grammar of the language, as functions from a token sequence and
//! an offset to a syntax tree and the offset behind it.
//!
//! Blocks and expressions nest, so the functions are mutually recursive.
//! They recurse on the number of tokens that are left and, at one
//! offset, on the level of the construct.

use vstd::prelude::*;
use crate::compiler::ast::{
    BinaryOperator, BlockView, CatchClauseView, ConstantView, ExpressionView, FieldView,
    FunctionView, ImportView, ItemView, LiteralView, ParameterView, ProgramView, StatementView,
    StructView, TypeView, UnaryOperator, VariableView,
};
use crate::compiler::lexer::{TokenTypeView, TokenView};
use crate::diagnostics::{error_at, span_cover, DiagnosticView, SpanView};

verus! {

/// What a grammar function yields: a value and the offset of the first
/// token behind it, or the diagnostic of the first violation.
pub type Parsed<T> = Result<(T, int), DiagnosticView>;

/// The tokens that the grammar reads: all but the line feeds.
pub open spec fn significant(tokens: Seq<TokenView>) -> Seq<TokenView> {
    tokens.filter(|t: TokenView| t.token_type != TokenTypeView::Newline)
}

/// The span given to the end of input where no token is left to carry
/// one: that of the last token, or an empty span.
pub open spec fn end_span(tokens: Seq<TokenView>) -> SpanView {
    if tokens.len() > 0 {
        tokens.last().span
    } else {
        SpanView { file: Seq::empty(), start_line: 0, start_column: 0, end_line: 0, end_column: 0 }
    }
}

/// The token at `pos`. Behind the last token lies the end of input.
pub open spec fn token_at(tokens: Seq<TokenView>, pos: int) -> TokenView {
    if 0 <= pos < tokens.len() {
        tokens[pos]
    } else {
        TokenView { token_type: TokenTypeView::Eof, span: end_span(tokens) }
    }
}

pub open spec fn kind_at(tokens: Seq<TokenView>, pos: int) -> TokenTypeView {
    token_at(tokens, pos).token_type
}

pub open spec fn span_at(tokens: Seq<TokenView>, pos: int) -> SpanView {
    token_at(tokens, pos).span
}

/// The violation `message` at the token at `pos`.
pub open spec fn violation(tokens: Seq<TokenView>, pos: int, message: Seq<char>) -> DiagnosticView {
    error_at(message, span_at(tokens, pos))
}

/// The offset behind the token at `pos` where that token is `kind`.
pub open spec fn expect(
    tokens: Seq<TokenView>,
    pos: int,
    kind: TokenTypeView,
    message: Seq<char>,
) -> Result<int, DiagnosticView> {
    if kind_at(tokens, pos) == kind {
        Ok(pos + 1)
    } else {
        Err(violation(tokens, pos, message))
    }
}

/// The name of the identifier at `pos`.
pub open spec fn expect_identifier(tokens: Seq<TokenView>, pos: int, message: Seq<char>) -> Parsed<
    Seq<char>,
> {
    match kind_at(tokens, pos) {
        TokenTypeView::Identifier(name) => Ok((name, pos + 1)),
        _ => Err(violation(tokens, pos, message)),
    }
}

/// `parsed`, where it ends behind `pos`. Every construct of the grammar
/// holds at least one token, so the other case does not arise; stating
/// it makes the recursion of the grammar well-founded by its form.
pub open spec fn progress<T>(tokens: Seq<TokenView>, pos: int, parsed: Parsed<T>) -> Parsed<T> {
    match parsed {
        Ok((_, next)) => if pos < next <= tokens.len() {
            parsed
        } else {
            Err(violation(tokens, pos, "Expected more input"@))
        },
        Err(_) => parsed,
    }
}

/// A type: a primitive type, `List<T>` or the name of a struct.
pub open spec fn parse_type(tokens: Seq<TokenView>, pos: int) -> Parsed<TypeView>
    decreases tokens.len() - pos,
{
    match kind_at(tokens, pos) {
        TokenTypeView::IntType => Ok((TypeView::Int, pos + 1)),
        TokenTypeView::FloatType => Ok((TypeView::Float, pos + 1)),
        TokenTypeView::StrType => Ok((TypeView::Str, pos + 1)),
        TokenTypeView::BoolType => Ok((TypeView::Bool, pos + 1)),
        TokenTypeView::VoidType => Ok((TypeView::Void, pos + 1)),
        TokenTypeView::Identifier(name) => Ok((TypeView::Struct(name), pos + 1)),
        TokenTypeView::ListType => match expect(
            tokens,
            pos + 1,
            TokenTypeView::Less,
            "Expected '<' after 'List'"@,
        ) {
            Err(d) => Err(d),
            Ok(inner) => match parse_type(tokens, inner) {
                Err(d) => Err(d),
                Ok((element, next)) => match expect(
                    tokens,
                    next,
                    TokenTypeView::Greater,
                    "Expected '>' after list element type"@,
                ) {
                    Err(d) => Err(d),
                    Ok(after) => Ok((TypeView::List(Box::new(element)), after)),
                },
            },
        },
        _ => Err(violation(tokens, pos, "Expected type"@)),
    }
}

/// The number of precedence levels of binary operators.
pub open spec fn binary_levels() -> nat {
    6
}

/// The binary operator that `kind` denotes at a precedence level. The
/// levels, from the loosest to the tightest: `||`; `&&`; `==` `!=`;
/// `<` `<=` `>` `>=`; `+` `-`; `*` `/` `%`.
pub open spec fn binary_operator(kind: TokenTypeView, level: nat) -> Option<BinaryOperator> {
    let (at, operator) = match kind {
        TokenTypeView::Or => (0nat, BinaryOperator::Or),
        TokenTypeView::And => (1nat, BinaryOperator::And),
        TokenTypeView::Equal => (2nat, BinaryOperator::Eq),
        TokenTypeView::NotEqual => (2nat, BinaryOperator::Ne),
        TokenTypeView::Less => (3nat, BinaryOperator::Lt),
        TokenTypeView::LessEqual => (3nat, BinaryOperator::Le),
        TokenTypeView::Greater => (3nat, BinaryOperator::Gt),
        TokenTypeView::GreaterEqual => (3nat, BinaryOperator::Ge),
        TokenTypeView::Plus => (4nat, BinaryOperator::Add),
        TokenTypeView::Minus => (4nat, BinaryOperator::Sub),
        TokenTypeView::Star => (5nat, BinaryOperator::Mul),
        TokenTypeView::Slash => (5nat, BinaryOperator::Div),
        TokenTypeView::Percent => (5nat, BinaryOperator::Mod),
        _ => (binary_levels(), BinaryOperator::Or),
    };
    if at == level {
        Some(operator)
    } else {
        None
    }
}

/// The span of an expression.
pub open spec fn expression_span(e: ExpressionView) -> SpanView {
    match e {
        ExpressionView::Literal { span, .. } => span,
        ExpressionView::Identifier { span, .. } => span,
        ExpressionView::Binary { span, .. } => span,
        ExpressionView::Unary { span, .. } => span,
        ExpressionView::Call { span, .. } => span,
        ExpressionView::MemberAccess { span, .. } => span,
        ExpressionView::List { span, .. } => span,
        ExpressionView::StructInit { span, .. } => span,
    }
}

/// An expression. Where `structs` is false, a name before `{` is no
/// struct literal: so it is in the condition of an `if` and in the
/// iterable of a `for`, where the `{` opens the block.
pub open spec fn parse_expression(tokens: Seq<TokenView>, pos: int, structs: bool) -> Parsed<
    ExpressionView,
> {
    parse_binary(tokens, pos, 0, structs)
}

/// An expression of operators of `level` and tighter ones: operands of
/// the next level, joined from the left by operators of `level`.
pub open spec fn parse_binary(tokens: Seq<TokenView>, pos: int, level: nat, structs: bool) -> Parsed<
    ExpressionView,
>
    decreases tokens.len() - pos,
        (if level >= binary_levels() {
            11
        } else {
            20 - level
        }),
{
    if level >= binary_levels() {
        parse_unary(tokens, pos, structs)
    } else {
        match progress(tokens, pos, parse_binary(tokens, pos, level + 1, structs)) {
            Err(d) => Err(d),
            Ok((left, next)) => parse_binary_rest(tokens, next, level, structs, left),
        }
    }
}

/// What follows the operand `left` at `level`: further operators of the
/// level with their operands, or nothing.
pub open spec fn parse_binary_rest(
    tokens: Seq<TokenView>,
    pos: int,
    level: nat,
    structs: bool,
    left: ExpressionView,
) -> Parsed<ExpressionView>
    decreases tokens.len() - pos, 0int,
{
    match binary_operator(kind_at(tokens, pos), level) {
        None => Ok((left, pos)),
        Some(operator) => {
            if level >= binary_levels() {
                Ok((left, pos))
            } else {
                match progress(tokens, pos + 1, parse_binary(tokens, pos + 1, level + 1, structs)) {
                    Err(d) => Err(d),
                    Ok((right, next)) => parse_binary_rest(
                        tokens,
                        next,
                        level,
                        structs,
                        ExpressionView::Binary {
                            left: Box::new(left),
                            operator,
                            right: Box::new(right),
                            span: span_cover(expression_span(left), expression_span(right)),
                        },
                    ),
                }
            }
        },
    }
}

/// The unary operator that `kind` denotes.
pub open spec fn unary_operator(kind: TokenTypeView) -> Option<UnaryOperator> {
    match kind {
        TokenTypeView::Minus => Some(UnaryOperator::Neg),
        TokenTypeView::Not => Some(UnaryOperator::Not),
        _ => None,
    }
}

/// Prefix operators before a postfix expression.
pub open spec fn parse_unary(tokens: Seq<TokenView>, pos: int, structs: bool) -> Parsed<
    ExpressionView,
>
    decreases tokens.len() - pos, 10int,
{
    match unary_operator(kind_at(tokens, pos)) {
        Some(operator) => match progress(tokens, pos + 1, parse_unary(tokens, pos + 1, structs)) {
            Err(d) => Err(d),
            Ok((operand, next)) => Ok(
                (
                    ExpressionView::Unary {
                        operator,
                        operand: Box::new(operand),
                        span: span_cover(span_at(tokens, pos), expression_span(operand)),
                    },
                    next,
                ),
            ),
        },
        None => parse_postfix(tokens, pos, structs),
    }
}

/// A primary expression and the calls and member accesses behind it.
pub open spec fn parse_postfix(tokens: Seq<TokenView>, pos: int, structs: bool) -> Parsed<
    ExpressionView,
>
    decreases tokens.len() - pos, 9int,
{
    match progress(tokens, pos, parse_primary(tokens, pos, structs)) {
        Err(d) => Err(d),
        Ok((primary, next)) => parse_postfix_rest(tokens, next, primary),
    }
}

/// The calls `(...)` and member accesses `.name` that follow `object`,
/// applied from the left.
pub open spec fn parse_postfix_rest(tokens: Seq<TokenView>, pos: int, object: ExpressionView) -> Parsed<
    ExpressionView,
>
    decreases tokens.len() - pos, 0int,
{
    match kind_at(tokens, pos) {
        TokenTypeView::LeftParen => match progress(
            tokens,
            pos,
            parse_expression_list(
                tokens,
                pos + 1,
                TokenTypeView::RightParen,
                "Expected ',' or ')' after argument"@,
            ),
        ) {
            Err(d) => Err(d),
            Ok((arguments, next)) => parse_postfix_rest(
                tokens,
                next,
                ExpressionView::Call {
                    function: Box::new(object),
                    arguments,
                    span: span_cover(expression_span(object), span_at(tokens, next - 1)),
                },
            ),
        },
        TokenTypeView::Dot => match kind_at(tokens, pos + 1) {
            TokenTypeView::Identifier(member) => parse_postfix_rest(
                tokens,
                pos + 2,
                ExpressionView::MemberAccess {
                    object: Box::new(object),
                    member,
                    span: span_cover(expression_span(object), span_at(tokens, pos + 1)),
                },
            ),
            _ => Err(violation(tokens, pos + 1, "Expected member name after '.'"@)),
        },
        _ => Ok((object, pos)),
    }
}

/// A literal, a name, a struct literal, an expression in parentheses or
/// a list literal.
pub open spec fn parse_primary(tokens: Seq<TokenView>, pos: int, structs: bool) -> Parsed<
    ExpressionView,
>
    decreases tokens.len() - pos, 8int,
{
    let span = span_at(tokens, pos);
    match kind_at(tokens, pos) {
        TokenTypeView::Integer(n) => Ok(
            (ExpressionView::Literal { value: LiteralView::Integer(n), span }, pos + 1),
        ),
        TokenTypeView::Float(digits) => Ok(
            (ExpressionView::Literal { value: LiteralView::Float(digits), span }, pos + 1),
        ),
        TokenTypeView::String(text) => Ok(
            (ExpressionView::Literal { value: LiteralView::String(text), span }, pos + 1),
        ),
        TokenTypeView::Boolean(b) => Ok(
            (ExpressionView::Literal { value: LiteralView::Boolean(b), span }, pos + 1),
        ),
        TokenTypeView::Identifier(name) => {
            if structs && kind_at(tokens, pos + 1) == TokenTypeView::LeftBrace {
                match parse_field_values(tokens, pos + 2) {
                    Err(d) => Err(d),
                    Ok((fields, next)) => Ok(
                        (
                            ExpressionView::StructInit {
                                struct_name: name,
                                fields,
                                span: span_cover(span, span_at(tokens, next - 1)),
                            },
                            next,
                        ),
                    ),
                }
            } else {
                Ok((ExpressionView::Identifier { name, span }, pos + 1))
            }
        },
        TokenTypeView::LeftParen => match progress(
            tokens,
            pos,
            parse_binary(tokens, pos + 1, 0, true),
        ) {
            Err(d) => Err(d),
            Ok((inner, next)) => match expect(
                tokens,
                next,
                TokenTypeView::RightParen,
                "Expected ')' after expression"@,
            ) {
                Err(d) => Err(d),
                Ok(after) => Ok((inner, after)),
            },
        },
        TokenTypeView::LeftBracket => match parse_expression_list(
            tokens,
            pos + 1,
            TokenTypeView::RightBracket,
            "Expected ',' or ']' after list element"@,
        ) {
            Err(d) => Err(d),
            Ok((elements, next)) => Ok(
                (
                    ExpressionView::List {
                        elements,
                        span: span_cover(span, span_at(tokens, next - 1)),
                    },
                    next,
                ),
            ),
        },
        _ => Err(violation(tokens, pos, "Expected expression"@)),
    }
}

/// Expressions separated by commas, up to and with the token `closer`.
/// `pos` lies behind the opening token.
pub open spec fn parse_expression_list(
    tokens: Seq<TokenView>,
    pos: int,
    closer: TokenTypeView,
    message: Seq<char>,
) -> Parsed<Seq<ExpressionView>>
    decreases tokens.len() - pos, 22int,
{
    if closer != TokenTypeView::Eof && kind_at(tokens, pos) == closer {
        Ok((Seq::empty(), pos + 1))
    } else {
        parse_expression_items(tokens, pos, closer, message, Seq::empty())
    }
}

/// The rest of a list of expressions, of which `found` were read.
pub open spec fn parse_expression_items(
    tokens: Seq<TokenView>,
    pos: int,
    closer: TokenTypeView,
    message: Seq<char>,
    found: Seq<ExpressionView>,
) -> Parsed<Seq<ExpressionView>>
    decreases tokens.len() - pos, 21int,
{
    match progress(tokens, pos, parse_binary(tokens, pos, 0, true)) {
        Err(d) => Err(d),
        Ok((item, next)) => {
            if kind_at(tokens, next) == TokenTypeView::Comma {
                parse_expression_items(tokens, next + 1, closer, message, found.push(item))
            } else if closer != TokenTypeView::Eof && kind_at(tokens, next) == closer {
                Ok((found.push(item), next + 1))
            } else {
                Err(violation(tokens, next, message))
            }
        },
    }
}

/// The values of a struct literal, `name: expression` separated by
/// commas, up to and with the closing brace. `pos` lies behind the
/// opening brace.
pub open spec fn parse_field_values(tokens: Seq<TokenView>, pos: int) -> Parsed<
    Seq<(Seq<char>, ExpressionView)>,
>
    decreases tokens.len() - pos, 22int,
{
    if kind_at(tokens, pos) == TokenTypeView::RightBrace {
        Ok((Seq::empty(), pos + 1))
    } else {
        parse_field_items(tokens, pos, Seq::empty())
    }
}

/// The rest of the values of a struct literal, of which `found` were
/// read.
pub open spec fn parse_field_items(
    tokens: Seq<TokenView>,
    pos: int,
    found: Seq<(Seq<char>, ExpressionView)>,
) -> Parsed<Seq<(Seq<char>, ExpressionView)>>
    decreases tokens.len() - pos, 21int,
{
    match kind_at(tokens, pos) {
        TokenTypeView::Identifier(name) => match expect(
            tokens,
            pos + 1,
            TokenTypeView::Colon,
            "Expected ':' after field name"@,
        ) {
            Err(d) => Err(d),
            Ok(start) => match progress(tokens, pos, parse_binary(tokens, start, 0, true)) {
                Err(d) => Err(d),
                Ok((value, next)) => {
                    if kind_at(tokens, next) == TokenTypeView::Comma {
                        parse_field_items(tokens, next + 1, found.push((name, value)))
                    } else if kind_at(tokens, next) == TokenTypeView::RightBrace {
                        Ok((found.push((name, value)), next + 1))
                    } else {
                        Err(violation(tokens, next, "Expected ',' or '}' after field value"@))
                    }
                },
            },
        },
        _ => Err(violation(tokens, pos, "Expected field name"@)),
    }
}

/// A variable declaration: `let` or `var`, a name, `:`, a type, `=`,
/// the initializer and `;`. `var` declares a mutable variable.
pub open spec fn parse_variable(tokens: Seq<TokenView>, pos: int) -> Parsed<VariableView> {
    let mutable = kind_at(tokens, pos) == TokenTypeView::Var;
    match expect_identifier(tokens, pos + 1, "Expected variable name"@) {
        Err(d) => Err(d),
        Ok((name, colon)) => match expect(
            tokens,
            colon,
            TokenTypeView::Colon,
            "Expected ':' after variable name"@,
        ) {
            Err(d) => Err(d),
            Ok(type_start) => match parse_type(tokens, type_start) {
                Err(d) => Err(d),
                Ok((var_type, assign)) => match expect(
                    tokens,
                    assign,
                    TokenTypeView::Assign,
                    "Expected '=' after variable type"@,
                ) {
                    Err(d) => Err(d),
                    Ok(value_start) => match parse_expression(tokens, value_start, true) {
                        Err(d) => Err(d),
                        Ok((initializer, end)) => match expect(
                            tokens,
                            end,
                            TokenTypeView::Semicolon,
                            "Expected ';' after variable declaration"@,
                        ) {
                            Err(d) => Err(d),
                            Ok(after) => Ok(
                                (
                                    VariableView {
                                        name,
                                        var_type,
                                        initializer,
                                        mutable,
                                        span: span_cover(
                                            span_at(tokens, pos),
                                            span_at(tokens, end),
                                        ),
                                    },
                                    after,
                                ),
                            ),
                        },
                    },
                },
            },
        },
    }
}

/// A `return` statement, with or without a value.
pub open spec fn parse_return(tokens: Seq<TokenView>, pos: int) -> Parsed<StatementView> {
    if kind_at(tokens, pos + 1) == TokenTypeView::Semicolon {
        Ok(
            (
                StatementView::Return {
                    value: None,
                    span: span_cover(span_at(tokens, pos), span_at(tokens, pos + 1)),
                },
                pos + 2,
            ),
        )
    } else {
        match parse_expression(tokens, pos + 1, true) {
            Err(d) => Err(d),
            Ok((value, end)) => match expect(
                tokens,
                end,
                TokenTypeView::Semicolon,
                "Expected ';' after return value"@,
            ) {
                Err(d) => Err(d),
                Ok(after) => Ok(
                    (
                        StatementView::Return {
                            value: Some(value),
                            span: span_cover(span_at(tokens, pos), span_at(tokens, end)),
                        },
                        after,
                    ),
                ),
            },
        }
    }
}

/// An expression statement `e;` or an assignment `target = value;`.
pub open spec fn parse_simple_statement(tokens: Seq<TokenView>, pos: int) -> Parsed<StatementView> {
    match parse_expression(tokens, pos, true) {
        Err(d) => Err(d),
        Ok((first, next)) => {
            if kind_at(tokens, next) == TokenTypeView::Assign {
                match parse_expression(tokens, next + 1, true) {
                    Err(d) => Err(d),
                    Ok((value, end)) => match expect(
                        tokens,
                        end,
                        TokenTypeView::Semicolon,
                        "Expected ';' after assignment"@,
                    ) {
                        Err(d) => Err(d),
                        Ok(after) => Ok(
                            (
                                StatementView::Assignment {
                                    target: first,
                                    value,
                                    span: span_cover(expression_span(first), span_at(tokens, end)),
                                },
                                after,
                            ),
                        ),
                    },
                }
            } else {
                match expect(
                    tokens,
                    next,
                    TokenTypeView::Semicolon,
                    "Expected ';' after expression"@,
                ) {
                    Err(d) => Err(d),
                    Ok(after) => Ok((StatementView::Expression(first), after)),
                }
            }
        },
    }
}

/// A block: statements between braces.
pub open spec fn parse_block(tokens: Seq<TokenView>, pos: int) -> Parsed<BlockView>
    decreases tokens.len() - pos, 3int,
{
    if kind_at(tokens, pos) == TokenTypeView::LeftBrace {
        match parse_statements(tokens, pos + 1, Seq::empty()) {
            Err(d) => Err(d),
            Ok((statements, next)) => Ok(
                (
                    BlockView {
                        statements,
                        span: span_cover(span_at(tokens, pos), span_at(tokens, next - 1)),
                    },
                    next,
                ),
            ),
        }
    } else {
        Err(violation(tokens, pos, "Expected '{'"@))
    }
}

/// The rest of a block, of which the statements `found` were read, up
/// to and with the closing brace.
pub open spec fn parse_statements(tokens: Seq<TokenView>, pos: int, found: Seq<StatementView>) -> Parsed<
    Seq<StatementView>,
>
    decreases tokens.len() - pos, 2int,
{
    if kind_at(tokens, pos) == TokenTypeView::RightBrace {
        Ok((found, pos + 1))
    } else if kind_at(tokens, pos) == TokenTypeView::Eof {
        Err(violation(tokens, pos, "Expected '}'"@))
    } else {
        match progress(tokens, pos, parse_statement(tokens, pos)) {
            Err(d) => Err(d),
            Ok((statement, next)) => parse_statements(tokens, next, found.push(statement)),
        }
    }
}

/// One statement, told by its first token.
pub open spec fn parse_statement(tokens: Seq<TokenView>, pos: int) -> Parsed<StatementView>
    decreases tokens.len() - pos, 1int,
{
    match kind_at(tokens, pos) {
        TokenTypeView::Let | TokenTypeView::Var => match parse_variable(tokens, pos) {
            Err(d) => Err(d),
            Ok((variable, next)) => Ok((StatementView::Variable(variable), next)),
        },
        TokenTypeView::If => parse_if(tokens, pos),
        TokenTypeView::For => parse_for(tokens, pos),
        TokenTypeView::Try => parse_try(tokens, pos),
        TokenTypeView::Return => parse_return(tokens, pos),
        _ => parse_simple_statement(tokens, pos),
    }
}

/// An `if` statement: the condition, the block, and the chain of
/// `else if` and `else` behind it.
pub open spec fn parse_if(tokens: Seq<TokenView>, pos: int) -> Parsed<StatementView>
    decreases tokens.len() - pos, 0int,
{
    match progress(tokens, pos, parse_expression(tokens, pos + 1, false)) {
        Err(d) => Err(d),
        Ok((condition, block_start)) => match progress(
            tokens,
            pos,
            parse_block(tokens, block_start),
        ) {
            Err(d) => Err(d),
            Ok((then_block, next)) => parse_else_chain(
                tokens,
                next,
                span_at(tokens, pos),
                condition,
                then_block,
                Seq::empty(),
            ),
        },
    }
}

/// What follows the blocks of an `if` statement read so far: any
/// number of `else if` branches and at most one `else` block.
pub open spec fn parse_else_chain(
    tokens: Seq<TokenView>,
    pos: int,
    start: SpanView,
    condition: ExpressionView,
    then_block: BlockView,
    else_ifs: Seq<(ExpressionView, BlockView)>,
) -> Parsed<StatementView>
    decreases tokens.len() - pos, 0int,
{
    if kind_at(tokens, pos) == TokenTypeView::Else {
        if kind_at(tokens, pos + 1) == TokenTypeView::If {
            match progress(tokens, pos, parse_expression(tokens, pos + 2, false)) {
                Err(d) => Err(d),
                Ok((branch, block_start)) => match progress(
                    tokens,
                    pos,
                    parse_block(tokens, block_start),
                ) {
                    Err(d) => Err(d),
                    Ok((block, next)) => parse_else_chain(
                        tokens,
                        next,
                        start,
                        condition,
                        then_block,
                        else_ifs.push((branch, block)),
                    ),
                },
            }
        } else {
            match parse_block(tokens, pos + 1) {
                Err(d) => Err(d),
                Ok((block, next)) => Ok(
                    (
                        StatementView::If {
                            condition,
                            then_block,
                            else_ifs,
                            else_block: Some(block),
                            span: span_cover(start, block.span),
                        },
                        next,
                    ),
                ),
            }
        }
    } else {
        Ok(
            (
                StatementView::If {
                    condition,
                    then_block,
                    else_ifs,
                    else_block: None,
                    span: span_cover(start, span_at(tokens, pos - 1)),
                },
                pos,
            ),
        )
    }
}

/// A `for` statement: `for`, the loop variable, `in`, the iterable and
/// the body.
pub open spec fn parse_for(tokens: Seq<TokenView>, pos: int) -> Parsed<StatementView>
    decreases tokens.len() - pos, 0int,
{
    match expect_identifier(tokens, pos + 1, "Expected loop variable after 'for'"@) {
        Err(d) => Err(d),
        Ok((variable, in_at)) => match expect(
            tokens,
            in_at,
            TokenTypeView::In,
            "Expected 'in' after loop variable"@,
        ) {
            Err(d) => Err(d),
            Ok(start) => match progress(tokens, pos, parse_expression(tokens, start, false)) {
                Err(d) => Err(d),
                Ok((iterable, block_start)) => match parse_block(tokens, block_start) {
                    Err(d) => Err(d),
                    Ok((body, next)) => Ok(
                        (
                            StatementView::For {
                                variable,
                                iterable,
                                body,
                                span: span_cover(span_at(tokens, pos), body.span),
                            },
                            next,
                        ),
                    ),
                },
            },
        },
    }
}

/// A `try` statement: the block and one or more `catch` clauses.
pub open spec fn parse_try(tokens: Seq<TokenView>, pos: int) -> Parsed<StatementView>
    decreases tokens.len() - pos, 0int,
{
    if kind_at(tokens, pos) == TokenTypeView::Try {
        match progress(tokens, pos, parse_block(tokens, pos + 1)) {
            Err(d) => Err(d),
            Ok((try_block, next)) => parse_catches(
                tokens,
                next,
                span_at(tokens, pos),
                try_block,
                Seq::empty(),
            ),
        }
    } else {
        Err(violation(tokens, pos, "Expected 'try'"@))
    }
}

/// The name of the exception type that a token names in a `catch`
/// clause: a primitive type or an identifier.
pub open spec fn exception_name(kind: TokenTypeView) -> Option<Seq<char>> {
    match kind {
        TokenTypeView::Identifier(name) => Some(name),
        TokenTypeView::IntType => Some("Int"@),
        TokenTypeView::FloatType => Some("Float"@),
        TokenTypeView::StrType => Some("Str"@),
        TokenTypeView::BoolType => Some("Bool"@),
        _ => None,
    }
}

/// The `catch` clauses behind a `try` block, of which `found` were
/// read: `catch`, the exception type in parentheses, and the handler.
pub open spec fn parse_catches(
    tokens: Seq<TokenView>,
    pos: int,
    start: SpanView,
    try_block: BlockView,
    found: Seq<CatchClauseView>,
) -> Parsed<StatementView>
    decreases tokens.len() - pos, 0int,
{
    if kind_at(tokens, pos) == TokenTypeView::Catch {
        match expect(
            tokens,
            pos + 1,
            TokenTypeView::LeftParen,
            "Expected '(' after 'catch'"@,
        ) {
            Err(d) => Err(d),
            Ok(name_at) => match exception_name(kind_at(tokens, name_at)) {
                None => Err(violation(tokens, name_at, "Expected exception type"@)),
                Some(exception_type) => match expect(
                    tokens,
                    name_at + 1,
                    TokenTypeView::RightParen,
                    "Expected ')' after exception type"@,
                ) {
                    Err(d) => Err(d),
                    Ok(block_start) => match progress(
                        tokens,
                        pos,
                        parse_block(tokens, block_start),
                    ) {
                        Err(d) => Err(d),
                        Ok((handler_block, next)) => parse_catches(
                            tokens,
                            next,
                            start,
                            try_block,
                            found.push(
                                CatchClauseView {
                                    exception_type,
                                    handler_block,
                                    span: span_cover(span_at(tokens, pos), handler_block.span),
                                },
                            ),
                        ),
                    },
                },
            },
        }
    } else if found.len() == 0 {
        Err(violation(tokens, pos, "Expected 'catch' after try block"@))
    } else {
        Ok(
            (
                StatementView::Try {
                    try_block,
                    catch_clauses: found,
                    span: span_cover(start, found.last().span),
                },
                pos,
            ),
        )
    }
}

/// One parameter: a name, `:`, a type and, behind `=`, a default value.
pub open spec fn parse_parameter(tokens: Seq<TokenView>, pos: int) -> Parsed<ParameterView> {
    match expect_identifier(tokens, pos, "Expected parameter name"@) {
        Err(d) => Err(d),
        Ok((name, colon)) => match expect(
            tokens,
            colon,
            TokenTypeView::Colon,
            "Expected ':' after parameter name"@,
        ) {
            Err(d) => Err(d),
            Ok(type_start) => match parse_type(tokens, type_start) {
                Err(d) => Err(d),
                Ok((param_type, next)) => {
                    if kind_at(tokens, next) == TokenTypeView::Assign {
                        match parse_expression(tokens, next + 1, true) {
                            Err(d) => Err(d),
                            Ok((value, end)) => Ok(
                                (
                                    ParameterView {
                                        name,
                                        param_type,
                                        default_value: Some(value),
                                        span: span_cover(
                                            span_at(tokens, pos),
                                            span_at(tokens, end - 1),
                                        ),
                                    },
                                    end,
                                ),
                            ),
                        }
                    } else {
                        Ok(
                            (
                                ParameterView {
                                    name,
                                    param_type,
                                    default_value: None,
                                    span: span_cover(
                                        span_at(tokens, pos),
                                        span_at(tokens, next - 1),
                                    ),
                                },
                                next,
                            ),
                        )
                    }
                },
            },
        }
    }
}

/// The parameters of a function, separated by commas, up to and with
/// the closing parenthesis. `pos` lies behind the opening one.
pub open spec fn parse_parameters(tokens: Seq<TokenView>, pos: int) -> Parsed<Seq<ParameterView>> {
    if kind_at(tokens, pos) == TokenTypeView::RightParen {
        Ok((Seq::empty(), pos + 1))
    } else {
        parse_parameter_items(tokens, pos, Seq::empty())
    }
}

/// The rest of a parameter list, of which `found` were read.
pub open spec fn parse_parameter_items(
    tokens: Seq<TokenView>,
    pos: int,
    found: Seq<ParameterView>,
) -> Parsed<Seq<ParameterView>>
    decreases tokens.len() - pos,
{
    match progress(tokens, pos, parse_parameter(tokens, pos)) {
        Err(d) => Err(d),
        Ok((parameter, next)) => {
            if kind_at(tokens, next) == TokenTypeView::Comma {
                parse_parameter_items(tokens, next + 1, found.push(parameter))
            } else if kind_at(tokens, next) == TokenTypeView::RightParen {
                Ok((found.push(parameter), next + 1))
            } else {
                Err(violation(tokens, next, "Expected ',' or ')' after parameter"@))
            }
        },
    }
}

/// A function: `fn`, the name, the parameters in parentheses, `->`, the
/// return type and the body.
pub open spec fn parse_function(tokens: Seq<TokenView>, pos: int) -> Parsed<FunctionView> {
    match expect_identifier(tokens, pos + 1, "Expected function name"@) {
        Err(d) => Err(d),
        Ok((name, paren)) => match expect(
            tokens,
            paren,
            TokenTypeView::LeftParen,
            "Expected '(' after function name"@,
        ) {
            Err(d) => Err(d),
            Ok(first) => match parse_parameters(tokens, first) {
                Err(d) => Err(d),
                Ok((parameters, arrow)) => match expect(
                    tokens,
                    arrow,
                    TokenTypeView::Arrow,
                    "Expected '->' after parameters"@,
                ) {
                    Err(d) => Err(d),
                    Ok(type_start) => match parse_type(tokens, type_start) {
                        Err(d) => Err(d),
                        Ok((return_type, block_start)) => match parse_block(tokens, block_start) {
                            Err(d) => Err(d),
                            Ok((body, next)) => Ok(
                                (
                                    FunctionView {
                                        name,
                                        parameters,
                                        return_type,
                                        body,
                                        span: span_cover(span_at(tokens, pos), body.span),
                                    },
                                    next,
                                ),
                            ),
                        },
                    },
                },
            },
        },
    }
}

/// One field of a struct: a name, `:` and a type.
pub open spec fn parse_field(tokens: Seq<TokenView>, pos: int) -> Parsed<FieldView> {
    match expect_identifier(tokens, pos, "Expected field name"@) {
        Err(d) => Err(d),
        Ok((name, colon)) => match expect(
            tokens,
            colon,
            TokenTypeView::Colon,
            "Expected ':' after field name"@,
        ) {
            Err(d) => Err(d),
            Ok(type_start) => match parse_type(tokens, type_start) {
                Err(d) => Err(d),
                Ok((field_type, next)) => Ok(
                    (
                        FieldView {
                            name,
                            field_type,
                            span: span_cover(span_at(tokens, pos), span_at(tokens, next - 1)),
                        },
                        next,
                    ),
                ),
            },
        },
    }
}

/// The fields of a struct, separated by commas, up to and with the
/// closing brace. `pos` lies behind the opening one.
pub open spec fn parse_fields(tokens: Seq<TokenView>, pos: int) -> Parsed<Seq<FieldView>> {
    if kind_at(tokens, pos) == TokenTypeView::RightBrace {
        Ok((Seq::empty(), pos + 1))
    } else {
        parse_field_declarations(tokens, pos, Seq::empty())
    }
}

/// The rest of the fields of a struct, of which `found` were read.
pub open spec fn parse_field_declarations(
    tokens: Seq<TokenView>,
    pos: int,
    found: Seq<FieldView>,
) -> Parsed<Seq<FieldView>>
    decreases tokens.len() - pos,
{
    match progress(tokens, pos, parse_field(tokens, pos)) {
        Err(d) => Err(d),
        Ok((field, next)) => {
            if kind_at(tokens, next) == TokenTypeView::Comma {
                parse_field_declarations(tokens, next + 1, found.push(field))
            } else if kind_at(tokens, next) == TokenTypeView::RightBrace {
                Ok((found.push(field), next + 1))
            } else {
                Err(violation(tokens, next, "Expected ',' or '}' after field"@))
            }
        },
    }
}

/// A struct: `struct`, the name and the fields between braces.
pub open spec fn parse_struct(tokens: Seq<TokenView>, pos: int) -> Parsed<StructView> {
    match expect_identifier(tokens, pos + 1, "Expected struct name"@) {
        Err(d) => Err(d),
        Ok((name, brace)) => match expect(
            tokens,
            brace,
            TokenTypeView::LeftBrace,
            "Expected '{' after struct name"@,
        ) {
            Err(d) => Err(d),
            Ok(first) => match parse_fields(tokens, first) {
                Err(d) => Err(d),
                Ok((fields, next)) => Ok(
                    (
                        StructView {
                            name,
                            fields,
                            span: span_cover(span_at(tokens, pos), span_at(tokens, next - 1)),
                        },
                        next,
                    ),
                ),
            },
        },
    }
}

/// A constant: the word `const`, a name, `:`, a type, `=`, the value
/// and `;`.
pub open spec fn parse_constant(tokens: Seq<TokenView>, pos: int) -> Parsed<ConstantView> {
    match expect_identifier(tokens, pos + 1, "Expected constant name"@) {
        Err(d) => Err(d),
        Ok((name, colon)) => match expect(
            tokens,
            colon,
            TokenTypeView::Colon,
            "Expected ':' after constant name"@,
        ) {
            Err(d) => Err(d),
            Ok(type_start) => match parse_type(tokens, type_start) {
                Err(d) => Err(d),
                Ok((const_type, assign)) => match expect(
                    tokens,
                    assign,
                    TokenTypeView::Assign,
                    "Expected '=' after constant type"@,
                ) {
                    Err(d) => Err(d),
                    Ok(value_start) => match parse_expression(tokens, value_start, true) {
                        Err(d) => Err(d),
                        Ok((value, end)) => match expect(
                            tokens,
                            end,
                            TokenTypeView::Semicolon,
                            "Expected ';' after constant declaration"@,
                        ) {
                            Err(d) => Err(d),
                            Ok(after) => Ok(
                                (
                                    ConstantView {
                                        name,
                                        const_type,
                                        value,
                                        span: span_cover(
                                            span_at(tokens, pos),
                                            span_at(tokens, end),
                                        ),
                                    },
                                    after,
                                ),
                            ),
                        },
                    },
                },
            },
        },
    }
}

/// The word that starts a constant declaration. It is no keyword: the
/// lexer yields it as an identifier.
pub open spec fn constant_word() -> Seq<char> {
    "const"@
}

/// One top-level declaration, told by its first token.
pub open spec fn parse_item(tokens: Seq<TokenView>, pos: int) -> Parsed<ItemView> {
    match kind_at(tokens, pos) {
        TokenTypeView::Fn => match parse_function(tokens, pos) {
            Err(d) => Err(d),
            Ok((function, next)) => Ok((ItemView::Function(function), next)),
        },
        TokenTypeView::Struct => match parse_struct(tokens, pos) {
            Err(d) => Err(d),
            Ok((declaration, next)) => Ok((ItemView::Struct(declaration), next)),
        },
        TokenTypeView::Let | TokenTypeView::Var => match parse_variable(tokens, pos) {
            Err(d) => Err(d),
            Ok((variable, next)) => Ok((ItemView::Variable(variable), next)),
        },
        TokenTypeView::Identifier(word) => {
            if word == constant_word() {
                match parse_constant(tokens, pos) {
                    Err(d) => Err(d),
                    Ok((constant, next)) => Ok((ItemView::Constant(constant), next)),
                }
            } else {
                Err(violation(tokens, pos, "Expected item declaration"@))
            }
        },
        _ => Err(violation(tokens, pos, "Expected item declaration"@)),
    }
}

/// The declarations of a module, of which `found` were read, up to the
/// end of input.
pub open spec fn parse_items(tokens: Seq<TokenView>, pos: int, found: Seq<ItemView>) -> Result<
    Seq<ItemView>,
    DiagnosticView,
>
    decreases tokens.len() - pos,
{
    if kind_at(tokens, pos) == TokenTypeView::Eof {
        Ok(found)
    } else {
        match progress(tokens, pos, parse_item(tokens, pos)) {
            Err(d) => Err(d),
            Ok((item, next)) => parse_items(tokens, next, found.push(item)),
        }
    }
}

/// The rest of a module path, of which `found` was read: names joined
/// by dots.
pub open spec fn parse_path_rest(tokens: Seq<TokenView>, pos: int, found: Seq<char>) -> Parsed<
    Seq<char>,
>
    decreases tokens.len() - pos,
{
    if kind_at(tokens, pos) == TokenTypeView::Dot {
        match kind_at(tokens, pos + 1) {
            TokenTypeView::Identifier(name) => parse_path_rest(
                tokens,
                pos + 2,
                found.push('.') + name,
            ),
            _ => Err(violation(tokens, pos + 1, "Expected name after '.'"@)),
        }
    } else {
        Ok((found, pos))
    }
}

/// An import: `import`, a module path and `;`.
pub open spec fn parse_import(tokens: Seq<TokenView>, pos: int) -> Parsed<ImportView> {
    match expect_identifier(tokens, pos + 1, "Expected module path after 'import'"@) {
        Err(d) => Err(d),
        Ok((first, next)) => match parse_path_rest(tokens, next, first) {
            Err(d) => Err(d),
            Ok((path, end)) => match expect(
                tokens,
                end,
                TokenTypeView::Semicolon,
                "Expected ';' after import"@,
            ) {
                Err(d) => Err(d),
                Ok(after) => Ok(
                    (
                        ImportView {
                            path,
                            span: span_cover(span_at(tokens, pos), span_at(tokens, end)),
                        },
                        after,
                    ),
                ),
            },
        },
    }
}

/// The imports at the head of a module, of which `found` were read.
pub open spec fn parse_imports(tokens: Seq<TokenView>, pos: int, found: Seq<ImportView>) -> Parsed<
    Seq<ImportView>,
>
    decreases tokens.len() - pos,
{
    if kind_at(tokens, pos) == TokenTypeView::Import {
        match progress(tokens, pos, parse_import(tokens, pos)) {
            Err(d) => Err(d),
            Ok((import, next)) => parse_imports(tokens, next, found.push(import)),
        }
    } else {
        Ok((found, pos))
    }
}

/// A module: its imports, then its declarations.
pub open spec fn parse_module(tokens: Seq<TokenView>) -> Result<ProgramView, DiagnosticView> {
    match parse_imports(tokens, 0, Seq::empty()) {
        Err(d) => Err(d),
        Ok((imports, next)) => match parse_items(tokens, next, Seq::empty()) {
            Err(d) => Err(d),
            Ok(items) => Ok(ProgramView { items, imports }),
        },
    }
}

/// The syntax tree of a token sequence, or the first violation of the
/// grammar. Line feeds separate nothing: they are left out.
pub open spec fn program_of(tokens: Seq<TokenView>) -> Result<ProgramView, DiagnosticView> {
    parse_module(significant(tokens))
}

} // verus!
