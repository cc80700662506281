//! The recursive-descent parser: tokens to a syntax tree.
//!
//! Every parsing function computes the grammar function of its name, on
//! the model of its tokens.

use vstd::prelude::*;
use crate::compiler::ast::{
    catch_clauses_view, else_ifs_view, expressions_view, field_values_view, statements_view,
    Assignment, BinaryOp, BinaryOperator, Block, CatchClause, Constant, Expression, Field,
    ForLoop, Function, FunctionCall, Identifier, IfStatement, Import, Item, ListLiteral, Literal,
    MemberAccess, Parameter, Program, ReturnStatement, Statement, Struct, StructInitializer,
    TryStatement, Type, UnaryOp, UnaryOperator, Variable,
};
use crate::compiler::grammar;
use crate::compiler::grammar::{kind_at, span_at, violation, Parsed};
use crate::compiler::lexer::{Token, TokenType, TokenTypeView};
use crate::diagnostics::{Diagnostic, DiagnosticEngine, Error, ErrorView, Span};

verus! {

/// `result` is what the grammar yields, and a value that it found ends
/// behind `pos` and inside the tokens.
pub open spec fn yields<T: View>(
    result: Result<(T, usize), Diagnostic>,
    model: Parsed<T::V>,
    pos: int,
    len: int,
) -> bool {
    match model {
        Ok((value, next)) => result matches Ok((found, after)) && found@ == value && after == next
            && pos < next <= len,
        Err(d) => result matches Err(found) && found@ == d,
    }
}

/// As `yields`, for a list of expressions.
pub open spec fn yields_expressions(
    result: Result<(Vec<Expression>, usize), Diagnostic>,
    model: Parsed<Seq<crate::compiler::ast::ExpressionView>>,
    pos: int,
    len: int,
) -> bool {
    match model {
        Ok((value, next)) => result matches Ok((found, after)) && expressions_view(found@)
            == value && after == next && pos < next <= len,
        Err(d) => result matches Err(found) && found@ == d,
    }
}

/// As `yields`, for the values of a struct literal.
pub open spec fn yields_field_values(
    result: Result<(Vec<(String, Expression)>, usize), Diagnostic>,
    model: Parsed<Seq<(Seq<char>, crate::compiler::ast::ExpressionView)>>,
    pos: int,
    len: int,
) -> bool {
    match model {
        Ok((value, next)) => result matches Ok((found, after)) && field_values_view(found@)
            == value && after == next && pos < next <= len,
        Err(d) => result matches Err(found) && found@ == d,
    }
}

/// The kind of the token at `pos`, or `None` behind the last token.
pub fn token_kind<'a>(tokens: &'a Vec<Token>, pos: usize) -> (kind: Option<&'a TokenType>)
    ensures
        match kind {
            Some(k) => pos < tokens.len() && k@ == kind_at(tokens.deep_view(), pos as int) && *k
                == tokens[pos as int].token_type,
            None => pos >= tokens.len() && kind_at(tokens.deep_view(), pos as int)
                == TokenTypeView::Eof,
        },
{
    if pos < tokens.len() {
        Some(&tokens[pos].token_type)
    } else {
        None
    }
}

/// The span of the token at `pos`.
pub fn token_span(tokens: &Vec<Token>, pos: usize) -> (span: Span)
    ensures
        span@ == span_at(tokens.deep_view(), pos as int),
{
    if pos < tokens.len() {
        tokens[pos].span.duplicate()
    } else if tokens.len() > 0 {
        tokens[tokens.len() - 1].span.duplicate()
    } else {
        Span { file: String::new(), start_line: 0, start_column: 0, end_line: 0, end_column: 0 }
    }
}

/// The diagnostic of a violation at the token at `pos`.
pub fn violation_at(tokens: &Vec<Token>, pos: usize, message: &str) -> (d: Diagnostic)
    ensures
        d@ == violation(tokens.deep_view(), pos as int, message@),
{
    Diagnostic::error(String::from_str(message), token_span(tokens, pos))
}

// Whether the token at `pos` is of the kind that the function names.

fn at_left_brace(tokens: &Vec<Token>, pos: usize) -> (b: bool)
    ensures
        b == (kind_at(tokens.deep_view(), pos as int) == TokenTypeView::LeftBrace),
        b ==> pos < tokens.len(),
{
    match token_kind(tokens, pos) {
        Some(TokenType::LeftBrace) => true,
        _ => false,
    }
}

fn at_right_brace(tokens: &Vec<Token>, pos: usize) -> (b: bool)
    ensures
        b == (kind_at(tokens.deep_view(), pos as int) == TokenTypeView::RightBrace),
        b ==> pos < tokens.len(),
{
    match token_kind(tokens, pos) {
        Some(TokenType::RightBrace) => true,
        _ => false,
    }
}

fn at_right_paren(tokens: &Vec<Token>, pos: usize) -> (b: bool)
    ensures
        b == (kind_at(tokens.deep_view(), pos as int) == TokenTypeView::RightParen),
        b ==> pos < tokens.len(),
{
    match token_kind(tokens, pos) {
        Some(TokenType::RightParen) => true,
        _ => false,
    }
}

fn at_right_bracket(tokens: &Vec<Token>, pos: usize) -> (b: bool)
    ensures
        b == (kind_at(tokens.deep_view(), pos as int) == TokenTypeView::RightBracket),
        b ==> pos < tokens.len(),
{
    match token_kind(tokens, pos) {
        Some(TokenType::RightBracket) => true,
        _ => false,
    }
}

fn at_comma(tokens: &Vec<Token>, pos: usize) -> (b: bool)
    ensures
        b == (kind_at(tokens.deep_view(), pos as int) == TokenTypeView::Comma),
        b ==> pos < tokens.len(),
{
    match token_kind(tokens, pos) {
        Some(TokenType::Comma) => true,
        _ => false,
    }
}

fn at_colon(tokens: &Vec<Token>, pos: usize) -> (b: bool)
    ensures
        b == (kind_at(tokens.deep_view(), pos as int) == TokenTypeView::Colon),
        b ==> pos < tokens.len(),
{
    match token_kind(tokens, pos) {
        Some(TokenType::Colon) => true,
        _ => false,
    }
}

fn at_less(tokens: &Vec<Token>, pos: usize) -> (b: bool)
    ensures
        b == (kind_at(tokens.deep_view(), pos as int) == TokenTypeView::Less),
        b ==> pos < tokens.len(),
{
    match token_kind(tokens, pos) {
        Some(TokenType::Less) => true,
        _ => false,
    }
}

fn at_greater(tokens: &Vec<Token>, pos: usize) -> (b: bool)
    ensures
        b == (kind_at(tokens.deep_view(), pos as int) == TokenTypeView::Greater),
        b ==> pos < tokens.len(),
{
    match token_kind(tokens, pos) {
        Some(TokenType::Greater) => true,
        _ => false,
    }
}

fn at_assign(tokens: &Vec<Token>, pos: usize) -> (b: bool)
    ensures
        b == (kind_at(tokens.deep_view(), pos as int) == TokenTypeView::Assign),
        b ==> pos < tokens.len(),
{
    match token_kind(tokens, pos) {
        Some(TokenType::Assign) => true,
        _ => false,
    }
}

fn at_semicolon(tokens: &Vec<Token>, pos: usize) -> (b: bool)
    ensures
        b == (kind_at(tokens.deep_view(), pos as int) == TokenTypeView::Semicolon),
        b ==> pos < tokens.len(),
{
    match token_kind(tokens, pos) {
        Some(TokenType::Semicolon) => true,
        _ => false,
    }
}

fn at_left_paren(tokens: &Vec<Token>, pos: usize) -> (b: bool)
    ensures
        b == (kind_at(tokens.deep_view(), pos as int) == TokenTypeView::LeftParen),
        b ==> pos < tokens.len(),
{
    match token_kind(tokens, pos) {
        Some(TokenType::LeftParen) => true,
        _ => false,
    }
}

fn at_arrow(tokens: &Vec<Token>, pos: usize) -> (b: bool)
    ensures
        b == (kind_at(tokens.deep_view(), pos as int) == TokenTypeView::Arrow),
        b ==> pos < tokens.len(),
{
    match token_kind(tokens, pos) {
        Some(TokenType::Arrow) => true,
        _ => false,
    }
}

fn at_in(tokens: &Vec<Token>, pos: usize) -> (b: bool)
    ensures
        b == (kind_at(tokens.deep_view(), pos as int) == TokenTypeView::In),
        b ==> pos < tokens.len(),
{
    match token_kind(tokens, pos) {
        Some(TokenType::In) => true,
        _ => false,
    }
}

fn at_else(tokens: &Vec<Token>, pos: usize) -> (b: bool)
    ensures
        b == (kind_at(tokens.deep_view(), pos as int) == TokenTypeView::Else),
        b ==> pos < tokens.len(),
{
    match token_kind(tokens, pos) {
        Some(TokenType::Else) => true,
        _ => false,
    }
}

fn at_if(tokens: &Vec<Token>, pos: usize) -> (b: bool)
    ensures
        b == (kind_at(tokens.deep_view(), pos as int) == TokenTypeView::If),
        b ==> pos < tokens.len(),
{
    match token_kind(tokens, pos) {
        Some(TokenType::If) => true,
        _ => false,
    }
}

fn at_catch(tokens: &Vec<Token>, pos: usize) -> (b: bool)
    ensures
        b == (kind_at(tokens.deep_view(), pos as int) == TokenTypeView::Catch),
        b ==> pos < tokens.len(),
{
    match token_kind(tokens, pos) {
        Some(TokenType::Catch) => true,
        _ => false,
    }
}

fn at_dot(tokens: &Vec<Token>, pos: usize) -> (b: bool)
    ensures
        b == (kind_at(tokens.deep_view(), pos as int) == TokenTypeView::Dot),
        b ==> pos < tokens.len(),
{
    match token_kind(tokens, pos) {
        Some(TokenType::Dot) => true,
        _ => false,
    }
}

fn at_import(tokens: &Vec<Token>, pos: usize) -> (b: bool)
    ensures
        b == (kind_at(tokens.deep_view(), pos as int) == TokenTypeView::Import),
        b ==> pos < tokens.len(),
{
    match token_kind(tokens, pos) {
        Some(TokenType::Import) => true,
        _ => false,
    }
}

/// Whether the tokens end at `pos`.
fn at_end(tokens: &Vec<Token>, pos: usize) -> (b: bool)
    ensures
        b == (kind_at(tokens.deep_view(), pos as int) == TokenTypeView::Eof),
        !b ==> pos < tokens.len(),
{
    match token_kind(tokens, pos) {
        Some(TokenType::Eof) => true,
        None => true,
        _ => false,
    }
}

/// The name of the identifier at `pos`.
fn expect_identifier(tokens: &Vec<Token>, pos: usize, message: &str) -> (result: Result<
    String,
    Diagnostic,
>)
    ensures
        match grammar::expect_identifier(tokens.deep_view(), pos as int, message@) {
            Ok((name, next)) => result matches Ok(found) && found@ == name && pos < tokens.len(),
            Err(d) => result matches Err(found) && found@ == d,
        },
{
    match token_kind(tokens, pos) {
        Some(TokenType::Identifier(name)) => Ok(name.clone()),
        _ => Err(violation_at(tokens, pos, message)),
    }
}

/// The span of an expression.
pub fn span_of(e: &Expression) -> (span: Span)
    ensures
        span@ == grammar::expression_span(e@),
{
    match e {
        Expression::Literal(_, span) => span.duplicate(),
        Expression::Identifier(id) => id.span.duplicate(),
        Expression::Binary(op) => op.span.duplicate(),
        Expression::Unary(op) => op.span.duplicate(),
        Expression::Call(call) => call.span.duplicate(),
        Expression::MemberAccess(access) => access.span.duplicate(),
        Expression::List(list) => list.span.duplicate(),
        Expression::StructInit(init) => init.span.duplicate(),
    }
}

pub fn parse_type(tokens: &Vec<Token>, pos: usize) -> (result: Result<(Type, usize), Diagnostic>)
    ensures
        yields(
            result,
            grammar::parse_type(tokens.deep_view(), pos as int),
            pos as int,
            tokens.len() as int,
        ),
    decreases tokens.len() - pos,
{
    match token_kind(tokens, pos) {
        Some(TokenType::IntType) => Ok((Type::Int, pos + 1)),
        Some(TokenType::FloatType) => Ok((Type::Float, pos + 1)),
        Some(TokenType::StrType) => Ok((Type::Str, pos + 1)),
        Some(TokenType::BoolType) => Ok((Type::Bool, pos + 1)),
        Some(TokenType::VoidType) => Ok((Type::Void, pos + 1)),
        Some(TokenType::Identifier(name)) => Ok((Type::Struct(name.clone()), pos + 1)),
        Some(TokenType::ListType) => {
            if !at_less(tokens, pos + 1) {
                return Err(violation_at(tokens, pos + 1, "Expected '<' after 'List'"));
            }
            match parse_type(tokens, pos + 2) {
                Err(d) => Err(d),
                Ok((element, next)) => {
                    if !at_greater(tokens, next) {
                        return Err(
                            violation_at(tokens, next, "Expected '>' after list element type"),
                        );
                    }
                    Ok((Type::List(Box::new(element)), next + 1))
                },
            }
        },
        _ => Err(violation_at(tokens, pos, "Expected type")),
    }
}

/// The binary operator that the token kind denotes at a level.
fn binary_operator_of(kind: Option<&TokenType>, level: usize) -> (operator: Option<BinaryOperator>)
    ensures
        operator == grammar::binary_operator(
            match kind {
                Some(k) => k@,
                None => TokenTypeView::Eof,
            },
            level as nat,
        ),
{
    let (at, operator): (usize, BinaryOperator) = match kind {
        Some(TokenType::Or) => (0, BinaryOperator::Or),
        Some(TokenType::And) => (1, BinaryOperator::And),
        Some(TokenType::Equal) => (2, BinaryOperator::Eq),
        Some(TokenType::NotEqual) => (2, BinaryOperator::Ne),
        Some(TokenType::Less) => (3, BinaryOperator::Lt),
        Some(TokenType::LessEqual) => (3, BinaryOperator::Le),
        Some(TokenType::Greater) => (3, BinaryOperator::Gt),
        Some(TokenType::GreaterEqual) => (3, BinaryOperator::Ge),
        Some(TokenType::Plus) => (4, BinaryOperator::Add),
        Some(TokenType::Minus) => (4, BinaryOperator::Sub),
        Some(TokenType::Star) => (5, BinaryOperator::Mul),
        Some(TokenType::Slash) => (5, BinaryOperator::Div),
        Some(TokenType::Percent) => (5, BinaryOperator::Mod),
        _ => (6, BinaryOperator::Or),
    };
    if at == level {
        Some(operator)
    } else {
        None
    }
}

pub fn parse_expression(tokens: &Vec<Token>, pos: usize, structs: bool) -> (result: Result<
    (Expression, usize),
    Diagnostic,
>)
    ensures
        yields(
            result,
            grammar::parse_expression(tokens.deep_view(), pos as int, structs),
            pos as int,
            tokens.len() as int,
        ),
{
    parse_binary(tokens, pos, 0, structs)
}

#[verifier::loop_isolation(false)]
fn parse_binary(tokens: &Vec<Token>, pos: usize, level: usize, structs: bool) -> (result: Result<
    (Expression, usize),
    Diagnostic,
>)
    ensures
        yields(
            result,
            grammar::parse_binary(tokens.deep_view(), pos as int, level as nat, structs),
            pos as int,
            tokens.len() as int,
        ),
    decreases tokens.len() - pos,
        (if level >= 6 {
            11
        } else {
            20 - level
        }),
{
    if level >= 6 {
        return parse_unary(tokens, pos, structs);
    }
    let ghost model = tokens.deep_view();
    let (first, start) = match parse_binary(tokens, pos, level + 1, structs) {
        Err(d) => {
            return Err(d);
        },
        Ok(found) => found,
    };
    let mut left = first;
    let mut at = start;
    let ghost whole = grammar::parse_binary_rest(model, at as int, level as nat, structs, left@);
    loop
        invariant
            level < 6,
            model == tokens.deep_view(),
            pos < at <= tokens.len(),
            whole == grammar::parse_binary_rest(model, at as int, level as nat, structs, left@),
        decreases tokens.len() - at,
    {
        let operator = match binary_operator_of(token_kind(tokens, at), level) {
            None => {
                return Ok((left, at));
            },
            Some(operator) => operator,
        };
        let (right, next) = match parse_binary(tokens, at + 1, level + 1, structs) {
            Err(d) => {
                return Err(d);
            },
            Ok(found) => found,
        };
        let span = span_of(&left).cover(&span_of(&right));
        left =
        Expression::Binary(
            BinaryOp { left: Box::new(left), operator, right: Box::new(right), span },
        );
        at = next;
    }
}

fn parse_unary(tokens: &Vec<Token>, pos: usize, structs: bool) -> (result: Result<
    (Expression, usize),
    Diagnostic,
>)
    ensures
        yields(
            result,
            grammar::parse_unary(tokens.deep_view(), pos as int, structs),
            pos as int,
            tokens.len() as int,
        ),
    decreases tokens.len() - pos, 10int,
{
    let operator = match token_kind(tokens, pos) {
        Some(TokenType::Minus) => UnaryOperator::Neg,
        Some(TokenType::Not) => UnaryOperator::Not,
        _ => {
            return parse_postfix(tokens, pos, structs);
        },
    };
    match parse_unary(tokens, pos + 1, structs) {
        Err(d) => Err(d),
        Ok((operand, next)) => {
            let span = token_span(tokens, pos).cover(&span_of(&operand));
            Ok((Expression::Unary(UnaryOp { operator, operand: Box::new(operand), span }), next))
        },
    }
}

#[verifier::rlimit(80)]
#[verifier::loop_isolation(false)]
fn parse_postfix(tokens: &Vec<Token>, pos: usize, structs: bool) -> (result: Result<
    (Expression, usize),
    Diagnostic,
>)
    ensures
        yields(
            result,
            grammar::parse_postfix(tokens.deep_view(), pos as int, structs),
            pos as int,
            tokens.len() as int,
        ),
    decreases tokens.len() - pos, 9int,
{
    let ghost model = tokens.deep_view();
    let (primary, start) = match parse_primary(tokens, pos, structs) {
        Err(d) => {
            return Err(d);
        },
        Ok(found) => found,
    };
    let mut object = primary;
    let mut at = start;
    let ghost whole = grammar::parse_postfix_rest(model, at as int, object@);
    loop
        invariant
            model == tokens.deep_view(),
            pos < at <= tokens.len(),
            whole == grammar::parse_postfix_rest(model, at as int, object@),
        decreases tokens.len() - at,
    {
        match token_kind(tokens, at) {
            Some(TokenType::LeftParen) => {
                let (arguments, next) = match parse_expression_list(
                    tokens,
                    at + 1,
                    false,
                    "Expected ',' or ')' after argument",
                ) {
                    Err(d) => {
                        return Err(d);
                    },
                    Ok(found) => found,
                };
                let span = span_of(&object).cover(&token_span(tokens, next - 1));
                object =
                Expression::Call(FunctionCall { function: Box::new(object), arguments, span });
                at = next;
            },
            Some(TokenType::Dot) => {
                let member = match token_kind(tokens, at + 1) {
                    Some(TokenType::Identifier(name)) => name.clone(),
                    _ => {
                        return Err(
                            violation_at(tokens, at + 1, "Expected member name after '.'"),
                        );
                    },
                };
                let span = span_of(&object).cover(&token_span(tokens, at + 1));
                object =
                Expression::MemberAccess(MemberAccess { object: Box::new(object), member, span });
                at = at + 2;
            },
            _ => {
                return Ok((object, at));
            },
        }
    }
}

#[verifier::rlimit(80)]
fn parse_primary(tokens: &Vec<Token>, pos: usize, structs: bool) -> (result: Result<
    (Expression, usize),
    Diagnostic,
>)
    ensures
        yields(
            result,
            grammar::parse_primary(tokens.deep_view(), pos as int, structs),
            pos as int,
            tokens.len() as int,
        ),
    decreases tokens.len() - pos, 8int,
{
    match token_kind(tokens, pos) {
        Some(TokenType::Integer(n)) => Ok(
            (Expression::Literal(Literal::Integer(*n), token_span(tokens, pos)), pos + 1),
        ),
        Some(TokenType::Float(digits)) => Ok(
            (Expression::Literal(Literal::Float(digits.clone()), token_span(tokens, pos)), pos + 1),
        ),
        Some(TokenType::String(text)) => Ok(
            (Expression::Literal(Literal::String(text.clone()), token_span(tokens, pos)), pos + 1),
        ),
        Some(TokenType::Boolean(b)) => Ok(
            (Expression::Literal(Literal::Boolean(*b), token_span(tokens, pos)), pos + 1),
        ),
        Some(TokenType::Identifier(name)) => {
            if structs && at_left_brace(tokens, pos + 1) {
                match parse_field_values(tokens, pos + 2) {
                    Err(d) => Err(d),
                    Ok((fields, next)) => {
                        let span = token_span(tokens, pos).cover(&token_span(tokens, next - 1));
                        Ok(
                            (
                                Expression::StructInit(
                                    StructInitializer { struct_name: name.clone(), fields, span },
                                ),
                                next,
                            ),
                        )
                    },
                }
            } else {
                Ok(
                    (
                        Expression::Identifier(
                            Identifier { name: name.clone(), span: token_span(tokens, pos) },
                        ),
                        pos + 1,
                    ),
                )
            }
        },
        Some(TokenType::LeftParen) => {
            match parse_binary(tokens, pos + 1, 0, true) {
                Err(d) => Err(d),
                Ok((inner, next)) => {
                    if !at_right_paren(tokens, next) {
                        return Err(violation_at(tokens, next, "Expected ')' after expression"));
                    }
                    Ok((inner, next + 1))
                },
            }
        },
        Some(TokenType::LeftBracket) => {
            match parse_expression_list(
                tokens,
                pos + 1,
                true,
                "Expected ',' or ']' after list element",
            ) {
                Err(d) => Err(d),
                Ok((elements, next)) => {
                    let span = token_span(tokens, pos).cover(&token_span(tokens, next - 1));
                    Ok((Expression::List(ListLiteral { elements, span }), next))
                },
            }
        },
        _ => Err(violation_at(tokens, pos, "Expected expression")),
    }
}

/// The token that closes a list: the right bracket where `bracket` is
/// true, else the right parenthesis.
pub open spec fn closer_of(bracket: bool) -> TokenTypeView {
    if bracket {
        TokenTypeView::RightBracket
    } else {
        TokenTypeView::RightParen
    }
}

fn at_closer(tokens: &Vec<Token>, pos: usize, bracket: bool) -> (b: bool)
    ensures
        b == (kind_at(tokens.deep_view(), pos as int) == closer_of(bracket)),
        b ==> pos < tokens.len(),
{
    if bracket {
        at_right_bracket(tokens, pos)
    } else {
        at_right_paren(tokens, pos)
    }
}

#[verifier::loop_isolation(false)]
fn parse_expression_list(tokens: &Vec<Token>, pos: usize, bracket: bool, message: &str) -> (result:
    Result<(Vec<Expression>, usize), Diagnostic>)
    requires
        1 <= pos <= tokens.len(),
    ensures
        yields_expressions(
            result,
            grammar::parse_expression_list(
                tokens.deep_view(),
                pos as int,
                closer_of(bracket),
                message@,
            ),
            pos - 1,
            tokens.len() as int,
        ),
    decreases tokens.len() - pos, 22int,
{
    let ghost model = tokens.deep_view();
    let mut found: Vec<Expression> = Vec::new();
    if at_closer(tokens, pos, bracket) {
        assert(expressions_view(found@) == Seq::<crate::compiler::ast::ExpressionView>::empty());
        return Ok((found, pos + 1));
    }
    let mut at = pos;
    let ghost whole = grammar::parse_expression_items(
        model,
        at as int,
        closer_of(bracket),
        message@,
        expressions_view(found@),
    );
    assert(expressions_view(found@) == Seq::<crate::compiler::ast::ExpressionView>::empty());
    loop
        invariant
            model == tokens.deep_view(),
            pos <= at <= tokens.len(),
            whole == grammar::parse_expression_items(
                model,
                at as int,
                closer_of(bracket),
                message@,
                expressions_view(found@),
            ),
        decreases tokens.len() - at,
    {
        let (item, next) = match parse_binary(tokens, at, 0, true) {
            Err(d) => {
                return Err(d);
            },
            Ok(parsed) => parsed,
        };
        let ghost before = expressions_view(found@);
        let ghost item_view = item@;
        found.push(item);
        assert(expressions_view(found@) == before.push(item_view));
        if at_comma(tokens, next) {
            at = next + 1;
        } else if at_closer(tokens, next, bracket) {
            return Ok((found, next + 1));
        } else {
            return Err(violation_at(tokens, next, message));
        }
    }
}

#[verifier::loop_isolation(false)]
fn parse_field_values(tokens: &Vec<Token>, pos: usize) -> (result: Result<
    (Vec<(String, Expression)>, usize),
    Diagnostic,
>)
    requires
        2 <= pos <= tokens.len(),
    ensures
        yields_field_values(
            result,
            grammar::parse_field_values(tokens.deep_view(), pos as int),
            pos - 2,
            tokens.len() as int,
        ),
    decreases tokens.len() - pos, 22int,
{
    let ghost model = tokens.deep_view();
    let mut found: Vec<(String, Expression)> = Vec::new();
    assert(field_values_view(found@) == Seq::<
        (Seq<char>, crate::compiler::ast::ExpressionView),
    >::empty());
    if at_right_brace(tokens, pos) {
        return Ok((found, pos + 1));
    }
    let mut at = pos;
    let ghost whole = grammar::parse_field_items(model, at as int, field_values_view(found@));
    loop
        invariant
            model == tokens.deep_view(),
            pos <= at <= tokens.len(),
            whole == grammar::parse_field_items(model, at as int, field_values_view(found@)),
        decreases tokens.len() - at,
    {
        let name = match token_kind(tokens, at) {
            Some(TokenType::Identifier(name)) => name.clone(),
            _ => {
                return Err(violation_at(tokens, at, "Expected field name"));
            },
        };
        if !at_colon(tokens, at + 1) {
            return Err(violation_at(tokens, at + 1, "Expected ':' after field name"));
        }
        let (value, next) = match parse_binary(tokens, at + 2, 0, true) {
            Err(d) => {
                return Err(d);
            },
            Ok(parsed) => parsed,
        };
        let ghost before = field_values_view(found@);
        let ghost entry = (name@, value@);
        found.push((name, value));
        assert(field_values_view(found@) == before.push(entry));
        if at_comma(tokens, next) {
            at = next + 1;
        } else if at_right_brace(tokens, next) {
            return Ok((found, next + 1));
        } else {
            return Err(violation_at(tokens, next, "Expected ',' or '}' after field value"));
        }
    }
}

fn parse_variable(tokens: &Vec<Token>, pos: usize) -> (result: Result<
    (Variable, usize),
    Diagnostic,
>)
    requires
        pos < tokens.len(),
    ensures
        yields(
            result,
            grammar::parse_variable(tokens.deep_view(), pos as int),
            pos as int,
            tokens.len() as int,
        ),
{
    let mutable = match token_kind(tokens, pos) {
        Some(TokenType::Var) => true,
        _ => false,
    };
    let name = match expect_identifier(tokens, pos + 1, "Expected variable name") {
        Err(d) => {
            return Err(d);
        },
        Ok(name) => name,
    };
    if !at_colon(tokens, pos + 2) {
        return Err(violation_at(tokens, pos + 2, "Expected ':' after variable name"));
    }
    let (var_type, assign) = match parse_type(tokens, pos + 3) {
        Err(d) => {
            return Err(d);
        },
        Ok(found) => found,
    };
    if !at_assign(tokens, assign) {
        return Err(violation_at(tokens, assign, "Expected '=' after variable type"));
    }
    let (initializer, end) = match parse_expression(tokens, assign + 1, true) {
        Err(d) => {
            return Err(d);
        },
        Ok(found) => found,
    };
    if !at_semicolon(tokens, end) {
        return Err(violation_at(tokens, end, "Expected ';' after variable declaration"));
    }
    let span = token_span(tokens, pos).cover(&token_span(tokens, end));
    Ok((Variable { name, var_type, initializer, mutable, span }, end + 1))
}

fn parse_return(tokens: &Vec<Token>, pos: usize) -> (result: Result<(Statement, usize), Diagnostic>)
    requires
        pos < tokens.len(),
    ensures
        yields(
            result,
            grammar::parse_return(tokens.deep_view(), pos as int),
            pos as int,
            tokens.len() as int,
        ),
{
    if at_semicolon(tokens, pos + 1) {
        let span = token_span(tokens, pos).cover(&token_span(tokens, pos + 1));
        return Ok((Statement::Return(ReturnStatement { value: None, span }), pos + 2));
    }
    let (value, end) = match parse_expression(tokens, pos + 1, true) {
        Err(d) => {
            return Err(d);
        },
        Ok(found) => found,
    };
    if !at_semicolon(tokens, end) {
        return Err(violation_at(tokens, end, "Expected ';' after return value"));
    }
    let span = token_span(tokens, pos).cover(&token_span(tokens, end));
    Ok((Statement::Return(ReturnStatement { value: Some(value), span }), end + 1))
}

fn parse_simple_statement(tokens: &Vec<Token>, pos: usize) -> (result: Result<
    (Statement, usize),
    Diagnostic,
>)
    ensures
        yields(
            result,
            grammar::parse_simple_statement(tokens.deep_view(), pos as int),
            pos as int,
            tokens.len() as int,
        ),
{
    let (first, next) = match parse_expression(tokens, pos, true) {
        Err(d) => {
            return Err(d);
        },
        Ok(found) => found,
    };
    if at_assign(tokens, next) {
        let (value, end) = match parse_expression(tokens, next + 1, true) {
            Err(d) => {
                return Err(d);
            },
            Ok(found) => found,
        };
        if !at_semicolon(tokens, end) {
            return Err(violation_at(tokens, end, "Expected ';' after assignment"));
        }
        let span = span_of(&first).cover(&token_span(tokens, end));
        Ok((Statement::Assignment(Assignment { target: first, value, span }), end + 1))
    } else {
        if !at_semicolon(tokens, next) {
            return Err(violation_at(tokens, next, "Expected ';' after expression"));
        }
        Ok((Statement::Expression(first), next + 1))
    }
}

#[verifier::loop_isolation(false)]
pub fn parse_block(tokens: &Vec<Token>, pos: usize) -> (result: Result<(Block, usize), Diagnostic>)
    ensures
        yields(
            result,
            grammar::parse_block(tokens.deep_view(), pos as int),
            pos as int,
            tokens.len() as int,
        ),
    decreases tokens.len() - pos, 3int,
{
    let ghost model = tokens.deep_view();
    if !at_left_brace(tokens, pos) {
        return Err(violation_at(tokens, pos, "Expected '{'"));
    }
    let mut statements: Vec<Statement> = Vec::new();
    let mut at = pos + 1;
    assert(statements_view(statements@) == Seq::<crate::compiler::ast::StatementView>::empty());
    let ghost whole = grammar::parse_statements(model, at as int, statements_view(statements@));
    loop
        invariant
            model == tokens.deep_view(),
            pos < at <= tokens.len(),
            whole == grammar::parse_statements(model, at as int, statements_view(statements@)),
        decreases tokens.len() - at,
    {
        if at_right_brace(tokens, at) {
            let span = token_span(tokens, pos).cover(&token_span(tokens, at));
            return Ok((Block { statements, span }, at + 1));
        }
        if at_end(tokens, at) {
            return Err(violation_at(tokens, at, "Expected '}'"));
        }
        let (statement, next) = match parse_statement(tokens, at) {
            Err(d) => {
                return Err(d);
            },
            Ok(found) => found,
        };
        let ghost before = statements_view(statements@);
        let ghost added = statement@;
        statements.push(statement);
        assert(statements_view(statements@) == before.push(added));
        at = next;
    }
}

#[verifier::rlimit(80)]
pub fn parse_statement(tokens: &Vec<Token>, pos: usize) -> (result: Result<
    (Statement, usize),
    Diagnostic,
>)
    ensures
        yields(
            result,
            grammar::parse_statement(tokens.deep_view(), pos as int),
            pos as int,
            tokens.len() as int,
        ),
    decreases tokens.len() - pos, 1int,
{
    match token_kind(tokens, pos) {
        Some(TokenType::Let) | Some(TokenType::Var) => match parse_variable(tokens, pos) {
            Err(d) => Err(d),
            Ok((variable, next)) => Ok((Statement::Variable(variable), next)),
        },
        Some(TokenType::If) => parse_if(tokens, pos),
        Some(TokenType::For) => parse_for(tokens, pos),
        Some(TokenType::Try) => parse_try(tokens, pos),
        Some(TokenType::Return) => parse_return(tokens, pos),
        _ => parse_simple_statement(tokens, pos),
    }
}

#[verifier::rlimit(80)]
#[verifier::loop_isolation(false)]
fn parse_if(tokens: &Vec<Token>, pos: usize) -> (result: Result<(Statement, usize), Diagnostic>)
    requires
        pos < tokens.len(),
    ensures
        yields(
            result,
            grammar::parse_if(tokens.deep_view(), pos as int),
            pos as int,
            tokens.len() as int,
        ),
    decreases tokens.len() - pos, 0int,
{
    let ghost model = tokens.deep_view();
    let (condition, block_start) = match parse_expression(tokens, pos + 1, false) {
        Err(d) => {
            return Err(d);
        },
        Ok(found) => found,
    };
    let (then_block, first) = match parse_block(tokens, block_start) {
        Err(d) => {
            return Err(d);
        },
        Ok(found) => found,
    };
    let start = token_span(tokens, pos);
    let mut else_ifs: Vec<(Expression, Block)> = Vec::new();
    let mut at = first;
    assert(else_ifs_view(else_ifs@) == Seq::<
        (crate::compiler::ast::ExpressionView, crate::compiler::ast::BlockView),
    >::empty());
    let ghost whole = grammar::parse_else_chain(
        model,
        at as int,
        start@,
        condition@,
        then_block@,
        else_ifs_view(else_ifs@),
    );
    loop
        invariant
            model == tokens.deep_view(),
            pos + 1 < at <= tokens.len(),
            whole == grammar::parse_else_chain(
                model,
                at as int,
                start@,
                condition@,
                then_block@,
                else_ifs_view(else_ifs@),
            ),
        decreases tokens.len() - at,
    {
        if !at_else(tokens, at) {
            let span = start.cover(&token_span(tokens, at - 1));
            return Ok(
                (
                    Statement::If(
                        IfStatement { condition, then_block, else_ifs, else_block: None, span },
                    ),
                    at,
                ),
            );
        }
        if at_if(tokens, at + 1) {
            let (branch, branch_start) = match parse_expression(tokens, at + 2, false) {
                Err(d) => {
                    return Err(d);
                },
                Ok(found) => found,
            };
            let (block, next) = match parse_block(tokens, branch_start) {
                Err(d) => {
                    return Err(d);
                },
                Ok(found) => found,
            };
            let ghost before = else_ifs_view(else_ifs@);
            let ghost added = (branch@, block@);
            else_ifs.push((branch, block));
            assert(else_ifs_view(else_ifs@) == before.push(added));
            at = next;
        } else {
            let (block, next) = match parse_block(tokens, at + 1) {
                Err(d) => {
                    return Err(d);
                },
                Ok(found) => found,
            };
            let span = start.cover(&block.span);
            return Ok(
                (
                    Statement::If(
                        IfStatement {
                            condition,
                            then_block,
                            else_ifs,
                            else_block: Some(block),
                            span,
                        },
                    ),
                    next,
                ),
            );
        }
    }
}

fn parse_for(tokens: &Vec<Token>, pos: usize) -> (result: Result<(Statement, usize), Diagnostic>)
    requires
        pos < tokens.len(),
    ensures
        yields(
            result,
            grammar::parse_for(tokens.deep_view(), pos as int),
            pos as int,
            tokens.len() as int,
        ),
    decreases tokens.len() - pos, 0int,
{
    let variable = match expect_identifier(tokens, pos + 1, "Expected loop variable after 'for'") {
        Err(d) => {
            return Err(d);
        },
        Ok(name) => name,
    };
    if !at_in(tokens, pos + 2) {
        return Err(violation_at(tokens, pos + 2, "Expected 'in' after loop variable"));
    }
    let (iterable, block_start) = match parse_expression(tokens, pos + 3, false) {
        Err(d) => {
            return Err(d);
        },
        Ok(found) => found,
    };
    let (body, next) = match parse_block(tokens, block_start) {
        Err(d) => {
            return Err(d);
        },
        Ok(found) => found,
    };
    let span = token_span(tokens, pos).cover(&body.span);
    Ok((Statement::For(ForLoop { variable, iterable, body, span }), next))
}

/// The name of the exception type that the token at `pos` names.
fn exception_name_at(tokens: &Vec<Token>, pos: usize) -> (name: Option<String>)
    ensures
        match grammar::exception_name(kind_at(tokens.deep_view(), pos as int)) {
            Some(n) => name matches Some(found) && found@ == n && pos < tokens.len(),
            None => name is None,
        },
{
    match token_kind(tokens, pos) {
        Some(TokenType::Identifier(name)) => Some(name.clone()),
        Some(TokenType::IntType) => Some(String::from_str("Int")),
        Some(TokenType::FloatType) => Some(String::from_str("Float")),
        Some(TokenType::StrType) => Some(String::from_str("Str")),
        Some(TokenType::BoolType) => Some(String::from_str("Bool")),
        _ => None,
    }
}

#[verifier::rlimit(80)]
#[verifier::loop_isolation(false)]
fn parse_try(tokens: &Vec<Token>, pos: usize) -> (result: Result<(Statement, usize), Diagnostic>)
    ensures
        yields(
            result,
            grammar::parse_try(tokens.deep_view(), pos as int),
            pos as int,
            tokens.len() as int,
        ),
    decreases tokens.len() - pos, 0int,
{
    let ghost model = tokens.deep_view();
    match token_kind(tokens, pos) {
        Some(TokenType::Try) => {},
        _ => {
            return Err(violation_at(tokens, pos, "Expected 'try'"));
        },
    }
    let (try_block, first) = match parse_block(tokens, pos + 1) {
        Err(d) => {
            return Err(d);
        },
        Ok(found) => found,
    };
    let start = token_span(tokens, pos);
    let mut catch_clauses: Vec<CatchClause> = Vec::new();
    let mut at = first;
    assert(catch_clauses_view(catch_clauses@) == Seq::<
        crate::compiler::ast::CatchClauseView,
    >::empty());
    let ghost whole = grammar::parse_catches(
        model,
        at as int,
        start@,
        try_block@,
        catch_clauses_view(catch_clauses@),
    );
    loop
        invariant
            model == tokens.deep_view(),
            pos < at <= tokens.len(),
            whole == grammar::parse_catches(
                model,
                at as int,
                start@,
                try_block@,
                catch_clauses_view(catch_clauses@),
            ),
        decreases tokens.len() - at,
    {
        if !at_catch(tokens, at) {
            if catch_clauses.len() == 0 {
                return Err(violation_at(tokens, at, "Expected 'catch' after try block"));
            }
            let span = start.cover(&catch_clauses[catch_clauses.len() - 1].span);
            return Ok((Statement::Try(TryStatement { try_block, catch_clauses, span }), at));
        }
        if !at_left_paren(tokens, at + 1) {
            return Err(violation_at(tokens, at + 1, "Expected '(' after 'catch'"));
        }
        let exception_type = match exception_name_at(tokens, at + 2) {
            None => {
                return Err(violation_at(tokens, at + 2, "Expected exception type"));
            },
            Some(name) => name,
        };
        if !at_right_paren(tokens, at + 3) {
            return Err(violation_at(tokens, at + 3, "Expected ')' after exception type"));
        }
        let (handler_block, next) = match parse_block(tokens, at + 4) {
            Err(d) => {
                return Err(d);
            },
            Ok(found) => found,
        };
        let span = token_span(tokens, at).cover(&handler_block.span);
        let clause = CatchClause { exception_type, handler_block, span };
        let ghost before = catch_clauses_view(catch_clauses@);
        let ghost added = clause@;
        catch_clauses.push(clause);
        assert(catch_clauses_view(catch_clauses@) == before.push(added));
        at = next;
    }
}

fn parse_parameter(tokens: &Vec<Token>, pos: usize) -> (result: Result<
    (Parameter, usize),
    Diagnostic,
>)
    ensures
        yields(
            result,
            grammar::parse_parameter(tokens.deep_view(), pos as int),
            pos as int,
            tokens.len() as int,
        ),
{
    let name = match expect_identifier(tokens, pos, "Expected parameter name") {
        Err(d) => {
            return Err(d);
        },
        Ok(name) => name,
    };
    if !at_colon(tokens, pos + 1) {
        return Err(violation_at(tokens, pos + 1, "Expected ':' after parameter name"));
    }
    let (param_type, next) = match parse_type(tokens, pos + 2) {
        Err(d) => {
            return Err(d);
        },
        Ok(found) => found,
    };
    if at_assign(tokens, next) {
        let (value, end) = match parse_expression(tokens, next + 1, true) {
            Err(d) => {
                return Err(d);
            },
            Ok(found) => found,
        };
        let span = token_span(tokens, pos).cover(&token_span(tokens, end - 1));
        Ok((Parameter { name, param_type, default_value: Some(value), span }, end))
    } else {
        let span = token_span(tokens, pos).cover(&token_span(tokens, next - 1));
        Ok((Parameter { name, param_type, default_value: None, span }, next))
    }
}

/// `result` is the list that the grammar yields, and a list that it
/// found ends behind `pos` and inside the tokens.
pub open spec fn yields_list<T: DeepView>(
    result: Result<(Vec<T>, usize), Diagnostic>,
    model: Parsed<Seq<T::V>>,
    pos: int,
    len: int,
) -> bool {
    match model {
        Ok((value, next)) => result matches Ok((found, after)) && found.deep_view() == value
            && after == next && pos < next <= len,
        Err(d) => result matches Err(found) && found@ == d,
    }
}

#[verifier::loop_isolation(false)]
fn parse_parameters(tokens: &Vec<Token>, pos: usize) -> (result: Result<
    (Vec<Parameter>, usize),
    Diagnostic,
>)
    requires
        1 <= pos <= tokens.len(),
    ensures
        yields_list(
            result,
            grammar::parse_parameters(tokens.deep_view(), pos as int),
            pos - 1,
            tokens.len() as int,
        ),
{
    let ghost model = tokens.deep_view();
    let mut found: Vec<Parameter> = Vec::new();
    assert(found.deep_view() == Seq::<crate::compiler::ast::ParameterView>::empty());
    if at_right_paren(tokens, pos) {
        return Ok((found, pos + 1));
    }
    let mut at = pos;
    let ghost whole = grammar::parse_parameter_items(model, at as int, found.deep_view());
    loop
        invariant
            model == tokens.deep_view(),
            pos <= at <= tokens.len(),
            whole == grammar::parse_parameter_items(model, at as int, found.deep_view()),
        decreases tokens.len() - at,
    {
        let (parameter, next) = match parse_parameter(tokens, at) {
            Err(d) => {
                return Err(d);
            },
            Ok(parsed) => parsed,
        };
        let ghost before = found.deep_view();
        let ghost added = parameter@;
        found.push(parameter);
        assert(found.deep_view() == before.push(added));
        if at_comma(tokens, next) {
            at = next + 1;
        } else if at_right_paren(tokens, next) {
            return Ok((found, next + 1));
        } else {
            return Err(violation_at(tokens, next, "Expected ',' or ')' after parameter"));
        }
    }
}

fn parse_function(tokens: &Vec<Token>, pos: usize) -> (result: Result<
    (Function, usize),
    Diagnostic,
>)
    requires
        pos < tokens.len(),
    ensures
        yields(
            result,
            grammar::parse_function(tokens.deep_view(), pos as int),
            pos as int,
            tokens.len() as int,
        ),
{
    let name = match expect_identifier(tokens, pos + 1, "Expected function name") {
        Err(d) => {
            return Err(d);
        },
        Ok(name) => name,
    };
    if !at_left_paren(tokens, pos + 2) {
        return Err(violation_at(tokens, pos + 2, "Expected '(' after function name"));
    }
    let (parameters, arrow) = match parse_parameters(tokens, pos + 3) {
        Err(d) => {
            return Err(d);
        },
        Ok(found) => found,
    };
    if !at_arrow(tokens, arrow) {
        return Err(violation_at(tokens, arrow, "Expected '->' after parameters"));
    }
    let (return_type, block_start) = match parse_type(tokens, arrow + 1) {
        Err(d) => {
            return Err(d);
        },
        Ok(found) => found,
    };
    let (body, next) = match parse_block(tokens, block_start) {
        Err(d) => {
            return Err(d);
        },
        Ok(found) => found,
    };
    let span = token_span(tokens, pos).cover(&body.span);
    Ok((Function { name, parameters, return_type, body, span }, next))
}

fn parse_field(tokens: &Vec<Token>, pos: usize) -> (result: Result<(Field, usize), Diagnostic>)
    ensures
        yields(
            result,
            grammar::parse_field(tokens.deep_view(), pos as int),
            pos as int,
            tokens.len() as int,
        ),
{
    let name = match expect_identifier(tokens, pos, "Expected field name") {
        Err(d) => {
            return Err(d);
        },
        Ok(name) => name,
    };
    if !at_colon(tokens, pos + 1) {
        return Err(violation_at(tokens, pos + 1, "Expected ':' after field name"));
    }
    let (field_type, next) = match parse_type(tokens, pos + 2) {
        Err(d) => {
            return Err(d);
        },
        Ok(found) => found,
    };
    let span = token_span(tokens, pos).cover(&token_span(tokens, next - 1));
    Ok((Field { name, field_type, span }, next))
}

#[verifier::loop_isolation(false)]
fn parse_fields(tokens: &Vec<Token>, pos: usize) -> (result: Result<
    (Vec<Field>, usize),
    Diagnostic,
>)
    requires
        1 <= pos <= tokens.len(),
    ensures
        yields_list(
            result,
            grammar::parse_fields(tokens.deep_view(), pos as int),
            pos - 1,
            tokens.len() as int,
        ),
{
    let ghost model = tokens.deep_view();
    let mut found: Vec<Field> = Vec::new();
    assert(found.deep_view() == Seq::<crate::compiler::ast::FieldView>::empty());
    if at_right_brace(tokens, pos) {
        return Ok((found, pos + 1));
    }
    let mut at = pos;
    let ghost whole = grammar::parse_field_declarations(model, at as int, found.deep_view());
    loop
        invariant
            model == tokens.deep_view(),
            pos <= at <= tokens.len(),
            whole == grammar::parse_field_declarations(model, at as int, found.deep_view()),
        decreases tokens.len() - at,
    {
        let (field, next) = match parse_field(tokens, at) {
            Err(d) => {
                return Err(d);
            },
            Ok(parsed) => parsed,
        };
        let ghost before = found.deep_view();
        let ghost added = field@;
        found.push(field);
        assert(found.deep_view() == before.push(added));
        if at_comma(tokens, next) {
            at = next + 1;
        } else if at_right_brace(tokens, next) {
            return Ok((found, next + 1));
        } else {
            return Err(violation_at(tokens, next, "Expected ',' or '}' after field"));
        }
    }
}

fn parse_struct(tokens: &Vec<Token>, pos: usize) -> (result: Result<
    (Struct, usize),
    Diagnostic,
>)
    requires
        pos < tokens.len(),
    ensures
        yields(
            result,
            grammar::parse_struct(tokens.deep_view(), pos as int),
            pos as int,
            tokens.len() as int,
        ),
{
    let name = match expect_identifier(tokens, pos + 1, "Expected struct name") {
        Err(d) => {
            return Err(d);
        },
        Ok(name) => name,
    };
    if !at_left_brace(tokens, pos + 2) {
        return Err(violation_at(tokens, pos + 2, "Expected '{' after struct name"));
    }
    let (fields, next) = match parse_fields(tokens, pos + 3) {
        Err(d) => {
            return Err(d);
        },
        Ok(found) => found,
    };
    let span = token_span(tokens, pos).cover(&token_span(tokens, next - 1));
    Ok((Struct { name, fields, span }, next))
}

fn parse_constant(tokens: &Vec<Token>, pos: usize) -> (result: Result<
    (Constant, usize),
    Diagnostic,
>)
    requires
        pos < tokens.len(),
    ensures
        yields(
            result,
            grammar::parse_constant(tokens.deep_view(), pos as int),
            pos as int,
            tokens.len() as int,
        ),
{
    let name = match expect_identifier(tokens, pos + 1, "Expected constant name") {
        Err(d) => {
            return Err(d);
        },
        Ok(name) => name,
    };
    if !at_colon(tokens, pos + 2) {
        return Err(violation_at(tokens, pos + 2, "Expected ':' after constant name"));
    }
    let (const_type, assign) = match parse_type(tokens, pos + 3) {
        Err(d) => {
            return Err(d);
        },
        Ok(found) => found,
    };
    if !at_assign(tokens, assign) {
        return Err(violation_at(tokens, assign, "Expected '=' after constant type"));
    }
    let (value, end) = match parse_expression(tokens, assign + 1, true) {
        Err(d) => {
            return Err(d);
        },
        Ok(found) => found,
    };
    if !at_semicolon(tokens, end) {
        return Err(violation_at(tokens, end, "Expected ';' after constant declaration"));
    }
    let span = token_span(tokens, pos).cover(&token_span(tokens, end));
    Ok((Constant { name, const_type, value, span }, end + 1))
}

#[verifier::rlimit(80)]
pub fn parse_item(tokens: &Vec<Token>, pos: usize) -> (result: Result<(Item, usize), Diagnostic>)
    ensures
        yields(
            result,
            grammar::parse_item(tokens.deep_view(), pos as int),
            pos as int,
            tokens.len() as int,
        ),
{
    match token_kind(tokens, pos) {
        Some(TokenType::Fn) => match parse_function(tokens, pos) {
            Err(d) => Err(d),
            Ok((function, next)) => Ok((Item::Function(function), next)),
        },
        Some(TokenType::Struct) => match parse_struct(tokens, pos) {
            Err(d) => Err(d),
            Ok((declaration, next)) => Ok((Item::Struct(declaration), next)),
        },
        Some(TokenType::Let) | Some(TokenType::Var) => match parse_variable(tokens, pos) {
            Err(d) => Err(d),
            Ok((variable, next)) => Ok((Item::Variable(variable), next)),
        },
        Some(TokenType::Identifier(word)) => {
            if word.as_str().eq("const") {
                match parse_constant(tokens, pos) {
                    Err(d) => Err(d),
                    Ok((constant, next)) => Ok((Item::Constant(constant), next)),
                }
            } else {
                Err(violation_at(tokens, pos, "Expected item declaration"))
            }
        },
        _ => Err(violation_at(tokens, pos, "Expected item declaration")),
    }
}

#[verifier::loop_isolation(false)]
fn parse_import(tokens: &Vec<Token>, pos: usize) -> (result: Result<
    (Import, usize),
    Diagnostic,
>)
    requires
        pos < tokens.len(),
    ensures
        yields(
            result,
            grammar::parse_import(tokens.deep_view(), pos as int),
            pos as int,
            tokens.len() as int,
        ),
{
    let ghost model = tokens.deep_view();
    let mut path = match expect_identifier(tokens, pos + 1, "Expected module path after 'import'") {
        Err(d) => {
            return Err(d);
        },
        Ok(name) => name,
    };
    let mut at = pos + 2;
    let ghost whole = grammar::parse_path_rest(model, at as int, path@);
    while at_dot(tokens, at)
        invariant
            model == tokens.deep_view(),
            pos + 2 <= at <= tokens.len(),
            whole == grammar::parse_path_rest(model, at as int, path@),
        decreases tokens.len() - at,
    {
        match token_kind(tokens, at + 1) {
            Some(TokenType::Identifier(name)) => {
                path.push('.');
                path.append(name.as_str());
            },
            _ => {
                return Err(violation_at(tokens, at + 1, "Expected name after '.'"));
            },
        }
        at = at + 2;
    }
    if !at_semicolon(tokens, at) {
        return Err(violation_at(tokens, at, "Expected ';' after import"));
    }
    let span = token_span(tokens, pos).cover(&token_span(tokens, at));
    Ok((Import { path, span }, at + 1))
}

/// The module that the tokens hold, which are without line feeds.
#[verifier::rlimit(80)]
#[verifier::loop_isolation(false)]
pub fn parse_module(tokens: &Vec<Token>) -> (result: Result<Program, Diagnostic>)
    ensures
        match grammar::parse_module(tokens.deep_view()) {
            Ok(program) => result matches Ok(found) && found@ == program,
            Err(d) => result matches Err(found) && found@ == d,
        },
{
    let ghost model = tokens.deep_view();
    let mut imports: Vec<Import> = Vec::new();
    let mut at: usize = 0;
    assert(imports.deep_view() == Seq::<crate::compiler::ast::ImportView>::empty());
    while at_import(tokens, at)
        invariant
            model == tokens.deep_view(),
            at <= tokens.len(),
            grammar::parse_imports(model, 0, Seq::empty()) == grammar::parse_imports(
                model,
                at as int,
                imports.deep_view(),
            ),
        decreases tokens.len() - at,
    {
        let (import, next) = match parse_import(tokens, at) {
            Err(d) => {
                return Err(d);
            },
            Ok(found) => found,
        };
        let ghost before = imports.deep_view();
        let ghost added = import@;
        imports.push(import);
        assert(imports.deep_view() == before.push(added));
        at = next;
    }
    let mut items: Vec<Item> = Vec::new();
    assert(items.deep_view() == Seq::<crate::compiler::ast::ItemView>::empty());
    let ghost first = at;
    while !at_end(tokens, at)
        invariant
            model == tokens.deep_view(),
            at <= tokens.len(),
            grammar::parse_items(model, first as int, Seq::empty()) == grammar::parse_items(
                model,
                at as int,
                items.deep_view(),
            ),
        decreases tokens.len() - at,
    {
        let (item, next) = match parse_item(tokens, at) {
            Err(d) => {
                return Err(d);
            },
            Ok(found) => found,
        };
        let ghost before = items.deep_view();
        let ghost added = item@;
        items.push(item);
        assert(items.deep_view() == before.push(added));
        at = next;
    }
    Ok(Program { items, imports })
}

/// Adding a token to the end adds it to the significant tokens, unless
/// it is a line feed.
pub proof fn lemma_significant_push(tokens: Seq<crate::compiler::lexer::TokenView>, token: crate::compiler::lexer::TokenView)
    ensures
        grammar::significant(tokens.push(token)) == if token.token_type
            != TokenTypeView::Newline {
            grammar::significant(tokens).push(token)
        } else {
            grammar::significant(tokens)
        },
{
    reveal(Seq::filter);
    assert(tokens.push(token).drop_last() == tokens);
}

/// The views of tokens.
pub open spec fn token_views(tokens: Seq<Token>) -> Seq<crate::compiler::lexer::TokenView> {
    Seq::new(tokens.len(), |i: int| tokens[i]@)
}

/// A parser over the tokens of one module.
pub struct Parser {
    tokens: Vec<Token>,
}

impl Parser {
    /// The tokens that the parser reads.
    pub closed spec fn tokens(&self) -> Seq<crate::compiler::lexer::TokenView> {
        self.tokens.deep_view()
    }

    /// A parser over `tokens`, without their line feeds.
    pub fn new(tokens: Vec<Token>) -> (parser: Self)
        ensures
            parser.tokens() == grammar::significant(tokens.deep_view()),
    {
        let ghost all = tokens@;
        let mut kept: Vec<Token> = Vec::new();
        assert(token_views(all.take(0)) == Seq::<crate::compiler::lexer::TokenView>::empty());
        assert(kept.deep_view() == Seq::<crate::compiler::lexer::TokenView>::empty());
        proof {
            reveal(Seq::filter);
        }
        for token in it: tokens
            invariant
                it.seq() == all,
                kept.deep_view() == grammar::significant(token_views(all.take(it.index()))),
        {
            proof {
                let i = it.index();
                assert(token_views(all.take(i + 1)) == token_views(all.take(i)).push(token@));
                lemma_significant_push(token_views(all.take(i)), token@);
            }
            match token.token_type {
                TokenType::Newline => {},
                _ => {
                    let ghost before = kept.deep_view();
                    kept.push(token);
                    assert(kept.deep_view() == before.push(token@));
                },
            }
        }
        assert(all.take(all.len() as int) == all);
        assert(token_views(all) == tokens.deep_view());
        Parser { tokens: kept }
    }

    /// The syntax tree of the module. A violation of the grammar is
    /// reported to `diagnostics` and returned as the parse error with
    /// its message; nothing is reported otherwise.
    pub fn parse(&self, diagnostics: &mut DiagnosticEngine) -> (result: Result<Program, Error>)
        ensures
            match grammar::parse_module(self.tokens()) {
                Ok(program) => result matches Ok(found) && found@ == program && final(diagnostics)@
                    == old(diagnostics)@,
                Err(d) => result matches Err(e) && e@ == ErrorView::ParseError(d.message)
                    && final(diagnostics)@ == old(diagnostics)@.push(d),
            },
    {
        match parse_module(&self.tokens) {
            Ok(program) => Ok(program),
            Err(d) => {
                let message = d.message.clone();
                diagnostics.report(d);
                Err(Error::ParseError(message))
            },
        }
    }
}

} // verus!
