//! The code generator: a checked syntax tree to Rust source text.
//!
//! Every emitting function appends to the output exactly the text that
//! the lowering gives for the tree, or fails with the lowering's
//! message.

use vstd::prelude::*;
use crate::compiler::ast::{
    catch_clauses_view, else_ifs_view, expression_view, expressions_view, field_values_view,
    option_expression_view, statement_view, statements_view, Assignment, BinaryOp,
    BinaryOperator, Block, CatchClause, Constant, Expression, Field, ForLoop, Function,
    FunctionCall, Identifier, Import, Item, ListLiteral, Literal, MemberAccess,
    Parameter, Program, ReturnStatement, Statement, Struct, StructInitializer, Type,
    UnaryOp, UnaryOperator, Variable,
};
use crate::compiler::branching::{emit_catch, emit_if, emit_try};
use crate::compiler::lowering;
use crate::compiler::lowering::Lowered;
use crate::compiler::symbols::{find_function, find_struct, value_index};
use crate::diagnostics::{Error, ErrorView};
use crate::text::push_signed_decimal;

verus! {

/// `result` and the output are what the lowering `model` asks for: on
/// success the text was appended to the output, and a failure carries
/// the lowering's message.
pub open spec fn emitted(
    result: Result<(), String>,
    before: Seq<char>,
    after: Seq<char>,
    model: Lowered,
) -> bool {
    match model {
        Ok(text) => result is Ok && after =~= before + text,
        Err(m) => result matches Err(found) && found@ == m,
    }
}

/// In a loop that emits `whole` part by part: the output, which began
/// as `base`, holds what was emitted so far, and `rest` is the lowering
/// of the parts that are left.
pub open spec fn continues(whole: Lowered, base: Seq<char>, out: Seq<char>, rest: Lowered) -> bool {
    match rest {
        Err(m) => whole == Err::<Seq<char>, Seq<char>>(m),
        Ok(r) => whole matches Ok(text) && base + text =~= out + r,
    }
}

/// Appends `text`.
pub fn put(out: &mut String, text: &str)
    ensures
        final(out)@ == old(out)@ + text@,
{
    out.append(text);
}

/// The margin of the lines inside a block whose lines have `margin`.
pub fn deeper(margin: &str) -> (inner: String)
    ensures
        inner@ == lowering::deeper(margin@),
{
    let mut inner = String::from_str(margin);
    inner.append("    ");
    inner
}

/// Appends the Rust type that `t` is lowered to.
pub fn emit_type(t: &Type, out: &mut String)
    ensures
        final(out)@ == old(out)@ + lowering::lower_type(t@),
    decreases t,
{
    match t {
        Type::Int => put(out, "i64"),
        Type::Float => put(out, "f64"),
        Type::Str => put(out, "String"),
        Type::Bool => put(out, "bool"),
        Type::Void => put(out, "()"),
        Type::List(element) => {
            put(out, "Vec<");
            emit_type(element, out);
            put(out, ">");
        },
        Type::Struct(name) => put(out, name.as_str()),
    }
}

/// Appends one character of a string literal.
fn put_escaped_char(out: &mut String, c: char)
    ensures
        final(out)@ == old(out)@ + lowering::escape_char(c),
{
    if c == '"' {
        put(out, "\\\"");
    } else if c == '\\' {
        put(out, "\\\\");
    } else if c == '\n' {
        put(out, "\\n");
    } else if c == '\t' {
        put(out, "\\t");
    } else if c == '\r' {
        put(out, "\\r");
    } else {
        out.push(c);
    }
}

/// Appends the characters of a string literal.
fn put_escaped(out: &mut String, text: &str)
    ensures
        final(out)@ == old(out)@ + lowering::escape_text(text@, text@.len()),
{
    let ghost base = out@;
    for c in it: text.chars()
        invariant
            it.seq() == text@,
            out@ == base + lowering::escape_text(text@, it.index() as nat),
    {
        put_escaped_char(out, c);
    }
}

/// Appends the text of a literal.
fn emit_literal(value: &Literal, out: &mut String)
    ensures
        final(out)@ == old(out)@ + lowering::lower_literal(value@),
{
    match value {
        Literal::Integer(n) => push_signed_decimal(out, *n),
        Literal::Float(digits) => put(out, digits.as_str()),
        Literal::String(text) => {
            put(out, "String::from(\"");
            put_escaped(out, text.as_str());
            put(out, "\")");
        },
        Literal::Boolean(b) => {
            if *b {
                put(out, "true");
            } else {
                put(out, "false");
            }
        },
    }
}

/// Appends a binary operator.
fn put_binary_operator(out: &mut String, operator: BinaryOperator)
    ensures
        final(out)@ == old(out)@ + crate::compiler::typing::binary_operator_text(operator),
{
    match operator {
        BinaryOperator::Add => put(out, "+"),
        BinaryOperator::Sub => put(out, "-"),
        BinaryOperator::Mul => put(out, "*"),
        BinaryOperator::Div => put(out, "/"),
        BinaryOperator::Mod => put(out, "%"),
        BinaryOperator::Eq => put(out, "=="),
        BinaryOperator::Ne => put(out, "!="),
        BinaryOperator::Lt => put(out, "<"),
        BinaryOperator::Le => put(out, "<="),
        BinaryOperator::Gt => put(out, ">"),
        BinaryOperator::Ge => put(out, ">="),
        BinaryOperator::And => put(out, "&&"),
        BinaryOperator::Or => put(out, "||"),
    }
}

/// Appends a unary operator.
fn put_unary_operator(out: &mut String, operator: UnaryOperator)
    ensures
        final(out)@ == old(out)@ + crate::compiler::typing::unary_operator_text(operator),
{
    match operator {
        UnaryOperator::Neg => put(out, "-"),
        UnaryOperator::Not => put(out, "!"),
    }
}

/// Appends the separator before the element at index `i` of a list.
fn put_separator(out: &mut String, i: usize)
    ensures
        final(out)@ == old(out)@ + lowering::separator(i as int),
{
    if i > 0 {
        put(out, ", ");
    }
}

/// Appends the text of an expression.
pub fn emit_expression(
    items: &Vec<Item>,
    depth: usize,
    e: &Expression,
    out: &mut String,
) -> (result: Result<(), String>)
    ensures
        emitted(
            result,
            old(out)@,
            final(out)@,
            lowering::lower_expression(items.deep_view(), depth as nat, e@),
        ),
    decreases 2 * depth, e, 0nat,
{
    match e {
        Expression::Literal(value, _) => {
            emit_literal(value, out);
            Ok(())
        },
        Expression::Identifier(id) => {
            put(out, id.name.as_str());
            Ok(())
        },
        Expression::Binary(op) => emit_binary(items, depth, op, out),
        Expression::Unary(op) => emit_unary(items, depth, op, out),
        Expression::Call(call) => emit_call(items, depth, call, out),
        Expression::MemberAccess(access) => emit_member(items, depth, access, out),
        Expression::List(list) => emit_list_literal(items, depth, list, out),
        Expression::StructInit(init) => emit_struct_init(items, depth, init, out),
    }
}

/// Appends the text of a binary operation.
#[verifier::rlimit(80)]
fn emit_binary(items: &Vec<Item>, depth: usize, op: &BinaryOp, out: &mut String) -> (result: Result<
    (),
    String,
>)
    ensures
        emitted(
            result,
            old(out)@,
            final(out)@,
            lowering::lower_expression(
                items.deep_view(),
                depth as nat,
                expression_view(Expression::Binary(*op)),
            ),
        ),
    decreases 2 * depth, op, 0nat,
{
    put(out, "(");
    emit_expression(items, depth, &op.left, out)?;
    put(out, " ");
    put_binary_operator(out, op.operator);
    put(out, " ");
    emit_expression(items, depth, &op.right, out)?;
    put(out, ")");
    Ok(())
}

/// Appends the text of a unary operation.
fn emit_unary(items: &Vec<Item>, depth: usize, op: &UnaryOp, out: &mut String) -> (result: Result<
    (),
    String,
>)
    ensures
        emitted(
            result,
            old(out)@,
            final(out)@,
            lowering::lower_expression(
                items.deep_view(),
                depth as nat,
                expression_view(Expression::Unary(*op)),
            ),
        ),
    decreases 2 * depth, op, 0nat,
{
    put(out, "(");
    put_unary_operator(out, op.operator);
    emit_expression(items, depth, &op.operand, out)?;
    put(out, ")");
    Ok(())
}

/// Appends the text of a member access.
fn emit_member(items: &Vec<Item>, depth: usize, access: &MemberAccess, out: &mut String) -> (result:
    Result<(), String>)
    ensures
        emitted(
            result,
            old(out)@,
            final(out)@,
            lowering::lower_expression(
                items.deep_view(),
                depth as nat,
                expression_view(Expression::MemberAccess(*access)),
            ),
        ),
    decreases 2 * depth, access, 0nat,
{
    emit_expression(items, depth, &access.object, out)?;
    put(out, ".");
    put(out, access.member.as_str());
    Ok(())
}

/// Appends the text of a list literal.
fn emit_list_literal(
    items: &Vec<Item>,
    depth: usize,
    list: &ListLiteral,
    out: &mut String,
) -> (result: Result<(), String>)
    ensures
        emitted(
            result,
            old(out)@,
            final(out)@,
            lowering::lower_expression(
                items.deep_view(),
                depth as nat,
                expression_view(Expression::List(*list)),
            ),
        ),
    decreases 2 * depth, list, 0nat,
{
    put(out, "vec![");
    emit_list(items, depth, &list.elements, out)?;
    put(out, "]");
    Ok(())
}

/// Appends the texts of the expressions, separated by commas.
fn emit_list(items: &Vec<Item>, depth: usize, es: &Vec<Expression>, out: &mut String) -> (result:
    Result<(), String>)
    ensures
        emitted(
            result,
            old(out)@,
            final(out)@,
            lowering::lower_list(items.deep_view(), depth as nat, expressions_view(es@), 0),
        ),
    decreases 2 * depth, es, 0nat,
{
    let ghost base = out@;
    let ghost model = items.deep_view();
    let ghost whole = lowering::lower_list(model, depth as nat, expressions_view(es@), 0);
    let mut n: usize = 0;
    while n < es.len()
        invariant
            n <= es.len(),
            model == items.deep_view(),
            whole == lowering::lower_list(model, depth as nat, expressions_view(es@), 0),
            continues(
                whole,
                base,
                out@,
                lowering::lower_list(model, depth as nat, expressions_view(es@), n as int),
            ),
        decreases es.len() - n,
    {
        put_separator(out, n);
        emit_expression(items, depth, &es[n], out)?;
        n = n + 1;
    }
    Ok(())
}

/// The function that a call names, where the module declares it.
fn callee_of<'a>(items: &'a Vec<Item>, function: &Expression) -> (found: Option<&'a Function>)
    ensures
        match lowering::callee(items.deep_view(), function@) {
            Some(f) => found matches Some(g) && g@ == f,
            None => found is None,
        },
{
    match function {
        Expression::Identifier(id) => find_function(items, id.name.as_str()),
        _ => None,
    }
}

/// Appends the text of a call, with the default values of the
/// parameters that it gives no argument for.
#[verifier::rlimit(80)]
fn emit_call(items: &Vec<Item>, depth: usize, call: &FunctionCall, out: &mut String) -> (result:
    Result<(), String>)
    ensures
        emitted(
            result,
            old(out)@,
            final(out)@,
            lowering::lower_expression(
                items.deep_view(),
                depth as nat,
                expression_view(Expression::Call(*call)),
            ),
        ),
    decreases 2 * depth, call, 0nat,
{
    emit_expression(items, depth, &call.function, out)?;
    put(out, "(");
    emit_list(items, depth, &call.arguments, out)?;
    match callee_of(items, &call.function) {
        Some(function) => {
            if call.arguments.len() < function.parameters.len() {
                if depth > 0 {
                    emit_defaults(items, depth - 1, function, call.arguments.len(), out)?;
                } else {
                    return Err(
                        String::from_str("Default values of parameters depend on each other"),
                    );
                }
            }
        },
        None => {},
    }
    put(out, ")");
    Ok(())
}

/// Appends the default values of the parameters at `from` and behind.
fn emit_defaults(
    items: &Vec<Item>,
    depth: usize,
    function: &Function,
    from: usize,
    out: &mut String,
) -> (result: Result<(), String>)
    requires
        from <= function.parameters.len(),
    ensures
        emitted(
            result,
            old(out)@,
            final(out)@,
            lowering::lower_defaults(
                items.deep_view(),
                depth as nat,
                function.name@,
                function.parameters.deep_view(),
                from as int,
            ),
        ),
    decreases 2 * depth + 1, function, 0nat,
{
    let ghost base = out@;
    let ghost model = items.deep_view();
    let ghost parameters = function.parameters.deep_view();
    let ghost whole = lowering::lower_defaults(
        model,
        depth as nat,
        function.name@,
        parameters,
        from as int,
    );
    let mut n: usize = from;
    while n < function.parameters.len()
        invariant
            from <= n <= function.parameters.len(),
            model == items.deep_view(),
            parameters == function.parameters.deep_view(),
            whole == lowering::lower_defaults(
                model,
                depth as nat,
                function.name@,
                parameters,
                from as int,
            ),
            continues(
                whole,
                base,
                out@,
                lowering::lower_defaults(
                    model,
                    depth as nat,
                    function.name@,
                    parameters,
                    n as int,
                ),
            ),
        decreases function.parameters.len() - n,
    {
        let parameter = &function.parameters[n];
        assert(parameters[n as int] == parameter@);
        match &parameter.default_value {
            None => {
                let mut message = String::from_str("Missing argument for parameter '");
                message.append(parameter.name.as_str());
                message.append("' of function '");
                message.append(function.name.as_str());
                message.append("'");
                return Err(message);
            },
            Some(value) => {
                put_separator(out, n);
                emit_expression(items, depth, value, out)?;
            },
        }
        n = n + 1;
    }
    Ok(())
}

/// Appends the text of a struct literal.
fn emit_struct_init(
    items: &Vec<Item>,
    depth: usize,
    init: &StructInitializer,
    out: &mut String,
) -> (result: Result<(), String>)
    ensures
        emitted(
            result,
            old(out)@,
            final(out)@,
            lowering::lower_expression(
                items.deep_view(),
                depth as nat,
                expression_view(Expression::StructInit(*init)),
            ),
        ),
    decreases 2 * depth, init, 0nat,
{
    match find_struct(items, init.struct_name.as_str()) {
        None => {
            let mut message = String::from_str("Undefined struct '");
            message.append(init.struct_name.as_str());
            message.append("'");
            Err(message)
        },
        Some(declaration) => {
            put(out, init.struct_name.as_str());
            put(out, " {");
            emit_field_values(items, depth, declaration, &init.fields, out)?;
            if declaration.fields.len() > 0 {
                put(out, " }");
            } else {
                put(out, "}");
            }
            Ok(())
        },
    }
}

/// Appends the values of a struct literal, in the order in which the
/// struct declares its fields.
#[verifier::rlimit(80)]
fn emit_field_values(
    items: &Vec<Item>,
    depth: usize,
    declaration: &Struct,
    values: &Vec<(String, Expression)>,
    out: &mut String,
) -> (result: Result<(), String>)
    ensures
        emitted(
            result,
            old(out)@,
            final(out)@,
            lowering::lower_field_values(
                items.deep_view(),
                depth as nat,
                declaration@,
                field_values_view(values@),
                0,
            ),
        ),
    decreases 2 * depth, values, 0nat,
{
    let ghost base = out@;
    let ghost model = items.deep_view();
    let ghost whole = lowering::lower_field_values(
        model,
        depth as nat,
        declaration@,
        field_values_view(values@),
        0,
    );
    let mut n: usize = 0;
    while n < declaration.fields.len()
        invariant
            n <= declaration.fields.len(),
            model == items.deep_view(),
            whole == lowering::lower_field_values(
                model,
                depth as nat,
                declaration@,
                field_values_view(values@),
                0,
            ),
            continues(
                whole,
                base,
                out@,
                lowering::lower_field_values(
                    model,
                    depth as nat,
                    declaration@,
                    field_values_view(values@),
                    n as int,
                ),
            ),
        decreases declaration.fields.len() - n,
    {
        let field = &declaration.fields[n];
        assert(declaration@.fields[n as int] == field@);
        match value_index(values, field.name.as_str()) {
            Some(i) => {
                if n > 0 {
                    put(out, ", ");
                } else {
                    put(out, " ");
                }
                put(out, field.name.as_str());
                put(out, ": ");
                emit_expression(items, depth, &values[i].1, out)?;
            },
            None => {
                let mut message = String::from_str("Missing field '");
                message.append(field.name.as_str());
                message.append("' in initializer of struct '");
                message.append(declaration.name.as_str());
                message.append("'");
                return Err(message);
            },
        }
        n = n + 1;
    }
    Ok(())
}

/// Appends the line of an expression statement.
fn emit_expression_statement(
    items: &Vec<Item>,
    depth: usize,
    e: &Expression,
    margin: &str,
    out: &mut String,
) -> (result: Result<(), String>)
    ensures
        emitted(
            result,
            old(out)@,
            final(out)@,
            lowering::lower_expression_statement(items.deep_view(), depth as nat, e@, margin@),
        ),
{
    put(out, margin);
    emit_expression(items, depth, e, out)?;
    put(out, ";\n");
    Ok(())
}

/// Appends the line of a local variable declaration.
fn emit_local(
    items: &Vec<Item>,
    depth: usize,
    v: &Variable,
    margin: &str,
    out: &mut String,
) -> (result: Result<(), String>)
    ensures
        emitted(
            result,
            old(out)@,
            final(out)@,
            lowering::lower_local(items.deep_view(), depth as nat, v@, margin@),
        ),
{
    put(out, margin);
    if v.mutable {
        put(out, "let mut ");
    } else {
        put(out, "let ");
    }
    put(out, v.name.as_str());
    put(out, ": ");
    emit_type(&v.var_type, out);
    put(out, " = ");
    emit_expression(items, depth, &v.initializer, out)?;
    put(out, ";\n");
    Ok(())
}

/// Appends the line of an assignment.
fn emit_assignment(
    items: &Vec<Item>,
    depth: usize,
    a: &Assignment,
    margin: &str,
    out: &mut String,
) -> (result: Result<(), String>)
    ensures
        emitted(
            result,
            old(out)@,
            final(out)@,
            lowering::lower_assignment(
                items.deep_view(),
                depth as nat,
                a.target@,
                a.value@,
                margin@,
            ),
        ),
{
    put(out, margin);
    emit_expression(items, depth, &a.target, out)?;
    put(out, " = ");
    emit_expression(items, depth, &a.value, out)?;
    put(out, ";\n");
    Ok(())
}

/// Appends the line of a `return` statement.
fn emit_return(
    items: &Vec<Item>,
    depth: usize,
    stmt: &ReturnStatement,
    margin: &str,
    out: &mut String,
) -> (result: Result<(), String>)
    ensures
        emitted(
            result,
            old(out)@,
            final(out)@,
            lowering::lower_return(
                items.deep_view(),
                depth as nat,
                option_expression_view(stmt.value),
                margin@,
            ),
        ),
{
    put(out, margin);
    match &stmt.value {
        None => {
            put(out, "return;\n");
        },
        Some(e) => {
            put(out, "return ");
            emit_expression(items, depth, e, out)?;
            put(out, ";\n");
        },
    }
    Ok(())
}

/// Appends the lines of a statement, each behind `margin`.
pub fn emit_statement(
    items: &Vec<Item>,
    depth: usize,
    s: &Statement,
    margin: &str,
    out: &mut String,
) -> (result: Result<(), String>)
    ensures
        emitted(
            result,
            old(out)@,
            final(out)@,
            lowering::lower_statement(items.deep_view(), depth as nat, s@, margin@),
        ),
    decreases 2 * depth, s, 2nat,
{
    match s {
        Statement::Expression(e) => emit_expression_statement(items, depth, e, margin, out),
        Statement::Variable(v) => emit_local(items, depth, v, margin, out),
        Statement::Assignment(a) => emit_assignment(items, depth, a, margin, out),
        Statement::If(stmt) => emit_if(items, depth, stmt, margin, out),
        Statement::For(stmt) => emit_for(items, depth, stmt, margin, out),
        Statement::Try(stmt) => emit_try(items, depth, stmt, margin, out),
        Statement::Return(stmt) => emit_return(items, depth, stmt, margin, out),
    }
}

/// Appends the lines of the statements, each behind `margin`.
fn emit_statements(
    items: &Vec<Item>,
    depth: usize,
    statements: &Vec<Statement>,
    margin: &str,
    out: &mut String,
) -> (result: Result<(), String>)
    ensures
        emitted(
            result,
            old(out)@,
            final(out)@,
            lowering::lower_statements(
                items.deep_view(),
                depth as nat,
                statements_view(statements@),
                0,
                margin@,
            ),
        ),
    decreases 2 * depth, statements, 0nat,
{
    let ghost base = out@;
    let ghost model = items.deep_view();
    let ghost whole = lowering::lower_statements(
        model,
        depth as nat,
        statements_view(statements@),
        0,
        margin@,
    );
    let mut n: usize = 0;
    while n < statements.len()
        invariant
            n <= statements.len(),
            model == items.deep_view(),
            whole == lowering::lower_statements(
                model,
                depth as nat,
                statements_view(statements@),
                0,
                margin@,
            ),
            continues(
                whole,
                base,
                out@,
                lowering::lower_statements(
                    model,
                    depth as nat,
                    statements_view(statements@),
                    n as int,
                    margin@,
                ),
            ),
        decreases statements.len() - n,
    {
        assert(statements_view(statements@)[n as int] == statements[n as int]@);
        emit_statement(items, depth, &statements[n], margin, out)?;
        n = n + 1;
    }
    Ok(())
}

/// Appends a block, from its opening brace to its closing brace, which
/// stands behind `margin`.
pub fn emit_block(
    items: &Vec<Item>,
    depth: usize,
    block: &Block,
    margin: &str,
    out: &mut String,
) -> (result: Result<(), String>)
    ensures
        emitted(
            result,
            old(out)@,
            final(out)@,
            lowering::lower_block(items.deep_view(), depth as nat, block@, margin@),
        ),
    decreases 2 * depth, block, 0nat,
{
    put(out, "{\n");
    let inner = deeper(margin);
    emit_statements(items, depth, &block.statements, inner.as_str(), out)?;
    put(out, margin);
    put(out, "}");
    Ok(())
}



/// Appends the `else` block of an `if` statement, if it has one.
pub fn emit_else(
    items: &Vec<Item>,
    depth: usize,
    else_block: &Option<Block>,
    margin: &str,
    out: &mut String,
) -> (result: Result<(), String>)
    ensures
        emitted(
            result,
            old(out)@,
            final(out)@,
            lowering::lower_else(
                items.deep_view(),
                depth as nat,
                match *else_block {
                    Some(b) => Some(b@),
                    None => None,
                },
                margin@,
            ),
        ),
    decreases 2 * depth, else_block, 0nat,
{
    match else_block {
        Some(block) => {
            put(out, " else ");
            emit_block(items, depth, block, margin, out)
        },
        None => Ok(()),
    }
}

/// Appends one `else if` branch.
fn emit_else_if(
    items: &Vec<Item>,
    depth: usize,
    branch: &(Expression, Block),
    margin: &str,
    out: &mut String,
) -> (result: Result<(), String>)
    ensures
        emitted(
            result,
            old(out)@,
            final(out)@,
            lowering::lower_else_if(
                items.deep_view(),
                depth as nat,
                (branch.0@, branch.1@),
                margin@,
            ),
        ),
    decreases 2 * depth, branch, 0nat,
{
    put(out, " else if ");
    emit_expression(items, depth, &branch.0, out)?;
    put(out, " ");
    emit_block(items, depth, &branch.1, margin, out)
}

/// Appends the `else if` branches of an `if` statement.
pub fn emit_else_ifs(
    items: &Vec<Item>,
    depth: usize,
    branches: &Vec<(Expression, Block)>,
    margin: &str,
    out: &mut String,
) -> (result: Result<(), String>)
    ensures
        emitted(
            result,
            old(out)@,
            final(out)@,
            lowering::lower_else_ifs(
                items.deep_view(),
                depth as nat,
                else_ifs_view(branches@),
                0,
                margin@,
            ),
        ),
    decreases 2 * depth, branches, 0nat,
{
    let ghost base = out@;
    let ghost model = items.deep_view();
    let ghost whole = lowering::lower_else_ifs(
        model,
        depth as nat,
        else_ifs_view(branches@),
        0,
        margin@,
    );
    let mut n: usize = 0;
    while n < branches.len()
        invariant
            n <= branches.len(),
            model == items.deep_view(),
            whole == lowering::lower_else_ifs(
                model,
                depth as nat,
                else_ifs_view(branches@),
                0,
                margin@,
            ),
            continues(
                whole,
                base,
                out@,
                lowering::lower_else_ifs(
                    model,
                    depth as nat,
                    else_ifs_view(branches@),
                    n as int,
                    margin@,
                ),
            ),
        decreases branches.len() - n,
    {
        assert(else_ifs_view(branches@)[n as int] == (branches[n as int].0@, branches[n as int].1@));
        emit_else_if(items, depth, &branches[n], margin, out)?;
        n = n + 1;
    }
    Ok(())
}

/// Appends the lines of a `for` statement.
#[verifier::rlimit(80)]
fn emit_for(
    items: &Vec<Item>,
    depth: usize,
    stmt: &ForLoop,
    margin: &str,
    out: &mut String,
) -> (result: Result<(), String>)
    ensures
        emitted(
            result,
            old(out)@,
            final(out)@,
            lowering::lower_for(
                items.deep_view(),
                depth as nat,
                statement_view(Statement::For(*stmt)),
                margin@,
            ),
        ),
    decreases 2 * depth, stmt, 1nat,
{
    put(out, margin);
    put(out, "for ");
    put(out, stmt.variable.as_str());
    put(out, " in ");
    emit_expression(items, depth, &stmt.iterable, out)?;
    put(out, " ");
    emit_block(items, depth, &stmt.body, margin, out)?;
    put(out, "\n");
    Ok(())
}

/// Appends the lines that close the dispatch of a `try` statement.
pub fn put_dispatch_foot(out: &mut String, margin: &str)
    ensures
        final(out)@ == old(out)@ + lowering::dispatch_foot(margin@),
{
    let inner = deeper(margin);
    put(out, inner.as_str());
    put(out, "_ => {}\n");
    put(out, margin);
    put(out, "}\n");
}



/// Appends the arms of the `catch` clauses of a `try` statement.
pub fn emit_catches(
    items: &Vec<Item>,
    depth: usize,
    clauses: &Vec<CatchClause>,
    margin: &str,
    out: &mut String,
) -> (result: Result<(), String>)
    ensures
        emitted(
            result,
            old(out)@,
            final(out)@,
            lowering::lower_catches(
                items.deep_view(),
                depth as nat,
                catch_clauses_view(clauses@),
                0,
                margin@,
            ),
        ),
    decreases 2 * depth, clauses, 0nat,
{
    let ghost base = out@;
    let ghost model = items.deep_view();
    let ghost whole = lowering::lower_catches(
        model,
        depth as nat,
        catch_clauses_view(clauses@),
        0,
        margin@,
    );
    let mut n: usize = 0;
    while n < clauses.len()
        invariant
            n <= clauses.len(),
            model == items.deep_view(),
            whole == lowering::lower_catches(
                model,
                depth as nat,
                catch_clauses_view(clauses@),
                0,
                margin@,
            ),
            continues(
                whole,
                base,
                out@,
                lowering::lower_catches(
                    model,
                    depth as nat,
                    catch_clauses_view(clauses@),
                    n as int,
                    margin@,
                ),
            ),
        decreases clauses.len() - n,
    {
        assert(catch_clauses_view(clauses@)[n as int] == clauses[n as int]@);
        emit_catch(items, depth, &clauses[n], margin, out)?;
        n = n + 1;
    }
    Ok(())
}

/// Appends the parameters of a function, separated by commas.
fn put_parameters(out: &mut String, parameters: &Vec<Parameter>)
    ensures
        final(out)@ == old(out)@ + lowering::lower_parameters(parameters.deep_view(), 0),
{
    let ghost base = out@;
    let ghost model = parameters.deep_view();
    let mut n: usize = 0;
    while n < parameters.len()
        invariant
            n <= parameters.len(),
            model == parameters.deep_view(),
            base + lowering::lower_parameters(model, 0) == out@ + lowering::lower_parameters(
                model,
                n as int,
            ),
        decreases parameters.len() - n,
    {
        let ghost before = out@;
        put_separator(out, n);
        put(out, parameters[n].name.as_str());
        put(out, ": ");
        emit_type(&parameters[n].param_type, out);
        assert(out@ + lowering::lower_parameters(model, n + 1) == before
            + lowering::lower_parameters(model, n as int));
        n = n + 1;
    }
}

/// Appends the text of a function.
#[verifier::rlimit(80)]
fn emit_function(items: &Vec<Item>, depth: usize, f: &Function, out: &mut String) -> (result:
    Result<(), String>)
    ensures
        emitted(
            result,
            old(out)@,
            final(out)@,
            lowering::lower_function(items.deep_view(), depth as nat, f@),
        ),
{
    put(out, "pub fn ");
    put(out, f.name.as_str());
    put(out, "(");
    put_parameters(out, &f.parameters);
    put(out, ") -> ");
    emit_type(&f.return_type, out);
    put(out, " ");
    proof {
        assert(""@ =~= Seq::<char>::empty()) by {
            reveal_strlit("");
        }
    }
    emit_block(items, depth, &f.body, "", out)?;
    put(out, "\n");
    Ok(())
}

/// Appends the lines of the fields of a struct.
fn put_fields(out: &mut String, fields: &Vec<Field>)
    ensures
        final(out)@ == old(out)@ + lowering::lower_fields(fields.deep_view(), 0),
{
    let ghost base = out@;
    let ghost model = fields.deep_view();
    let mut n: usize = 0;
    while n < fields.len()
        invariant
            n <= fields.len(),
            model == fields.deep_view(),
            base + lowering::lower_fields(model, 0) == out@ + lowering::lower_fields(
                model,
                n as int,
            ),
        decreases fields.len() - n,
    {
        let ghost before = out@;
        put(out, "    pub ");
        put(out, fields[n].name.as_str());
        put(out, ": ");
        emit_type(&fields[n].field_type, out);
        put(out, ",\n");
        assert(out@ + lowering::lower_fields(model, n + 1) == before + lowering::lower_fields(
            model,
            n as int,
        ));
        n = n + 1;
    }
}

/// Appends the text of a struct.
fn put_struct(out: &mut String, s: &Struct)
    ensures
        final(out)@ == old(out)@ + lowering::lower_struct(s@),
{
    put(out, "#[derive(Debug, Clone, PartialEq)]\npub struct ");
    put(out, s.name.as_str());
    put(out, " {\n");
    put_fields(out, &s.fields);
    put(out, "}\n");
}

/// Appends the text of a top-level variable.
fn emit_global(items: &Vec<Item>, depth: usize, v: &Variable, out: &mut String) -> (result: Result<
    (),
    String,
>)
    ensures
        emitted(
            result,
            old(out)@,
            final(out)@,
            lowering::lower_global(items.deep_view(), depth as nat, v@),
        ),
{
    if v.mutable {
        put(out, "pub static mut ");
    } else {
        put(out, "pub static ");
    }
    put(out, v.name.as_str());
    put(out, ": ");
    emit_type(&v.var_type, out);
    put(out, " = ");
    emit_expression(items, depth, &v.initializer, out)?;
    put(out, ";\n");
    Ok(())
}

/// Appends the text of a constant.
fn emit_constant(items: &Vec<Item>, depth: usize, c: &Constant, out: &mut String) -> (result:
    Result<(), String>)
    ensures
        emitted(
            result,
            old(out)@,
            final(out)@,
            lowering::lower_constant(items.deep_view(), depth as nat, c@),
        ),
{
    put(out, "pub const ");
    put(out, c.name.as_str());
    put(out, ": ");
    emit_type(&c.const_type, out);
    put(out, " = ");
    emit_expression(items, depth, &c.value, out)?;
    put(out, ";\n");
    Ok(())
}

/// Appends the text of a top-level declaration.
fn emit_item(items: &Vec<Item>, depth: usize, item: &Item, out: &mut String) -> (result: Result<
    (),
    String,
>)
    ensures
        emitted(
            result,
            old(out)@,
            final(out)@,
            lowering::lower_item(items.deep_view(), depth as nat, item@),
        ),
{
    match item {
        Item::Function(f) => emit_function(items, depth, f, out),
        Item::Struct(s) => {
            put_struct(out, s);
            Ok(())
        },
        Item::Variable(v) => emit_global(items, depth, v, out),
        Item::Constant(c) => emit_constant(items, depth, c, out),
    }
}

/// Appends the texts of the declarations of a module.
fn emit_items(items: &Vec<Item>, opened: bool, out: &mut String) -> (result: Result<(), String>)
    ensures
        emitted(
            result,
            old(out)@,
            final(out)@,
            lowering::lower_items(items.deep_view(), 0, opened),
        ),
{
    let ghost base = out@;
    let ghost model = items.deep_view();
    let ghost whole = lowering::lower_items(model, 0, opened);
    let mut n: usize = 0;
    while n < items.len()
        invariant
            n <= items.len(),
            model == items.deep_view(),
            whole == lowering::lower_items(model, 0, opened),
            continues(whole, base, out@, lowering::lower_items(model, n as int, opened)),
        decreases items.len() - n,
    {
        assert(model[n as int] == items[n as int]@);
        if opened || n > 0 {
            put(out, "\n");
        }
        emit_item(items, items.len(), &items[n], out)?;
        n = n + 1;
    }
    Ok(())
}

/// Appends a module path, with `::` for each dot.
fn put_path(out: &mut String, path: &str)
    ensures
        final(out)@ == old(out)@ + lowering::lower_path(path@, path@.len()),
{
    let ghost base = out@;
    for c in it: path.chars()
        invariant
            it.seq() == path@,
            out@ == base + lowering::lower_path(path@, it.index() as nat),
    {
        if c == '.' {
            put(out, "::");
        } else {
            out.push(c);
        }
    }
}

/// Appends the lines of the imports of a module.
fn put_imports(out: &mut String, imports: &Vec<Import>)
    ensures
        final(out)@ == old(out)@ + lowering::lower_imports(imports.deep_view(), 0),
{
    let ghost base = out@;
    let ghost model = imports.deep_view();
    let mut n: usize = 0;
    while n < imports.len()
        invariant
            n <= imports.len(),
            model == imports.deep_view(),
            base + lowering::lower_imports(model, 0) == out@ + lowering::lower_imports(
                model,
                n as int,
            ),
        decreases imports.len() - n,
    {
        let ghost before = out@;
        put(out, "use crate::");
        put_path(out, imports[n].path.as_str());
        put(out, "::*;\n");
        assert(out@ + lowering::lower_imports(model, n + 1) == before + lowering::lower_imports(
            model,
            n as int,
        ));
        n = n + 1;
    }
}

/// The failure of the lowering of a module.
pub open spec fn failure_in(module_name: Seq<char>, message: Seq<char>) -> ErrorView {
    ErrorView::CodegenError("Module '"@ + module_name + "': "@ + message)
}

/// The code generator.
pub struct CodeGenerator {}

impl CodeGenerator {
    pub fn new() -> (generator: Self) {
        CodeGenerator {  }
    }

    /// The Rust source text of a module. It is a function of the
    /// module alone. Where the module cannot be lowered, the error
    /// names `module_name` and says why.
    pub fn generate(&self, program: &Program, module_name: &str) -> (result: Result<String, Error>)
        ensures
            match lowering::lower_program(program@) {
                Ok(text) => result matches Ok(found) && found@ == text,
                Err(m) => result matches Err(e) && e@ == failure_in(module_name@, m),
            },
    {
        let mut out = String::new();
        put_imports(&mut out, &program.imports);
        match emit_items(&program.items, program.imports.len() > 0, &mut out) {
            Ok(()) => Ok(out),
            Err(reason) => {
                let mut message = String::from_str("Module '");
                message.append(module_name);
                message.append("': ");
                message.append(reason.as_str());
                Err(Error::CodegenError(message))
            },
        }
    }
}

} // verus!
