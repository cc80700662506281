//! Emission of the statements that hold blocks in several parts.

use vstd::prelude::*;
use crate::compiler::ast::{
    statement_view, CatchClause, IfStatement, Item, Statement, TryStatement,
};
use crate::compiler::codegen::{
    deeper, emit_block, emit_catches, emit_else, emit_else_ifs, emit_expression, emitted, put,
    put_dispatch_foot,
};
use crate::compiler::lowering;

verus! {

/// Appends the lines of an `if` statement.
#[verifier::rlimit(80)]
pub fn emit_if(
    items: &Vec<Item>,
    depth: usize,
    stmt: &IfStatement,
    margin: &str,
    out: &mut String,
) -> (result: Result<(), String>)
    ensures
        emitted(
            result,
            old(out)@,
            final(out)@,
            lowering::lower_if(
                items.deep_view(),
                depth as nat,
                statement_view(Statement::If(*stmt)),
                margin@,
            ),
        ),
    decreases 2 * depth, stmt, 1nat,
{
    put(out, margin);
    put(out, "if ");
    emit_expression(items, depth, &stmt.condition, out)?;
    put(out, " ");
    emit_block(items, depth, &stmt.then_block, margin, out)?;
    emit_if_tail(items, depth, stmt, margin, out)
}

/// Appends what follows the first block of an `if` statement.
#[verifier::rlimit(80)]
pub fn emit_if_tail(
    items: &Vec<Item>,
    depth: usize,
    stmt: &IfStatement,
    margin: &str,
    out: &mut String,
) -> (result: Result<(), String>)
    ensures
        emitted(
            result,
            old(out)@,
            final(out)@,
            lowering::lower_if_tail(
                items.deep_view(),
                depth as nat,
                statement_view(Statement::If(*stmt)),
                margin@,
            ),
        ),
    decreases 2 * depth, stmt, 0nat,
{
    emit_else_ifs(items, depth, &stmt.else_ifs, margin, out)?;
    emit_else(items, depth, &stmt.else_block, margin, out)?;
    put(out, "\n");
    Ok(())
}

/// Appends the lines of a `try` statement.
#[verifier::rlimit(80)]
pub fn emit_try(
    items: &Vec<Item>,
    depth: usize,
    stmt: &TryStatement,
    margin: &str,
    out: &mut String,
) -> (result: Result<(), String>)
    ensures
        emitted(
            result,
            old(out)@,
            final(out)@,
            lowering::lower_try(
                items.deep_view(),
                depth as nat,
                statement_view(Statement::Try(*stmt)),
                margin@,
            ),
        ),
    decreases 2 * depth, stmt, 1nat,
{
    put(out, margin);
    emit_block(items, depth, &stmt.try_block, margin, out)?;
    put(out, "\n");
    put(out, margin);
    put(out, "match rustic_runtime::take_exception() {\n");
    let inner = deeper(margin);
    emit_catches(items, depth, &stmt.catch_clauses, inner.as_str(), out)?;
    put_dispatch_foot(out, margin);
    Ok(())
}

/// Appends the arm of one `catch` clause.
#[verifier::rlimit(80)]
pub fn emit_catch(
    items: &Vec<Item>,
    depth: usize,
    clause: &CatchClause,
    margin: &str,
    out: &mut String,
) -> (result: Result<(), String>)
    ensures
        emitted(
            result,
            old(out)@,
            final(out)@,
            lowering::lower_catch(items.deep_view(), depth as nat, clause@, margin@),
        ),
    decreases 2 * depth, clause, 0nat,
{
    put(out, margin);
    put(out, "Some(error) if error.is(\"");
    put(out, clause.exception_type.as_str());
    put(out, "\") => ");
    emit_block(items, depth, &clause.handler_block, margin, out)?;
    put(out, "\n");
    Ok(())
}

} // verus!
