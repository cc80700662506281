//! Checking of statements and blocks.

use vstd::prelude::*;
use crate::compiler::ast::{
    catch_clauses_view, else_ifs_view, statement_view, statements_view, Assignment, Block,
    CatchClause, Expression, ForLoop, Identifier, IfStatement, Item, MemberAccess, ReturnStatement,
    Statement, Struct, TryStatement, Type, Variable,
};
use crate::compiler::parser::span_of;
use crate::compiler::grammar::expression_span;
use crate::compiler::typing;
use crate::compiler::ast::TypeView;
use crate::diagnostics::{error_at, DiagnosticEngine, Span};
use crate::compiler::inference::{expect_type, infer};
use crate::compiler::symbols::{
    declare, declared_here, empty_scope, find_struct, is_void, join3, lookup, pop_scope,
    push_scope, report, same_outer, single_scope, type_text, Binding,
};

verus! {

/// Reports what is wrong with a type written in a declaration.
pub fn check_type(items: &Vec<Item>, t: &Type, span: &Span, diagnostics: &mut DiagnosticEngine)
    ensures
        final(diagnostics)@ == old(diagnostics)@ + typing::check_type(
            items.deep_view(),
            t@,
            span@,
        ),
    decreases t,
{
    match t {
        Type::Void => {
            report(
                diagnostics,
                String::from_str("Type 'Void' is only valid as a return type"),
                span.duplicate(),
            );
        },
        Type::List(element) => {
            check_type(items, element, span, diagnostics);
        },
        Type::Struct(name) => {
            if find_struct(items, name.as_str()).is_none() {
                report(
                    diagnostics,
                    join3("Unknown type '", name.as_str(), "'"),
                    span.duplicate(),
                );
            }
        },
        _ => {},
    }
}

/// The name at the root of an assignment target.
pub(crate) fn root_name<'a>(e: &'a Expression) -> (name: Option<&'a String>)
    ensures
        match typing::root_name(e@) {
            Some(n) => name matches Some(found) && found@ == n,
            None => name is None,
        },
    decreases e,
{
    match e {
        Expression::Identifier(id) => Some(&id.name),
        Expression::MemberAccess(access) => root_name(&access.object),
        _ => None,
    }
}

/// Reports an assignment target that is no mutable binding and no
/// field reached from one.
pub(crate) fn check_target(scopes: &Vec<Vec<Binding>>, target: &Expression, diagnostics: &mut DiagnosticEngine)
    ensures
        final(diagnostics)@ == old(diagnostics)@ + typing::check_target(
            scopes.deep_view(),
            target@,
        ),
{
    match root_name(target) {
        None => {
            report(diagnostics, String::from_str("Invalid assignment target"), span_of(target));
        },
        Some(name) => match lookup(scopes, name.as_str()) {
            Some(binding) => {
                if !binding.mutable {
                    report(
                        diagnostics,
                        join3("Cannot assign to immutable binding '", name.as_str(), "'"),
                        span_of(target),
                    );
                }
            },
            None => {},
        },
    }
}

/// Reports what is wrong with a variable declaration.
pub(crate) fn check_variable(
    items: &Vec<Item>,
    scopes: &Vec<Vec<Binding>>,
    v: &Variable,
    diagnostics: &mut DiagnosticEngine,
)
    ensures
        final(diagnostics)@ == old(diagnostics)@ + typing::check_variable(
            items.deep_view(),
            scopes.deep_view(),
            v@,
        ),
{
    let ghost start = diagnostics@;
    check_type(items, &v.var_type, &v.span, diagnostics);
    let found = infer(items, scopes, &v.initializer, diagnostics);
    expect_type(&v.var_type, &found, &v.initializer, diagnostics);
    proof {
        let value = typing::infer(items.deep_view(), scopes.deep_view(), v.initializer@);
        lemma_append3(
            start,
            typing::check_type(items.deep_view(), v.var_type@, v.span@),
            value.diagnostics,
            typing::expect_type(v.var_type@, value.ty, expression_span(v.initializer@)),
        );
    }
}

/// Reports a condition that is no `Bool`.
pub(crate) fn check_condition(
    items: &Vec<Item>,
    scopes: &Vec<Vec<Binding>>,
    c: &Expression,
    diagnostics: &mut DiagnosticEngine,
)
    ensures
        final(diagnostics)@ == old(diagnostics)@ + typing::check_condition(
            items.deep_view(),
            scopes.deep_view(),
            c@,
        ),
{
    let ghost start = diagnostics@;
    let found = infer(items, scopes, c, diagnostics);
    expect_type(&Type::Bool, &found, c, diagnostics);
    proof {
        let value = typing::infer(items.deep_view(), scopes.deep_view(), c@);
        lemma_append2(
            start,
            value.diagnostics,
            typing::expect_type(TypeView::Bool, value.ty, expression_span(c@)),
        );
    }
}

/// Whether `name` names a type that a `catch` clause may name.
pub(crate) fn known_exception(items: &Vec<Item>, name: &str) -> (b: bool)
    ensures
        b == typing::known_exception(items.deep_view(), name@),
{
    name.eq("Int") || name.eq("Float") || name.eq("Str") || name.eq("Bool") || find_struct(
        items,
        name,
    ).is_some()
}

/// Whether one of the first `n` clauses catches `name`.
pub(crate) fn caught_among(clauses: &Vec<CatchClause>, name: &str, n: usize) -> (b: bool)
    requires
        n <= clauses.len(),
    ensures
        b == typing::caught_among(catch_clauses_view(clauses@), name@, n as nat),
{
    let mut i: usize = 0;
    while i < n
        invariant
            i <= n <= clauses.len(),
            !typing::caught_among(catch_clauses_view(clauses@), name@, i as nat),
        decreases n - i,
    {
        if clauses[i].exception_type.as_str().eq(name) {
            proof {
                lemma_caught_later(catch_clauses_view(clauses@), name@, i as nat, n as nat);
            }
            return true;
        }
        i = i + 1;
    }
    false
}

/// A clause among the first `n` that catches `name` is among the first
/// `m`, for every later `m`.
proof fn lemma_caught_later(
    clauses: Seq<crate::compiler::ast::CatchClauseView>,
    name: Seq<char>,
    i: nat,
    m: nat,
)
    requires
        i < m <= clauses.len(),
        clauses[i as int].exception_type == name,
    ensures
        typing::caught_among(clauses, name, m),
    decreases m,
{
    if m > i + 1 {
        lemma_caught_later(clauses, name, i, (m - 1) as nat);
    }
}

/// Checks one statement in a function that returns `expected`. What is
/// wrong with it is reported; what it declares is added to the
/// innermost scope.
#[verifier::rlimit(80)]
pub fn check_statement(
    items: &Vec<Item>,
    scopes: &mut Vec<Vec<Binding>>,
    expected: &Type,
    s: &Statement,
    diagnostics: &mut DiagnosticEngine,
)
    ensures
        final(scopes).deep_view() == typing::check_statement(
            items.deep_view(),
            old(scopes).deep_view(),
            expected@,
            s@,
        ).0,
        same_outer(old(scopes).deep_view(), final(scopes).deep_view()),
        final(diagnostics)@ == old(diagnostics)@ + typing::check_statement(
            items.deep_view(),
            old(scopes).deep_view(),
            expected@,
            s@,
        ).1,
    decreases s,
{
    match s {
        Statement::Expression(e) => {
            let _ = infer(items, scopes, e, diagnostics);
        },
        Statement::Variable(v) => {
            check_declaration(items, scopes, v, diagnostics);
            declare(
                scopes,
                Binding {
                    name: v.name.clone(),
                    ty: Some(v.var_type.duplicate()),
                    mutable: v.mutable,
                },
            );
        },
        Statement::Assignment(a) => check_assignment(items, scopes, a, diagnostics),
        Statement::If(stmt) => check_if(items, scopes, expected, stmt, diagnostics),
        Statement::For(stmt) => check_for(items, scopes, expected, stmt, diagnostics),
        Statement::Try(stmt) => check_try(items, scopes, expected, stmt, diagnostics),
        Statement::Return(stmt) => check_return(items, scopes, expected, stmt, diagnostics),
    }
}

/// Reports what is wrong with a variable declaration in a block.
pub(crate) fn check_declaration(
    items: &Vec<Item>,
    scopes: &Vec<Vec<Binding>>,
    v: &Variable,
    diagnostics: &mut DiagnosticEngine,
)
    ensures
        final(diagnostics)@ == old(diagnostics)@ + typing::check_declaration(
            items.deep_view(),
            scopes.deep_view(),
            v@,
        ),
{
    let ghost start = diagnostics@;
    if declared_here(scopes, v.name.as_str()) {
        report(
            diagnostics,
            join3("Duplicate definition of '", v.name.as_str(), "'"),
            v.span.duplicate(),
        );
    }
    let ghost first = diagnostics@;
    check_variable(items, scopes, v, diagnostics);
    proof {
        let again = if typing::declared_here(scopes.deep_view(), v.name@) {
            seq![error_at(typing::duplicate_definition(v.name@), v.span@)]
        } else {
            Seq::empty()
        };
        assert(first == start + again);
        lemma_append2(
            start,
            again,
            typing::check_variable(items.deep_view(), scopes.deep_view(), v@),
        );
    }
}

/// Reports what is wrong with an assignment.
pub(crate) fn check_assignment(
    items: &Vec<Item>,
    scopes: &Vec<Vec<Binding>>,
    a: &Assignment,
    diagnostics: &mut DiagnosticEngine,
)
    ensures
        final(diagnostics)@ == old(diagnostics)@ + typing::check_assignment(
            items.deep_view(),
            scopes.deep_view(),
            a.target@,
            a.value@,
        ),
{
    let ghost start = diagnostics@;
    let target = infer(items, scopes, &a.target, diagnostics);
    check_target(scopes, &a.target, diagnostics);
    let value = infer(items, scopes, &a.value, diagnostics);
    let ghost third = diagnostics@;
    match target {
        Some(target_type) => {
            expect_type(&target_type, &value, &a.value, diagnostics);
        },
        None => {},
    }
    proof {
        let t = typing::infer(items.deep_view(), scopes.deep_view(), a.target@);
        let v = typing::infer(items.deep_view(), scopes.deep_view(), a.value@);
        let last = match t.ty {
            Some(target_type) => typing::expect_type(
                target_type,
                v.ty,
                expression_span(a.value@),
            ),
            None => Seq::empty(),
        };
        assert(diagnostics@ == third + last);
        lemma_append4(
            start,
            t.diagnostics,
            typing::check_target(scopes.deep_view(), a.target@),
            v.diagnostics,
            last,
        );
    }
}

/// Reports what is wrong with a `return` statement.
pub(crate) fn check_return(
    items: &Vec<Item>,
    scopes: &Vec<Vec<Binding>>,
    expected: &Type,
    stmt: &ReturnStatement,
    diagnostics: &mut DiagnosticEngine,
)
    ensures
        final(diagnostics)@ == old(diagnostics)@ + typing::check_return_statement(
            items.deep_view(),
            scopes.deep_view(),
            expected@,
            crate::compiler::ast::option_expression_view(stmt.value),
            stmt.span@,
        ),
{
    let ghost start = diagnostics@;
    match &stmt.value {
        None => {
            if !is_void(expected) {
                let expected_text = type_text(expected);
                report(
                    diagnostics,
                    join3("Missing return value: expected '", expected_text.as_str(), "'"),
                    stmt.span.duplicate(),
                );
            }
        },
        Some(e) => {
            let found = infer(items, scopes, e, diagnostics);
            let ghost first = diagnostics@;
            if is_void(expected) {
                report(
                    diagnostics,
                    String::from_str("A function that returns 'Void' must not return a value"),
                    span_of(e),
                );
            } else {
                expect_type(expected, &found, e, diagnostics);
            }
            proof {
                let v = typing::infer(items.deep_view(), scopes.deep_view(), e@);
                let last = typing::check_return(expected@, Some(e@), v.ty, stmt.span@);
                assert(diagnostics@ == first + last);
                lemma_append2(start, v.diagnostics, last);
            }
        },
    }
}

/// Checks a block, whose statements get a scope of their own.
pub fn check_block(
    items: &Vec<Item>,
    scopes: &mut Vec<Vec<Binding>>,
    expected: &Type,
    block: &Block,
    diagnostics: &mut DiagnosticEngine,
)
    ensures
        final(scopes).deep_view() == old(scopes).deep_view(),
        final(diagnostics)@ == old(diagnostics)@ + typing::check_block(
            items.deep_view(),
            old(scopes).deep_view(),
            expected@,
            block@,
        ),
    decreases block,
{
    let ghost outer = scopes.deep_view();
    let ghost start = diagnostics@;
    let ghost statements = statements_view(block.statements@);
    assert(block@.statements == statements);
    push_scope(scopes, empty_scope());
    let mut n: usize = 0;
    while n < block.statements.len()
        invariant
            n <= block.statements.len(),
            statements == statements_view(block.statements@),
            scopes.deep_view().len() == outer.len() + 1,
            scopes.deep_view().drop_last() == outer,
            scopes.deep_view() == typing::check_statements(
                items.deep_view(),
                outer.push(Seq::empty()),
                expected@,
                statements,
                n as nat,
            ).0,
            diagnostics@ == start + typing::check_statements(
                items.deep_view(),
                outer.push(Seq::empty()),
                expected@,
                statements,
                n as nat,
            ).1,
        decreases block.statements.len() - n,
    {
        assert(statements[n as int] == block.statements[n as int]@);
        check_statement(items, scopes, expected, &block.statements[n], diagnostics);
        n = n + 1;
    }
    assert(scopes.len() == scopes.deep_view().len());
    pop_scope(scopes);
}

/// Checks an `if` statement.
#[verifier::rlimit(80)]
pub(crate) fn check_if(
    items: &Vec<Item>,
    scopes: &mut Vec<Vec<Binding>>,
    expected: &Type,
    stmt: &IfStatement,
    diagnostics: &mut DiagnosticEngine,
)
    ensures
        final(scopes).deep_view() == old(scopes).deep_view(),
        final(diagnostics)@ == old(diagnostics)@ + typing::check_if(
            items.deep_view(),
            old(scopes).deep_view(),
            expected@,
            statement_view(Statement::If(*stmt)),
        ),
    decreases stmt,
{
    let ghost start = diagnostics@;
    let ghost model = items.deep_view();
    let ghost outer = scopes.deep_view();
    check_condition(items, scopes, &stmt.condition, diagnostics);
    check_block(items, scopes, expected, &stmt.then_block, diagnostics);
    check_else_ifs(items, scopes, expected, &stmt.else_ifs, diagnostics);
    let ghost last = Seq::<crate::diagnostics::DiagnosticView>::empty();
    match &stmt.else_block {
        Some(block) => {
            proof {
                last = typing::check_block(model, outer, expected@, block@);
            }
            check_block(items, scopes, expected, block, diagnostics);
        },
        None => {},
    }
    proof {
        lemma_append4(
            start,
            typing::check_condition(model, outer, stmt.condition@),
            typing::check_block(model, outer, expected@, stmt.then_block@),
            typing::check_else_ifs(
                model,
                outer,
                expected@,
                else_ifs_view(stmt.else_ifs@),
                stmt.else_ifs.len() as nat,
            ),
            last,
        );
    }
}

/// Appending sequences one by one appends their concatenation.
pub(crate) proof fn lemma_append2<T>(base: Seq<T>, a: Seq<T>, b: Seq<T>)
    ensures
        base + a + b == base + (a + b),
{
}

/// As `lemma_append2`, for three sequences.
pub(crate) proof fn lemma_append3<T>(base: Seq<T>, a: Seq<T>, b: Seq<T>, c: Seq<T>)
    ensures
        base + a + b + c == base + (a + b + c),
{
}

/// As `lemma_append2`, for four sequences.
pub(crate) proof fn lemma_append4<T>(base: Seq<T>, a: Seq<T>, b: Seq<T>, c: Seq<T>, d: Seq<T>)
    ensures
        base + a + b + c + d == base + (a + b + c + d),
{
}

/// Checks one `else if` branch.
fn check_else_if(
    items: &Vec<Item>,
    scopes: &mut Vec<Vec<Binding>>,
    expected: &Type,
    branch: &(Expression, Block),
    diagnostics: &mut DiagnosticEngine,
)
    ensures
        final(scopes).deep_view() == old(scopes).deep_view(),
        final(diagnostics)@ == old(diagnostics)@ + typing::check_else_if(
            items.deep_view(),
            old(scopes).deep_view(),
            expected@,
            (branch.0@, branch.1@),
        ),
    decreases branch,
{
    let ghost outer = scopes.deep_view();
    let ghost start = diagnostics@;
    check_condition(items, scopes, &branch.0, diagnostics);
    check_block(items, scopes, expected, &branch.1, diagnostics);
    proof {
        lemma_append2(
            start,
            typing::check_condition(items.deep_view(), outer, branch.0@),
            typing::check_block(items.deep_view(), outer, expected@, branch.1@),
        );
    }
}

/// Checks the `else if` branches of an `if` statement.
pub(crate) fn check_else_ifs(
    items: &Vec<Item>,
    scopes: &mut Vec<Vec<Binding>>,
    expected: &Type,
    branches: &Vec<(Expression, Block)>,
    diagnostics: &mut DiagnosticEngine,
)
    ensures
        final(scopes).deep_view() == old(scopes).deep_view(),
        final(diagnostics)@ == old(diagnostics)@ + typing::check_else_ifs(
            items.deep_view(),
            old(scopes).deep_view(),
            expected@,
            else_ifs_view(branches@),
            branches.len() as nat,
        ),
    decreases branches,
{
    let ghost outer = scopes.deep_view();
    let ghost start = diagnostics@;
    let ghost model = else_ifs_view(branches@);
    let mut n: usize = 0;
    while n < branches.len()
        invariant
            n <= branches.len(),
            model == else_ifs_view(branches@),
            scopes.deep_view() == outer,
            diagnostics@ == start + typing::check_else_ifs(
                items.deep_view(),
                outer,
                expected@,
                model,
                n as nat,
            ),
        decreases branches.len() - n,
    {
        assert(model[n as int] == (branches[n as int].0@, branches[n as int].1@));
        check_else_if(items, scopes, expected, &branches[n], diagnostics);
        proof {
            lemma_append2(
                start,
                typing::check_else_ifs(items.deep_view(), outer, expected@, model, n as nat),
                typing::check_else_if(
                    items.deep_view(),
                    outer,
                    expected@,
                    (branches[n as int].0@, branches[n as int].1@),
                ),
            );
        }
        n = n + 1;
    }
}

/// Checks a `for` statement.
pub(crate) fn check_for(
    items: &Vec<Item>,
    scopes: &mut Vec<Vec<Binding>>,
    expected: &Type,
    stmt: &ForLoop,
    diagnostics: &mut DiagnosticEngine,
)
    ensures
        final(scopes).deep_view() == old(scopes).deep_view(),
        final(diagnostics)@ == old(diagnostics)@ + typing::check_for(
            items.deep_view(),
            old(scopes).deep_view(),
            expected@,
            statement_view(Statement::For(*stmt)),
        ),
    decreases stmt,
{
    let ghost outer = scopes.deep_view();
    let ghost start = diagnostics@;
    let found = infer(items, scopes, &stmt.iterable, diagnostics);
    let ghost first = diagnostics@;
    let element = match found {
        Some(Type::List(element)) => Some(*element),
        Some(other) => {
            let found_text = type_text(&other);
            report(
                diagnostics,
                join3("Type mismatch: expected 'List', found '", found_text.as_str(), "'"),
                span_of(&stmt.iterable),
            );
            None
        },
        None => None,
    };
    let ghost value = typing::infer(items.deep_view(), outer, stmt.iterable@);
    let ghost part = typing::element_type(value.ty, expression_span(stmt.iterable@));
    assert(diagnostics@ == first + part.1);
    assert(element.deep_view() == part.0);
    let binding = Binding { name: stmt.variable.clone(), ty: element, mutable: false };
    let ghost inner = outer.push(seq![binding.deep_view()]);
    push_scope(scopes, single_scope(binding));
    check_block(items, scopes, expected, &stmt.body, diagnostics);
    assert(scopes.len() == scopes.deep_view().len());
    pop_scope(scopes);
    proof {
        assert(inner.drop_last() == outer);
        lemma_append3(
            start,
            value.diagnostics,
            part.1,
            typing::check_block(items.deep_view(), inner, expected@, stmt.body@),
        );
    }
}

/// Checks a `try` statement.
pub(crate) fn check_try(
    items: &Vec<Item>,
    scopes: &mut Vec<Vec<Binding>>,
    expected: &Type,
    stmt: &TryStatement,
    diagnostics: &mut DiagnosticEngine,
)
    ensures
        final(scopes).deep_view() == old(scopes).deep_view(),
        final(diagnostics)@ == old(diagnostics)@ + typing::check_try(
            items.deep_view(),
            old(scopes).deep_view(),
            expected@,
            statement_view(Statement::Try(*stmt)),
        ),
    decreases stmt,
{
    let ghost outer = scopes.deep_view();
    let ghost start = diagnostics@;
    check_block(items, scopes, expected, &stmt.try_block, diagnostics);
    check_catches(items, scopes, expected, &stmt.catch_clauses, diagnostics);
    proof {
        lemma_append2(
            start,
            typing::check_block(items.deep_view(), outer, expected@, stmt.try_block@),
            typing::check_catches(
                items.deep_view(),
                outer,
                expected@,
                catch_clauses_view(stmt.catch_clauses@),
                stmt.catch_clauses.len() as nat,
            ),
        );
    }
}

/// Reports what is wrong with the exception type of a `catch` clause.
fn check_exception(
    items: &Vec<Item>,
    clause: &CatchClause,
    repeated: bool,
    diagnostics: &mut DiagnosticEngine,
)
    ensures
        final(diagnostics)@ == old(diagnostics)@ + typing::check_exception(
            items.deep_view(),
            clause@,
            repeated,
        ),
{
    let ghost start = diagnostics@;
    if !known_exception(items, clause.exception_type.as_str()) {
        report(
            diagnostics,
            join3("Unknown exception type '", clause.exception_type.as_str(), "'"),
            clause.span.duplicate(),
        );
    }
    let ghost first = diagnostics@;
    if repeated {
        report(
            diagnostics,
            join3("Duplicate catch clause for '", clause.exception_type.as_str(), "'"),
            clause.span.duplicate(),
        );
    }
    proof {
        let unknown = if typing::known_exception(items.deep_view(), clause.exception_type@) {
            Seq::empty()
        } else {
            seq![error_at(typing::unknown_exception(clause.exception_type@), clause.span@)]
        };
        let again = if repeated {
            seq![error_at(typing::duplicate_catch(clause.exception_type@), clause.span@)]
        } else {
            Seq::empty()
        };
        assert(first == start + unknown);
        assert(diagnostics@ == first + again);
        lemma_append2(start, unknown, again);
    }
}

/// Checks one `catch` clause; `repeated` tells whether a clause before
/// it names its exception type.
fn check_catch(
    items: &Vec<Item>,
    scopes: &mut Vec<Vec<Binding>>,
    expected: &Type,
    clause: &CatchClause,
    repeated: bool,
    diagnostics: &mut DiagnosticEngine,
)
    ensures
        final(scopes).deep_view() == old(scopes).deep_view(),
        final(diagnostics)@ == old(diagnostics)@ + typing::check_catch(
            items.deep_view(),
            old(scopes).deep_view(),
            expected@,
            clause@,
            repeated,
        ),
    decreases clause,
{
    let ghost outer = scopes.deep_view();
    let ghost start = diagnostics@;
    check_exception(items, clause, repeated, diagnostics);
    check_block(items, scopes, expected, &clause.handler_block, diagnostics);
    proof {
        lemma_append2(
            start,
            typing::check_exception(items.deep_view(), clause@, repeated),
            typing::check_block(items.deep_view(), outer, expected@, clause.handler_block@),
        );
    }
}

/// Checks the `catch` clauses of a `try` statement.
pub(crate) fn check_catches(
    items: &Vec<Item>,
    scopes: &mut Vec<Vec<Binding>>,
    expected: &Type,
    clauses: &Vec<CatchClause>,
    diagnostics: &mut DiagnosticEngine,
)
    ensures
        final(scopes).deep_view() == old(scopes).deep_view(),
        final(diagnostics)@ == old(diagnostics)@ + typing::check_catches(
            items.deep_view(),
            old(scopes).deep_view(),
            expected@,
            catch_clauses_view(clauses@),
            clauses.len() as nat,
        ),
    decreases clauses,
{
    let ghost outer = scopes.deep_view();
    let ghost start = diagnostics@;
    let ghost model = catch_clauses_view(clauses@);
    let mut n: usize = 0;
    while n < clauses.len()
        invariant
            n <= clauses.len(),
            model == catch_clauses_view(clauses@),
            scopes.deep_view() == outer,
            diagnostics@ == start + typing::check_catches(
                items.deep_view(),
                outer,
                expected@,
                model,
                n as nat,
            ),
        decreases clauses.len() - n,
    {
        let clause = &clauses[n];
        assert(model[n as int] == clause@);
        let repeated = caught_among(clauses, clause.exception_type.as_str(), n);
        check_catch(items, scopes, expected, clause, repeated, diagnostics);
        proof {
            lemma_append2(
                start,
                typing::check_catches(items.deep_view(), outer, expected@, model, n as nat),
                typing::check_catch(items.deep_view(), outer, expected@, clause@, repeated),
            );
        }
        n = n + 1;
    }
}

} // verus!
