//! Copies of syntax trees. A copy has the view of what it was made of.

use vstd::prelude::*;
use crate::compiler::ast::{
    catch_clauses_view, else_ifs_view, expression_view, expressions_view, field_values_view,
    option_expression_view, statement_view, statements_view, Assignment, BinaryOp, Block,
    CatchClause, Constant, Expression, Field, ForLoop, Function, FunctionCall, Identifier,
    IfStatement, Import, Item, ListLiteral, Literal, MemberAccess, Parameter, Program,
    ReturnStatement, Statement, Struct, StructInitializer, TryStatement, UnaryOp, Variable,
};

verus! {

/// A copy of a literal.
pub fn copy_literal(l: &Literal) -> (copy: Literal)
    ensures
        copy@ == l@,
{
    match l {
        Literal::Integer(n) => Literal::Integer(*n),
        Literal::Float(digits) => Literal::Float(digits.clone()),
        Literal::String(text) => Literal::String(text.clone()),
        Literal::Boolean(b) => Literal::Boolean(*b),
    }
}

/// A copy of an expression.
pub fn copy_expression(e: &Expression) -> (copy: Expression)
    ensures
        copy@ == e@,
    decreases e,
{
    match e {
        Expression::Literal(value, span) => Expression::Literal(
            copy_literal(value),
            span.duplicate(),
        ),
        Expression::Identifier(id) => Expression::Identifier(
            Identifier { name: id.name.clone(), span: id.span.duplicate() },
        ),
        Expression::Binary(op) => Expression::Binary(
            BinaryOp {
                left: Box::new(copy_expression(&op.left)),
                operator: op.operator,
                right: Box::new(copy_expression(&op.right)),
                span: op.span.duplicate(),
            },
        ),
        Expression::Unary(op) => Expression::Unary(
            UnaryOp {
                operator: op.operator,
                operand: Box::new(copy_expression(&op.operand)),
                span: op.span.duplicate(),
            },
        ),
        Expression::Call(call) => Expression::Call(
            FunctionCall {
                function: Box::new(copy_expression(&call.function)),
                arguments: copy_expressions(&call.arguments),
                span: call.span.duplicate(),
            },
        ),
        Expression::MemberAccess(access) => Expression::MemberAccess(
            MemberAccess {
                object: Box::new(copy_expression(&access.object)),
                member: access.member.clone(),
                span: access.span.duplicate(),
            },
        ),
        Expression::List(list) => Expression::List(
            ListLiteral {
                elements: copy_expressions(&list.elements),
                span: list.span.duplicate(),
            },
        ),
        Expression::StructInit(init) => Expression::StructInit(
            StructInitializer {
                struct_name: init.struct_name.clone(),
                fields: copy_field_values(&init.fields),
                span: init.span.duplicate(),
            },
        ),
    }
}

/// Copies of expressions.
pub fn copy_expressions(es: &Vec<Expression>) -> (copy: Vec<Expression>)
    ensures
        expressions_view(copy@) == expressions_view(es@),
    decreases es,
{
    let mut copy: Vec<Expression> = Vec::new();
    let mut n: usize = 0;
    while n < es.len()
        invariant
            n <= es.len(),
            copy.len() == n,
            forall|i: int| 0 <= i < n ==> (#[trigger] copy[i])@ == es[i]@,
        decreases es.len() - n,
    {
        copy.push(copy_expression(&es[n]));
        n = n + 1;
    }
    assert(expressions_view(copy@) =~= expressions_view(es@));
    copy
}

/// Copies of the values of a struct literal.
pub fn copy_field_values(values: &Vec<(String, Expression)>) -> (copy: Vec<(String, Expression)>)
    ensures
        field_values_view(copy@) == field_values_view(values@),
    decreases values,
{
    let mut copy: Vec<(String, Expression)> = Vec::new();
    let mut n: usize = 0;
    while n < values.len()
        invariant
            n <= values.len(),
            copy.len() == n,
            forall|i: int|
                0 <= i < n ==> (#[trigger] copy[i]).0@ == values[i].0@ && copy[i].1@
                    == values[i].1@,
        decreases values.len() - n,
    {
        copy.push((values[n].0.clone(), copy_expression(&values[n].1)));
        n = n + 1;
    }
    assert(field_values_view(copy@) =~= field_values_view(values@));
    copy
}

/// A copy of an expression that may be missing.
pub fn copy_optional(e: &Option<Expression>) -> (copy: Option<Expression>)
    ensures
        option_expression_view(copy) == option_expression_view(*e),
{
    match e {
        Some(e) => Some(copy_expression(e)),
        None => None,
    }
}

/// A copy of a variable declaration.
pub fn copy_variable(v: &Variable) -> (copy: Variable)
    ensures
        copy@ == v@,
{
    Variable {
        name: v.name.clone(),
        var_type: v.var_type.duplicate(),
        initializer: copy_expression(&v.initializer),
        mutable: v.mutable,
        span: v.span.duplicate(),
    }
}

/// A copy of a statement.
pub fn copy_statement(s: &Statement) -> (copy: Statement)
    ensures
        copy@ == s@,
    decreases s,
{
    match s {
        Statement::Expression(e) => Statement::Expression(copy_expression(e)),
        Statement::Variable(v) => Statement::Variable(copy_variable(v)),
        Statement::Assignment(a) => Statement::Assignment(
            Assignment {
                target: copy_expression(&a.target),
                value: copy_expression(&a.value),
                span: a.span.duplicate(),
            },
        ),
        Statement::If(stmt) => Statement::If(
            IfStatement {
                condition: copy_expression(&stmt.condition),
                then_block: copy_block(&stmt.then_block),
                else_ifs: copy_else_ifs(&stmt.else_ifs),
                else_block: match &stmt.else_block {
                    Some(block) => Some(copy_block(block)),
                    None => None,
                },
                span: stmt.span.duplicate(),
            },
        ),
        Statement::For(stmt) => Statement::For(
            ForLoop {
                variable: stmt.variable.clone(),
                iterable: copy_expression(&stmt.iterable),
                body: copy_block(&stmt.body),
                span: stmt.span.duplicate(),
            },
        ),
        Statement::Try(stmt) => Statement::Try(
            TryStatement {
                try_block: copy_block(&stmt.try_block),
                catch_clauses: copy_catch_clauses(&stmt.catch_clauses),
                span: stmt.span.duplicate(),
            },
        ),
        Statement::Return(stmt) => Statement::Return(
            ReturnStatement { value: copy_optional(&stmt.value), span: stmt.span.duplicate() },
        ),
    }
}

/// A copy of a block.
pub fn copy_block(block: &Block) -> (copy: Block)
    ensures
        copy@ == block@,
    decreases block,
{
    let mut statements: Vec<Statement> = Vec::new();
    let mut n: usize = 0;
    while n < block.statements.len()
        invariant
            n <= block.statements.len(),
            statements.len() == n,
            forall|i: int| 0 <= i < n ==> (#[trigger] statements[i])@ == block.statements[i]@,
        decreases block.statements.len() - n,
    {
        statements.push(copy_statement(&block.statements[n]));
        n = n + 1;
    }
    assert(statements_view(statements@) =~= statements_view(block.statements@));
    Block { statements, span: block.span.duplicate() }
}

/// Copies of the `else if` branches of an `if` statement.
pub fn copy_else_ifs(branches: &Vec<(Expression, Block)>) -> (copy: Vec<(Expression, Block)>)
    ensures
        else_ifs_view(copy@) == else_ifs_view(branches@),
    decreases branches,
{
    let mut copy: Vec<(Expression, Block)> = Vec::new();
    let mut n: usize = 0;
    while n < branches.len()
        invariant
            n <= branches.len(),
            copy.len() == n,
            forall|i: int|
                0 <= i < n ==> (#[trigger] copy[i]).0@ == branches[i].0@ && copy[i].1@
                    == branches[i].1@,
        decreases branches.len() - n,
    {
        copy.push((copy_expression(&branches[n].0), copy_block(&branches[n].1)));
        n = n + 1;
    }
    assert(else_ifs_view(copy@) =~= else_ifs_view(branches@));
    copy
}

/// A copy of a `catch` clause.
pub fn copy_catch_clause(clause: &CatchClause) -> (copy: CatchClause)
    ensures
        copy@ == clause@,
    decreases clause,
{
    CatchClause {
        exception_type: clause.exception_type.clone(),
        handler_block: copy_block(&clause.handler_block),
        span: clause.span.duplicate(),
    }
}

/// Copies of the `catch` clauses of a `try` statement.
pub fn copy_catch_clauses(clauses: &Vec<CatchClause>) -> (copy: Vec<CatchClause>)
    ensures
        catch_clauses_view(copy@) == catch_clauses_view(clauses@),
    decreases clauses,
{
    let mut copy: Vec<CatchClause> = Vec::new();
    let mut n: usize = 0;
    while n < clauses.len()
        invariant
            n <= clauses.len(),
            copy.len() == n,
            forall|i: int| 0 <= i < n ==> (#[trigger] copy[i])@ == clauses[i]@,
        decreases clauses.len() - n,
    {
        copy.push(copy_catch_clause(&clauses[n]));
        n = n + 1;
    }
    assert(catch_clauses_view(copy@) =~= catch_clauses_view(clauses@));
    copy
}

/// A copy of a parameter.
pub fn copy_parameter(p: &Parameter) -> (copy: Parameter)
    ensures
        copy@ == p@,
{
    Parameter {
        name: p.name.clone(),
        param_type: p.param_type.duplicate(),
        default_value: copy_optional(&p.default_value),
        span: p.span.duplicate(),
    }
}

/// A copy of a function.
pub fn copy_function(f: &Function) -> (copy: Function)
    ensures
        copy@ == f@,
{
    let mut parameters: Vec<Parameter> = Vec::new();
    let mut n: usize = 0;
    while n < f.parameters.len()
        invariant
            n <= f.parameters.len(),
            parameters.len() == n,
            forall|i: int| 0 <= i < n ==> (#[trigger] parameters[i])@ == f.parameters[i]@,
        decreases f.parameters.len() - n,
    {
        parameters.push(copy_parameter(&f.parameters[n]));
        n = n + 1;
    }
    assert(parameters.deep_view() =~= f.parameters.deep_view());
    Function {
        name: f.name.clone(),
        parameters,
        return_type: f.return_type.duplicate(),
        body: copy_block(&f.body),
        span: f.span.duplicate(),
    }
}

/// A copy of a field.
pub fn copy_field(field: &Field) -> (copy: Field)
    ensures
        copy@ == field@,
{
    Field {
        name: field.name.clone(),
        field_type: field.field_type.duplicate(),
        span: field.span.duplicate(),
    }
}

/// A copy of a struct.
pub fn copy_struct(s: &Struct) -> (copy: Struct)
    ensures
        copy@ == s@,
{
    let mut fields: Vec<Field> = Vec::new();
    let mut n: usize = 0;
    while n < s.fields.len()
        invariant
            n <= s.fields.len(),
            fields.len() == n,
            forall|i: int| 0 <= i < n ==> (#[trigger] fields[i])@ == s.fields[i]@,
        decreases s.fields.len() - n,
    {
        fields.push(copy_field(&s.fields[n]));
        n = n + 1;
    }
    assert(fields.deep_view() =~= s.fields.deep_view());
    Struct { name: s.name.clone(), fields, span: s.span.duplicate() }
}

/// A copy of a constant.
pub fn copy_constant(c: &Constant) -> (copy: Constant)
    ensures
        copy@ == c@,
{
    Constant {
        name: c.name.clone(),
        const_type: c.const_type.duplicate(),
        value: copy_expression(&c.value),
        span: c.span.duplicate(),
    }
}

/// A copy of a top-level declaration.
pub fn copy_item(item: &Item) -> (copy: Item)
    ensures
        copy@ == item@,
{
    match item {
        Item::Function(f) => Item::Function(copy_function(f)),
        Item::Struct(s) => Item::Struct(copy_struct(s)),
        Item::Variable(v) => Item::Variable(copy_variable(v)),
        Item::Constant(c) => Item::Constant(copy_constant(c)),
    }
}

/// A copy of a module.
pub fn copy_program(program: &Program) -> (copy: Program)
    ensures
        copy@ == program@,
{
    let mut items: Vec<Item> = Vec::new();
    let mut n: usize = 0;
    while n < program.items.len()
        invariant
            n <= program.items.len(),
            items.len() == n,
            forall|i: int| 0 <= i < n ==> (#[trigger] items[i])@ == program.items[i]@,
        decreases program.items.len() - n,
    {
        items.push(copy_item(&program.items[n]));
        n = n + 1;
    }
    let mut imports: Vec<Import> = Vec::new();
    let mut m: usize = 0;
    while m < program.imports.len()
        invariant
            m <= program.imports.len(),
            imports.len() == m,
            forall|i: int| 0 <= i < m ==> (#[trigger] imports[i])@ == program.imports[i]@,
        decreases program.imports.len() - m,
    {
        imports.push(
            Import {
                path: program.imports[m].path.clone(),
                span: program.imports[m].span.duplicate(),
            },
        );
        m = m + 1;
    }
    assert(items.deep_view() =~= program.items.deep_view());
    assert(imports.deep_view() =~= program.imports.deep_view());
    Program { items, imports }
}

impl Clone for Expression {
    fn clone(&self) -> (copy: Self)
        ensures
            copy@ == self@,
    {
        copy_expression(self)
    }
}

impl Clone for Statement {
    fn clone(&self) -> (copy: Self)
        ensures
            copy@ == self@,
    {
        copy_statement(self)
    }
}

impl Clone for Block {
    fn clone(&self) -> (copy: Self)
        ensures
            copy@ == self@,
    {
        copy_block(self)
    }
}

impl Clone for Variable {
    fn clone(&self) -> (copy: Self)
        ensures
            copy@ == self@,
    {
        copy_variable(self)
    }
}

impl Clone for CatchClause {
    fn clone(&self) -> (copy: Self)
        ensures
            copy@ == self@,
    {
        copy_catch_clause(self)
    }
}

impl Clone for Parameter {
    fn clone(&self) -> (copy: Self)
        ensures
            copy@ == self@,
    {
        copy_parameter(self)
    }
}

impl Clone for Function {
    fn clone(&self) -> (copy: Self)
        ensures
            copy@ == self@,
    {
        copy_function(self)
    }
}

impl Clone for Field {
    fn clone(&self) -> (copy: Self)
        ensures
            copy@ == self@,
    {
        copy_field(self)
    }
}

impl Clone for Struct {
    fn clone(&self) -> (copy: Self)
        ensures
            copy@ == self@,
    {
        copy_struct(self)
    }
}

impl Clone for Constant {
    fn clone(&self) -> (copy: Self)
        ensures
            copy@ == self@,
    {
        copy_constant(self)
    }
}

impl Clone for Item {
    fn clone(&self) -> (copy: Self)
        ensures
            copy@ == self@,
    {
        copy_item(self)
    }
}

impl Clone for Program {
    fn clone(&self) -> (copy: Self)
        ensures
            copy@ == self@,
    {
        copy_program(self)
    }
}

impl Clone for BinaryOp {
    fn clone(&self) -> (copy: Self)
        ensures
            expression_view(Expression::Binary(copy)) == expression_view(Expression::Binary(*self)),
    {
        BinaryOp {
            left: Box::new(copy_expression(&self.left)),
            operator: self.operator,
            right: Box::new(copy_expression(&self.right)),
            span: self.span.duplicate(),
        }
    }
}

impl Clone for UnaryOp {
    fn clone(&self) -> (copy: Self)
        ensures
            expression_view(Expression::Unary(copy)) == expression_view(Expression::Unary(*self)),
    {
        UnaryOp {
            operator: self.operator,
            operand: Box::new(copy_expression(&self.operand)),
            span: self.span.duplicate(),
        }
    }
}

impl Clone for FunctionCall {
    fn clone(&self) -> (copy: Self)
        ensures
            expression_view(Expression::Call(copy)) == expression_view(Expression::Call(*self)),
    {
        FunctionCall {
            function: Box::new(copy_expression(&self.function)),
            arguments: copy_expressions(&self.arguments),
            span: self.span.duplicate(),
        }
    }
}

impl Clone for MemberAccess {
    fn clone(&self) -> (copy: Self)
        ensures
            expression_view(Expression::MemberAccess(copy)) == expression_view(Expression::MemberAccess(*self)),
    {
        MemberAccess {
            object: Box::new(copy_expression(&self.object)),
            member: self.member.clone(),
            span: self.span.duplicate(),
        }
    }
}

impl Clone for ListLiteral {
    fn clone(&self) -> (copy: Self)
        ensures
            expression_view(Expression::List(copy)) == expression_view(Expression::List(*self)),
    {
        ListLiteral { elements: copy_expressions(&self.elements), span: self.span.duplicate() }
    }
}

impl Clone for StructInitializer {
    fn clone(&self) -> (copy: Self)
        ensures
            expression_view(Expression::StructInit(copy)) == expression_view(Expression::StructInit(*self)),
    {
        StructInitializer {
            struct_name: self.struct_name.clone(),
            fields: copy_field_values(&self.fields),
            span: self.span.duplicate(),
        }
    }
}

impl Clone for Assignment {
    fn clone(&self) -> (copy: Self)
        ensures
            statement_view(Statement::Assignment(copy)) == statement_view(Statement::Assignment(*self)),
    {
        Assignment {
            target: copy_expression(&self.target),
            value: copy_expression(&self.value),
            span: self.span.duplicate(),
        }
    }
}

impl Clone for IfStatement {
    fn clone(&self) -> (copy: Self)
        ensures
            statement_view(Statement::If(copy)) == statement_view(Statement::If(*self)),
    {
        IfStatement {
            condition: copy_expression(&self.condition),
            then_block: copy_block(&self.then_block),
            else_ifs: copy_else_ifs(&self.else_ifs),
            else_block: match &self.else_block {
                Some(block) => Some(copy_block(block)),
                None => None,
            },
            span: self.span.duplicate(),
        }
    }
}

impl Clone for ForLoop {
    fn clone(&self) -> (copy: Self)
        ensures
            statement_view(Statement::For(copy)) == statement_view(Statement::For(*self)),
    {
        ForLoop {
            variable: self.variable.clone(),
            iterable: copy_expression(&self.iterable),
            body: copy_block(&self.body),
            span: self.span.duplicate(),
        }
    }
}

impl Clone for TryStatement {
    fn clone(&self) -> (copy: Self)
        ensures
            statement_view(Statement::Try(copy)) == statement_view(Statement::Try(*self)),
    {
        TryStatement {
            try_block: copy_block(&self.try_block),
            catch_clauses: copy_catch_clauses(&self.catch_clauses),
            span: self.span.duplicate(),
        }
    }
}

impl Clone for ReturnStatement {
    fn clone(&self) -> (copy: Self)
        ensures
            statement_view(Statement::Return(copy)) == statement_view(Statement::Return(*self)),
    {
        ReturnStatement { value: copy_optional(&self.value), span: self.span.duplicate() }
    }
}

} // verus!
