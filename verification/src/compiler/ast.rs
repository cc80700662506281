//! The syntax tree of one module, and its mathematical model.
//!
//! Every executable node type has a view. The views of the recursive
//! node types are plain recursive datatypes over sequences, so that the
//! grammar, the typing rules and the lowering can be stated as functions
//! on them.

use vstd::prelude::*;
use crate::diagnostics::{Span, SpanView};

verus! {

/// One compiled module.
#[derive(Debug, PartialEq)]
pub struct Program {
    pub items: Vec<Item>,
    pub imports: Vec<Import>,
}

/// A declared dependency on another module.
#[derive(Debug, Clone, PartialEq)]
pub struct Import {
    pub path: String,
    pub span: Span,
}

/// A top-level declaration.
#[derive(Debug, PartialEq)]
pub enum Item {
    Function(Function),
    Struct(Struct),
    Variable(Variable),
    Constant(Constant),
}

#[derive(Debug, PartialEq)]
pub struct Function {
    pub name: String,
    pub parameters: Vec<Parameter>,
    pub return_type: Type,
    pub body: Block,
    pub span: Span,
}

#[derive(Debug, PartialEq)]
pub struct Struct {
    pub name: String,
    pub fields: Vec<Field>,
    pub span: Span,
}

#[derive(Debug, PartialEq)]
pub struct Field {
    pub name: String,
    pub field_type: Type,
    pub span: Span,
}

#[derive(Debug, PartialEq)]
pub struct Parameter {
    pub name: String,
    pub param_type: Type,
    pub default_value: Option<Expression>,
    pub span: Span,
}

#[derive(Debug, PartialEq)]
pub struct Variable {
    pub name: String,
    pub var_type: Type,
    pub initializer: Expression,
    pub mutable: bool,
    pub span: Span,
}

#[derive(Debug, PartialEq)]
pub struct Constant {
    pub name: String,
    pub const_type: Type,
    pub value: Expression,
    pub span: Span,
}

/// A static type.
#[derive(Debug, PartialEq)]
pub enum Type {
    Int,
    Float,
    Str,
    Bool,
    List(Box<Type>),
    Struct(String),
    Void,
}

#[derive(Debug, PartialEq)]
pub struct Block {
    pub statements: Vec<Statement>,
    pub span: Span,
}

#[derive(Debug, PartialEq)]
pub enum Statement {
    Expression(Expression),
    Variable(Variable),
    Assignment(Assignment),
    If(IfStatement),
    For(ForLoop),
    Try(TryStatement),
    Return(ReturnStatement),
}

#[derive(Debug, PartialEq)]
pub struct Assignment {
    pub target: Expression,
    pub value: Expression,
    pub span: Span,
}

#[derive(Debug, PartialEq)]
pub struct IfStatement {
    pub condition: Expression,
    pub then_block: Block,
    pub else_ifs: Vec<(Expression, Block)>,
    pub else_block: Option<Block>,
    pub span: Span,
}

#[derive(Debug, PartialEq)]
pub struct ForLoop {
    pub variable: String,
    pub iterable: Expression,
    pub body: Block,
    pub span: Span,
}

#[derive(Debug, PartialEq)]
pub struct TryStatement {
    pub try_block: Block,
    pub catch_clauses: Vec<CatchClause>,
    pub span: Span,
}

#[derive(Debug, PartialEq)]
pub struct CatchClause {
    pub exception_type: String,
    pub handler_block: Block,
    pub span: Span,
}

#[derive(Debug, PartialEq)]
pub struct ReturnStatement {
    pub value: Option<Expression>,
    pub span: Span,
}

#[derive(Debug, PartialEq)]
pub enum Expression {
    Literal(Literal, Span),
    Identifier(Identifier),
    Binary(BinaryOp),
    Unary(UnaryOp),
    Call(FunctionCall),
    MemberAccess(MemberAccess),
    List(ListLiteral),
    StructInit(StructInitializer),
}

#[derive(Debug, Clone, PartialEq)]
pub enum Literal {
    Integer(i64),
    /// A float literal, as the digits, the point and the digits that the
    /// source text holds.
    Float(String),
    String(String),
    Boolean(bool),
}

#[derive(Debug, Clone, PartialEq)]
pub struct Identifier {
    pub name: String,
    pub span: Span,
}

#[derive(Debug, PartialEq)]
pub struct BinaryOp {
    pub left: Box<Expression>,
    pub operator: BinaryOperator,
    pub right: Box<Expression>,
    pub span: Span,
}

#[derive(Debug, Clone, Copy, PartialEq, Eq, Structural)]
pub enum BinaryOperator {
    Add,
    Sub,
    Mul,
    Div,
    Mod,
    Eq,
    Ne,
    Lt,
    Le,
    Gt,
    Ge,
    And,
    Or,
}

#[derive(Debug, PartialEq)]
pub struct UnaryOp {
    pub operator: UnaryOperator,
    pub operand: Box<Expression>,
    pub span: Span,
}

#[derive(Debug, Clone, Copy, PartialEq, Eq, Structural)]
pub enum UnaryOperator {
    Neg,
    Not,
}

#[derive(Debug, PartialEq)]
pub struct FunctionCall {
    pub function: Box<Expression>,
    pub arguments: Vec<Expression>,
    pub span: Span,
}

#[derive(Debug, PartialEq)]
pub struct MemberAccess {
    pub object: Box<Expression>,
    pub member: String,
    pub span: Span,
}

#[derive(Debug, PartialEq)]
pub struct ListLiteral {
    pub elements: Vec<Expression>,
    pub span: Span,
}

/// A struct literal. The values are held by field name, in the order in
/// which they were written; nothing depends on that order but the order
/// in which problems are reported.
#[derive(Debug, PartialEq)]
pub struct StructInitializer {
    pub struct_name: String,
    pub fields: Vec<(String, Expression)>,
    pub span: Span,
}

pub enum TypeView {
    Int,
    Float,
    Str,
    Bool,
    List(Box<TypeView>),
    Struct(Seq<char>),
    Void,
}

pub enum LiteralView {
    Integer(int),
    Float(Seq<char>),
    String(Seq<char>),
    Boolean(bool),
}

#[allow(inconsistent_fields)]
pub enum ExpressionView {
    Literal { value: LiteralView, span: SpanView },
    Identifier { name: Seq<char>, span: SpanView },
    Binary {
        left: Box<ExpressionView>,
        operator: BinaryOperator,
        right: Box<ExpressionView>,
        span: SpanView,
    },
    Unary { operator: UnaryOperator, operand: Box<ExpressionView>, span: SpanView },
    Call { function: Box<ExpressionView>, arguments: Seq<ExpressionView>, span: SpanView },
    MemberAccess { object: Box<ExpressionView>, member: Seq<char>, span: SpanView },
    List { elements: Seq<ExpressionView>, span: SpanView },
    StructInit {
        struct_name: Seq<char>,
        fields: Seq<(Seq<char>, ExpressionView)>,
        span: SpanView,
    },
}

pub struct VariableView {
    pub name: Seq<char>,
    pub var_type: TypeView,
    pub initializer: ExpressionView,
    pub mutable: bool,
    pub span: SpanView,
}

pub struct BlockView {
    pub statements: Seq<StatementView>,
    pub span: SpanView,
}

pub struct CatchClauseView {
    pub exception_type: Seq<char>,
    pub handler_block: BlockView,
    pub span: SpanView,
}

#[allow(inconsistent_fields)]
pub enum StatementView {
    Expression(ExpressionView),
    Variable(VariableView),
    Assignment { target: ExpressionView, value: ExpressionView, span: SpanView },
    If {
        condition: ExpressionView,
        then_block: BlockView,
        else_ifs: Seq<(ExpressionView, BlockView)>,
        else_block: Option<BlockView>,
        span: SpanView,
    },
    For { variable: Seq<char>, iterable: ExpressionView, body: BlockView, span: SpanView },
    Try { try_block: BlockView, catch_clauses: Seq<CatchClauseView>, span: SpanView },
    Return { value: Option<ExpressionView>, span: SpanView },
}

pub struct ParameterView {
    pub name: Seq<char>,
    pub param_type: TypeView,
    pub default_value: Option<ExpressionView>,
    pub span: SpanView,
}

pub struct FunctionView {
    pub name: Seq<char>,
    pub parameters: Seq<ParameterView>,
    pub return_type: TypeView,
    pub body: BlockView,
    pub span: SpanView,
}

pub struct FieldView {
    pub name: Seq<char>,
    pub field_type: TypeView,
    pub span: SpanView,
}

pub struct StructView {
    pub name: Seq<char>,
    pub fields: Seq<FieldView>,
    pub span: SpanView,
}

pub struct ConstantView {
    pub name: Seq<char>,
    pub const_type: TypeView,
    pub value: ExpressionView,
    pub span: SpanView,
}

pub enum ItemView {
    Function(FunctionView),
    Struct(StructView),
    Variable(VariableView),
    Constant(ConstantView),
}

pub struct ImportView {
    pub path: Seq<char>,
    pub span: SpanView,
}

pub struct ProgramView {
    pub items: Seq<ItemView>,
    pub imports: Seq<ImportView>,
}

pub open spec fn type_view(t: Type) -> TypeView
    decreases t,
{
    match t {
        Type::Int => TypeView::Int,
        Type::Float => TypeView::Float,
        Type::Str => TypeView::Str,
        Type::Bool => TypeView::Bool,
        Type::List(element) => TypeView::List(Box::new(type_view(*element))),
        Type::Struct(name) => TypeView::Struct(name@),
        Type::Void => TypeView::Void,
    }
}

pub open spec fn literal_view(l: Literal) -> LiteralView {
    match l {
        Literal::Integer(n) => LiteralView::Integer(n as int),
        Literal::Float(s) => LiteralView::Float(s@),
        Literal::String(s) => LiteralView::String(s@),
        Literal::Boolean(b) => LiteralView::Boolean(b),
    }
}

pub open spec fn expression_view(e: Expression) -> ExpressionView
    decreases e,
{
    match e {
        Expression::Literal(value, span) => ExpressionView::Literal {
            value: literal_view(value),
            span: span@,
        },
        Expression::Identifier(id) => ExpressionView::Identifier { name: id.name@, span: id.span@ },
        Expression::Binary(op) => ExpressionView::Binary {
            left: Box::new(expression_view(*op.left)),
            operator: op.operator,
            right: Box::new(expression_view(*op.right)),
            span: op.span@,
        },
        Expression::Unary(op) => ExpressionView::Unary {
            operator: op.operator,
            operand: Box::new(expression_view(*op.operand)),
            span: op.span@,
        },
        Expression::Call(call) => ExpressionView::Call {
            function: Box::new(expression_view(*call.function)),
            arguments: expressions_view(call.arguments@),
            span: call.span@,
        },
        Expression::MemberAccess(access) => ExpressionView::MemberAccess {
            object: Box::new(expression_view(*access.object)),
            member: access.member@,
            span: access.span@,
        },
        Expression::List(list) => ExpressionView::List {
            elements: expressions_view(list.elements@),
            span: list.span@,
        },
        Expression::StructInit(init) => ExpressionView::StructInit {
            struct_name: init.struct_name@,
            fields: field_values_view(init.fields@),
            span: init.span@,
        },
    }
}

pub open spec fn expressions_view(es: Seq<Expression>) -> Seq<ExpressionView>
    decreases es,
{
    Seq::new(
        es.len(),
        |i: int|
            if 0 <= i < es.len() {
                expression_view(es[i])
            } else {
                arbitrary()
            },
    )
}

pub open spec fn field_values_view(fields: Seq<(String, Expression)>) -> Seq<
    (Seq<char>, ExpressionView),
>
    decreases fields,
{
    Seq::new(
        fields.len(),
        |i: int|
            if 0 <= i < fields.len() {
                (fields[i].0@, expression_view(fields[i].1))
            } else {
                arbitrary()
            },
    )
}

pub open spec fn variable_view(v: Variable) -> VariableView {
    VariableView {
        name: v.name@,
        var_type: type_view(v.var_type),
        initializer: expression_view(v.initializer),
        mutable: v.mutable,
        span: v.span@,
    }
}

pub open spec fn option_expression_view(e: Option<Expression>) -> Option<ExpressionView> {
    match e {
        Some(e) => Some(expression_view(e)),
        None => None,
    }
}

pub open spec fn statement_view(s: Statement) -> StatementView
    decreases s,
{
    match s {
        Statement::Expression(e) => StatementView::Expression(expression_view(e)),
        Statement::Variable(v) => StatementView::Variable(variable_view(v)),
        Statement::Assignment(a) => StatementView::Assignment {
            target: expression_view(a.target),
            value: expression_view(a.value),
            span: a.span@,
        },
        Statement::If(stmt) => StatementView::If {
            condition: expression_view(stmt.condition),
            then_block: block_view(stmt.then_block),
            else_ifs: else_ifs_view(stmt.else_ifs@),
            else_block: match stmt.else_block {
                Some(b) => Some(block_view(b)),
                None => None,
            },
            span: stmt.span@,
        },
        Statement::For(stmt) => StatementView::For {
            variable: stmt.variable@,
            iterable: expression_view(stmt.iterable),
            body: block_view(stmt.body),
            span: stmt.span@,
        },
        Statement::Try(stmt) => StatementView::Try {
            try_block: block_view(stmt.try_block),
            catch_clauses: catch_clauses_view(stmt.catch_clauses@),
            span: stmt.span@,
        },
        Statement::Return(stmt) => StatementView::Return {
            value: option_expression_view(stmt.value),
            span: stmt.span@,
        },
    }
}

pub open spec fn statements_view(statements: Seq<Statement>) -> Seq<StatementView>
    decreases statements,
{
    Seq::new(
        statements.len(),
        |i: int|
            if 0 <= i < statements.len() {
                statement_view(statements[i])
            } else {
                arbitrary()
            },
    )
}

pub open spec fn block_view(b: Block) -> BlockView
    decreases b,
{
    BlockView { statements: statements_view(b.statements@), span: b.span@ }
}

pub open spec fn else_ifs_view(branches: Seq<(Expression, Block)>) -> Seq<
    (ExpressionView, BlockView),
>
    decreases branches,
{
    Seq::new(
        branches.len(),
        |i: int|
            if 0 <= i < branches.len() {
                (expression_view(branches[i].0), block_view(branches[i].1))
            } else {
                arbitrary()
            },
    )
}

pub open spec fn catch_clause_view(c: CatchClause) -> CatchClauseView
    decreases c,
{
    CatchClauseView {
        exception_type: c.exception_type@,
        handler_block: block_view(c.handler_block),
        span: c.span@,
    }
}

pub open spec fn catch_clauses_view(clauses: Seq<CatchClause>) -> Seq<CatchClauseView>
    decreases clauses,
{
    Seq::new(
        clauses.len(),
        |i: int|
            if 0 <= i < clauses.len() {
                catch_clause_view(clauses[i])
            } else {
                arbitrary()
            },
    )
}

impl View for Type {
    type V = TypeView;

    open spec fn view(&self) -> TypeView {
        type_view(*self)
    }
}

impl DeepView for Type {
    type V = TypeView;

    open spec fn deep_view(&self) -> TypeView {
        type_view(*self)
    }
}

impl View for Literal {
    type V = LiteralView;

    open spec fn view(&self) -> LiteralView {
        literal_view(*self)
    }
}

impl View for Expression {
    type V = ExpressionView;

    open spec fn view(&self) -> ExpressionView {
        expression_view(*self)
    }
}

impl View for Variable {
    type V = VariableView;

    open spec fn view(&self) -> VariableView {
        variable_view(*self)
    }
}

impl View for Statement {
    type V = StatementView;

    open spec fn view(&self) -> StatementView {
        statement_view(*self)
    }
}

impl View for Block {
    type V = BlockView;

    open spec fn view(&self) -> BlockView {
        block_view(*self)
    }
}

impl View for CatchClause {
    type V = CatchClauseView;

    open spec fn view(&self) -> CatchClauseView {
        catch_clause_view(*self)
    }
}

impl View for Parameter {
    type V = ParameterView;

    open spec fn view(&self) -> ParameterView {
        ParameterView {
            name: self.name@,
            param_type: self.param_type@,
            default_value: option_expression_view(self.default_value),
            span: self.span@,
        }
    }
}

impl DeepView for Parameter {
    type V = ParameterView;

    open spec fn deep_view(&self) -> ParameterView {
        self@
    }
}

impl View for Function {
    type V = FunctionView;

    open spec fn view(&self) -> FunctionView {
        FunctionView {
            name: self.name@,
            parameters: self.parameters.deep_view(),
            return_type: self.return_type@,
            body: self.body@,
            span: self.span@,
        }
    }
}

impl View for Field {
    type V = FieldView;

    open spec fn view(&self) -> FieldView {
        FieldView { name: self.name@, field_type: self.field_type@, span: self.span@ }
    }
}

impl DeepView for Field {
    type V = FieldView;

    open spec fn deep_view(&self) -> FieldView {
        self@
    }
}

impl View for Struct {
    type V = StructView;

    open spec fn view(&self) -> StructView {
        StructView { name: self.name@, fields: self.fields.deep_view(), span: self.span@ }
    }
}

impl View for Constant {
    type V = ConstantView;

    open spec fn view(&self) -> ConstantView {
        ConstantView {
            name: self.name@,
            const_type: self.const_type@,
            value: self.value@,
            span: self.span@,
        }
    }
}

impl View for Item {
    type V = ItemView;

    open spec fn view(&self) -> ItemView {
        match self {
            Item::Function(f) => ItemView::Function(f@),
            Item::Struct(s) => ItemView::Struct(s@),
            Item::Variable(v) => ItemView::Variable(v@),
            Item::Constant(c) => ItemView::Constant(c@),
        }
    }
}

impl DeepView for Item {
    type V = ItemView;

    open spec fn deep_view(&self) -> ItemView {
        self@
    }
}

impl View for Import {
    type V = ImportView;

    open spec fn view(&self) -> ImportView {
        ImportView { path: self.path@, span: self.span@ }
    }
}

impl DeepView for Import {
    type V = ImportView;

    open spec fn deep_view(&self) -> ImportView {
        self@
    }
}

impl View for Program {
    type V = ProgramView;

    open spec fn view(&self) -> ProgramView {
        ProgramView { items: self.items.deep_view(), imports: self.imports.deep_view() }
    }
}

impl Clone for Type {
    fn clone(&self) -> (copy: Type)
        ensures
            copy@ == self@,
    {
        self.duplicate()
    }
}

impl Type {
    /// A copy of this type.
    pub fn duplicate(&self) -> (copy: Type)
        ensures
            copy@ == self@,
        decreases self,
    {
        match self {
            Type::Int => Type::Int,
            Type::Float => Type::Float,
            Type::Str => Type::Str,
            Type::Bool => Type::Bool,
            Type::List(element) => Type::List(Box::new(element.duplicate())),
            Type::Struct(name) => Type::Struct(name.clone()),
            Type::Void => Type::Void,
        }
    }
}

} // verus!
