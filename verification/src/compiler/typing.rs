//! The static semantics of the language: scopes, name resolution and
//! typing rules, as functions from a syntax tree to the diagnostics that
//! it deserves.

use vstd::prelude::*;
use crate::compiler::ast::{
    BinaryOperator, BlockView, CatchClauseView, ConstantView, ExpressionView, FieldView,
    FunctionView, ItemView, LiteralView, ParameterView, ProgramView, StatementView, StructView,
    TypeView, UnaryOperator, VariableView,
};
use crate::compiler::grammar::expression_span;
use crate::diagnostics::{error_at, DiagnosticView, SpanView};
use crate::text::decimal_text;

verus! {

/// A name in scope: a variable, a constant, a parameter or a loop
/// variable. It has no type where its declaration failed to give one.
pub struct BindingView {
    pub name: Seq<char>,
    pub ty: Option<TypeView>,
    pub mutable: bool,
}

/// The chain of scopes, the global scope first and the innermost last.
pub type ScopesView = Seq<Seq<BindingView>>;

/// The latest binding of `name` in one scope.
pub open spec fn lookup_in(scope: Seq<BindingView>, name: Seq<char>) -> Option<BindingView>
    decreases scope.len(),
{
    if scope.len() == 0 {
        None
    } else if scope.last().name == name {
        Some(scope.last())
    } else {
        lookup_in(scope.drop_last(), name)
    }
}

/// The binding of `name` that is visible: that of the innermost scope
/// that holds one.
pub open spec fn lookup(scopes: ScopesView, name: Seq<char>) -> Option<BindingView>
    decreases scopes.len(),
{
    if scopes.len() == 0 {
        None
    } else {
        match lookup_in(scopes.last(), name) {
            Some(binding) => Some(binding),
            None => lookup(scopes.drop_last(), name),
        }
    }
}

/// The scopes with `binding` added to the innermost one.
pub open spec fn declare(scopes: ScopesView, binding: BindingView) -> ScopesView {
    if scopes.len() == 0 {
        seq![seq![binding]]
    } else {
        scopes.drop_last().push(scopes.last().push(binding))
    }
}

/// Whether the innermost scope binds `name`.
pub open spec fn declared_here(scopes: ScopesView, name: Seq<char>) -> bool {
    scopes.len() > 0 && lookup_in(scopes.last(), name) is Some
}

/// The name that an item declares.
pub open spec fn item_name(item: ItemView) -> Seq<char> {
    match item {
        ItemView::Function(f) => f.name,
        ItemView::Struct(s) => s.name,
        ItemView::Variable(v) => v.name,
        ItemView::Constant(c) => c.name,
    }
}

/// The span of an item.
pub open spec fn item_span(item: ItemView) -> SpanView {
    match item {
        ItemView::Function(f) => f.span,
        ItemView::Struct(s) => s.span,
        ItemView::Variable(v) => v.span,
        ItemView::Constant(c) => c.span,
    }
}

/// The index of the first struct named `name` among the items at `from`
/// and behind.
pub open spec fn struct_index_from(items: Seq<ItemView>, name: Seq<char>, from: int) -> Option<int>
    decreases items.len() - from,
{
    if from < 0 || from >= items.len() {
        None
    } else if items[from] is Struct && items[from]->Struct_0.name == name {
        Some(from)
    } else {
        struct_index_from(items, name, from + 1)
    }
}

/// The declaration of the struct `name`.
pub open spec fn find_struct(items: Seq<ItemView>, name: Seq<char>) -> Option<StructView> {
    match struct_index_from(items, name, 0) {
        Some(i) => Some(items[i]->Struct_0),
        None => None,
    }
}

/// The first function named `name` among the items at `from` and behind.
pub open spec fn function_from(items: Seq<ItemView>, name: Seq<char>, from: int) -> Option<
    FunctionView,
>
    decreases items.len() - from,
{
    if from < 0 || from >= items.len() {
        None
    } else if items[from] is Function && items[from]->Function_0.name == name {
        Some(items[from]->Function_0)
    } else {
        function_from(items, name, from + 1)
    }
}

/// The declaration of the function `name`.
pub open spec fn find_function(items: Seq<ItemView>, name: Seq<char>) -> Option<FunctionView> {
    function_from(items, name, 0)
}

/// The index of the first field named `name` at `from` and behind.
pub open spec fn field_index_from(fields: Seq<FieldView>, name: Seq<char>, from: int) -> Option<int>
    decreases fields.len() - from,
{
    if from < 0 || from >= fields.len() {
        None
    } else if fields[from].name == name {
        Some(from)
    } else {
        field_index_from(fields, name, from + 1)
    }
}

/// The declared field `name` of a struct.
pub open spec fn find_field(fields: Seq<FieldView>, name: Seq<char>) -> Option<FieldView> {
    match field_index_from(fields, name, 0) {
        Some(i) => Some(fields[i]),
        None => None,
    }
}

/// The index of the first value given for the field `name` at `from`
/// and behind.
pub open spec fn value_index_from(
    values: Seq<(Seq<char>, ExpressionView)>,
    name: Seq<char>,
    from: int,
) -> Option<int>
    decreases values.len() - from,
{
    if from < 0 || from >= values.len() {
        None
    } else if values[from].0 == name {
        Some(from)
    } else {
        value_index_from(values, name, from + 1)
    }
}

/// The index of the value that a struct literal gives for the field
/// `name`: the first one, where it gives several.
pub open spec fn value_index(values: Seq<(Seq<char>, ExpressionView)>, name: Seq<char>) -> Option<
    int,
> {
    value_index_from(values, name, 0)
}

/// The text of a type, as the source writes it.
pub open spec fn type_text(t: TypeView) -> Seq<char>
    decreases t,
{
    match t {
        TypeView::Int => "Int"@,
        TypeView::Float => "Float"@,
        TypeView::Str => "Str"@,
        TypeView::Bool => "Bool"@,
        TypeView::Void => "Void"@,
        TypeView::List(element) => "List<"@ + type_text(*element) + ">"@,
        TypeView::Struct(name) => name,
    }
}

/// The text of a binary operator, as the source writes it.
pub open spec fn binary_operator_text(operator: BinaryOperator) -> Seq<char> {
    match operator {
        BinaryOperator::Add => "+"@,
        BinaryOperator::Sub => "-"@,
        BinaryOperator::Mul => "*"@,
        BinaryOperator::Div => "/"@,
        BinaryOperator::Mod => "%"@,
        BinaryOperator::Eq => "=="@,
        BinaryOperator::Ne => "!="@,
        BinaryOperator::Lt => "<"@,
        BinaryOperator::Le => "<="@,
        BinaryOperator::Gt => ">"@,
        BinaryOperator::Ge => ">="@,
        BinaryOperator::And => "&&"@,
        BinaryOperator::Or => "||"@,
    }
}

/// The text of a unary operator, as the source writes it.
pub open spec fn unary_operator_text(operator: UnaryOperator) -> Seq<char> {
    match operator {
        UnaryOperator::Neg => "-"@,
        UnaryOperator::Not => "!"@,
    }
}

// The messages of the diagnostics.

pub open spec fn undefined_name(name: Seq<char>) -> Seq<char> {
    "Undefined name '"@ + name + "'"@
}

pub open spec fn undefined_function(name: Seq<char>) -> Seq<char> {
    "Undefined function '"@ + name + "'"@
}

pub open spec fn undefined_struct(name: Seq<char>) -> Seq<char> {
    "Undefined struct '"@ + name + "'"@
}

pub open spec fn unknown_type(name: Seq<char>) -> Seq<char> {
    "Unknown type '"@ + name + "'"@
}

pub open spec fn misplaced_void() -> Seq<char> {
    "Type 'Void' is only valid as a return type"@
}

pub open spec fn duplicate_definition(name: Seq<char>) -> Seq<char> {
    "Duplicate definition of '"@ + name + "'"@
}

pub open spec fn type_mismatch(expected: TypeView, found: TypeView) -> Seq<char> {
    "Type mismatch: expected '"@ + type_text(expected) + "', found '"@ + type_text(found) + "'"@
}

pub open spec fn bad_binary_operands(operator: BinaryOperator, left: TypeView, right: TypeView) -> Seq<
    char,
> {
    "Operator '"@ + binary_operator_text(operator) + "' cannot be applied to '"@ + type_text(left)
        + "' and '"@ + type_text(right) + "'"@
}

pub open spec fn bad_unary_operand(operator: UnaryOperator, operand: TypeView) -> Seq<char> {
    "Operator '"@ + unary_operator_text(operator) + "' cannot be applied to '"@ + type_text(
        operand,
    ) + "'"@
}

pub open spec fn not_callable() -> Seq<char> {
    "Expression is not callable"@
}

pub open spec fn too_many_arguments(function: Seq<char>, expected: nat, found: nat) -> Seq<char> {
    "Function '"@ + function + "' takes at most "@ + decimal_text(expected)
        + " argument(s), found "@ + decimal_text(found)
}

pub open spec fn missing_argument(function: Seq<char>, parameter: Seq<char>) -> Seq<char> {
    "Missing argument for parameter '"@ + parameter + "' of function '"@ + function + "'"@
}

pub open spec fn no_such_member(object: TypeView, member: Seq<char>) -> Seq<char> {
    "Type '"@ + type_text(object) + "' has no field '"@ + member + "'"@
}

pub open spec fn empty_list() -> Seq<char> {
    "Cannot infer the element type of an empty list"@
}

pub open spec fn missing_field(struct_name: Seq<char>, field: Seq<char>) -> Seq<char> {
    "Missing field '"@ + field + "' in initializer of struct '"@ + struct_name + "'"@
}

pub open spec fn unknown_field(struct_name: Seq<char>, field: Seq<char>) -> Seq<char> {
    "Unknown field '"@ + field + "' in initializer of struct '"@ + struct_name + "'"@
}

pub open spec fn duplicate_field_value(struct_name: Seq<char>, field: Seq<char>) -> Seq<char> {
    "Duplicate field '"@ + field + "' in initializer of struct '"@ + struct_name + "'"@
}

pub open spec fn immutable_target(name: Seq<char>) -> Seq<char> {
    "Cannot assign to immutable binding '"@ + name + "'"@
}

pub open spec fn invalid_target() -> Seq<char> {
    "Invalid assignment target"@
}

pub open spec fn not_iterable(found: TypeView) -> Seq<char> {
    "Type mismatch: expected 'List', found '"@ + type_text(found) + "'"@
}

pub open spec fn unknown_exception(name: Seq<char>) -> Seq<char> {
    "Unknown exception type '"@ + name + "'"@
}

pub open spec fn duplicate_catch(name: Seq<char>) -> Seq<char> {
    "Duplicate catch clause for '"@ + name + "'"@
}

pub open spec fn missing_return_value(expected: TypeView) -> Seq<char> {
    "Missing return value: expected '"@ + type_text(expected) + "'"@
}

pub open spec fn unexpected_return_value() -> Seq<char> {
    "A function that returns 'Void' must not return a value"@
}

pub open spec fn duplicate_member(struct_name: Seq<char>, field: Seq<char>) -> Seq<char> {
    "Duplicate field '"@ + field + "' in struct '"@ + struct_name + "'"@
}

pub open spec fn duplicate_parameter(function: Seq<char>, parameter: Seq<char>) -> Seq<char> {
    "Duplicate parameter '"@ + parameter + "' in function '"@ + function + "'"@
}

pub open spec fn cyclic_struct(name: Seq<char>) -> Seq<char> {
    "Struct '"@ + name + "' has no finite size: its fields hold a cycle by value"@
}

/// The diagnostics of a type written in a declaration: a struct type
/// must name a declared struct, and `Void` may stand for no value.
pub open spec fn check_type(items: Seq<ItemView>, t: TypeView, span: SpanView) -> Seq<
    DiagnosticView,
>
    decreases t,
{
    match t {
        TypeView::Void => seq![error_at(misplaced_void(), span)],
        TypeView::List(element) => check_type(items, *element, span),
        TypeView::Struct(name) => if find_struct(items, name) is Some {
            Seq::empty()
        } else {
            seq![error_at(unknown_type(name), span)]
        },
        _ => Seq::empty(),
    }
}

/// The diagnostics of a return type: as `check_type`, but `Void` is
/// accepted.
pub open spec fn check_return_type(items: Seq<ItemView>, t: TypeView, span: SpanView) -> Seq<
    DiagnosticView,
> {
    if t == TypeView::Void {
        Seq::empty()
    } else {
        check_type(items, t, span)
    }
}

/// The type of a literal.
pub open spec fn literal_type(value: LiteralView) -> TypeView {
    match value {
        LiteralView::Integer(_) => TypeView::Int,
        LiteralView::Float(_) => TypeView::Float,
        LiteralView::String(_) => TypeView::Str,
        LiteralView::Boolean(_) => TypeView::Bool,
    }
}

pub open spec fn is_numeric(t: TypeView) -> bool {
    t == TypeView::Int || t == TypeView::Float
}

/// The type of a binary operation on operands of the given types, if
/// the operator accepts them. Arithmetic and ordering take two `Int` or
/// two `Float`; equality takes two values of one type; the logical
/// operators take two `Bool`.
pub open spec fn binary_type(operator: BinaryOperator, left: TypeView, right: TypeView) -> Option<
    TypeView,
> {
    match operator {
        BinaryOperator::Add | BinaryOperator::Sub | BinaryOperator::Mul | BinaryOperator::Div
        | BinaryOperator::Mod => if left == right && is_numeric(left) {
            Some(left)
        } else {
            None
        },
        BinaryOperator::Lt | BinaryOperator::Le | BinaryOperator::Gt | BinaryOperator::Ge => if left
            == right && is_numeric(left) {
            Some(TypeView::Bool)
        } else {
            None
        },
        BinaryOperator::Eq | BinaryOperator::Ne => if left == right && left != TypeView::Void {
            Some(TypeView::Bool)
        } else {
            None
        },
        BinaryOperator::And | BinaryOperator::Or => if left == TypeView::Bool && right
            == TypeView::Bool {
            Some(TypeView::Bool)
        } else {
            None
        },
    }
}

/// The type of a unary operation, if the operator accepts the operand.
pub open spec fn unary_type(operator: UnaryOperator, operand: TypeView) -> Option<TypeView> {
    match operator {
        UnaryOperator::Neg => if is_numeric(operand) {
            Some(operand)
        } else {
            None
        },
        UnaryOperator::Not => if operand == TypeView::Bool {
            Some(TypeView::Bool)
        } else {
            None
        },
    }
}

/// What the analysis of an expression yields: its type, where it has
/// one, and the diagnostics of the expression and its parts.
pub struct Checked {
    pub ty: Option<TypeView>,
    pub diagnostics: Seq<DiagnosticView>,
}

/// The diagnostic of a value of type `found` where `expected` is asked
/// for, or none where they agree or the value has no type.
pub open spec fn expect_type(expected: TypeView, found: Option<TypeView>, span: SpanView) -> Seq<
    DiagnosticView,
> {
    match found {
        Some(t) => if t == expected {
            Seq::empty()
        } else {
            seq![error_at(type_mismatch(expected, t), span)]
        },
        None => Seq::empty(),
    }
}

/// The diagnostics of the arguments of a call against the parameters:
/// of the first `n` parameters, each is given an argument of its type
/// or declares a default value.
pub open spec fn check_arguments(
    function: FunctionView,
    arguments: Seq<ExpressionView>,
    types: Seq<Option<TypeView>>,
    span: SpanView,
    n: nat,
) -> Seq<DiagnosticView>
    decreases n,
{
    if n == 0 || n > function.parameters.len() {
        Seq::empty()
    } else {
        let i = n - 1;
        let parameter = function.parameters[i];
        check_arguments(function, arguments, types, span, (n - 1) as nat) + if i
            < arguments.len() && i < types.len() {
            expect_type(parameter.param_type, types[i], expression_span(arguments[i]))
        } else if parameter.default_value is None {
            seq![error_at(missing_argument(function.name, parameter.name), span)]
        } else {
            Seq::empty()
        }
    }
}

/// The diagnostics of a call of `function`: no more arguments than
/// parameters, and `check_arguments` for all parameters.
pub open spec fn check_call(
    function: FunctionView,
    arguments: Seq<ExpressionView>,
    types: Seq<Option<TypeView>>,
    span: SpanView,
) -> Seq<DiagnosticView> {
    (if arguments.len() > function.parameters.len() {
        seq![
            error_at(
                too_many_arguments(function.name, function.parameters.len(), arguments.len()),
                span,
            ),
        ]
    } else {
        Seq::empty()
    }) + check_arguments(function, arguments, types, span, function.parameters.len())
}

/// The type and the diagnostics of an expression in the given scopes.
pub open spec fn infer(items: Seq<ItemView>, scopes: ScopesView, e: ExpressionView) -> Checked
    decreases e, 0nat,
{
    match e {
        ExpressionView::Literal { value, .. } => Checked {
            ty: Some(literal_type(value)),
            diagnostics: Seq::empty(),
        },
        ExpressionView::Identifier { name, span } => match lookup(scopes, name) {
            Some(binding) => Checked { ty: binding.ty, diagnostics: Seq::empty() },
            None => Checked { ty: None, diagnostics: seq![error_at(undefined_name(name), span)] },
        },
        ExpressionView::Binary { left, operator, right, span } => {
            let l = infer(items, scopes, *left);
            let r = infer(items, scopes, *right);
            let both = l.diagnostics + r.diagnostics;
            match (l.ty, r.ty) {
                (Some(lt), Some(rt)) => match binary_type(operator, lt, rt) {
                    Some(t) => Checked { ty: Some(t), diagnostics: both },
                    None => Checked {
                        ty: None,
                        diagnostics: both.push(error_at(bad_binary_operands(operator, lt, rt), span)),
                    },
                },
                _ => Checked { ty: None, diagnostics: both },
            }
        },
        ExpressionView::Unary { operator, operand, span } => {
            let inner = infer(items, scopes, *operand);
            match inner.ty {
                Some(t) => match unary_type(operator, t) {
                    Some(result) => Checked { ty: Some(result), diagnostics: inner.diagnostics },
                    None => Checked {
                        ty: None,
                        diagnostics: inner.diagnostics.push(
                            error_at(bad_unary_operand(operator, t), span),
                        ),
                    },
                },
                None => Checked { ty: None, diagnostics: inner.diagnostics },
            }
        },
        ExpressionView::Call { function, arguments, span } => {
            let given = infer_all(items, scopes, arguments, arguments.len());
            match *function {
                ExpressionView::Identifier { name, span: name_span } => match find_function(
                    items,
                    name,
                ) {
                    Some(f) => Checked {
                        ty: Some(f.return_type),
                        diagnostics: given.1 + check_call(f, arguments, given.0, span),
                    },
                    None => Checked {
                        ty: None,
                        diagnostics: given.1.push(error_at(undefined_function(name), name_span)),
                    },
                },
                _ => Checked {
                    ty: None,
                    diagnostics: given.1.push(error_at(not_callable(), expression_span(*function))),
                },
            }
        },
        ExpressionView::MemberAccess { object, member, span } => {
            let inner = infer(items, scopes, *object);
            match inner.ty {
                Some(t) => match member_type(items, t, member) {
                    Some(field_type) => Checked {
                        ty: Some(field_type),
                        diagnostics: inner.diagnostics,
                    },
                    None => Checked {
                        ty: None,
                        diagnostics: inner.diagnostics.push(
                            error_at(no_such_member(t, member), span),
                        ),
                    },
                },
                None => Checked { ty: None, diagnostics: inner.diagnostics },
            }
        },
        ExpressionView::List { elements, span } => {
            let given = infer_all(items, scopes, elements, elements.len());
            if elements.len() == 0 {
                Checked { ty: None, diagnostics: seq![error_at(empty_list(), span)] }
            } else {
                match given.0[0] {
                    Some(first) => Checked {
                        ty: Some(TypeView::List(Box::new(first))),
                        diagnostics: given.1 + check_elements(
                            first,
                            elements,
                            given.0,
                            elements.len(),
                        ),
                    },
                    None => Checked { ty: None, diagnostics: given.1 },
                }
            }
        },
        ExpressionView::StructInit { struct_name, fields, span } => {
            match find_struct(items, struct_name) {
                Some(declaration) => Checked {
                    ty: Some(TypeView::Struct(struct_name)),
                    diagnostics: check_declared_fields(
                        items,
                        scopes,
                        declaration,
                        fields,
                        span,
                        declaration.fields.len(),
                    ) + check_given_fields(items, scopes, declaration, fields, fields.len()),
                },
                None => Checked {
                    ty: None,
                    diagnostics: seq![error_at(undefined_struct(struct_name), span)]
                        + infer_values(items, scopes, fields, fields.len()),
                },
            }
        },
    }
}

/// The type of the field `member` of a value of type `object`.
pub open spec fn member_type(items: Seq<ItemView>, object: TypeView, member: Seq<char>) -> Option<
    TypeView,
> {
    match object {
        TypeView::Struct(name) => match find_struct(items, name) {
            Some(declaration) => match find_field(declaration.fields, member) {
                Some(field) => Some(field.field_type),
                None => None,
            },
            None => None,
        },
        _ => None,
    }
}

/// The types and the diagnostics of the first `n` of the expressions.
pub open spec fn infer_all(
    items: Seq<ItemView>,
    scopes: ScopesView,
    es: Seq<ExpressionView>,
    n: nat,
) -> (Seq<Option<TypeView>>, Seq<DiagnosticView>)
    decreases es, n,
{
    if n == 0 || n > es.len() {
        (Seq::empty(), Seq::empty())
    } else {
        let before = infer_all(items, scopes, es, (n - 1) as nat);
        let last = infer(items, scopes, es[n - 1]);
        (before.0.push(last.ty), before.1 + last.diagnostics)
    }
}

/// The diagnostics of the elements of a list literal behind the first,
/// among the first `n`: each has the type of the first.
pub open spec fn check_elements(
    first: TypeView,
    elements: Seq<ExpressionView>,
    types: Seq<Option<TypeView>>,
    n: nat,
) -> Seq<DiagnosticView>
    decreases n,
{
    if n <= 1 || n > elements.len() || n > types.len() {
        Seq::empty()
    } else {
        check_elements(first, elements, types, (n - 1) as nat) + expect_type(
            first,
            types[n - 1],
            expression_span(elements[n - 1]),
        )
    }
}

/// The diagnostics of a struct literal for the first `n` declared
/// fields, in the order of the declaration: a field that is given no
/// value is missing; a value has the type of its field.
pub open spec fn check_declared_fields(
    items: Seq<ItemView>,
    scopes: ScopesView,
    declaration: StructView,
    values: Seq<(Seq<char>, ExpressionView)>,
    span: SpanView,
    n: nat,
) -> Seq<DiagnosticView>
    decreases values, n,
{
    if n == 0 || n > declaration.fields.len() {
        Seq::empty()
    } else {
        let field = declaration.fields[n - 1];
        check_declared_fields(items, scopes, declaration, values, span, (n - 1) as nat)
            + match value_index(values, field.name) {
            Some(i) => if 0 <= i < values.len() {
                let value = infer(items, scopes, values[i].1);
                value.diagnostics + expect_type(
                    field.field_type,
                    value.ty,
                    expression_span(values[i].1),
                )
            } else {
                Seq::empty()
            },
            None => seq![error_at(missing_field(declaration.name, field.name), span)],
        }
    }
}

/// The diagnostics of a struct literal for the first `n` values that it
/// gives, in the order in which it gives them: a value for a field that
/// the struct does not declare, or a second value for a field. The
/// parts of such a value are checked here; those of the others are
/// checked with their fields.
pub open spec fn check_given_fields(
    items: Seq<ItemView>,
    scopes: ScopesView,
    declaration: StructView,
    values: Seq<(Seq<char>, ExpressionView)>,
    n: nat,
) -> Seq<DiagnosticView>
    decreases values, n,
{
    if n == 0 || n > values.len() {
        Seq::empty()
    } else {
        let (name, value) = values[n - 1];
        check_given_fields(items, scopes, declaration, values, (n - 1) as nat) + if find_field(
            declaration.fields,
            name,
        ) is None {
            seq![error_at(unknown_field(declaration.name, name), expression_span(value))] + infer(
                items,
                scopes,
                value,
            ).diagnostics
        } else if value_index(values, name) != Some(n - 1) {
            seq![error_at(duplicate_field_value(declaration.name, name), expression_span(value))]
                + infer(items, scopes, value).diagnostics
        } else {
            Seq::empty()
        }
    }
}

/// The diagnostics of the first `n` values of a literal of a struct
/// that is not declared.
pub open spec fn infer_values(
    items: Seq<ItemView>,
    scopes: ScopesView,
    values: Seq<(Seq<char>, ExpressionView)>,
    n: nat,
) -> Seq<DiagnosticView>
    decreases values, n,
{
    if n == 0 || n > values.len() {
        Seq::empty()
    } else {
        infer_values(items, scopes, values, (n - 1) as nat) + infer(
            items,
            scopes,
            values[n - 1].1,
        ).diagnostics
    }
}

/// The name at the root of an assignment target: the name itself, or
/// the name whose fields the target reaches through.
pub open spec fn root_name(e: ExpressionView) -> Option<Seq<char>>
    decreases e,
{
    match e {
        ExpressionView::Identifier { name, .. } => Some(name),
        ExpressionView::MemberAccess { object, .. } => root_name(*object),
        _ => None,
    }
}

/// The diagnostics of an assignment target: it is a mutable binding or
/// a field reached from one.
pub open spec fn check_target(scopes: ScopesView, target: ExpressionView) -> Seq<DiagnosticView> {
    match root_name(target) {
        None => seq![error_at(invalid_target(), expression_span(target))],
        Some(name) => match lookup(scopes, name) {
            Some(binding) => if binding.mutable {
                Seq::empty()
            } else {
                seq![error_at(immutable_target(name), expression_span(target))]
            },
            None => Seq::empty(),
        },
    }
}

/// The diagnostics of a variable declaration: its type is valid and
/// its initializer has that type.
pub open spec fn check_variable(items: Seq<ItemView>, scopes: ScopesView, v: VariableView) -> Seq<
    DiagnosticView,
> {
    let value = infer(items, scopes, v.initializer);
    check_type(items, v.var_type, v.span) + value.diagnostics + expect_type(
        v.var_type,
        value.ty,
        expression_span(v.initializer),
    )
}

/// The binding that a variable declaration makes.
pub open spec fn variable_binding(v: VariableView) -> BindingView {
    BindingView { name: v.name, ty: Some(v.var_type), mutable: v.mutable }
}

/// The diagnostics of a condition: it is a `Bool`.
pub open spec fn check_condition(items: Seq<ItemView>, scopes: ScopesView, c: ExpressionView) -> Seq<
    DiagnosticView,
> {
    let value = infer(items, scopes, c);
    value.diagnostics + expect_type(TypeView::Bool, value.ty, expression_span(c))
}

/// The type of the elements that a `for` loop over a value of the given
/// type binds, and the diagnostic of a value that is no list.
pub open spec fn element_type(iterable: Option<TypeView>, span: SpanView) -> (
    Option<TypeView>,
    Seq<DiagnosticView>,
) {
    match iterable {
        Some(TypeView::List(element)) => (Some(*element), Seq::empty()),
        Some(other) => (None, seq![error_at(not_iterable(other), span)]),
        None => (None, Seq::empty()),
    }
}

/// Whether `name` names a type that a `catch` clause may name: a
/// primitive type or a declared struct.
pub open spec fn known_exception(items: Seq<ItemView>, name: Seq<char>) -> bool {
    name == "Int"@ || name == "Float"@ || name == "Str"@ || name == "Bool"@ || find_struct(
        items,
        name,
    ) is Some
}

/// Whether one of the first `n` clauses catches `name`.
pub open spec fn caught_among(clauses: Seq<CatchClauseView>, name: Seq<char>, n: nat) -> bool
    decreases n,
{
    if n == 0 || n > clauses.len() {
        false
    } else {
        clauses[n - 1].exception_type == name || caught_among(clauses, name, (n - 1) as nat)
    }
}

/// The diagnostics of a `return` with the value of the given type, in
/// a function that returns `expected`.
pub open spec fn check_return(
    expected: TypeView,
    value: Option<ExpressionView>,
    found: Option<TypeView>,
    span: SpanView,
) -> Seq<DiagnosticView> {
    match value {
        None => if expected == TypeView::Void {
            Seq::empty()
        } else {
            seq![error_at(missing_return_value(expected), span)]
        },
        Some(e) => if expected == TypeView::Void {
            seq![error_at(unexpected_return_value(), expression_span(e))]
        } else {
            expect_type(expected, found, expression_span(e))
        },
    }
}

/// The diagnostics of a variable declaration in a block: as
/// `check_variable`, and the innermost scope does not bind the name yet.
pub open spec fn check_declaration(items: Seq<ItemView>, scopes: ScopesView, v: VariableView) -> Seq<
    DiagnosticView,
> {
    (if declared_here(scopes, v.name) {
        seq![error_at(duplicate_definition(v.name), v.span)]
    } else {
        Seq::empty()
    }) + check_variable(items, scopes, v)
}

/// The diagnostics of an assignment: the target can be assigned to,
/// and the value has the type of the target.
pub open spec fn check_assignment(
    items: Seq<ItemView>,
    scopes: ScopesView,
    target: ExpressionView,
    value: ExpressionView,
) -> Seq<DiagnosticView> {
    let t = infer(items, scopes, target);
    let v = infer(items, scopes, value);
    t.diagnostics + check_target(scopes, target) + v.diagnostics + match t.ty {
        Some(target_type) => expect_type(target_type, v.ty, expression_span(value)),
        None => Seq::empty(),
    }
}

/// The diagnostics of a `return` statement in a function that returns
/// `expected`.
pub open spec fn check_return_statement(
    items: Seq<ItemView>,
    scopes: ScopesView,
    expected: TypeView,
    value: Option<ExpressionView>,
    span: SpanView,
) -> Seq<DiagnosticView> {
    match value {
        None => check_return(expected, value, None, span),
        Some(e) => {
            let v = infer(items, scopes, e);
            v.diagnostics + check_return(expected, value, v.ty, span)
        },
    }
}

/// The diagnostics of an `if` statement: the conditions are `Bool`, and
/// the blocks are checked in order.
pub open spec fn check_if(
    items: Seq<ItemView>,
    scopes: ScopesView,
    expected: TypeView,
    s: StatementView,
) -> Seq<DiagnosticView>
    decreases s, 0nat,
{
    match s {
        StatementView::If { condition, then_block, else_ifs, else_block, span } => check_condition(
            items,
            scopes,
            condition,
        ) + check_block(items, scopes, expected, then_block) + check_else_ifs(
            items,
            scopes,
            expected,
            else_ifs,
            else_ifs.len(),
        ) + match else_block {
            Some(block) => check_block(items, scopes, expected, block),
            None => Seq::empty(),
        },
        _ => Seq::empty(),
    }
}

/// The diagnostics of a `for` statement: the iterable is a list, and
/// the body is checked in a scope that binds the loop variable to the
/// type of the list's elements.
pub open spec fn check_for(
    items: Seq<ItemView>,
    scopes: ScopesView,
    expected: TypeView,
    s: StatementView,
) -> Seq<DiagnosticView>
    decreases s, 0nat,
{
    match s {
        StatementView::For { variable, iterable, body, span } => {
            let value = infer(items, scopes, iterable);
            let element = element_type(value.ty, expression_span(iterable));
            value.diagnostics + element.1 + check_block(
                items,
                scopes.push(seq![BindingView { name: variable, ty: element.0, mutable: false }]),
                expected,
                body,
            )
        },
        _ => Seq::empty(),
    }
}

/// The diagnostics of a `try` statement: those of its block and of its
/// `catch` clauses.
pub open spec fn check_try(
    items: Seq<ItemView>,
    scopes: ScopesView,
    expected: TypeView,
    s: StatementView,
) -> Seq<DiagnosticView>
    decreases s, 0nat,
{
    match s {
        StatementView::Try { try_block, catch_clauses, span } => check_block(
            items,
            scopes,
            expected,
            try_block,
        ) + check_catches(items, scopes, expected, catch_clauses, catch_clauses.len()),
        _ => Seq::empty(),
    }
}

/// The scopes behind a statement and the diagnostics of the statement,
/// in a function that returns `expected`. Only a variable declaration
/// changes the scopes.
pub open spec fn check_statement(
    items: Seq<ItemView>,
    scopes: ScopesView,
    expected: TypeView,
    s: StatementView,
) -> (ScopesView, Seq<DiagnosticView>)
    decreases s, 1nat,
{
    match s {
        StatementView::Expression(e) => (scopes, infer(items, scopes, e).diagnostics),
        StatementView::Variable(v) => (
            declare(scopes, variable_binding(v)),
            check_declaration(items, scopes, v),
        ),
        StatementView::Assignment { target, value, span } => (
            scopes,
            check_assignment(items, scopes, target, value),
        ),
        StatementView::If { .. } => (scopes, check_if(items, scopes, expected, s)),
        StatementView::For { .. } => (scopes, check_for(items, scopes, expected, s)),
        StatementView::Try { .. } => (scopes, check_try(items, scopes, expected, s)),
        StatementView::Return { value, span } => (
            scopes,
            check_return_statement(items, scopes, expected, value, span),
        ),
    }
}

/// The diagnostics of a block, whose statements are checked in a scope
/// of their own.
pub open spec fn check_block(
    items: Seq<ItemView>,
    scopes: ScopesView,
    expected: TypeView,
    block: BlockView,
) -> Seq<DiagnosticView>
    decreases block, 0nat,
{
    check_statements(
        items,
        scopes.push(Seq::empty()),
        expected,
        block.statements,
        block.statements.len(),
    ).1
}

/// The scopes behind the first `n` statements and their diagnostics.
pub open spec fn check_statements(
    items: Seq<ItemView>,
    scopes: ScopesView,
    expected: TypeView,
    statements: Seq<StatementView>,
    n: nat,
) -> (ScopesView, Seq<DiagnosticView>)
    decreases statements, n,
{
    if n == 0 || n > statements.len() {
        (scopes, Seq::empty())
    } else {
        let before = check_statements(items, scopes, expected, statements, (n - 1) as nat);
        let last = check_statement(items, before.0, expected, statements[n - 1]);
        (last.0, before.1 + last.1)
    }
}

/// The diagnostics of one `else if` branch: its condition is a `Bool`,
/// and its block is checked.
pub open spec fn check_else_if(
    items: Seq<ItemView>,
    scopes: ScopesView,
    expected: TypeView,
    branch: (ExpressionView, BlockView),
) -> Seq<DiagnosticView>
    decreases branch, 0nat,
{
    check_condition(items, scopes, branch.0) + check_block(items, scopes, expected, branch.1)
}

/// The diagnostics of the first `n` `else if` branches.
pub open spec fn check_else_ifs(
    items: Seq<ItemView>,
    scopes: ScopesView,
    expected: TypeView,
    branches: Seq<(ExpressionView, BlockView)>,
    n: nat,
) -> Seq<DiagnosticView>
    decreases branches, n,
{
    if n == 0 || n > branches.len() {
        Seq::empty()
    } else {
        check_else_ifs(items, scopes, expected, branches, (n - 1) as nat) + check_else_if(
            items,
            scopes,
            expected,
            branches[n - 1],
        )
    }
}

/// The diagnostics of the name of the exception type of a `catch`
/// clause: it is a known type, and no clause before names it, which
/// `repeated` tells.
pub open spec fn check_exception(
    items: Seq<ItemView>,
    clause: CatchClauseView,
    repeated: bool,
) -> Seq<DiagnosticView> {
    (if known_exception(items, clause.exception_type) {
        Seq::empty()
    } else {
        seq![error_at(unknown_exception(clause.exception_type), clause.span)]
    }) + (if repeated {
        seq![error_at(duplicate_catch(clause.exception_type), clause.span)]
    } else {
        Seq::empty()
    })
}

/// The diagnostics of one `catch` clause: those of its exception type
/// and of its handler.
pub open spec fn check_catch(
    items: Seq<ItemView>,
    scopes: ScopesView,
    expected: TypeView,
    clause: CatchClauseView,
    repeated: bool,
) -> Seq<DiagnosticView>
    decreases clause, 0nat,
{
    check_exception(items, clause, repeated) + check_block(
        items,
        scopes,
        expected,
        clause.handler_block,
    )
}

/// The diagnostics of the first `n` `catch` clauses.
pub open spec fn check_catches(
    items: Seq<ItemView>,
    scopes: ScopesView,
    expected: TypeView,
    clauses: Seq<CatchClauseView>,
    n: nat,
) -> Seq<DiagnosticView>
    decreases clauses, n,
{
    if n == 0 || n > clauses.len() {
        Seq::empty()
    } else {
        check_catches(items, scopes, expected, clauses, (n - 1) as nat) + check_catch(
            items,
            scopes,
            expected,
            clauses[n - 1],
            caught_among(clauses, clauses[n - 1].exception_type, (n - 1) as nat),
        )
    }
}

/// The bindings of the variables and constants among the first `n`
/// items.
pub open spec fn global_bindings(items: Seq<ItemView>, n: nat) -> Seq<BindingView>
    decreases n,
{
    if n == 0 || n > items.len() {
        Seq::empty()
    } else {
        let before = global_bindings(items, (n - 1) as nat);
        match items[n - 1] {
            ItemView::Variable(v) => before.push(variable_binding(v)),
            ItemView::Constant(c) => before.push(
                BindingView { name: c.name, ty: Some(c.const_type), mutable: false },
            ),
            _ => before,
        }
    }
}

/// The scopes of a module outside its functions: the global scope.
pub open spec fn globals(items: Seq<ItemView>) -> ScopesView {
    seq![global_bindings(items, items.len())]
}

/// Whether one of the first `n` items declares `name`.
pub open spec fn named_among(items: Seq<ItemView>, name: Seq<char>, n: nat) -> bool
    decreases n,
{
    if n == 0 || n > items.len() {
        false
    } else {
        item_name(items[n - 1]) == name || named_among(items, name, (n - 1) as nat)
    }
}

/// Whether one of the first `n` parameters has the name `name`.
pub open spec fn parameter_among(parameters: Seq<ParameterView>, name: Seq<char>, n: nat) -> bool
    decreases n,
{
    if n == 0 || n > parameters.len() {
        false
    } else {
        parameters[n - 1].name == name || parameter_among(parameters, name, (n - 1) as nat)
    }
}

/// The bindings of the first `n` parameters.
pub open spec fn parameter_bindings(parameters: Seq<ParameterView>, n: nat) -> Seq<BindingView>
    decreases n,
{
    if n == 0 || n > parameters.len() {
        Seq::empty()
    } else {
        parameter_bindings(parameters, (n - 1) as nat).push(
            BindingView {
                name: parameters[n - 1].name,
                ty: Some(parameters[n - 1].param_type),
                mutable: false,
            },
        )
    }
}

/// The diagnostics of the parameter at index `i` of a function: a
/// valid type, a name that no parameter before it has, and a default
/// value of the parameter's type, which sees nothing but the global
/// scope.
pub open spec fn check_parameter(items: Seq<ItemView>, function: FunctionView, i: int) -> Seq<
    DiagnosticView,
> {
    let parameter = function.parameters[i];
    check_type(items, parameter.param_type, parameter.span) + (if parameter_among(
        function.parameters,
        parameter.name,
        i as nat,
    ) {
        seq![error_at(duplicate_parameter(function.name, parameter.name), parameter.span)]
    } else {
        Seq::empty()
    }) + match parameter.default_value {
        Some(value) => {
            let v = infer(items, globals(items), value);
            v.diagnostics + expect_type(parameter.param_type, v.ty, expression_span(value))
        },
        None => Seq::empty(),
    }
}

/// The diagnostics of the first `n` parameters of a function.
pub open spec fn check_parameters(items: Seq<ItemView>, function: FunctionView, n: nat) -> Seq<
    DiagnosticView,
>
    decreases n,
{
    if n == 0 || n > function.parameters.len() {
        Seq::empty()
    } else {
        check_parameters(items, function, (n - 1) as nat) + check_parameter(
            items,
            function,
            n - 1,
        )
    }
}

/// The diagnostics of a function: its parameters, its return type, and
/// its body in a scope that holds the parameters.
pub open spec fn check_function(items: Seq<ItemView>, function: FunctionView) -> Seq<
    DiagnosticView,
> {
    check_parameters(items, function, function.parameters.len()) + check_return_type(
        items,
        function.return_type,
        function.span,
    ) + check_block(
        items,
        globals(items).push(parameter_bindings(function.parameters, function.parameters.len())),
        function.return_type,
        function.body,
    )
}

/// The index of the struct that a field of type `t` holds by value. A
/// list holds its elements by reference.
pub open spec fn by_value_struct(items: Seq<ItemView>, t: TypeView) -> Option<int> {
    match t {
        TypeView::Struct(name) => struct_index_from(items, name, 0),
        _ => None,
    }
}

/// Whether the struct at index `i` is known to have a finite size after
/// `rounds` rounds: in each round, a struct becomes known whose
/// by-value fields are all of structs known in the round before.
pub open spec fn sized(items: Seq<ItemView>, rounds: nat, i: int) -> bool
    decreases rounds, 0nat,
{
    rounds > 0 && 0 <= i < items.len() && items[i] is Struct && fields_sized(
        items,
        (rounds - 1) as nat,
        i,
        items[i]->Struct_0.fields.len(),
    )
}

/// Whether the first `n` fields of the struct at index `i` hold by
/// value only structs that are sized after `rounds` rounds.
pub open spec fn fields_sized(items: Seq<ItemView>, rounds: nat, i: int, n: nat) -> bool
    decreases rounds, n,
{
    if n == 0 || !(0 <= i < items.len()) || !(items[i] is Struct) || n
        > items[i]->Struct_0.fields.len() {
        true
    } else {
        fields_sized(items, rounds, i, (n - 1) as nat) && match by_value_struct(
            items,
            items[i]->Struct_0.fields[n - 1].field_type,
        ) {
            Some(j) => sized(items, rounds, j),
            None => true,
        }
    }
}

/// Whether the by-value fields of the struct at index `i` form a cycle,
/// through the struct itself or behind it: its size is not finite after
/// as many rounds as there are items.
pub open spec fn is_cyclic(items: Seq<ItemView>, i: int) -> bool {
    !sized(items, items.len(), i)
}

/// The diagnostics of the first `n` fields of a struct: valid types and
/// distinct names.
pub open spec fn check_fields(items: Seq<ItemView>, declaration: StructView, n: nat) -> Seq<
    DiagnosticView,
>
    decreases n,
{
    if n == 0 || n > declaration.fields.len() {
        Seq::empty()
    } else {
        let field = declaration.fields[n - 1];
        check_fields(items, declaration, (n - 1) as nat) + check_type(
            items,
            field.field_type,
            field.span,
        ) + if field_index_from(declaration.fields, field.name, 0) != Some(n - 1) {
            seq![error_at(duplicate_member(declaration.name, field.name), field.span)]
        } else {
            Seq::empty()
        }
    }
}

/// The diagnostics of the struct at index `i`.
pub open spec fn check_struct(items: Seq<ItemView>, i: int, declaration: StructView) -> Seq<
    DiagnosticView,
> {
    check_fields(items, declaration, declaration.fields.len()) + if is_cyclic(items, i) {
        seq![error_at(cyclic_struct(declaration.name), declaration.span)]
    } else {
        Seq::empty()
    }
}

/// The diagnostics of a constant: its type is valid and its value has
/// that type.
pub open spec fn check_constant(items: Seq<ItemView>, c: ConstantView) -> Seq<DiagnosticView> {
    let value = infer(items, globals(items), c.value);
    check_type(items, c.const_type, c.span) + value.diagnostics + expect_type(
        c.const_type,
        value.ty,
        expression_span(c.value),
    )
}

/// The diagnostics of the item at index `i`: its name is declared by no
/// item before it, and it obeys the rules of its kind.
pub open spec fn check_item(items: Seq<ItemView>, i: int) -> Seq<DiagnosticView> {
    (if named_among(items, item_name(items[i]), i as nat) {
        seq![error_at(duplicate_definition(item_name(items[i])), item_span(items[i]))]
    } else {
        Seq::empty()
    }) + match items[i] {
        ItemView::Function(f) => check_function(items, f),
        ItemView::Struct(s) => check_struct(items, i, s),
        ItemView::Variable(v) => check_variable(items, globals(items), v),
        ItemView::Constant(c) => check_constant(items, c),
    }
}

/// The diagnostics of the first `n` items.
pub open spec fn check_items(items: Seq<ItemView>, n: nat) -> Seq<DiagnosticView>
    decreases n,
{
    if n == 0 || n > items.len() {
        Seq::empty()
    } else {
        check_items(items, (n - 1) as nat) + check_item(items, n - 1)
    }
}

/// The diagnostics of a module, in the order of its items.
pub open spec fn check_program(program: ProgramView) -> Seq<DiagnosticView> {
    check_items(program.items, program.items.len())
}

} // verus!
