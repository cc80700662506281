//! Type inference: the type of an expression, and the diagnostics of
//! the expression and its parts.

use vstd::prelude::*;
use crate::compiler::ast::{
    expression_view, expressions_view, field_values_view, BinaryOp, BinaryOperator, Expression,
    Function, FunctionCall, Identifier, Item, ListLiteral, Literal, MemberAccess, Struct,
    StructInitializer, Type, UnaryOp, UnaryOperator,
};
use crate::compiler::parser::span_of;
use crate::compiler::typing;
use crate::diagnostics::{DiagnosticEngine, Span};
use crate::text::push_decimal;
use crate::compiler::symbols::{
    binary_operator_text, field_index, find_function, find_struct, is_bool, is_numeric, is_void,
    join3, join5, join7, lookup, report, same_type, type_text, unary_operator_text, value_index,
    Binding,
};

verus! {

/// Reports a value of type `found` where `expected` is asked for.
pub(crate) fn expect_type(
    expected: &Type,
    found: &Option<Type>,
    value: &Expression,
    diagnostics: &mut DiagnosticEngine,
)
    ensures
        final(diagnostics)@ == old(diagnostics)@ + typing::expect_type(
            expected@,
            found.deep_view(),
            crate::compiler::grammar::expression_span(value@),
        ),
{
    match found {
        Some(t) => {
            if !same_type(t, expected) {
                let expected_text = type_text(expected);
                let found_text = type_text(t);
                report(
                    diagnostics,
                    join5(
                        "Type mismatch: expected '",
                        expected_text.as_str(),
                        "', found '",
                        found_text.as_str(),
                        "'",
                    ),
                    span_of(value),
                );
            }
        },
        None => {},
    }
}

/// The type of a binary operation.
pub(crate) fn binary_type(operator: BinaryOperator, left: &Type, right: &Type) -> (t: Option<Type>)
    ensures
        t.deep_view() == typing::binary_type(operator, left@, right@),
{
    match operator {
        BinaryOperator::Add | BinaryOperator::Sub | BinaryOperator::Mul | BinaryOperator::Div
        | BinaryOperator::Mod => {
            if same_type(left, right) && is_numeric(left) {
                Some(left.duplicate())
            } else {
                None
            }
        },
        BinaryOperator::Lt | BinaryOperator::Le | BinaryOperator::Gt | BinaryOperator::Ge => {
            if same_type(left, right) && is_numeric(left) {
                Some(Type::Bool)
            } else {
                None
            }
        },
        BinaryOperator::Eq | BinaryOperator::Ne => {
            if same_type(left, right) && !is_void(left) {
                Some(Type::Bool)
            } else {
                None
            }
        },
        BinaryOperator::And | BinaryOperator::Or => {
            if is_bool(left) && is_bool(right) {
                Some(Type::Bool)
            } else {
                None
            }
        },
    }
}

/// The type of a unary operation.
pub(crate) fn unary_type(operator: UnaryOperator, operand: &Type) -> (t: Option<Type>)
    ensures
        t.deep_view() == typing::unary_type(operator, operand@),
{
    match operator {
        UnaryOperator::Neg => {
            if is_numeric(operand) {
                Some(operand.duplicate())
            } else {
                None
            }
        },
        UnaryOperator::Not => {
            if is_bool(operand) {
                Some(Type::Bool)
            } else {
                None
            }
        },
    }
}

/// The type of the field `member` of a value of type `object`.
pub(crate) fn member_type(items: &Vec<Item>, object: &Type, member: &str) -> (t: Option<Type>)
    ensures
        t.deep_view() == typing::member_type(items.deep_view(), object@, member@),
{
    match object {
        Type::Struct(name) => match find_struct(items, name.as_str()) {
            Some(declaration) => match field_index(&declaration.fields, member) {
                Some(i) => Some(declaration.fields[i].field_type.duplicate()),
                None => None,
            },
            None => None,
        },
        _ => None,
    }
}

/// Reports what is wrong with the arguments of a call of `function`.
pub(crate) fn check_call(
    function: &Function,
    arguments: &Vec<Expression>,
    types: &Vec<Option<Type>>,
    span: &Span,
    diagnostics: &mut DiagnosticEngine,
)
    ensures
        final(diagnostics)@ == old(diagnostics)@ + typing::check_call(
            function@,
            expressions_view(arguments@),
            types.deep_view(),
            span@,
        ),
{
    let ghost base = diagnostics@;
    if arguments.len() > function.parameters.len() {
        let mut message = join3("Function '", function.name.as_str(), "' takes at most ");
        push_decimal(&mut message, function.parameters.len() as u64);
        message.append(" argument(s), found ");
        push_decimal(&mut message, arguments.len() as u64);
        report(diagnostics, message, span.duplicate());
    }
    let ghost start = diagnostics@;
    let mut n: usize = 0;
    while n < function.parameters.len()
        invariant
            n <= function.parameters.len(),
            diagnostics@ == start + typing::check_arguments(
                function@,
                expressions_view(arguments@),
                types.deep_view(),
                span@,
                n as nat,
            ),
        decreases function.parameters.len() - n,
    {
        let parameter = &function.parameters[n];
        if n < arguments.len() && n < types.len() {
            expect_type(&parameter.param_type, &types[n], &arguments[n], diagnostics);
        } else if parameter.default_value.is_none() {
            report(
                diagnostics,
                join5(
                    "Missing argument for parameter '",
                    parameter.name.as_str(),
                    "' of function '",
                    function.name.as_str(),
                    "'",
                ),
                span.duplicate(),
            );
        }
        n = n + 1;
    }
}

/// Reports the elements of a list literal that have another type than
/// the first.
pub(crate) fn check_elements(
    first: &Type,
    elements: &Vec<Expression>,
    types: &Vec<Option<Type>>,
    diagnostics: &mut DiagnosticEngine,
)
    requires
        types.len() == elements.len(),
    ensures
        final(diagnostics)@ == old(diagnostics)@ + typing::check_elements(
            first@,
            expressions_view(elements@),
            types.deep_view(),
            elements.len() as nat,
        ),
{
    let ghost start = diagnostics@;
    if elements.len() <= 1 {
        return ;
    }
    let mut n: usize = 1;
    while n < elements.len()
        invariant
            1 <= n <= elements.len(),
            types.len() == elements.len(),
            diagnostics@ == start + typing::check_elements(
                first@,
                expressions_view(elements@),
                types.deep_view(),
                n as nat,
            ),
        decreases elements.len() - n,
    {
        expect_type(first, &types[n], &elements[n], diagnostics);
        n = n + 1;
    }
}

/// The type of an expression in the given scopes. What is wrong with
/// the expression is reported.
pub fn infer(
    items: &Vec<Item>,
    scopes: &Vec<Vec<Binding>>,
    e: &Expression,
    diagnostics: &mut DiagnosticEngine,
) -> (ty: Option<Type>)
    ensures
        ty.deep_view() == typing::infer(items.deep_view(), scopes.deep_view(), e@).ty,
        final(diagnostics)@ == old(diagnostics)@ + typing::infer(
            items.deep_view(),
            scopes.deep_view(),
            e@,
        ).diagnostics,
    decreases e,
{
    match e {
        Expression::Literal(value, _) => {
            match value {
                Literal::Integer(_) => Some(Type::Int),
                Literal::Float(_) => Some(Type::Float),
                Literal::String(_) => Some(Type::Str),
                Literal::Boolean(_) => Some(Type::Bool),
            }
        },
        Expression::Identifier(id) => infer_identifier(items, scopes, id, diagnostics),
        Expression::Binary(op) => infer_binary(items, scopes, op, diagnostics),
        Expression::Unary(op) => infer_unary(items, scopes, op, diagnostics),
        Expression::Call(call) => infer_call(items, scopes, call, diagnostics),
        Expression::MemberAccess(access) => infer_member(items, scopes, access, diagnostics),
        Expression::List(list) => infer_list(items, scopes, list, diagnostics),
        Expression::StructInit(init) => infer_struct_init(items, scopes, init, diagnostics),
    }
}

/// The type of a name.
pub(crate) fn infer_identifier(
    items: &Vec<Item>,
    scopes: &Vec<Vec<Binding>>,
    id: &Identifier,
    diagnostics: &mut DiagnosticEngine,
) -> (ty: Option<Type>)
    ensures
        ty.deep_view() == typing::infer(
            items.deep_view(),
            scopes.deep_view(),
            expression_view(Expression::Identifier(*id)),
        ).ty,
        final(diagnostics)@ == old(diagnostics)@ + typing::infer(
            items.deep_view(),
            scopes.deep_view(),
            expression_view(Expression::Identifier(*id)),
        ).diagnostics,
    decreases id,
{
    match lookup(scopes, id.name.as_str()) {
        Some(binding) => match &binding.ty {
            Some(t) => Some(t.duplicate()),
            None => None,
        },
        None => {
            report(
                diagnostics,
                join3("Undefined name '", id.name.as_str(), "'"),
                id.span.duplicate(),
            );
            None
        },
    }
}

/// The type of a binary operation.
pub(crate) fn infer_binary(
    items: &Vec<Item>,
    scopes: &Vec<Vec<Binding>>,
    op: &BinaryOp,
    diagnostics: &mut DiagnosticEngine,
) -> (ty: Option<Type>)
    ensures
        ty.deep_view() == typing::infer(
            items.deep_view(),
            scopes.deep_view(),
            expression_view(Expression::Binary(*op)),
        ).ty,
        final(diagnostics)@ == old(diagnostics)@ + typing::infer(
            items.deep_view(),
            scopes.deep_view(),
            expression_view(Expression::Binary(*op)),
        ).diagnostics,
    decreases op,
{
    {
        let left = infer(items, scopes, &op.left, diagnostics);
        let right = infer(items, scopes, &op.right, diagnostics);
        match (left, right) {
            (Some(lt), Some(rt)) => match binary_type(op.operator, &lt, &rt) {
                Some(t) => Some(t),
                None => {
                    let left_text = type_text(&lt);
                    let right_text = type_text(&rt);
                    report(
                        diagnostics,
                        join7(
                            "Operator '",
                            binary_operator_text(op.operator),
                            "' cannot be applied to '",
                            left_text.as_str(),
                            "' and '",
                            right_text.as_str(),
                            "'",
                        ),
                        op.span.duplicate(),
                    );
                    None
                },
            },
            _ => None,
        }
    }
}

/// The type of a unary operation.
pub(crate) fn infer_unary(
    items: &Vec<Item>,
    scopes: &Vec<Vec<Binding>>,
    op: &UnaryOp,
    diagnostics: &mut DiagnosticEngine,
) -> (ty: Option<Type>)
    ensures
        ty.deep_view() == typing::infer(
            items.deep_view(),
            scopes.deep_view(),
            expression_view(Expression::Unary(*op)),
        ).ty,
        final(diagnostics)@ == old(diagnostics)@ + typing::infer(
            items.deep_view(),
            scopes.deep_view(),
            expression_view(Expression::Unary(*op)),
        ).diagnostics,
    decreases op,
{
    {
        match infer(items, scopes, &op.operand, diagnostics) {
            Some(t) => match unary_type(op.operator, &t) {
                Some(result) => Some(result),
                None => {
                    let operand_text = type_text(&t);
                    report(
                        diagnostics,
                        join5(
                            "Operator '",
                            unary_operator_text(op.operator),
                            "' cannot be applied to '",
                            operand_text.as_str(),
                            "'",
                        ),
                        op.span.duplicate(),
                    );
                    None
                },
            },
            None => None,
        }
    }
}

/// The type of a call.
pub(crate) fn infer_call(
    items: &Vec<Item>,
    scopes: &Vec<Vec<Binding>>,
    call: &FunctionCall,
    diagnostics: &mut DiagnosticEngine,
) -> (ty: Option<Type>)
    ensures
        ty.deep_view() == typing::infer(
            items.deep_view(),
            scopes.deep_view(),
            expression_view(Expression::Call(*call)),
        ).ty,
        final(diagnostics)@ == old(diagnostics)@ + typing::infer(
            items.deep_view(),
            scopes.deep_view(),
            expression_view(Expression::Call(*call)),
        ).diagnostics,
    decreases call,
{
    {
        proof {
            reveal_with_fuel(expression_view, 2);
        }
        let types = infer_all(items, scopes, &call.arguments, diagnostics);
        match &*call.function {
            Expression::Identifier(id) => match find_function(items, id.name.as_str()) {
                Some(function) => {
                    check_call(function, &call.arguments, &types, &call.span, diagnostics);
                    Some(function.return_type.duplicate())
                },
                None => {
                    report(
                        diagnostics,
                        join3("Undefined function '", id.name.as_str(), "'"),
                        id.span.duplicate(),
                    );
                    None
                },
            },
            other => {
                report(
                    diagnostics,
                    String::from_str("Expression is not callable"),
                    span_of(other),
                );
                None
            },
        }
    }
}

/// The type of a member access.
pub(crate) fn infer_member(
    items: &Vec<Item>,
    scopes: &Vec<Vec<Binding>>,
    access: &MemberAccess,
    diagnostics: &mut DiagnosticEngine,
) -> (ty: Option<Type>)
    ensures
        ty.deep_view() == typing::infer(
            items.deep_view(),
            scopes.deep_view(),
            expression_view(Expression::MemberAccess(*access)),
        ).ty,
        final(diagnostics)@ == old(diagnostics)@ + typing::infer(
            items.deep_view(),
            scopes.deep_view(),
            expression_view(Expression::MemberAccess(*access)),
        ).diagnostics,
    decreases access,
{
    {
        match infer(items, scopes, &access.object, diagnostics) {
            Some(t) => match member_type(items, &t, access.member.as_str()) {
                Some(field_type) => Some(field_type),
                None => {
                    let object_text = type_text(&t);
                    report(
                        diagnostics,
                        join5(
                            "Type '",
                            object_text.as_str(),
                            "' has no field '",
                            access.member.as_str(),
                            "'",
                        ),
                        access.span.duplicate(),
                    );
                    None
                },
            },
            None => None,
        }
    }
}

/// The type of a list literal.
pub(crate) fn infer_list(
    items: &Vec<Item>,
    scopes: &Vec<Vec<Binding>>,
    list: &ListLiteral,
    diagnostics: &mut DiagnosticEngine,
) -> (ty: Option<Type>)
    ensures
        ty.deep_view() == typing::infer(
            items.deep_view(),
            scopes.deep_view(),
            expression_view(Expression::List(*list)),
        ).ty,
        final(diagnostics)@ == old(diagnostics)@ + typing::infer(
            items.deep_view(),
            scopes.deep_view(),
            expression_view(Expression::List(*list)),
        ).diagnostics,
    decreases list,
{
    {
        let types = infer_all(items, scopes, &list.elements, diagnostics);
        if list.elements.len() == 0 {
            report(
                diagnostics,
                String::from_str("Cannot infer the element type of an empty list"),
                list.span.duplicate(),
            );
            None
        } else {
            match &types[0] {
                Some(first) => {
                    check_elements(first, &list.elements, &types, diagnostics);
                    Some(Type::List(Box::new(first.duplicate())))
                },
                None => None,
            }
        }
    }
}

/// The type of a struct literal.
pub(crate) fn infer_struct_init(
    items: &Vec<Item>,
    scopes: &Vec<Vec<Binding>>,
    init: &StructInitializer,
    diagnostics: &mut DiagnosticEngine,
) -> (ty: Option<Type>)
    ensures
        ty.deep_view() == typing::infer(
            items.deep_view(),
            scopes.deep_view(),
            expression_view(Expression::StructInit(*init)),
        ).ty,
        final(diagnostics)@ == old(diagnostics)@ + typing::infer(
            items.deep_view(),
            scopes.deep_view(),
            expression_view(Expression::StructInit(*init)),
        ).diagnostics,
    decreases init,
{
    {
        match find_struct(items, init.struct_name.as_str()) {
            Some(declaration) => {
                check_declared_fields(
                    items,
                    scopes,
                    declaration,
                    &init.fields,
                    &init.span,
                    diagnostics,
                );
                check_given_fields(items, scopes, declaration, &init.fields, diagnostics);
                Some(Type::Struct(init.struct_name.clone()))
            },
            None => {
                report(
                    diagnostics,
                    join3("Undefined struct '", init.struct_name.as_str(), "'"),
                    init.span.duplicate(),
                );
                infer_values(items, scopes, &init.fields, diagnostics);
                None
            },
        }
    }
}

/// The types of the expressions. What is wrong with them is reported.
pub fn infer_all(
    items: &Vec<Item>,
    scopes: &Vec<Vec<Binding>>,
    es: &Vec<Expression>,
    diagnostics: &mut DiagnosticEngine,
) -> (types: Vec<Option<Type>>)
    ensures
        types.len() == es.len(),
        types.deep_view() == typing::infer_all(
            items.deep_view(),
            scopes.deep_view(),
            expressions_view(es@),
            es.len() as nat,
        ).0,
        final(diagnostics)@ == old(diagnostics)@ + typing::infer_all(
            items.deep_view(),
            scopes.deep_view(),
            expressions_view(es@),
            es.len() as nat,
        ).1,
    decreases es,
{
    let ghost start = diagnostics@;
    let mut types: Vec<Option<Type>> = Vec::new();
    let mut n: usize = 0;
    while n < es.len()
        invariant
            n <= es.len(),
            types.len() == n,
            types.deep_view() == typing::infer_all(
                items.deep_view(),
                scopes.deep_view(),
                expressions_view(es@),
                n as nat,
            ).0,
            diagnostics@ == start + typing::infer_all(
                items.deep_view(),
                scopes.deep_view(),
                expressions_view(es@),
                n as nat,
            ).1,
        decreases es.len() - n,
    {
        let t = infer(items, scopes, &es[n], diagnostics);
        let ghost before = types.deep_view();
        types.push(t);
        assert(types.deep_view() == before.push(t.deep_view()));
        n = n + 1;
    }
    types
}

/// Reports, in the order of the declaration, the fields that a struct
/// literal leaves out and the values of another type than their field.
pub(crate) fn check_declared_fields(
    items: &Vec<Item>,
    scopes: &Vec<Vec<Binding>>,
    declaration: &Struct,
    values: &Vec<(String, Expression)>,
    span: &Span,
    diagnostics: &mut DiagnosticEngine,
)
    ensures
        final(diagnostics)@ == old(diagnostics)@ + typing::check_declared_fields(
            items.deep_view(),
            scopes.deep_view(),
            declaration@,
            field_values_view(values@),
            span@,
            declaration.fields.len() as nat,
        ),
    decreases values,
{
    let ghost start = diagnostics@;
    let mut n: usize = 0;
    while n < declaration.fields.len()
        invariant
            n <= declaration.fields.len(),
            diagnostics@ == start + typing::check_declared_fields(
                items.deep_view(),
                scopes.deep_view(),
                declaration@,
                field_values_view(values@),
                span@,
                n as nat,
            ),
        decreases declaration.fields.len() - n,
    {
        let field = &declaration.fields[n];
        match value_index(values, field.name.as_str()) {
            Some(i) => {
                let found = infer(items, scopes, &values[i].1, diagnostics);
                expect_type(&field.field_type, &found, &values[i].1, diagnostics);
            },
            None => {
                report(
                    diagnostics,
                    join5(
                        "Missing field '",
                        field.name.as_str(),
                        "' in initializer of struct '",
                        declaration.name.as_str(),
                        "'",
                    ),
                    span.duplicate(),
                );
            },
        }
        n = n + 1;
    }
}

/// Reports, in the order in which a struct literal gives them, the
/// values for fields that the struct does not declare and the second
/// values for a field.
pub(crate) fn check_given_fields(
    items: &Vec<Item>,
    scopes: &Vec<Vec<Binding>>,
    declaration: &Struct,
    values: &Vec<(String, Expression)>,
    diagnostics: &mut DiagnosticEngine,
)
    ensures
        final(diagnostics)@ == old(diagnostics)@ + typing::check_given_fields(
            items.deep_view(),
            scopes.deep_view(),
            declaration@,
            field_values_view(values@),
            values.len() as nat,
        ),
    decreases values,
{
    let ghost start = diagnostics@;
    let mut n: usize = 0;
    while n < values.len()
        invariant
            n <= values.len(),
            diagnostics@ == start + typing::check_given_fields(
                items.deep_view(),
                scopes.deep_view(),
                declaration@,
                field_values_view(values@),
                n as nat,
            ),
        decreases values.len() - n,
    {
        let name = &values[n].0;
        let value = &values[n].1;
        if field_index(&declaration.fields, name.as_str()).is_none() {
            report(
                diagnostics,
                join5(
                    "Unknown field '",
                    name.as_str(),
                    "' in initializer of struct '",
                    declaration.name.as_str(),
                    "'",
                ),
                span_of(value),
            );
            let _ = infer(items, scopes, value, diagnostics);
        } else {
            let first = value_index(values, name.as_str());
            let again = match first {
                Some(i) => i != n,
                None => true,
            };
            if again {
                report(
                    diagnostics,
                    join5(
                        "Duplicate field '",
                        name.as_str(),
                        "' in initializer of struct '",
                        declaration.name.as_str(),
                        "'",
                    ),
                    span_of(value),
                );
                let _ = infer(items, scopes, value, diagnostics);
            }
        }
        n = n + 1;
    }
}

/// Reports what is wrong with the values of a literal of a struct that
/// is not declared.
pub(crate) fn infer_values(
    items: &Vec<Item>,
    scopes: &Vec<Vec<Binding>>,
    values: &Vec<(String, Expression)>,
    diagnostics: &mut DiagnosticEngine,
)
    ensures
        final(diagnostics)@ == old(diagnostics)@ + typing::infer_values(
            items.deep_view(),
            scopes.deep_view(),
            field_values_view(values@),
            values.len() as nat,
        ),
    decreases values,
{
    let ghost start = diagnostics@;
    let mut n: usize = 0;
    while n < values.len()
        invariant
            n <= values.len(),
            diagnostics@ == start + typing::infer_values(
                items.deep_view(),
                scopes.deep_view(),
                field_values_view(values@),
                n as nat,
            ),
        decreases values.len() - n,
    {
        let _ = infer(items, scopes, &values[n].1, diagnostics);
        n = n + 1;
    }
}

} // verus!
