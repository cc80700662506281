//! The lowering of a syntax tree to Rust source text, as functions from
//! the tree to the text.
//!
//! Lowering fails where a struct literal or a call cannot be completed
//! from the declarations of the module. The text of a tree is built from
//! the texts of its parts in their order, and the first failure among
//! them fails the whole.

use vstd::prelude::*;
use crate::compiler::ast::{
    BlockView, CatchClauseView, ConstantView, ExpressionView, FieldView,
    FunctionView, ImportView, ItemView, LiteralView, ParameterView, ProgramView, StatementView,
    StructView, TypeView, VariableView,
};
use crate::compiler::typing::{
    binary_operator_text, find_function, find_struct, missing_argument, missing_field,
    unary_operator_text, undefined_struct, value_index,
};
use crate::text::signed_decimal_text;

verus! {

/// The text of a tree, or the message of the failure.
pub type Lowered = Result<Seq<char>, Seq<char>>;

/// The text `first` followed by the text `second`.
pub open spec fn chain(first: Lowered, second: Lowered) -> Lowered {
    match first {
        Err(m) => Err(m),
        Ok(a) => match second {
            Err(m) => Err(m),
            Ok(b) => Ok(a + b),
        },
    }
}

/// The Rust type that a type is lowered to.
pub open spec fn lower_type(t: TypeView) -> Seq<char>
    decreases t,
{
    match t {
        TypeView::Int => "i64"@,
        TypeView::Float => "f64"@,
        TypeView::Str => "String"@,
        TypeView::Bool => "bool"@,
        TypeView::Void => "()"@,
        TypeView::List(element) => "Vec<"@ + lower_type(*element) + ">"@,
        TypeView::Struct(name) => name,
    }
}

/// The text of one character inside a Rust string literal.
pub open spec fn escape_char(c: char) -> Seq<char> {
    if c == '"' {
        "\\\""@
    } else if c == '\\' {
        "\\\\"@
    } else if c == '\n' {
        "\\n"@
    } else if c == '\t' {
        "\\t"@
    } else if c == '\r' {
        "\\r"@
    } else {
        seq![c]
    }
}

/// The text of the first `n` characters inside a Rust string literal.
pub open spec fn escape_text(text: Seq<char>, n: nat) -> Seq<char>
    decreases n,
{
    if n == 0 || n > text.len() {
        Seq::empty()
    } else {
        escape_text(text, (n - 1) as nat) + escape_char(text[n - 1])
    }
}

/// The text of a literal.
pub open spec fn lower_literal(value: LiteralView) -> Seq<char> {
    match value {
        LiteralView::Integer(n) => signed_decimal_text(n),
        LiteralView::Float(digits) => digits,
        LiteralView::String(text) => "String::from(\""@ + escape_text(text, text.len()) + "\")"@,
        LiteralView::Boolean(b) => if b {
            "true"@
        } else {
            "false"@
        },
    }
}

/// The failure of default values that use each other without end.
pub open spec fn defaults_too_deep() -> Seq<char> {
    "Default values of parameters depend on each other"@
}

/// The separator before the element at index `i` of a list.
pub open spec fn separator(i: int) -> Seq<char> {
    if i > 0 {
        ", "@
    } else {
        Seq::empty()
    }
}

/// The function that a call names, where the module declares it.
pub open spec fn callee(items: Seq<ItemView>, function: ExpressionView) -> Option<FunctionView> {
    match function {
        ExpressionView::Identifier { name, .. } => find_function(items, name),
        _ => None,
    }
}

/// The text of an expression. `depth` bounds how deep default values
/// may call functions that need default values themselves.
pub open spec fn lower_expression(items: Seq<ItemView>, depth: nat, e: ExpressionView) -> Lowered
    decreases 2 * depth, e, 0nat,
{
    match e {
        ExpressionView::Literal { value, .. } => Ok(lower_literal(value)),
        ExpressionView::Identifier { name, .. } => Ok(name),
        ExpressionView::Binary { left, operator, right, .. } => chain(
            Ok("("@),
            chain(
                lower_expression(items, depth, *left),
                chain(
                    Ok(" "@ + binary_operator_text(operator) + " "@),
                    chain(lower_expression(items, depth, *right), Ok(")"@)),
                ),
            ),
        ),
        ExpressionView::Unary { operator, operand, .. } => chain(
            Ok("("@ + unary_operator_text(operator)),
            chain(lower_expression(items, depth, *operand), Ok(")"@)),
        ),
        ExpressionView::Call { function, arguments, .. } => chain(
            lower_expression(items, depth, *function),
            chain(
                Ok("("@),
                chain(
                    lower_list(items, depth, arguments, 0),
                    chain(
                        match callee(items, *function) {
                            Some(f) => if arguments.len() < f.parameters.len() {
                                if depth > 0 {
                                    lower_defaults(
                                        items,
                                        (depth - 1) as nat,
                                        f.name,
                                        f.parameters,
                                        arguments.len() as int,
                                    )
                                } else {
                                    Err(defaults_too_deep())
                                }
                            } else {
                                Ok(Seq::empty())
                            },
                            None => Ok(Seq::empty()),
                        },
                        Ok(")"@),
                    ),
                ),
            ),
        ),
        ExpressionView::MemberAccess { object, member, .. } => chain(
            lower_expression(items, depth, *object),
            Ok("."@ + member),
        ),
        ExpressionView::List { elements, .. } => chain(
            Ok("vec!["@),
            chain(lower_list(items, depth, elements, 0), Ok("]"@)),
        ),
        ExpressionView::StructInit { struct_name, fields, .. } => match find_struct(
            items,
            struct_name,
        ) {
            None => Err(undefined_struct(struct_name)),
            Some(declaration) => chain(
                Ok(struct_name + " {"@),
                chain(
                    lower_field_values(items, depth, declaration, fields, 0),
                    Ok(
                        if declaration.fields.len() > 0 {
                            " }"@
                        } else {
                            "}"@
                        },
                    ),
                ),
            ),
        },
    }
}

/// The texts of the expressions at `from` and behind, separated by
/// commas.
pub open spec fn lower_list(
    items: Seq<ItemView>,
    depth: nat,
    es: Seq<ExpressionView>,
    from: int,
) -> Lowered
    decreases 2 * depth, es, es.len() - from,
{
    if from < 0 || from >= es.len() {
        Ok(Seq::empty())
    } else {
        chain(
            Ok(separator(from)),
            chain(lower_expression(items, depth, es[from]), lower_list(items, depth, es, from + 1)),
        )
    }
}

/// The texts of the default values of the parameters at `from` and
/// behind, each after a comma unless it is the first argument. A
/// parameter without a default value fails the call.
pub open spec fn lower_defaults(
    items: Seq<ItemView>,
    depth: nat,
    function: Seq<char>,
    parameters: Seq<ParameterView>,
    from: int,
) -> Lowered
    decreases 2 * depth + 1, parameters, parameters.len() - from,
{
    if from < 0 || from >= parameters.len() {
        Ok(Seq::empty())
    } else {
        match parameters[from].default_value {
            None => Err(missing_argument(function, parameters[from].name)),
            Some(value) => chain(
                Ok(separator(from)),
                chain(
                    lower_expression(items, depth, value),
                    lower_defaults(items, depth, function, parameters, from + 1),
                ),
            ),
        }
    }
}

/// The texts `name: value` of the declared fields at `from` and behind,
/// in the order of the declaration, each value found by the name of its
/// field. A field without a value fails the literal.
pub open spec fn lower_field_values(
    items: Seq<ItemView>,
    depth: nat,
    declaration: StructView,
    values: Seq<(Seq<char>, ExpressionView)>,
    from: int,
) -> Lowered
    decreases 2 * depth, values, declaration.fields.len() - from,
{
    if from < 0 || from >= declaration.fields.len() {
        Ok(Seq::empty())
    } else {
        let name = declaration.fields[from].name;
        match value_index(values, name) {
            Some(i) => if 0 <= i < values.len() {
                chain(
                    Ok(
                        (if from > 0 {
                            ", "@
                        } else {
                            " "@
                        }) + name + ": "@,
                    ),
                    chain(
                        lower_expression(items, depth, values[i].1),
                        lower_field_values(items, depth, declaration, values, from + 1),
                    ),
                )
            } else {
                Err(missing_field(declaration.name, name))
            },
            None => Err(missing_field(declaration.name, name)),
        }
    }
}

/// The margin of the lines inside a block whose lines have `margin`.
pub open spec fn deeper(margin: Seq<char>) -> Seq<char> {
    margin + "    "@
}

/// The line of an expression statement.
pub open spec fn lower_expression_statement(
    items: Seq<ItemView>,
    depth: nat,
    e: ExpressionView,
    margin: Seq<char>,
) -> Lowered {
    chain(Ok(margin), chain(lower_expression(items, depth, e), Ok(";\n"@)))
}

/// The line of a local variable declaration.
pub open spec fn lower_local(
    items: Seq<ItemView>,
    depth: nat,
    v: VariableView,
    margin: Seq<char>,
) -> Lowered {
    chain(
        Ok(
            margin + (if v.mutable {
                "let mut "@
            } else {
                "let "@
            }) + v.name + ": "@ + lower_type(v.var_type) + " = "@,
        ),
        chain(lower_expression(items, depth, v.initializer), Ok(";\n"@)),
    )
}

/// The line of an assignment.
pub open spec fn lower_assignment(
    items: Seq<ItemView>,
    depth: nat,
    target: ExpressionView,
    value: ExpressionView,
    margin: Seq<char>,
) -> Lowered {
    chain(
        Ok(margin),
        chain(
            lower_expression(items, depth, target),
            chain(Ok(" = "@), chain(lower_expression(items, depth, value), Ok(";\n"@))),
        ),
    )
}

/// The line of a `return` statement.
pub open spec fn lower_return(
    items: Seq<ItemView>,
    depth: nat,
    value: Option<ExpressionView>,
    margin: Seq<char>,
) -> Lowered {
    match value {
        None => Ok(margin + "return;\n"@),
        Some(e) => chain(
            Ok(margin + "return "@),
            chain(lower_expression(items, depth, e), Ok(";\n"@)),
        ),
    }
}

/// The lines of a statement, each behind `margin`.
pub open spec fn lower_statement(
    items: Seq<ItemView>,
    depth: nat,
    s: StatementView,
    margin: Seq<char>,
) -> Lowered
    decreases 2 * depth, s, 2nat,
{
    match s {
        StatementView::Expression(e) => lower_expression_statement(items, depth, e, margin),
        StatementView::Variable(v) => lower_local(items, depth, v, margin),
        StatementView::Assignment { target, value, .. } => lower_assignment(
            items,
            depth,
            target,
            value,
            margin,
        ),
        StatementView::If { .. } => lower_if(items, depth, s, margin),
        StatementView::For { .. } => lower_for(items, depth, s, margin),
        StatementView::Try { .. } => lower_try(items, depth, s, margin),
        StatementView::Return { value, .. } => lower_return(items, depth, value, margin),
    }
}

/// The lines of the statements at `from` and behind.
pub open spec fn lower_statements(
    items: Seq<ItemView>,
    depth: nat,
    statements: Seq<StatementView>,
    from: int,
    margin: Seq<char>,
) -> Lowered
    decreases 2 * depth, statements, statements.len() - from,
{
    if from < 0 || from >= statements.len() {
        Ok(Seq::empty())
    } else {
        chain(
            lower_statement(items, depth, statements[from], margin),
            lower_statements(items, depth, statements, from + 1, margin),
        )
    }
}

/// The text of a block from its opening brace to its closing brace,
/// which stands behind `margin`.
pub open spec fn lower_block(
    items: Seq<ItemView>,
    depth: nat,
    block: BlockView,
    margin: Seq<char>,
) -> Lowered
    decreases 2 * depth, block, 0nat,
{
    chain(
        Ok("{\n"@),
        chain(
            lower_statements(items, depth, block.statements, 0, deeper(margin)),
            Ok(margin + "}"@),
        ),
    )
}

/// The text of an `if` statement: one chain of conditions, in order.
pub open spec fn lower_if(items: Seq<ItemView>, depth: nat, s: StatementView, margin: Seq<char>) -> Lowered
    decreases 2 * depth, s, 1nat,
{
    match s {
        StatementView::If { condition, then_block, .. } => chain(
            Ok(margin + "if "@),
            chain(
                lower_expression(items, depth, condition),
                chain(
                    Ok(" "@),
                    chain(
                        lower_block(items, depth, then_block, margin),
                        lower_if_tail(items, depth, s, margin),
                    ),
                ),
            ),
        ),
        _ => Ok(Seq::empty()),
    }
}

/// What follows the first block of an `if` statement: the `else if`
/// branches, the `else` block and the end of the line.
pub open spec fn lower_if_tail(
    items: Seq<ItemView>,
    depth: nat,
    s: StatementView,
    margin: Seq<char>,
) -> Lowered
    decreases 2 * depth, s, 0nat,
{
    match s {
        StatementView::If { else_ifs, else_block, .. } => chain(
            lower_else_ifs(items, depth, else_ifs, 0, margin),
            chain(lower_else(items, depth, else_block, margin), Ok("\n"@)),
        ),
        _ => Ok(Seq::empty()),
    }
}

/// The text of the `else` block of an `if` statement, if it has one.
pub open spec fn lower_else(
    items: Seq<ItemView>,
    depth: nat,
    else_block: Option<BlockView>,
    margin: Seq<char>,
) -> Lowered
    decreases 2 * depth, else_block, 0nat,
{
    match else_block {
        Some(block) => chain(Ok(" else "@), lower_block(items, depth, block, margin)),
        None => Ok(Seq::empty()),
    }
}

/// The text of one `else if` branch.
pub open spec fn lower_else_if(
    items: Seq<ItemView>,
    depth: nat,
    branch: (ExpressionView, BlockView),
    margin: Seq<char>,
) -> Lowered
    decreases 2 * depth, branch, 0nat,
{
    chain(
        Ok(" else if "@),
        chain(
            lower_expression(items, depth, branch.0),
            chain(Ok(" "@), lower_block(items, depth, branch.1, margin)),
        ),
    )
}

/// The texts of the `else if` branches at `from` and behind.
pub open spec fn lower_else_ifs(
    items: Seq<ItemView>,
    depth: nat,
    branches: Seq<(ExpressionView, BlockView)>,
    from: int,
    margin: Seq<char>,
) -> Lowered
    decreases 2 * depth, branches, branches.len() - from,
{
    if from < 0 || from >= branches.len() {
        Ok(Seq::empty())
    } else {
        chain(
            lower_else_if(items, depth, branches[from], margin),
            lower_else_ifs(items, depth, branches, from + 1, margin),
        )
    }
}

/// The text of a `for` statement: Rust's `for` over the list.
pub open spec fn lower_for(items: Seq<ItemView>, depth: nat, s: StatementView, margin: Seq<char>) -> Lowered
    decreases 2 * depth, s, 1nat,
{
    match s {
        StatementView::For { variable, iterable, body, .. } => chain(
            Ok(margin + "for "@ + variable + " in "@),
            chain(
                lower_expression(items, depth, iterable),
                chain(Ok(" "@), chain(lower_block(items, depth, body, margin), Ok("\n"@))),
            ),
        ),
        _ => Ok(Seq::empty()),
    }
}

/// The line that opens the dispatch on the exception that a `try`
/// block left behind.
pub open spec fn dispatch_head() -> Seq<char> {
    "match rustic_runtime::take_exception() {\n"@
}

/// The lines that close the dispatch: the arm for every other outcome
/// and the closing brace.
pub open spec fn dispatch_foot(margin: Seq<char>) -> Seq<char> {
    deeper(margin) + "_ => {}\n"@ + margin + "}\n"@
}

/// The text of a `try` statement: the statements of the block, in a
/// block of their own, and behind them one `match` that maps each
/// exception type to its handler, in the order of the clauses.
pub open spec fn lower_try(items: Seq<ItemView>, depth: nat, s: StatementView, margin: Seq<char>) -> Lowered
    decreases 2 * depth, s, 1nat,
{
    match s {
        StatementView::Try { try_block, catch_clauses, .. } => chain(
            Ok(margin),
            chain(
                lower_block(items, depth, try_block, margin),
                chain(
                    Ok("\n"@ + margin + dispatch_head()),
                    chain(
                        lower_catches(items, depth, catch_clauses, 0, deeper(margin)),
                        Ok(dispatch_foot(margin)),
                    ),
                ),
            ),
        ),
        _ => Ok(Seq::empty()),
    }
}

/// The arm of one `catch` clause.
pub open spec fn lower_catch(
    items: Seq<ItemView>,
    depth: nat,
    clause: CatchClauseView,
    margin: Seq<char>,
) -> Lowered
    decreases 2 * depth, clause, 0nat,
{
    chain(
        Ok(margin + "Some(error) if error.is(\""@ + clause.exception_type + "\") => "@),
        chain(lower_block(items, depth, clause.handler_block, margin), Ok("\n"@)),
    )
}

/// The arms of the `catch` clauses at `from` and behind.
pub open spec fn lower_catches(
    items: Seq<ItemView>,
    depth: nat,
    clauses: Seq<CatchClauseView>,
    from: int,
    margin: Seq<char>,
) -> Lowered
    decreases 2 * depth, clauses, clauses.len() - from,
{
    if from < 0 || from >= clauses.len() {
        Ok(Seq::empty())
    } else {
        chain(
            lower_catch(items, depth, clauses[from], margin),
            lower_catches(items, depth, clauses, from + 1, margin),
        )
    }
}

/// The texts `name: type` of the parameters at `from` and behind,
/// separated by commas.
pub open spec fn lower_parameters(parameters: Seq<ParameterView>, from: int) -> Seq<char>
    decreases parameters.len() - from,
{
    if from < 0 || from >= parameters.len() {
        Seq::empty()
    } else {
        separator(from) + parameters[from].name + ": "@ + lower_type(parameters[from].param_type)
            + lower_parameters(parameters, from + 1)
    }
}

/// The text of a function. It keeps all its parameters; the calls fill
/// in the default values.
pub open spec fn lower_function(items: Seq<ItemView>, depth: nat, f: FunctionView) -> Lowered {
    chain(
        Ok(
            "pub fn "@ + f.name + "("@ + lower_parameters(f.parameters, 0) + ") -> "@ + lower_type(
                f.return_type,
            ) + " "@,
        ),
        chain(lower_block(items, depth, f.body, Seq::empty()), Ok("\n"@)),
    )
}

/// The lines of the fields at `from` and behind.
pub open spec fn lower_fields(fields: Seq<FieldView>, from: int) -> Seq<char>
    decreases fields.len() - from,
{
    if from < 0 || from >= fields.len() {
        Seq::empty()
    } else {
        "    pub "@ + fields[from].name + ": "@ + lower_type(fields[from].field_type) + ",\n"@
            + lower_fields(fields, from + 1)
    }
}

/// The text of a struct: a record with the fields in declared order.
pub open spec fn lower_struct(s: StructView) -> Seq<char> {
    "#[derive(Debug, Clone, PartialEq)]\npub struct "@ + s.name + " {\n"@ + lower_fields(
        s.fields,
        0,
    ) + "}\n"@
}

/// The text of a top-level variable.
pub open spec fn lower_global(items: Seq<ItemView>, depth: nat, v: VariableView) -> Lowered {
    chain(
        Ok(
            (if v.mutable {
                "pub static mut "@
            } else {
                "pub static "@
            }) + v.name + ": "@ + lower_type(v.var_type) + " = "@,
        ),
        chain(lower_expression(items, depth, v.initializer), Ok(";\n"@)),
    )
}

/// The text of a constant.
pub open spec fn lower_constant(items: Seq<ItemView>, depth: nat, c: ConstantView) -> Lowered {
    chain(
        Ok("pub const "@ + c.name + ": "@ + lower_type(c.const_type) + " = "@),
        chain(lower_expression(items, depth, c.value), Ok(";\n"@)),
    )
}

/// The text of a top-level declaration.
pub open spec fn lower_item(items: Seq<ItemView>, depth: nat, item: ItemView) -> Lowered {
    match item {
        ItemView::Function(f) => lower_function(items, depth, f),
        ItemView::Struct(s) => Ok(lower_struct(s)),
        ItemView::Variable(v) => lower_global(items, depth, v),
        ItemView::Constant(c) => lower_constant(items, depth, c),
    }
}

/// The texts of the declarations at `from` and behind, each after an
/// empty line unless it opens the file.
pub open spec fn lower_items(items: Seq<ItemView>, from: int, opened: bool) -> Lowered
    decreases items.len() - from,
{
    if from < 0 || from >= items.len() {
        Ok(Seq::empty())
    } else {
        chain(
            Ok(
                if opened || from > 0 {
                    "\n"@
                } else {
                    Seq::empty()
                },
            ),
            chain(
                lower_item(items, items.len(), items[from]),
                lower_items(items, from + 1, opened),
            ),
        )
    }
}

/// The first `n` characters of a module path, with `::` for each dot.
pub open spec fn lower_path(path: Seq<char>, n: nat) -> Seq<char>
    decreases n,
{
    if n == 0 || n > path.len() {
        Seq::empty()
    } else {
        lower_path(path, (n - 1) as nat) + if path[n - 1] == '.' {
            "::"@
        } else {
            seq![path[n - 1]]
        }
    }
}

/// The lines of the imports at `from` and behind.
pub open spec fn lower_imports(imports: Seq<ImportView>, from: int) -> Seq<char>
    decreases imports.len() - from,
{
    if from < 0 || from >= imports.len() {
        Seq::empty()
    } else {
        "use crate::"@ + lower_path(imports[from].path, imports[from].path.len()) + "::*;\n"@
            + lower_imports(imports, from + 1)
    }
}

/// The Rust source text of a module: its imports, then its
/// declarations in their order.
pub open spec fn lower_program(program: ProgramView) -> Lowered {
    chain(
        Ok(lower_imports(program.imports, 0)),
        lower_items(program.items, 0, program.imports.len() > 0),
    )
}

} // verus!
