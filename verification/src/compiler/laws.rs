//! Laws of the compiler: what holds of every module.

use vstd::prelude::*;
use crate::compiler::ast::{
    ExpressionView, FunctionView, ItemView, ProgramView, StatementView, StructView, TypeView,
    VariableView,
};
use crate::compiler::driver::{back_end_model, compile_model, front_end_model, result_view};
use crate::compiler::grammar::expression_span;
use crate::compiler::lexer::{
    eof_token, lemma_scan_advances, lemma_skip_blanks_bounds, scan_at, scan_string_at,
    skip_blanks, tokens_from, tokens_of, unterminated_string, Scanned,
};
use crate::compiler::lowering::{
    callee, chain, lower_defaults, lower_expression, lower_field_values, lower_list,
    lower_program, separator,
};
use crate::compiler::typing::{
    check_arguments, check_call, check_declared_fields, check_for, check_given_fields,
    check_item, check_items, check_program, check_statement, check_variable,
    duplicate_definition, expect_type, find_field, find_struct, globals, infer, item_name,
    item_span, missing_field, named_among, not_iterable, type_mismatch, unknown_field,
    value_index, value_index_from, ScopesView,
};
use crate::diagnostics::{
    error_at, first_error, first_error_from, is_error, DiagnosticView, Error, ErrorView,
    SpanView,
};

verus! {

/// Compilation is deterministic: two compilations of one source text
/// agree on whether they succeed, and where they do, they yield the
/// same text, character by character.
pub proof fn law_compilation_is_deterministic(
    first: Result<String, Error>,
    second: Result<String, Error>,
    source: Seq<char>,
    file: Seq<char>,
    module_name: Seq<char>,
)
    requires
        result_view(first) == compile_model(source, file, module_name).result,
        result_view(second) == compile_model(source, file, module_name).result,
    ensures
        first is Ok <==> second is Ok,
        first is Ok ==> first->Ok_0@ == second->Ok_0@,
        first is Err ==> first->Err_0@ == second->Err_0@,
{
}

/// Lowering is deterministic: two texts generated from syntax trees of
/// one value are the same.
pub proof fn law_generation_is_deterministic(
    first: Result<String, Error>,
    second: Result<String, Error>,
    program: ProgramView,
)
    requires
        lower_program(program) matches Ok(text) && first matches Ok(a) && a@ == text,
        lower_program(program) matches Ok(text) && second matches Ok(b) && b@ == text,
    ensures
        first->Ok_0@ == second->Ok_0@,
{
}

/// A module with a semantic error is not lowered: its compilation fails
/// with the message of the first error, whatever the lowering of the
/// module would be.
pub proof fn law_semantic_errors_stop_generation(program: ProgramView, module_name: Seq<char>)
    requires
        first_error(check_program(program)) is Some,
    ensures
        back_end_model(program, module_name).result == Err::<Seq<char>, ErrorView>(
            ErrorView::SemanticError(first_error(check_program(program))->0.message),
        ),
        back_end_model(program, module_name).diagnostics == check_program(program),
{
    reveal(back_end_model);
}

/// A diagnostic that is an error and stands among diagnostics makes
/// them hold a first error.
pub proof fn lemma_error_is_found(diagnostics: Seq<DiagnosticView>, i: int, from: int)
    requires
        0 <= from <= i < diagnostics.len(),
        is_error(diagnostics[i]),
    ensures
        first_error_from(diagnostics, from) is Some,
    decreases i - from,
{
    if from < i && !is_error(diagnostics[from]) {
        lemma_error_is_found(diagnostics, i, from + 1);
    }
}

/// A variable whose initializer has another type than the declared one
/// gets a type-mismatch diagnostic that names both types, at the span
/// of the initializer.
pub proof fn law_mismatched_initializer(
    items: Seq<ItemView>,
    scopes: ScopesView,
    v: VariableView,
    found: TypeView,
)
    requires
        infer(items, scopes, v.initializer).ty == Some(found),
        found != v.var_type,
    ensures
        check_variable(items, scopes, v).contains(
            error_at(type_mismatch(v.var_type, found), expression_span(v.initializer)),
        ),
{
    let all = check_variable(items, scopes, v);
    let d = error_at(type_mismatch(v.var_type, found), expression_span(v.initializer));
    assert(all[all.len() - 1] == d);
}

/// A `for` statement over a value that is no list gets a diagnostic
/// that names the expected type and the type of the value.
pub proof fn law_for_needs_a_list(
    items: Seq<ItemView>,
    scopes: ScopesView,
    expected: TypeView,
    s: StatementView,
    found: TypeView,
)
    requires
        s is For,
        infer(items, scopes, s->iterable).ty == Some(found),
        !(found is List),
    ensures
        check_statement(items, scopes, expected, s).1.contains(
            error_at(not_iterable(found), expression_span(s->iterable)),
        ),
{
    let value = infer(items, scopes, s->iterable);
    let all = check_for(items, scopes, expected, s);
    let d = error_at(not_iterable(found), expression_span(s->iterable));
    assert(all[value.diagnostics.len() as int] == d);
}

/// A call that leaves out trailing arguments type-checks where each
/// parameter without an argument declares a default value and each
/// argument has the type of its parameter.
pub proof fn law_defaults_complete_a_call(
    function: FunctionView,
    arguments: Seq<ExpressionView>,
    types: Seq<Option<TypeView>>,
    span: SpanView,
)
    requires
        arguments.len() <= function.parameters.len(),
        types.len() == arguments.len(),
        forall|i: int|
            0 <= i < arguments.len() ==> types[i] == Some(
                (#[trigger] function.parameters[i]).param_type,
            ),
        forall|i: int|
            arguments.len() <= i < function.parameters.len() ==> (
            #[trigger] function.parameters[i]).default_value is Some,
    ensures
        check_call(function, arguments, types, span) == Seq::<DiagnosticView>::empty(),
{
    lemma_arguments_accepted(function, arguments, types, span, function.parameters.len());
}

proof fn lemma_arguments_accepted(
    function: FunctionView,
    arguments: Seq<ExpressionView>,
    types: Seq<Option<TypeView>>,
    span: SpanView,
    n: nat,
)
    requires
        n <= function.parameters.len(),
        arguments.len() <= function.parameters.len(),
        types.len() == arguments.len(),
        forall|i: int|
            0 <= i < arguments.len() ==> types[i] == Some(
                (#[trigger] function.parameters[i]).param_type,
            ),
        forall|i: int|
            arguments.len() <= i < function.parameters.len() ==> (
            #[trigger] function.parameters[i]).default_value is Some,
    ensures
        check_arguments(function, arguments, types, span, n) == Seq::<DiagnosticView>::empty(),
    decreases n,
{
    if n > 0 {
        lemma_arguments_accepted(function, arguments, types, span, (n - 1) as nat);
        let parameter = function.parameters[n - 1];
        assert(parameter == function.parameters[n - 1]);
    }
}

/// What holds an element of a part holds it as a whole.
proof fn lemma_contains_left<T>(a: Seq<T>, b: Seq<T>, x: T)
    requires
        a.contains(x),
    ensures
        (a + b).contains(x),
{
    let i = choose|i: int| 0 <= i < a.len() && a[i] == x;
    assert((a + b)[i] == x);
}

proof fn lemma_contains_right<T>(a: Seq<T>, b: Seq<T>, x: T)
    requires
        b.contains(x),
    ensures
        (a + b).contains(x),
{
    let i = choose|i: int| 0 <= i < b.len() && b[i] == x;
    assert((a + b)[a.len() + i] == x);
}

/// A struct literal that gives no value for a declared field gets a
/// diagnostic that names the field, at the span of the literal.
pub proof fn law_missing_field_is_reported(
    items: Seq<ItemView>,
    scopes: ScopesView,
    e: ExpressionView,
    declaration: StructView,
    k: int,
)
    requires
        e is StructInit,
        find_struct(items, e->struct_name) == Some(declaration),
        0 <= k < declaration.fields.len(),
        value_index(e->fields, declaration.fields[k].name) is None,
    ensures
        infer(items, scopes, e).diagnostics.contains(
            error_at(missing_field(declaration.name, declaration.fields[k].name), expression_span(e)),
        ),
{
    let d = error_at(missing_field(declaration.name, declaration.fields[k].name), expression_span(e));
    lemma_missing_among(
        items,
        scopes,
        declaration,
        e->fields,
        expression_span(e),
        k,
        declaration.fields.len(),
    );
    lemma_contains_left(
        check_declared_fields(
            items,
            scopes,
            declaration,
            e->fields,
            expression_span(e),
            declaration.fields.len(),
        ),
        check_given_fields(items, scopes, declaration, e->fields, e->fields.len()),
        d,
    );
}

proof fn lemma_missing_among(
    items: Seq<ItemView>,
    scopes: ScopesView,
    declaration: StructView,
    values: Seq<(Seq<char>, ExpressionView)>,
    span: SpanView,
    k: int,
    n: nat,
)
    requires
        0 <= k < n <= declaration.fields.len(),
        value_index(values, declaration.fields[k].name) is None,
    ensures
        check_declared_fields(items, scopes, declaration, values, span, n).contains(
            error_at(missing_field(declaration.name, declaration.fields[k].name), span),
        ),
    decreases n,
{
    let d = error_at(missing_field(declaration.name, declaration.fields[k].name), span);
    let before = check_declared_fields(items, scopes, declaration, values, span, (n - 1) as nat);
    let all = check_declared_fields(items, scopes, declaration, values, span, n);
    if n == k + 1 {
        assert(all == before + seq![d]);
        assert(seq![d][0] == d);
        lemma_contains_right(before, seq![d], d);
    } else {
        lemma_missing_among(items, scopes, declaration, values, span, k, (n - 1) as nat);
        let field = declaration.fields[n - 1];
        let last = match value_index(values, field.name) {
            Some(i) => if 0 <= i < values.len() {
                let value = infer(items, scopes, values[i].1);
                value.diagnostics + expect_type(
                    field.field_type,
                    value.ty,
                    expression_span(values[i].1),
                )
            } else {
                Seq::empty()
            },
            None => seq![error_at(missing_field(declaration.name, field.name), span)],
        };
        assert(all == before + last);
        lemma_contains_left(before, last, d);
    }
}

/// A struct literal that gives a value for a field that the struct
/// does not declare gets a diagnostic that names the field, at the
/// span of the value.
pub proof fn law_unknown_field_is_reported(
    items: Seq<ItemView>,
    scopes: ScopesView,
    e: ExpressionView,
    declaration: StructView,
    j: int,
)
    requires
        e is StructInit,
        find_struct(items, e->struct_name) == Some(declaration),
        0 <= j < e->fields.len(),
        find_field(declaration.fields, e->fields[j].0) is None,
    ensures
        infer(items, scopes, e).diagnostics.contains(
            error_at(
                unknown_field(declaration.name, e->fields[j].0),
                expression_span(e->fields[j].1),
            ),
        ),
{
    let d = error_at(
        unknown_field(declaration.name, e->fields[j].0),
        expression_span(e->fields[j].1),
    );
    lemma_unknown_among(items, scopes, declaration, e->fields, j, e->fields.len());
    lemma_contains_right(
        check_declared_fields(
            items,
            scopes,
            declaration,
            e->fields,
            expression_span(e),
            declaration.fields.len(),
        ),
        check_given_fields(items, scopes, declaration, e->fields, e->fields.len()),
        d,
    );
}

proof fn lemma_unknown_among(
    items: Seq<ItemView>,
    scopes: ScopesView,
    declaration: StructView,
    values: Seq<(Seq<char>, ExpressionView)>,
    j: int,
    n: nat,
)
    requires
        0 <= j < n <= values.len(),
        find_field(declaration.fields, values[j].0) is None,
    ensures
        check_given_fields(items, scopes, declaration, values, n).contains(
            error_at(unknown_field(declaration.name, values[j].0), expression_span(values[j].1)),
        ),
    decreases n,
{
    let d = error_at(unknown_field(declaration.name, values[j].0), expression_span(values[j].1));
    let before = check_given_fields(items, scopes, declaration, values, (n - 1) as nat);
    let all = check_given_fields(items, scopes, declaration, values, n);
    if n == j + 1 {
        let rest = infer(items, scopes, values[j].1).diagnostics;
        assert(all == before + (seq![d] + rest));
        assert((seq![d] + rest)[0] == d);
        lemma_contains_right(before, seq![d] + rest, d);
    } else {
        lemma_unknown_among(items, scopes, declaration, values, j, (n - 1) as nat);
        let (name, value) = values[n - 1];
        let last = if find_field(declaration.fields, name) is None {
            seq![error_at(unknown_field(declaration.name, name), expression_span(value))] + infer(
                items,
                scopes,
                value,
            ).diagnostics
        } else if value_index(values, name) != Some(n - 1) {
            seq![
                error_at(
                    crate::compiler::typing::duplicate_field_value(declaration.name, name),
                    expression_span(value),
                ),
            ] + infer(items, scopes, value).diagnostics
        } else {
            Seq::empty()
        };
        assert(all == before + last);
        lemma_contains_left(before, last, d);
    }
}

/// The value that a struct literal gives for a field.
pub open spec fn value_of(values: Seq<(Seq<char>, ExpressionView)>, name: Seq<char>) -> Option<
    ExpressionView,
> {
    match value_index(values, name) {
        Some(i) => Some(values[i].1),
        None => None,
    }
}

/// Whether two struct literals give the same value for every field.
pub open spec fn same_values(
    first: Seq<(Seq<char>, ExpressionView)>,
    second: Seq<(Seq<char>, ExpressionView)>,
) -> bool {
    forall|name: Seq<char>| #[trigger] value_of(first, name) == value_of(second, name)
}

/// An index that `value_index_from` finds lies at or behind `from`,
/// inside the values, and holds the name.
pub proof fn lemma_value_index_bounds(
    values: Seq<(Seq<char>, ExpressionView)>,
    name: Seq<char>,
    from: int,
)
    requires
        0 <= from,
    ensures
        value_index_from(values, name, from) matches Some(i) ==> from <= i < values.len()
            && values[i].0 == name,
    decreases values.len() - from,
{
    if from < values.len() && values[from].0 != name {
        lemma_value_index_bounds(values, name, from + 1);
    }
}

/// The text of a struct literal depends on the values that it gives
/// for the fields, not on the order in which it gives them: two
/// literals of one struct that give the same value for every field are
/// lowered to the same text, with the fields in declared order.
pub proof fn law_literal_order_is_immaterial(
    items: Seq<ItemView>,
    depth: nat,
    first: ExpressionView,
    second: ExpressionView,
)
    requires
        first is StructInit,
        second is StructInit,
        first->struct_name == second->struct_name,
        same_values(first->fields, second->fields),
    ensures
        lower_expression(items, depth, first) == lower_expression(items, depth, second),
{
    match find_struct(items, first->struct_name) {
        Some(declaration) => {
            lemma_field_values_agree(items, depth, declaration, first->fields, second->fields, 0);
        },
        None => {},
    }
}

proof fn lemma_field_values_agree(
    items: Seq<ItemView>,
    depth: nat,
    declaration: StructView,
    first: Seq<(Seq<char>, ExpressionView)>,
    second: Seq<(Seq<char>, ExpressionView)>,
    from: int,
)
    requires
        same_values(first, second),
        0 <= from,
    ensures
        lower_field_values(items, depth, declaration, first, from) == lower_field_values(
            items,
            depth,
            declaration,
            second,
            from,
        ),
    decreases declaration.fields.len() - from,
{
    if from < declaration.fields.len() {
        let name = declaration.fields[from].name;
        lemma_value_index_bounds(first, name, 0);
        lemma_value_index_bounds(second, name, 0);
        assert(value_of(first, name) == value_of(second, name));
        lemma_field_values_agree(items, depth, declaration, first, second, from + 1);
    }
}

/// Whether no two of the values are for one field.
pub open spec fn distinct_names(values: Seq<(Seq<char>, ExpressionView)>) -> bool {
    forall|i: int, j: int|
        0 <= i < j < values.len() ==> (#[trigger] values[i]).0 != (#[trigger] values[j]).0
}

/// Where no field is given twice, the value of a field is the one that
/// stands with its name, wherever it stands.
proof fn lemma_value_of_entry(values: Seq<(Seq<char>, ExpressionView)>, k: int, from: int)
    requires
        distinct_names(values),
        0 <= from <= k < values.len(),
    ensures
        value_index_from(values, values[k].0, from) == Some(k),
    decreases k - from,
{
    if from < k {
        assert(values[from].0 != values[k].0);
        lemma_value_of_entry(values, k, from + 1);
    }
}

/// Two struct literals that give the same values in another order, and
/// no field twice, give the same value for every field.
pub proof fn law_reordered_values_are_the_same(
    first: Seq<(Seq<char>, ExpressionView)>,
    second: Seq<(Seq<char>, ExpressionView)>,
)
    requires
        distinct_names(first),
        distinct_names(second),
        forall|i: int| 0 <= i < first.len() ==> second.contains(#[trigger] first[i]),
        forall|i: int| 0 <= i < second.len() ==> first.contains(#[trigger] second[i]),
    ensures
        same_values(first, second),
{
    assert forall|name: Seq<char>| #[trigger]
        value_of(first, name) == value_of(second, name) by {
        lemma_value_index_bounds(first, name, 0);
        lemma_value_index_bounds(second, name, 0);
        match value_index(first, name) {
            Some(i) => {
                assert(second.contains(first[i]));
                let j = choose|j: int| 0 <= j < second.len() && second[j] == first[i];
                lemma_value_of_entry(second, j, 0);
            },
            None => {
                match value_index(second, name) {
                    Some(j) => {
                        assert(first.contains(second[j]));
                        let i = choose|i: int| 0 <= i < first.len() && first[i] == second[j];
                        lemma_value_of_entry(first, i, 0);
                    },
                    None => {},
                }
            },
        }
    }
}

/// The text `part` between the texts `before` and `after`.
pub open spec fn embedded(before: Seq<char>, part: Seq<char>, after: Seq<char>) -> Seq<char> {
    before + part + after
}

/// Whether the text `part` stands, as it is, somewhere in `whole`.
pub open spec fn occurs_in(part: Seq<char>, whole: Seq<char>) -> bool {
    exists|before: Seq<char>, after: Seq<char>| whole == #[trigger] embedded(before, part, after)
}

/// The text of a call that leaves out trailing arguments holds, for
/// each parameter without an argument, the text of the default value
/// of the parameter, as it is.
pub proof fn law_call_holds_default_values(
    items: Seq<ItemView>,
    depth: nat,
    e: ExpressionView,
    f: FunctionView,
    j: int,
)
    requires
        e is Call,
        callee(items, *e->function) == Some(f),
        e->arguments.len() <= j < f.parameters.len(),
        lower_expression(items, depth, e) is Ok,
    ensures
        depth > 0,
        f.parameters[j].default_value matches Some(value) && lower_expression(
            items,
            (depth - 1) as nat,
            value,
        ) matches Ok(text) && occurs_in(text, lower_expression(items, depth, e)->Ok_0),
{
    let head = lower_expression(items, depth, *e->function);
    let given = lower_list(items, depth, e->arguments, 0);
    let from = e->arguments.len() as int;
    let defaults = lower_defaults(items, (depth - 1) as nat, f.name, f.parameters, from);
    assert(lower_expression(items, depth, e) == chain(
        head,
        chain(
            Ok("("@),
            chain(
                given,
                chain(
                    if depth > 0 {
                        defaults
                    } else {
                        Err(crate::compiler::lowering::defaults_too_deep())
                    },
                    Ok(")"@),
                ),
            ),
        ),
    ));
    lemma_defaults_hold_value(items, (depth - 1) as nat, f.name, f.parameters, from, j);
    let value = f.parameters[j].default_value->0;
    let text = lower_expression(items, (depth - 1) as nat, value)->Ok_0;
    let (before, after) = choose|before: Seq<char>, after: Seq<char>|
        defaults->Ok_0 == #[trigger] embedded(before, text, after);
    let whole = lower_expression(items, depth, e)->Ok_0;
    assert(whole == embedded(head->Ok_0 + "("@ + given->Ok_0 + before, text, after + ")"@));
}

proof fn lemma_defaults_hold_value(
    items: Seq<ItemView>,
    depth: nat,
    function: Seq<char>,
    parameters: Seq<crate::compiler::ast::ParameterView>,
    from: int,
    j: int,
)
    requires
        0 <= from <= j < parameters.len(),
        lower_defaults(items, depth, function, parameters, from) is Ok,
    ensures
        parameters[j].default_value matches Some(value) && lower_expression(items, depth, value)
            matches Ok(text) && occurs_in(
            text,
            lower_defaults(items, depth, function, parameters, from)->Ok_0,
        ),
    decreases j - from,
{
    let all = lower_defaults(items, depth, function, parameters, from)->Ok_0;
    let value = parameters[from].default_value->0;
    let one = lower_expression(items, depth, value)->Ok_0;
    let rest = lower_defaults(items, depth, function, parameters, from + 1)->Ok_0;
    assert(all == separator(from) + (one + rest));
    if j == from {
        assert(all == embedded(separator(from), one, rest));
    } else {
        lemma_defaults_hold_value(items, depth, function, parameters, from + 1, j);
        let text = lower_expression(items, depth, parameters[j].default_value->0)->Ok_0;
        let (before, after) = choose|before: Seq<char>, after: Seq<char>|
            rest == #[trigger] embedded(before, text, after);
        assert(all == embedded(separator(from) + one + before, text, after));
    }
}

/// What is reported for an item is reported for the module.
proof fn lemma_item_diagnostics_kept(items: Seq<ItemView>, i: int, n: nat, d: DiagnosticView)
    requires
        0 <= i < n <= items.len(),
        check_item(items, i).contains(d),
    ensures
        check_items(items, n).contains(d),
    decreases n,
{
    if n == i + 1 {
        lemma_contains_right(check_items(items, (n - 1) as nat), check_item(items, i), d);
    } else {
        lemma_item_diagnostics_kept(items, i, (n - 1) as nat, d);
        lemma_contains_left(check_items(items, (n - 1) as nat), check_item(items, n - 1), d);
    }
}

/// A module that declares a variable whose initializer has another
/// type than the declared one is not lowered: the mismatch is among
/// its diagnostics, and its compilation fails.
pub proof fn law_mismatched_variable_is_not_lowered(
    program: ProgramView,
    i: int,
    found: TypeView,
    module_name: Seq<char>,
)
    requires
        0 <= i < program.items.len(),
        program.items[i] is Variable,
        infer(
            program.items,
            globals(program.items),
            program.items[i]->Variable_0.initializer,
        ).ty == Some(found),
        found != program.items[i]->Variable_0.var_type,
    ensures
        check_program(program).contains(
            error_at(
                type_mismatch(program.items[i]->Variable_0.var_type, found),
                expression_span(program.items[i]->Variable_0.initializer),
            ),
        ),
        back_end_model(program, module_name).result is Err,
{
    let items = program.items;
    let v = items[i]->Variable_0;
    let d = error_at(type_mismatch(v.var_type, found), expression_span(v.initializer));
    law_mismatched_initializer(items, globals(items), v, found);
    let named = if named_among(items, item_name(items[i]), i as nat) {
        seq![error_at(duplicate_definition(item_name(items[i])), item_span(items[i]))]
    } else {
        Seq::empty()
    };
    lemma_contains_right(named, check_variable(items, globals(items), v), d);
    lemma_item_diagnostics_kept(items, i, items.len(), d);
    let all = check_program(program);
    let k = choose|k: int| 0 <= k < all.len() && all[k] == d;
    lemma_error_is_found(all, k, 0);
    law_semantic_errors_stop_generation(program, module_name);
}

/// A lexical error stops the compilation of a module before parsing:
/// the compilation fails with that error and reports no diagnostic.
pub proof fn law_lexical_error_stops_compilation(
    source: Seq<char>,
    file: Seq<char>,
    module_name: Seq<char>,
)
    requires
        tokens_of(source, file) is Err,
    ensures
        compile_model(source, file, module_name).result == Err::<Seq<char>, ErrorView>(
            tokens_of(source, file)->Err_0,
        ),
        compile_model(source, file, module_name).diagnostics == Seq::<DiagnosticView>::empty(),
{
    reveal(compile_model);
    reveal(front_end_model);
}

/// A string literal that no quote closes is an unterminated string:
/// where no quote and no backslash stands at `pos` or behind, the rest
/// of the literal is malformed.
pub proof fn law_unclosed_string_is_unterminated(input: Seq<char>, pos: int, value: Seq<char>)
    requires
        0 <= pos,
        forall|i: int| pos <= i < input.len() ==> input[i] != '"' && input[i] != '\\',
    ensures
        scan_string_at(input, pos, value) == (Scanned::Failure { message: unterminated_string() }),
    decreases input.len() - pos,
{
    if pos < input.len() {
        law_unclosed_string_is_unterminated(input, pos + 1, value.push(input[pos]));
    }
}

/// The tokens of every source text end with the end-of-input token.
pub proof fn law_tokens_end_with_eof(input: Seq<char>, file: Seq<char>, pos: int)
    requires
        0 <= pos <= input.len(),
        tokens_from(input, file, pos) is Ok,
    ensures
        tokens_from(input, file, pos)->Ok_0.len() > 0,
        tokens_from(input, file, pos)->Ok_0.last() == eof_token(input, file),
    decreases input.len() - pos,
{
    let start = skip_blanks(input, pos);
    lemma_skip_blanks_bounds(input, pos);
    if start < input.len() {
        lemma_scan_advances(input, start);
        match scan_at(input, start) {
            Scanned::Failure { .. } => {},
            Scanned::Comment { next } => {
                law_tokens_end_with_eof(input, file, next);
            },
            Scanned::Token { next, .. } => {
                law_tokens_end_with_eof(input, file, next);
            },
        }
    }
}

} // verus!
