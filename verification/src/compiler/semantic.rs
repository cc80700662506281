//! The semantic analyzer: name resolution and static type checking.
//!
//! Every checking function reports, in order, exactly the diagnostics
//! that the typing rules give for the tree that it checks.

use vstd::prelude::*;
use crate::compiler::ast::{Constant, Function, Item, Parameter, Program, Struct, Type, Variable};
use crate::compiler::typing;
use crate::diagnostics::{
    first_error, lemma_first_error_behind, DiagnosticEngine, Error, ErrorView, Span,
};
use crate::compiler::checking::{check_block, check_type, check_variable};
use crate::compiler::inference::{expect_type, infer};
use crate::compiler::symbols::{
    empty_scope, field_index, is_void, join3, join5, pop_scope, push_scope, report,
    struct_index, Binding,
};

verus! {

/// The global scope of a module: its variables and constants.
pub(crate) fn global_scope(items: &Vec<Item>) -> (scope: Vec<Binding>)
    ensures
        scope.deep_view() == typing::global_bindings(items.deep_view(), items.len() as nat),
{
    let mut scope = empty_scope();
    let mut n: usize = 0;
    while n < items.len()
        invariant
            n <= items.len(),
            scope.deep_view() == typing::global_bindings(items.deep_view(), n as nat),
        decreases items.len() - n,
    {
        let ghost before = scope.deep_view();
        match &items[n] {
            Item::Variable(v) => {
                let binding = Binding {
                    name: v.name.clone(),
                    ty: Some(v.var_type.duplicate()),
                    mutable: v.mutable,
                };
                scope.push(binding);
                assert(scope.deep_view() =~= before.push(binding.deep_view()));
            },
            Item::Constant(c) => {
                let binding = Binding {
                    name: c.name.clone(),
                    ty: Some(c.const_type.duplicate()),
                    mutable: false,
                };
                scope.push(binding);
                assert(scope.deep_view() =~= before.push(binding.deep_view()));
            },
            _ => {},
        }
        n = n + 1;
    }
    scope
}

/// The scope of the parameters of a function.
pub(crate) fn parameter_scope(parameters: &Vec<Parameter>) -> (scope: Vec<Binding>)
    ensures
        scope.deep_view() == typing::parameter_bindings(
            parameters.deep_view(),
            parameters.len() as nat,
        ),
{
    let mut scope = empty_scope();
    let mut n: usize = 0;
    while n < parameters.len()
        invariant
            n <= parameters.len(),
            scope.deep_view() == typing::parameter_bindings(parameters.deep_view(), n as nat),
        decreases parameters.len() - n,
    {
        let ghost before = scope.deep_view();
        let binding = Binding {
            name: parameters[n].name.clone(),
            ty: Some(parameters[n].param_type.duplicate()),
            mutable: false,
        };
        scope.push(binding);
        assert(scope.deep_view() =~= before.push(binding.deep_view()));
        n = n + 1;
    }
    scope
}

/// The name that an item declares.
pub(crate) fn item_name(item: &Item) -> (name: &String)
    ensures
        name@ == typing::item_name(item@),
{
    match item {
        Item::Function(f) => &f.name,
        Item::Struct(s) => &s.name,
        Item::Variable(v) => &v.name,
        Item::Constant(c) => &c.name,
    }
}

/// The span of an item.
pub(crate) fn item_span(item: &Item) -> (span: &Span)
    ensures
        span@ == typing::item_span(item@),
{
    match item {
        Item::Function(f) => &f.span,
        Item::Struct(s) => &s.span,
        Item::Variable(v) => &v.span,
        Item::Constant(c) => &c.span,
    }
}

/// Whether one of the first `n` items declares `name`.
pub(crate) fn named_among(items: &Vec<Item>, name: &str, n: usize) -> (b: bool)
    requires
        n <= items.len(),
    ensures
        b == typing::named_among(items.deep_view(), name@, n as nat),
{
    let mut i: usize = 0;
    while i < n
        invariant
            i <= n <= items.len(),
            !typing::named_among(items.deep_view(), name@, i as nat),
        decreases n - i,
    {
        if item_name(&items[i]).as_str().eq(name) {
            proof {
                lemma_named_later(items.deep_view(), name@, i as nat, n as nat);
            }
            return true;
        }
        i = i + 1;
    }
    false
}

/// An item among the first `n` that declares `name` is among the first
/// `m`, for every later `m`.
proof fn lemma_named_later(
    items: Seq<crate::compiler::ast::ItemView>,
    name: Seq<char>,
    i: nat,
    m: nat,
)
    requires
        i < m <= items.len(),
        typing::item_name(items[i as int]) == name,
    ensures
        typing::named_among(items, name, m),
    decreases m,
{
    if m > i + 1 {
        lemma_named_later(items, name, i, (m - 1) as nat);
    }
}

/// Whether one of the first `n` parameters has the name `name`.
pub(crate) fn parameter_among(parameters: &Vec<Parameter>, name: &str, n: usize) -> (b: bool)
    requires
        n <= parameters.len(),
    ensures
        b == typing::parameter_among(parameters.deep_view(), name@, n as nat),
{
    let mut i: usize = 0;
    while i < n
        invariant
            i <= n <= parameters.len(),
            !typing::parameter_among(parameters.deep_view(), name@, i as nat),
        decreases n - i,
    {
        if parameters[i].name.as_str().eq(name) {
            proof {
                lemma_parameter_later(parameters.deep_view(), name@, i as nat, n as nat);
            }
            return true;
        }
        i = i + 1;
    }
    false
}

/// A parameter among the first `n` that has the name `name` is among
/// the first `m`, for every later `m`.
proof fn lemma_parameter_later(
    parameters: Seq<crate::compiler::ast::ParameterView>,
    name: Seq<char>,
    i: nat,
    m: nat,
)
    requires
        i < m <= parameters.len(),
        parameters[i as int].name == name,
    ensures
        typing::parameter_among(parameters, name, m),
    decreases m,
{
    if m > i + 1 {
        lemma_parameter_later(parameters, name, i, (m - 1) as nat);
    }
}

/// Reports what is wrong with the parameter at index `i` of a
/// function. `scopes` is the global scope.
pub(crate) fn check_parameter(
    items: &Vec<Item>,
    scopes: &Vec<Vec<Binding>>,
    function: &Function,
    i: usize,
    diagnostics: &mut DiagnosticEngine,
)
    requires
        i < function.parameters.len(),
        scopes.deep_view() == typing::globals(items.deep_view()),
    ensures
        final(diagnostics)@ == old(diagnostics)@ + typing::check_parameter(
            items.deep_view(),
            function@,
            i as int,
        ),
{
    let parameter = &function.parameters[i];
    assert(function@.parameters[i as int] == parameter@);
    check_type(items, &parameter.param_type, &parameter.span, diagnostics);
    if parameter_among(&function.parameters, parameter.name.as_str(), i) {
        report(
            diagnostics,
            join5(
                "Duplicate parameter '",
                parameter.name.as_str(),
                "' in function '",
                function.name.as_str(),
                "'",
            ),
            parameter.span.duplicate(),
        );
    }
    match &parameter.default_value {
        Some(value) => {
            let found = infer(items, scopes, value, diagnostics);
            expect_type(&parameter.param_type, &found, value, diagnostics);
        },
        None => {},
    }
}

/// Reports what is wrong with the parameters of a function. `scopes`
/// is the global scope.
pub(crate) fn check_parameters(
    items: &Vec<Item>,
    scopes: &Vec<Vec<Binding>>,
    function: &Function,
    diagnostics: &mut DiagnosticEngine,
)
    requires
        scopes.deep_view() == typing::globals(items.deep_view()),
    ensures
        final(diagnostics)@ == old(diagnostics)@ + typing::check_parameters(
            items.deep_view(),
            function@,
            function.parameters.len() as nat,
        ),
{
    let ghost start = diagnostics@;
    let mut n: usize = 0;
    while n < function.parameters.len()
        invariant
            n <= function.parameters.len(),
            scopes.deep_view() == typing::globals(items.deep_view()),
            diagnostics@ == start + typing::check_parameters(
                items.deep_view(),
                function@,
                n as nat,
            ),
        decreases function.parameters.len() - n,
    {
        check_parameter(items, scopes, function, n, diagnostics);
        n = n + 1;
    }
}

/// Reports what is wrong with a function. `scopes` is the global scope.
#[verifier::rlimit(80)]
pub(crate) fn check_function(
    items: &Vec<Item>,
    scopes: &mut Vec<Vec<Binding>>,
    function: &Function,
    diagnostics: &mut DiagnosticEngine,
)
    requires
        old(scopes).deep_view() == typing::globals(items.deep_view()),
    ensures
        final(scopes).deep_view() == old(scopes).deep_view(),
        final(diagnostics)@ == old(diagnostics)@ + typing::check_function(
            items.deep_view(),
            function@,
        ),
{
    let ghost outer = scopes.deep_view();
    check_parameters(items, scopes, function, diagnostics);
    if !is_void(&function.return_type) {
        check_type(items, &function.return_type, &function.span, diagnostics);
    }
    let scope = parameter_scope(&function.parameters);
    let ghost bound = scope.deep_view();
    push_scope(scopes, scope);
    check_block(items, scopes, &function.return_type, &function.body, diagnostics);
    assert(scopes.len() == scopes.deep_view().len());
    pop_scope(scopes);
    assert(outer.push(bound).drop_last() == outer);
}

/// Reports what is wrong with the fields of a struct.
pub(crate) fn check_fields(items: &Vec<Item>, declaration: &Struct, diagnostics: &mut DiagnosticEngine)
    ensures
        final(diagnostics)@ == old(diagnostics)@ + typing::check_fields(
            items.deep_view(),
            declaration@,
            declaration.fields.len() as nat,
        ),
{
    let ghost start = diagnostics@;
    let mut n: usize = 0;
    while n < declaration.fields.len()
        invariant
            n <= declaration.fields.len(),
            diagnostics@ == start + typing::check_fields(
                items.deep_view(),
                declaration@,
                n as nat,
            ),
        decreases declaration.fields.len() - n,
    {
        let field = &declaration.fields[n];
        assert(declaration@.fields[n as int] == field@);
        check_type(items, &field.field_type, &field.span, diagnostics);
        let again = match field_index(&declaration.fields, field.name.as_str()) {
            Some(i) => i != n,
            None => true,
        };
        if again {
            report(
                diagnostics,
                join5(
                    "Duplicate field '",
                    field.name.as_str(),
                    "' in struct '",
                    declaration.name.as_str(),
                    "'",
                ),
                field.span.duplicate(),
            );
        }
        n = n + 1;
    }
}

/// The index of the struct that a field of type `t` holds by value.
pub(crate) fn by_value_struct(items: &Vec<Item>, t: &Type) -> (found: Option<usize>)
    ensures
        match typing::by_value_struct(items.deep_view(), t@) {
            Some(i) => found == Some(i as usize) && 0 <= i < items.len(),
            None => found is None,
        },
{
    match t {
        Type::Struct(name) => struct_index(items, name.as_str()),
        _ => None,
    }
}

/// `table` tells of every item whether it is a struct that is sized
/// after `rounds` rounds.
pub open spec fn is_sized_table(
    items: Seq<crate::compiler::ast::ItemView>,
    table: Seq<bool>,
    rounds: nat,
) -> bool {
    table.len() == items.len() && forall|i: int|
        0 <= i < table.len() ==> table[i] == typing::sized(items, rounds, i)
}

/// Whether the item at index `i` is a struct that is sized one round
/// after the round of `table`.
pub(crate) fn sized_next(
    items: &Vec<Item>,
    table: &Vec<bool>,
    i: usize,
    Ghost(rounds): Ghost<nat>,
) -> (b: bool)
    requires
        i < items.len(),
        is_sized_table(items.deep_view(), table@, rounds),
    ensures
        b == typing::sized(items.deep_view(), rounds + 1, i as int),
{
    match &items[i] {
        Item::Struct(declaration) => {
            assert(items.deep_view()[i as int]->Struct_0.fields == declaration.fields.deep_view());
            let mut n: usize = 0;
            while n < declaration.fields.len()
                invariant
                    n <= declaration.fields.len(),
                    i < items.len(),
                    items[i as int] == Item::Struct(*declaration),
                    items.deep_view()[i as int] is Struct,
                    items.deep_view()[i as int]->Struct_0.fields
                        == declaration.fields.deep_view(),
                    is_sized_table(items.deep_view(), table@, rounds),
                    typing::fields_sized(items.deep_view(), rounds, i as int, n as nat),
                decreases declaration.fields.len() - n,
            {
                match by_value_struct(items, &declaration.fields[n].field_type) {
                    Some(j) => {
                        if !table[j] {
                            proof {
                                lemma_fields_unsized(
                                    items.deep_view(),
                                    rounds,
                                    i as int,
                                    n as nat,
                                    declaration.fields.len() as nat,
                                );
                            }
                            return false;
                        }
                    },
                    None => {},
                }
                n = n + 1;
            }
            true
        },
        _ => false,
    }
}

/// Where the field at `k` breaks `fields_sized`, so does every longer
/// run of fields.
proof fn lemma_fields_unsized(
    items: Seq<crate::compiler::ast::ItemView>,
    rounds: nat,
    i: int,
    k: nat,
    n: nat,
)
    requires
        0 <= i < items.len(),
        items[i] is Struct,
        k < n <= items[i]->Struct_0.fields.len(),
        !typing::fields_sized(items, rounds, i, k + 1),
    ensures
        !typing::fields_sized(items, rounds, i, n),
    decreases n,
{
    if n > k + 1 {
        lemma_fields_unsized(items, rounds, i, k, (n - 1) as nat);
    }
}

/// For every item, whether it is a struct whose by-value fields form
/// no cycle.
pub(crate) fn sized_table(items: &Vec<Item>) -> (table: Vec<bool>)
    ensures
        is_sized_table(items.deep_view(), table@, items.len() as nat),
{
    let mut table: Vec<bool> = Vec::new();
    while table.len() < items.len()
        invariant
            table.len() <= items.len(),
            forall|i: int| 0 <= i < table.len() ==> table[i] == false,
        decreases items.len() - table.len(),
    {
        table.push(false);
    }
    let mut round: usize = 0;
    while round < items.len()
        invariant
            round <= items.len(),
            is_sized_table(items.deep_view(), table@, round as nat),
        decreases items.len() - round,
    {
        let mut next: Vec<bool> = Vec::new();
        while next.len() < items.len()
            invariant
                next.len() <= items.len(),
                is_sized_table(items.deep_view(), table@, round as nat),
                forall|i: int|
                    0 <= i < next.len() ==> next[i] == typing::sized(
                        items.deep_view(),
                        (round + 1) as nat,
                        i,
                    ),
            decreases items.len() - next.len(),
        {
            let b = sized_next(items, &table, next.len(), Ghost(round as nat));
            next.push(b);
        }
        table = next;
        round = round + 1;
    }
    table
}

/// Reports what is wrong with the struct at index `i`.
pub(crate) fn check_struct(
    items: &Vec<Item>,
    i: usize,
    declaration: &Struct,
    table: &Vec<bool>,
    diagnostics: &mut DiagnosticEngine,
)
    requires
        i < items.len(),
        is_sized_table(items.deep_view(), table@, items.len() as nat),
    ensures
        final(diagnostics)@ == old(diagnostics)@ + typing::check_struct(
            items.deep_view(),
            i as int,
            declaration@,
        ),
{
    check_fields(items, declaration, diagnostics);
    if !table[i] {
        report(
            diagnostics,
            join3(
                "Struct '",
                declaration.name.as_str(),
                "' has no finite size: its fields hold a cycle by value",
            ),
            declaration.span.duplicate(),
        );
    }
}

/// Reports what is wrong with a constant. `scopes` is the global scope.
pub(crate) fn check_constant(
    items: &Vec<Item>,
    scopes: &Vec<Vec<Binding>>,
    c: &Constant,
    diagnostics: &mut DiagnosticEngine,
)
    requires
        scopes.deep_view() == typing::globals(items.deep_view()),
    ensures
        final(diagnostics)@ == old(diagnostics)@ + typing::check_constant(items.deep_view(), c@),
{
    check_type(items, &c.const_type, &c.span, diagnostics);
    let found = infer(items, scopes, &c.value, diagnostics);
    expect_type(&c.const_type, &found, &c.value, diagnostics);
}

/// Reports what is wrong with the item at index `i`. `scopes` is the
/// global scope.
pub(crate) fn check_item(
    items: &Vec<Item>,
    scopes: &mut Vec<Vec<Binding>>,
    i: usize,
    table: &Vec<bool>,
    diagnostics: &mut DiagnosticEngine,
)
    requires
        i < items.len(),
        old(scopes).deep_view() == typing::globals(items.deep_view()),
        is_sized_table(items.deep_view(), table@, items.len() as nat),
    ensures
        final(scopes).deep_view() == old(scopes).deep_view(),
        final(diagnostics)@ == old(diagnostics)@ + typing::check_item(
            items.deep_view(),
            i as int,
        ),
{
    let item = &items[i];
    assert(items.deep_view()[i as int] == item@);
    if named_among(items, item_name(item).as_str(), i) {
        report(
            diagnostics,
            join3("Duplicate definition of '", item_name(item).as_str(), "'"),
            item_span(item).duplicate(),
        );
    }
    match item {
        Item::Function(f) => check_function(items, scopes, f, diagnostics),
        Item::Struct(s) => check_struct(items, i, s, table, diagnostics),
        Item::Variable(v) => check_variable(items, scopes, v, diagnostics),
        Item::Constant(c) => check_constant(items, scopes, c, diagnostics),
    }
}

/// The semantic analyzer of one module. It owns the scopes that it
/// builds, and drops them when the module is checked: it holds none
/// between two modules.
pub struct SemanticAnalyzer {
    scopes: Vec<Vec<Binding>>,
}

impl SemanticAnalyzer {
    /// An analyzer that holds no scope yet.
    pub fn new() -> (analyzer: Self)
        ensures
            analyzer.scopes() == Seq::<Seq<typing::BindingView>>::empty(),
    {
        let analyzer = SemanticAnalyzer { scopes: Vec::new() };
        assert(analyzer.scopes.deep_view() =~= Seq::<Seq<typing::BindingView>>::empty());
        analyzer
    }

    /// Checks a module. Every violation of the typing rules is reported
    /// to `diagnostics`, in the order of the rules. The module passes
    /// where none of them is an error; otherwise the error holds the
    /// message of the first error.
    pub fn analyze(&mut self, program: &Program, diagnostics: &mut DiagnosticEngine) -> (result:
        Result<(), Error>)
        ensures
            final(diagnostics)@ == old(diagnostics)@ + typing::check_program(program@),
            match first_error(typing::check_program(program@)) {
                Some(d) => result matches Err(e) && e@ == ErrorView::SemanticError(d.message),
                None => result is Ok,
            },
            final(self).scopes() == Seq::<Seq<typing::BindingView>>::empty(),
    {
        let ghost start = diagnostics@;
        let before = diagnostics.len();
        let items = &program.items;
        let table = sized_table(items);
        self.scopes = Vec::new();
        push_scope(&mut self.scopes, global_scope(items));
        assert(self.scopes.deep_view() =~= typing::globals(items.deep_view()));
        let mut n: usize = 0;
        while n < items.len()
            invariant
                n <= items.len(),
                items == &program.items,
                before == start.len(),
                self.scopes.deep_view() == typing::globals(items.deep_view()),
                is_sized_table(items.deep_view(), table@, items.len() as nat),
                diagnostics@ == start + typing::check_items(items.deep_view(), n as nat),
            decreases items.len() - n,
        {
            check_item(items, &mut self.scopes, n, &table, diagnostics);
            n = n + 1;
        }
        self.scopes = Vec::new();
        assert(self.scopes.deep_view() =~= Seq::<Seq<typing::BindingView>>::empty());
        proof {
            lemma_first_error_behind(start, typing::check_program(program@), 0);
        }
        match diagnostics.first_error_from(before) {
            Some(first) => Err(Error::SemanticError(first.message)),
            None => Ok(()),
        }
    }

    /// The scopes that the analyzer holds: those of the module that it
    /// is checking, and none between two modules.
    pub closed spec fn scopes(&self) -> typing::ScopesView {
        self.scopes.deep_view()
    }
}

} // verus!
