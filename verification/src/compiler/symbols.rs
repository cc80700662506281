//! Scopes and lookups of the semantic analyzer: bindings, the
//! declarations of a module by name, and the texts of types.

use vstd::prelude::*;
use crate::compiler::ast::{
    field_values_view, BinaryOperator, Expression, Field, Function, Item, Struct, Type, TypeView,
    UnaryOperator,
};
use crate::compiler::typing;
use crate::compiler::typing::BindingView;
use crate::diagnostics::{error_at, Diagnostic, DiagnosticEngine, Span};

verus! {

/// A name in scope.
pub struct Binding {
    pub name: String,
    pub ty: Option<Type>,
    pub mutable: bool,
}

impl DeepView for Binding {
    type V = BindingView;

    open spec fn deep_view(&self) -> BindingView {
        BindingView { name: self.name@, ty: self.ty.deep_view(), mutable: self.mutable }
    }
}

/// The text `a b c`.
pub(crate) fn join3(a: &str, b: &str, c: &str) -> (s: String)
    ensures
        s@ == a@ + b@ + c@,
{
    let mut s = String::from_str(a);
    s.append(b);
    s.append(c);
    s
}

/// The text `a b c d e`.
pub(crate) fn join5(a: &str, b: &str, c: &str, d: &str, e: &str) -> (s: String)
    ensures
        s@ == a@ + b@ + c@ + d@ + e@,
{
    let mut s = join3(a, b, c);
    s.append(d);
    s.append(e);
    s
}

/// The text `a b c d e f g`.
pub(crate) fn join7(a: &str, b: &str, c: &str, d: &str, e: &str, f: &str, g: &str) -> (s: String)
    ensures
        s@ == a@ + b@ + c@ + d@ + e@ + f@ + g@,
{
    let mut s = join5(a, b, c, d, e);
    s.append(f);
    s.append(g);
    s
}

/// The text of a type.
pub fn type_text(t: &Type) -> (s: String)
    ensures
        s@ == typing::type_text(t@),
    decreases t,
{
    match t {
        Type::Int => String::from_str("Int"),
        Type::Float => String::from_str("Float"),
        Type::Str => String::from_str("Str"),
        Type::Bool => String::from_str("Bool"),
        Type::Void => String::from_str("Void"),
        Type::List(element) => {
            let inner = type_text(element);
            join3("List<", inner.as_str(), ">")
        },
        Type::Struct(name) => name.clone(),
    }
}

/// The text of a binary operator.
pub(crate) fn binary_operator_text(operator: BinaryOperator) -> (s: &'static str)
    ensures
        s@ == typing::binary_operator_text(operator),
{
    match operator {
        BinaryOperator::Add => "+",
        BinaryOperator::Sub => "-",
        BinaryOperator::Mul => "*",
        BinaryOperator::Div => "/",
        BinaryOperator::Mod => "%",
        BinaryOperator::Eq => "==",
        BinaryOperator::Ne => "!=",
        BinaryOperator::Lt => "<",
        BinaryOperator::Le => "<=",
        BinaryOperator::Gt => ">",
        BinaryOperator::Ge => ">=",
        BinaryOperator::And => "&&",
        BinaryOperator::Or => "||",
    }
}

/// The text of a unary operator.
pub(crate) fn unary_operator_text(operator: UnaryOperator) -> (s: &'static str)
    ensures
        s@ == typing::unary_operator_text(operator),
{
    match operator {
        UnaryOperator::Neg => "-",
        UnaryOperator::Not => "!",
    }
}

/// Whether two types are equal.
pub fn same_type(a: &Type, b: &Type) -> (equal: bool)
    ensures
        equal == (a@ == b@),
    decreases a,
{
    match (a, b) {
        (Type::Int, Type::Int) => true,
        (Type::Float, Type::Float) => true,
        (Type::Str, Type::Str) => true,
        (Type::Bool, Type::Bool) => true,
        (Type::Void, Type::Void) => true,
        (Type::List(x), Type::List(y)) => same_type(x, y),
        (Type::Struct(x), Type::Struct(y)) => x.as_str().eq(y.as_str()),
        _ => false,
    }
}

/// Whether a type is `Int` or `Float`.
pub(crate) fn is_numeric(t: &Type) -> (b: bool)
    ensures
        b == typing::is_numeric(t@),
{
    match t {
        Type::Int => true,
        Type::Float => true,
        _ => false,
    }
}

/// Whether a type is `Bool`.
pub(crate) fn is_bool(t: &Type) -> (b: bool)
    ensures
        b == (t@ == TypeView::Bool),
{
    match t {
        Type::Bool => true,
        _ => false,
    }
}

/// Whether a type is `Void`.
pub(crate) fn is_void(t: &Type) -> (b: bool)
    ensures
        b == (t@ == TypeView::Void),
{
    match t {
        Type::Void => true,
        _ => false,
    }
}

/// The latest binding of `name` in one scope.
pub(crate) fn lookup_in<'a>(scope: &'a Vec<Binding>, name: &str) -> (found: Option<&'a Binding>)
    ensures
        match typing::lookup_in(scope.deep_view(), name@) {
            Some(b) => found matches Some(f) && f.deep_view() == b,
            None => found is None,
        },
{
    let ghost model = scope.deep_view();
    let mut i = scope.len();
    assert(model.take(i as int) == model);
    while i > 0
        invariant
            i <= scope.len(),
            model == scope.deep_view(),
            typing::lookup_in(model, name@) == typing::lookup_in(model.take(i as int), name@),
        decreases i,
    {
        i = i - 1;
        assert(model.take(i + 1).drop_last() == model.take(i as int));
        assert(model.take(i + 1).last() == scope[i as int].deep_view());
        if scope[i].name.as_str().eq(name) {
            return Some(&scope[i]);
        }
    }
    None
}

/// The visible binding of `name`.
pub fn lookup<'a>(scopes: &'a Vec<Vec<Binding>>, name: &str) -> (found: Option<&'a Binding>)
    ensures
        match typing::lookup(scopes.deep_view(), name@) {
            Some(b) => found matches Some(f) && f.deep_view() == b,
            None => found is None,
        },
{
    let ghost model = scopes.deep_view();
    let mut i = scopes.len();
    assert(model.take(i as int) == model);
    while i > 0
        invariant
            i <= scopes.len(),
            model == scopes.deep_view(),
            typing::lookup(model, name@) == typing::lookup(model.take(i as int), name@),
        decreases i,
    {
        i = i - 1;
        assert(model.take(i + 1).drop_last() == model.take(i as int));
        assert(model.take(i + 1).last() == scopes[i as int].deep_view());
        match lookup_in(&scopes[i], name) {
            Some(binding) => {
                return Some(binding);
            },
            None => {},
        }
    }
    None
}

/// The index of the first struct named `name`.
pub fn struct_index(items: &Vec<Item>, name: &str) -> (found: Option<usize>)
    ensures
        match typing::struct_index_from(items.deep_view(), name@, 0) {
            Some(i) => found == Some(i as usize) && 0 <= i < items.len() && items[i] is Struct,
            None => found is None,
        },
{
    let ghost model = items.deep_view();
    let mut i: usize = 0;
    while i < items.len()
        invariant
            i <= items.len(),
            model == items.deep_view(),
            typing::struct_index_from(model, name@, 0) == typing::struct_index_from(
                model,
                name@,
                i as int,
            ),
        decreases items.len() - i,
    {
        match &items[i] {
            Item::Struct(s) => {
                if s.name.as_str().eq(name) {
                    return Some(i);
                }
            },
            _ => {},
        }
        i = i + 1;
    }
    None
}

/// The declaration of the struct `name`.
pub fn find_struct<'a>(items: &'a Vec<Item>, name: &str) -> (found: Option<&'a Struct>)
    ensures
        match typing::find_struct(items.deep_view(), name@) {
            Some(s) => found matches Some(f) && f@ == s,
            None => found is None,
        },
{
    match struct_index(items, name) {
        Some(i) => match &items[i] {
            Item::Struct(s) => Some(s),
            _ => None,
        },
        None => None,
    }
}

/// The declaration of the function `name`.
pub fn find_function<'a>(items: &'a Vec<Item>, name: &str) -> (found: Option<&'a Function>)
    ensures
        match typing::find_function(items.deep_view(), name@) {
            Some(f) => found matches Some(g) && g@ == f,
            None => found is None,
        },
{
    let ghost model = items.deep_view();
    let mut i: usize = 0;
    while i < items.len()
        invariant
            i <= items.len(),
            model == items.deep_view(),
            typing::find_function(model, name@) == typing::function_from(model, name@, i as int),
        decreases items.len() - i,
    {
        match &items[i] {
            Item::Function(f) => {
                if f.name.as_str().eq(name) {
                    return Some(f);
                }
            },
            _ => {},
        }
        i = i + 1;
    }
    None
}

/// The index of the first field named `name`.
pub fn field_index(fields: &Vec<Field>, name: &str) -> (found: Option<usize>)
    ensures
        match typing::field_index_from(fields.deep_view(), name@, 0) {
            Some(i) => found == Some(i as usize) && 0 <= i < fields.len(),
            None => found is None,
        },
{
    let ghost model = fields.deep_view();
    let mut i: usize = 0;
    while i < fields.len()
        invariant
            i <= fields.len(),
            model == fields.deep_view(),
            typing::field_index_from(model, name@, 0) == typing::field_index_from(
                model,
                name@,
                i as int,
            ),
        decreases fields.len() - i,
    {
        if fields[i].name.as_str().eq(name) {
            return Some(i);
        }
        i = i + 1;
    }
    None
}

/// The index of the first value given for the field `name`.
pub fn value_index(values: &Vec<(String, Expression)>, name: &str) -> (found: Option<usize>)
    ensures
        match typing::value_index(crate::compiler::ast::field_values_view(values@), name@) {
            Some(i) => found == Some(i as usize) && 0 <= i < values.len(),
            None => found is None,
        },
{
    let ghost model = crate::compiler::ast::field_values_view(values@);
    let mut i: usize = 0;
    while i < values.len()
        invariant
            i <= values.len(),
            model == crate::compiler::ast::field_values_view(values@),
            typing::value_index(model, name@) == typing::value_index_from(model, name@, i as int),
        decreases values.len() - i,
    {
        if values[i].0.as_str().eq(name) {
            return Some(i);
        }
        i = i + 1;
    }
    None
}

/// Reports an error.
pub(crate) fn report(diagnostics: &mut DiagnosticEngine, message: String, span: Span)
    ensures
        final(diagnostics)@ == old(diagnostics)@.push(error_at(message@, span@)),
{
    diagnostics.report(Diagnostic::error(message, span));
}

/// `after` is `before` but for its innermost scope.
pub open spec fn same_outer(before: typing::ScopesView, after: typing::ScopesView) -> bool {
    before.len() > 0 ==> after.len() == before.len() && after.drop_last() == before.drop_last()
}

/// The scopes with `binding` added to the innermost one.
pub(crate) fn declare(scopes: &mut Vec<Vec<Binding>>, binding: Binding)
    ensures
        final(scopes).deep_view() == typing::declare(
            old(scopes).deep_view(),
            binding.deep_view(),
        ),
        same_outer(old(scopes).deep_view(), final(scopes).deep_view()),
{
    let ghost before = scopes.deep_view();
    match scopes.pop() {
        Some(last) => {
            let mut innermost = last;
            let ghost outer = scopes.deep_view();
            assert(outer == before.drop_last());
            let ghost inner = innermost.deep_view();
            assert(inner == before.last());
            innermost.push(binding);
            assert(innermost.deep_view() == inner.push(binding.deep_view()));
            scopes.push(innermost);
            assert(scopes.deep_view() == outer.push(inner.push(binding.deep_view())));
            assert(outer.push(inner.push(binding.deep_view())).drop_last() == outer);
        },
        None => {
            let mut innermost: Vec<Binding> = Vec::new();
            innermost.push(binding);
            assert(innermost.deep_view() == seq![binding.deep_view()]);
            scopes.push(innermost);
            assert(scopes.deep_view() == seq![seq![binding.deep_view()]]);
        },
    }
}

/// Opens a scope.
pub(crate) fn push_scope(scopes: &mut Vec<Vec<Binding>>, scope: Vec<Binding>)
    ensures
        final(scopes).deep_view() == old(scopes).deep_view().push(scope.deep_view()),
{
    scopes.push(scope);
    assert(scopes.deep_view() =~= old(scopes).deep_view().push(scope.deep_view()));
}

/// Closes the innermost scope.
pub(crate) fn pop_scope(scopes: &mut Vec<Vec<Binding>>)
    requires
        old(scopes).len() > 0,
    ensures
        final(scopes).deep_view() == old(scopes).deep_view().drop_last(),
        old(scopes).deep_view().len() > 0,
{
    let _ = scopes.pop();
    assert(scopes.deep_view() =~= old(scopes).deep_view().drop_last());
}

/// A scope that holds no binding.
pub(crate) fn empty_scope() -> (scope: Vec<Binding>)
    ensures
        scope.deep_view() == Seq::<BindingView>::empty(),
{
    let scope: Vec<Binding> = Vec::new();
    assert(scope.deep_view() =~= Seq::<BindingView>::empty());
    scope
}

/// A scope that holds one binding.
pub(crate) fn single_scope(binding: Binding) -> (scope: Vec<Binding>)
    ensures
        scope.deep_view() == seq![binding.deep_view()],
{
    let mut scope: Vec<Binding> = Vec::new();
    scope.push(binding);
    assert(scope.deep_view() =~= seq![binding.deep_view()]);
    scope
}

/// Whether the innermost scope binds `name`.
pub(crate) fn declared_here(scopes: &Vec<Vec<Binding>>, name: &str) -> (b: bool)
    ensures
        b == typing::declared_here(scopes.deep_view(), name@),
{
    if scopes.len() == 0 {
        false
    } else {
        assert(scopes.deep_view().last() == scopes[scopes.len() - 1].deep_view());
        lookup_in(&scopes[scopes.len() - 1], name).is_some()
    }
}

} // verus!
