use rustic::compiler::ast::{
    BinaryOperator, Expression, Item, Literal, Program, Statement, Type, UnaryOperator,
};
use rustic::compiler::lexer::Lexer;
use rustic::compiler::parser::Parser;
use rustic::diagnostics::{DiagnosticEngine, Error, Severity};

fn parse_source(source: &str) -> (Result<Program, Error>, DiagnosticEngine) {
    let mut lexer = Lexer::new(source, "unit.rsc");
    let tokens = lexer.tokenize().expect("tokens");
    let parser = Parser::new(tokens);
    let mut engine = DiagnosticEngine::new();
    let result = parser.parse(&mut engine);
    (result, engine)
}

fn parse_ok(source: &str) -> Program {
    let (result, engine) = parse_source(source);
    assert_eq!(engine.len(), 0);
    result.expect("a program")
}

fn initializer(source: &str) -> Expression {
    let mut program = parse_ok(source);
    match program.items.remove(0) {
        Item::Variable(v) => v.initializer,
        other => panic!("not a variable: {:?}", other),
    }
}

fn render(e: &Expression) -> String {
    match e {
        Expression::Literal(Literal::Integer(n), _) => format!("{}", n),
        Expression::Literal(Literal::Float(s), _) => s.clone(),
        Expression::Literal(Literal::String(s), _) => format!("{:?}", s),
        Expression::Literal(Literal::Boolean(b), _) => format!("{}", b),
        Expression::Identifier(id) => id.name.clone(),
        Expression::Binary(op) => {
            format!("({} {:?} {})", render(&op.left), op.operator, render(&op.right))
        }
        Expression::Unary(op) => format!("({:?} {})", op.operator, render(&op.operand)),
        Expression::Call(call) => format!(
            "{}({})",
            render(&call.function),
            call.arguments.iter().map(render).collect::<Vec<_>>().join(", ")
        ),
        Expression::MemberAccess(access) => format!("{}.{}", render(&access.object), access.member),
        Expression::List(list) => {
            format!("[{}]", list.elements.iter().map(render).collect::<Vec<_>>().join(", "))
        }
        Expression::StructInit(init) => format!(
            "{} {{{}}}",
            init.struct_name,
            init.fields
                .iter()
                .map(|(n, v)| format!("{}: {}", n, render(v)))
                .collect::<Vec<_>>()
                .join(", ")
        ),
    }
}

#[test]
fn empty_module() {
    let program = parse_ok("");
    assert!(program.items.is_empty());
    assert!(program.imports.is_empty());
}

#[test]
fn imports_come_first() {
    let program = parse_ok("import std.io;\nimport util;\nlet x: Int = 1;");
    assert_eq!(program.imports.len(), 2);
    assert_eq!(program.imports[0].path, "std.io");
    assert_eq!(program.imports[1].path, "util");
    assert_eq!(program.items.len(), 1);
    let (result, engine) = parse_source("let x: Int = 1;\nimport util;");
    assert_eq!(result, Err(Error::ParseError("Expected item declaration".to_string())));
    assert_eq!(engine.len(), 1);
    let d = engine.get(0);
    assert_eq!(d.severity, Severity::Error);
    assert_eq!(d.message, "Expected item declaration");
    assert_eq!((d.span.start_line, d.span.start_column), (2, 1));
    assert_eq!(d.span.file, "unit.rsc");
}

#[test]
fn precedence_climbs_from_or_to_unary() {
    let e = initializer("let x: Bool = a || b && c == d < e + f * -g;");
    assert_eq!(render(&e), "(a Or (b And (c Eq (d Lt (e Add (f Mul (Neg g)))))))");
}

#[test]
fn binary_operators_join_from_the_left() {
    assert_eq!(render(&initializer("let x: Int = 1 - 2 - 3;")), "((1 Sub 2) Sub 3)");
    assert_eq!(render(&initializer("let x: Int = 8 / 4 % 3 * 2;")), "(((8 Div 4) Mod 3) Mul 2)");
    assert_eq!(render(&initializer("let x: Int = (1 - (2 - 3));")), "(1 Sub (2 Sub 3))");
    assert_eq!(
        render(&initializer("let x: Bool = a <= b != c >= d;")),
        "((a Le b) Ne (c Ge d))"
    );
    assert_eq!(render(&initializer("let x: Bool = !!a;")), "(Not (Not a))");
}

#[test]
fn postfix_chains_apply_from_the_left() {
    assert_eq!(render(&initializer("let x: Int = a.b(1, 2).c();")), "a.b(1, 2).c()");
    assert_eq!(render(&initializer("let x: Int = -f(x).y;")), "(Neg f(x).y)");
}

#[test]
fn list_and_struct_literals() {
    assert_eq!(render(&initializer("let x: List<Int> = [1, 2, 3];")), "[1, 2, 3]");
    assert_eq!(render(&initializer("let x: List<Int> = [];")), "[]");
    assert_eq!(
        render(&initializer("let p: Point = Point { y: 2, x: 1 + 1 };")),
        "Point {y: 2, x: (1 Add 1)}"
    );
    assert_eq!(render(&initializer("let p: Unit = Unit {};")), "Unit {}");
    assert_eq!(
        render(&initializer("let s: Str = \"a\\\"b\"; ")),
        "\"a\\\"b\""
    );
    assert_eq!(render(&initializer("let f: Float = 2.50;")), "2.50");
}

#[test]
fn function_with_defaults_and_types() {
    let program = parse_ok(
        "fn area(w: Int, h: Int = 2, names: List<List<Str>> = [[\"a\"]]) -> Void { return; }",
    );
    match &program.items[0] {
        Item::Function(f) => {
            assert_eq!(f.name, "area");
            assert_eq!(f.parameters.len(), 3);
            assert_eq!(f.parameters[0].default_value, None);
            assert_eq!(render(f.parameters[1].default_value.as_ref().unwrap()), "2");
            assert_eq!(
                f.parameters[2].param_type,
                Type::List(Box::new(Type::List(Box::new(Type::Str))))
            );
            assert_eq!(f.return_type, Type::Void);
            assert_eq!(f.body.statements.len(), 1);
            assert!(matches!(&f.body.statements[0], Statement::Return(r) if r.value.is_none()));
        }
        other => panic!("not a function: {:?}", other),
    }
}

#[test]
fn struct_declaration() {
    let program = parse_ok("struct Point { x: Int, y: Float, next: Point }\nstruct Unit {}");
    match &program.items[0] {
        Item::Struct(s) => {
            assert_eq!(s.name, "Point");
            let fields: Vec<(&str, &Type)> =
                s.fields.iter().map(|f| (f.name.as_str(), &f.field_type)).collect();
            assert_eq!(
                fields,
                vec![
                    ("x", &Type::Int),
                    ("y", &Type::Float),
                    ("next", &Type::Struct("Point".to_string()))
                ]
            );
        }
        other => panic!("not a struct: {:?}", other),
    }
    assert!(matches!(&program.items[1], Item::Struct(s) if s.fields.is_empty()));
}

#[test]
fn variables_and_constants() {
    let program = parse_ok("let a: Int = 1;\nvar b: Str = \"x\";\nconst C: Bool = true;");
    assert!(matches!(&program.items[0], Item::Variable(v) if v.name == "a" && !v.mutable));
    assert!(matches!(&program.items[1], Item::Variable(v) if v.name == "b" && v.mutable));
    assert!(matches!(&program.items[2], Item::Constant(c) if c.name == "C" && c.const_type == Type::Bool));
}

#[test]
fn statements_of_every_kind() {
    let program = parse_ok(
        "fn f(xs: List<Int>) -> Int {\n\
           var total: Int = 0;\n\
           for x in xs { total = total + x; }\n\
           if total > 10 { return 10; } else if total > 5 { return 5; } else if total > 1 { } else { total = 0; }\n\
           try { g(); } catch (Int) { } catch (Failure) { return 1; }\n\
           p.q.r = 3;\n\
           g(total);\n\
           return total;\n\
         }",
    );
    let f = match &program.items[0] {
        Item::Function(f) => f,
        other => panic!("not a function: {:?}", other),
    };
    let s = &f.body.statements;
    assert_eq!(s.len(), 7);
    assert!(matches!(&s[0], Statement::Variable(v) if v.mutable && v.name == "total"));
    match &s[1] {
        Statement::For(l) => {
            assert_eq!(l.variable, "x");
            assert_eq!(render(&l.iterable), "xs");
            assert_eq!(l.body.statements.len(), 1);
            assert!(matches!(&l.body.statements[0], Statement::Assignment(a)
                if render(&a.target) == "total" && render(&a.value) == "(total Add x)"));
        }
        other => panic!("not a for: {:?}", other),
    }
    match &s[2] {
        Statement::If(i) => {
            assert_eq!(render(&i.condition), "(total Gt 10)");
            assert_eq!(i.then_block.statements.len(), 1);
            assert_eq!(i.else_ifs.len(), 2);
            assert_eq!(render(&i.else_ifs[0].0), "(total Gt 5)");
            assert_eq!(render(&i.else_ifs[1].0), "(total Gt 1)");
            assert!(i.else_ifs[1].1.statements.is_empty());
            assert_eq!(i.else_block.as_ref().unwrap().statements.len(), 1);
        }
        other => panic!("not an if: {:?}", other),
    }
    match &s[3] {
        Statement::Try(t) => {
            assert_eq!(t.try_block.statements.len(), 1);
            let names: Vec<&str> =
                t.catch_clauses.iter().map(|c| c.exception_type.as_str()).collect();
            assert_eq!(names, vec!["Int", "Failure"]);
        }
        other => panic!("not a try: {:?}", other),
    }
    assert!(matches!(&s[4], Statement::Assignment(a) if render(&a.target) == "p.q.r"));
    assert!(matches!(&s[5], Statement::Expression(e) if render(e) == "g(total)"));
    assert!(matches!(&s[6], Statement::Return(r) if r.value.is_some()));
}

#[test]
fn condition_holds_no_bare_struct_literal() {
    let program = parse_ok("fn f(p: P) -> Void { if p { } for x in (Q { a: 1 }).items { } }");
    let f = match &program.items[0] {
        Item::Function(f) => f,
        other => panic!("not a function: {:?}", other),
    };
    assert!(matches!(&f.body.statements[0], Statement::If(i) if render(&i.condition) == "p"));
    assert!(matches!(&f.body.statements[1], Statement::For(l)
        if render(&l.iterable) == "Q {a: 1}.items"));
}

#[test]
fn spans_cover_the_node() {
    let program = parse_ok("let x: Int =\n  1 + call(2);");
    match &program.items[0] {
        Item::Variable(v) => {
            assert_eq!(
                (v.span.start_line, v.span.start_column, v.span.end_line, v.span.end_column),
                (1, 1, 2, 15)
            );
            match &v.initializer {
                Expression::Binary(op) => {
                    assert_eq!(op.operator, BinaryOperator::Add);
                    assert_eq!(
                        (
                            op.span.start_line,
                            op.span.start_column,
                            op.span.end_line,
                            op.span.end_column
                        ),
                        (2, 3, 2, 14)
                    );
                }
                other => panic!("not a binary: {:?}", other),
            }
        }
        other => panic!("not a variable: {:?}", other),
    }
}

fn first_error(source: &str) -> (String, usize, usize) {
    let (result, engine) = parse_source(source);
    let message = match result {
        Err(Error::ParseError(m)) => m,
        other => panic!("not a parse error: {:?}", other),
    };
    assert_eq!(engine.len(), 1);
    let d = engine.get(0);
    assert_eq!(d.message, message);
    (message, d.span.start_line, d.span.start_column)
}

#[test]
fn grammar_violations_are_located() {
    assert_eq!(first_error("let x Int = 1;"), ("Expected ':' after variable name".to_string(), 1, 7));
    assert_eq!(first_error("let x: Int = ;"), ("Expected expression".to_string(), 1, 14));
    assert_eq!(first_error("let x: Int = 1"), ("Expected ';' after variable declaration".to_string(), 1, 15));
    assert_eq!(first_error("fn f() { }"), ("Expected '->' after parameters".to_string(), 1, 8));
    assert_eq!(first_error("fn f() -> Int { return 1; "), ("Expected '}'".to_string(), 1, 27));
    assert_eq!(first_error("fn f() -> Int { try { } }"), ("Expected 'catch' after try block".to_string(), 1, 25));
    assert_eq!(first_error("fn f() -> Int { x = (1; }"), ("Expected ')' after expression".to_string(), 1, 23));
    assert_eq!(first_error("struct S { a: List<Int }"), ("Expected '>' after list element type".to_string(), 1, 24));
    assert_eq!(first_error("let x: Int = f(1 2);"), ("Expected ',' or ')' after argument".to_string(), 1, 18));
    assert_eq!(first_error("let x: Int = a.1;"), ("Expected member name after '.'".to_string(), 1, 16));
    assert_eq!(first_error("42"), ("Expected item declaration".to_string(), 1, 1));
    assert_eq!(UnaryOperator::Neg, UnaryOperator::Neg);
}
