use rustic::compiler::ast::{
    Expression, Function, FunctionCall, Identifier, Item, Literal, Parameter, Program, Struct,
    Field, Block, BinaryOp, BinaryOperator, StructInitializer, Type, UnaryOp, UnaryOperator, Variable,
};
use rustic::compiler::codegen::{emit_type, CodeGenerator};
use rustic::compiler::semantic::SemanticAnalyzer;
use rustic::compiler::symbols::{same_type, type_text};
use rustic::compiler::{parse_source, run_back_end, RusticCompiler};
use rustic::diagnostics::{DiagnosticEngine, Error, Span};

fn span() -> Span {
    Span { file: "t.rsc".to_string(), start_line: 1, start_column: 1, end_line: 1, end_column: 2 }
}

fn integer(n: i64) -> Expression {
    Expression::Literal(Literal::Integer(n), span())
}

fn string(s: &str) -> Expression {
    Expression::Literal(Literal::String(s.to_string()), span())
}

fn name(n: &str) -> Expression {
    Expression::Identifier(Identifier { name: n.to_string(), span: span() })
}

fn global(n: &str, t: Type, e: Expression) -> Item {
    Item::Variable(Variable {
        name: n.to_string(),
        var_type: t,
        initializer: e,
        mutable: false,
        span: span(),
    })
}

fn point() -> Item {
    Item::Struct(Struct {
        name: "P".to_string(),
        fields: vec![
            Field { name: "a".to_string(), field_type: Type::Int, span: span() },
            Field { name: "b".to_string(), field_type: Type::Str, span: span() },
        ],
        span: span(),
    })
}

fn literal(fields: Vec<(&str, Expression)>) -> Expression {
    Expression::StructInit(StructInitializer {
        struct_name: "P".to_string(),
        fields: fields.into_iter().map(|(n, e)| (n.to_string(), e)).collect(),
        span: span(),
    })
}

fn generate(items: Vec<Item>) -> Result<String, Error> {
    CodeGenerator::new().generate(&Program { items, imports: vec![] }, "m")
}

#[test]
fn types_are_lowered_to_rust_types() {
    let cases = [
        (Type::Int, "i64", "Int"),
        (Type::Float, "f64", "Float"),
        (Type::Str, "String", "Str"),
        (Type::Bool, "bool", "Bool"),
        (Type::Void, "()", "Void"),
        (Type::Struct("P".to_string()), "P", "P"),
        (Type::List(Box::new(Type::List(Box::new(Type::Str)))), "Vec<Vec<String>>", "List<List<Str>>"),
    ];
    for (t, lowered, written) in cases {
        let mut out = String::from(">");
        emit_type(&t, &mut out);
        assert_eq!(out, format!(">{}", lowered));
        assert_eq!(type_text(&t), written);
        assert!(same_type(&t, &t.clone()));
        assert!(!same_type(&t, &Type::List(Box::new(t.clone()))));
    }
    assert!(!same_type(&Type::Struct("P".to_string()), &Type::Struct("Q".to_string())));
}

#[test]
fn literals_are_lowered() {
    let out = generate(vec![
        global("a", Type::Int, integer(-5)),
        global("b", Type::Int, integer(i64::MIN)),
        global("c", Type::Int, integer(i64::MAX)),
        global("d", Type::Int, integer(0)),
        global("e", Type::Float, Expression::Literal(Literal::Float("0.50".to_string()), span())),
        global("f", Type::Str, string("tab\there \\ \"q\"\r\n")),
        global("g", Type::Bool, Expression::Literal(Literal::Boolean(false), span())),
    ])
    .expect("text");
    assert_eq!(
        out,
        "pub static a: i64 = -5;\n\
\n\
pub static b: i64 = -9223372036854775808;\n\
\n\
pub static c: i64 = 9223372036854775807;\n\
\n\
pub static d: i64 = 0;\n\
\n\
pub static e: f64 = 0.50;\n\
\n\
pub static f: String = String::from(\"tab\\there \\\\ \\\"q\\\"\\r\\n\");\n\
\n\
pub static g: bool = false;\n"
    );
}

#[test]
fn operators_are_lowered_with_parentheses() {
    let e = Expression::Unary(UnaryOp {
        operator: UnaryOperator::Not,
        operand: Box::new(Expression::Binary(BinaryOp {
            left: Box::new(name("x")),
            operator: BinaryOperator::Le,
            right: Box::new(Expression::Unary(UnaryOp {
                operator: UnaryOperator::Neg,
                operand: Box::new(integer(1)),
                span: span(),
            })),
            span: span(),
        })),
        span: span(),
    });
    assert_eq!(
        generate(vec![global("b", Type::Bool, e)]),
        Ok("pub static b: bool = (!(x <= (-1)));\n".to_string())
    );
}

#[test]
fn struct_literal_order_comes_from_the_declaration() {
    let expected = Ok("#[derive(Debug, Clone, PartialEq)]\n\
pub struct P {\n\
\x20   pub a: i64,\n\
\x20   pub b: String,\n\
}\n\
\n\
pub static p: P = P { a: 1, b: String::from(\"x\") };\n"
        .to_string());
    let one = literal(vec![("a", integer(1)), ("b", string("x"))]);
    let other = literal(vec![("b", string("x")), ("a", integer(1))]);
    assert_eq!(generate(vec![point(), global("p", Type::Struct("P".to_string()), one)]), expected);
    assert_eq!(generate(vec![point(), global("p", Type::Struct("P".to_string()), other)]), expected);
    let twice = literal(vec![("b", string("x")), ("a", integer(1)), ("a", integer(2))]);
    assert_eq!(generate(vec![point(), global("p", Type::Struct("P".to_string()), twice)]), expected);
}

#[test]
fn incomplete_trees_cannot_be_lowered() {
    assert_eq!(
        generate(vec![global("p", Type::Struct("P".to_string()), literal(vec![]))]),
        Err(Error::CodegenError("Module 'm': Undefined struct 'P'".to_string()))
    );
    assert_eq!(
        generate(vec![point(), global("p", Type::Struct("P".to_string()), literal(vec![("a", integer(1))]))]),
        Err(Error::CodegenError(
            "Module 'm': Missing field 'b' in initializer of struct 'P'".to_string()
        ))
    );
    let f = Item::Function(Function {
        name: "f".to_string(),
        parameters: vec![
            Parameter { name: "a".to_string(), param_type: Type::Int, default_value: None, span: span() },
            Parameter {
                name: "b".to_string(),
                param_type: Type::Int,
                default_value: Some(integer(7)),
                span: span(),
            },
        ],
        return_type: Type::Void,
        body: Block { statements: vec![], span: span() },
        span: span(),
    });
    let call = |arguments: Vec<Expression>| {
        Expression::Call(FunctionCall { function: Box::new(name("f")), arguments, span: span() })
    };
    assert_eq!(
        generate(vec![global("x", Type::Int, call(vec![]))]),
        Ok("pub static x: i64 = f();\n".to_string())
    );
    let with = |arguments: Vec<Expression>| {
        generate(vec![
            Item::Function(match &f {
                Item::Function(g) => Function {
                    name: g.name.clone(),
                    parameters: vec![
                        Parameter {
                            name: "a".to_string(),
                            param_type: Type::Int,
                            default_value: None,
                            span: span(),
                        },
                        Parameter {
                            name: "b".to_string(),
                            param_type: Type::Int,
                            default_value: Some(integer(7)),
                            span: span(),
                        },
                    ],
                    return_type: Type::Void,
                    body: Block { statements: vec![], span: span() },
                    span: span(),
                },
                _ => unreachable!(),
            }),
            global("x", Type::Int, call(arguments)),
        ])
    };
    assert_eq!(
        with(vec![]),
        Err(Error::CodegenError(
            "Module 'm': Missing argument for parameter 'a' of function 'f'".to_string()
        ))
    );
    assert_eq!(
        with(vec![integer(1)]),
        Ok("pub fn f(a: i64, b: i64) -> () {\n}\n\npub static x: i64 = f(1, 7);\n".to_string())
    );
    assert_eq!(
        with(vec![integer(1), integer(2), integer(3)]),
        Ok("pub fn f(a: i64, b: i64) -> () {\n}\n\npub static x: i64 = f(1, 2, 3);\n".to_string())
    );
}

#[test]
fn analysis_reports_to_the_engine_it_is_given() {
    let program = Program {
        items: vec![global("a", Type::Int, string("x")), global("b", Type::Str, name("nope"))],
        imports: vec![],
    };
    let mut engine = DiagnosticEngine::new();
    let mut analyzer = SemanticAnalyzer::new();
    let result = analyzer.analyze(&program, &mut engine);
    assert_eq!(
        result,
        Err(Error::SemanticError("Type mismatch: expected 'Int', found 'Str'".to_string()))
    );
    assert_eq!(engine.len(), 2);
    assert_eq!(engine.get(1).message, "Undefined name 'nope'");
    let fine = Program { items: vec![global("a", Type::Int, integer(1))], imports: vec![] };
    assert_eq!(analyzer.analyze(&fine, &mut engine), Ok(()));
    assert_eq!(engine.len(), 2);
}

#[test]
fn stages_can_be_run_one_by_one() {
    let mut engine = DiagnosticEngine::new();
    let program = parse_source(&mut engine, "let a: Int = 1 + 2;", "a.rsc").expect("a program");
    assert_eq!(program.items.len(), 1);
    assert_eq!(
        run_back_end(&mut engine, &program, "a"),
        Ok("pub static a: i64 = (1 + 2);\n".to_string())
    );
    assert_eq!(engine.len(), 0);
    assert_eq!(
        parse_source(&mut engine, "let a: Int = 1 ~ 2;", "a.rsc"),
        Err(Error::LexError("Unexpected character: ~ at line 1, column 16".to_string()))
    );
    assert_eq!(engine.len(), 0);
}

#[test]
fn compiled_modules_are_kept_by_name() {
    let mut engine = DiagnosticEngine::new();
    let mut compiler = RusticCompiler::new();
    assert!(compiler.module("a").is_none());
    compiler.compile_source(&mut engine, "let x: Int = 1;", "a", "a.rsc").expect("text");
    compiler.compile_source(&mut engine, "let y: Int = z;", "b", "b.rsc").expect_err("an error");
    compiler.compile_source(&mut engine, "let x: Int = 1;\nlet w: Int = 2;", "a", "a.rsc").expect("text");
    assert_eq!(compiler.module("a").expect("module a").items.len(), 2);
    assert!(compiler.module("b").is_none());
    assert!(compiler.module("").is_none());
}

#[test]
fn copies_are_equal_to_what_they_copy() {
    let mut engine = DiagnosticEngine::new();
    let program = parse_source(
        &mut engine,
        "import a.b;\n\
         struct P { a: Int, b: List<Str> }\n\
         const C: Float = 1.5;\n\
         fn f(p: P, n: Int = -1) -> Int {\n\
           var q: P = P { b: [\"x\"], a: n };\n\
           if n > 0 { q.a = f(q).a; } else if !(n == 0) { return 1; } else { }\n\
           for s in q.b { try { g(s); } catch (Str) { return 2; } }\n\
           return n % 2;\n\
         }\n",
        "copy.rsc",
    )
    .expect("a program");
    let copy = program.clone();
    assert_eq!(copy, program);
    assert_eq!(copy.items[2].clone(), program.items[2]);
    match &program.items[2] {
        Item::Function(f) => {
            assert_eq!(f.body.clone(), f.body);
            assert_eq!(f.parameters[1].clone(), f.parameters[1]);
            assert_eq!(f.body.statements[1].clone(), f.body.statements[1]);
        }
        other => panic!("not a function: {:?}", other),
    }
}
