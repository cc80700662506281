use rustic::compiler::{RusticCompiler, SourceFile};
use rustic::diagnostics::{Diagnostic, DiagnosticEngine, Error, Severity};

fn compile(source: &str) -> (Result<String, Error>, Vec<Diagnostic>) {
    let mut engine = DiagnosticEngine::new();
    let mut compiler = RusticCompiler::new();
    let result = compiler.compile_source(&mut engine, source, "unit", "unit.rsc");
    let mut found = Vec::new();
    for i in 0..engine.len() {
        found.push(engine.get(i));
    }
    (result, found)
}

fn compile_ok(source: &str) -> String {
    let (result, found) = compile(source);
    assert_eq!(found, vec![]);
    result.expect("generated text")
}

fn messages(source: &str) -> Vec<String> {
    let (result, found) = compile(source);
    assert!(!found.is_empty(), "no diagnostic for {:?}", source);
    assert!(found.iter().all(|d| d.severity == Severity::Error));
    assert_eq!(result, Err(Error::SemanticError(found[0].message.clone())));
    found.into_iter().map(|d| d.message).collect()
}

fn at(d: &Diagnostic) -> (usize, usize, usize, usize) {
    (d.span.start_line, d.span.start_column, d.span.end_line, d.span.end_column)
}

#[test]
fn a_whole_module_is_lowered() {
    let text = compile_ok(
        "import util.math;\n\
         struct Point { x: Int, y: Int }\n\
         const LIMIT: Int = 10;\n\
         var counter: Int = 0;\n\
         let ratio: Float = 2.5;\n\
         fn add(a: Int, b: Int = 2) -> Int { return a + b; }\n\
         fn main(names: List<Str>) -> Void {\n\
           let p: Point = Point { y: 2, x: 1 };\n\
           var n: Int = add(p.x);\n\
           for name in names { n = n + 1; }\n\
           if n > LIMIT && !(n == 3) { n = -n; } else if n < 0 { n = 0; } else { return; }\n\
           try { n = add(n, 1); } catch (Int) { n = 1; } catch (Point) { }\n\
           let xs: List<List<Int>> = [[1, 2], [n % 2]];\n\
           let s: Str = \"a\\\"b\\n\";\n\
           let ok: Bool = true || false;\n\
         }\n",
    );
    let expected = "use crate::util::math::*;\n\
\n\
#[derive(Debug, Clone, PartialEq)]\n\
pub struct Point {\n\
\x20   pub x: i64,\n\
\x20   pub y: i64,\n\
}\n\
\n\
pub const LIMIT: i64 = 10;\n\
\n\
pub static mut counter: i64 = 0;\n\
\n\
pub static ratio: f64 = 2.5;\n\
\n\
pub fn add(a: i64, b: i64) -> i64 {\n\
\x20   return (a + b);\n\
}\n\
\n\
pub fn main(names: Vec<String>) -> () {\n\
\x20   let p: Point = Point { x: 1, y: 2 };\n\
\x20   let mut n: i64 = add(p.x, 2);\n\
\x20   for name in names {\n\
\x20       n = (n + 1);\n\
\x20   }\n\
\x20   if ((n > LIMIT) && (!(n == 3))) {\n\
\x20       n = (-n);\n\
\x20   } else if (n < 0) {\n\
\x20       n = 0;\n\
\x20   } else {\n\
\x20       return;\n\
\x20   }\n\
\x20   {\n\
\x20       n = add(n, 1);\n\
\x20   }\n\
\x20   match rustic_runtime::take_exception() {\n\
\x20       Some(error) if error.is(\"Int\") => {\n\
\x20           n = 1;\n\
\x20       }\n\
\x20       Some(error) if error.is(\"Point\") => {\n\
\x20       }\n\
\x20       _ => {}\n\
\x20   }\n\
\x20   let xs: Vec<Vec<i64>> = vec![vec![1, 2], vec![(n % 2)]];\n\
\x20   let s: String = String::from(\"a\\\"b\\n\");\n\
\x20   let ok: bool = (true || false);\n\
}\n";
    assert_eq!(text, expected);
}

#[test]
fn generating_twice_gives_the_same_text() {
    let source = "struct P { a: Int, b: Str }\n\
                  fn f(p: P = P { b: \"x\", a: 1 }) -> P { return p; }\n\
                  fn g() -> P { return f(); }\n";
    let first = compile_ok(source);
    let second = compile_ok(source);
    assert_eq!(first, second);
}

#[test]
fn struct_literal_fields_follow_the_declaration() {
    let head = "struct P { a: Int, b: Str, c: Bool }\n";
    let orders = [
        "P { a: 1, b: \"x\", c: true }",
        "P { c: true, b: \"x\", a: 1 }",
        "P { b: \"x\", a: 1, c: true }",
    ];
    for order in orders {
        let text = compile_ok(&format!("{}let p: P = {};", head, order));
        assert!(
            text.ends_with("pub static p: P = P { a: 1, b: String::from(\"x\"), c: true };\n"),
            "{}",
            text
        );
    }
    let text = compile_ok("struct U {}\nlet u: U = U {};");
    assert!(text.ends_with("pub static u: U = U {};\n"));
}

#[test]
fn mismatched_initializer_is_reported_at_its_span() {
    let (result, found) = compile("let x: Int = \"hi\";");
    assert_eq!(found.len(), 1);
    assert_eq!(found[0].message, "Type mismatch: expected 'Int', found 'Str'");
    assert_eq!(found[0].severity, Severity::Error);
    assert_eq!(at(&found[0]), (1, 14, 1, 18));
    assert_eq!(found[0].span.file, "unit.rsc");
    assert_eq!(
        result,
        Err(Error::SemanticError("Type mismatch: expected 'Int', found 'Str'".to_string()))
    );
}

#[test]
fn unterminated_string_stops_before_parsing() {
    let (result, found) = compile("let x: Str = \"abc;\nlet y Int = 1;");
    assert_eq!(result, Err(Error::LexError("Unterminated string".to_string())));
    assert_eq!(found, vec![]);
}

#[test]
fn parse_error_stops_before_analysis() {
    let (result, found) = compile("let x: Int = \"hi\";\nlet y Int = 1;");
    assert_eq!(result, Err(Error::ParseError("Expected ':' after variable name".to_string())));
    assert_eq!(found.len(), 1);
    assert_eq!(at(&found[0]), (2, 7, 2, 10));
}

#[test]
fn for_needs_a_list() {
    let found = messages("fn f(n: Int) -> Void { for x in n { } }");
    assert_eq!(found, vec!["Type mismatch: expected 'List', found 'Int'"]);
    let found = messages("struct S { a: Int }\nfn f(s: S) -> Void { for x in s { x = 1; } }");
    assert_eq!(
        found,
        vec!["Type mismatch: expected 'List', found 'S'", "Cannot assign to immutable binding 'x'"]
    );
    compile_ok("fn f(xs: List<Int>) -> Int { for x in xs { return x; } return 0; }");
}

#[test]
fn struct_literal_fields_must_match() {
    let head = "struct P { a: Int, b: Str }\n";
    assert_eq!(
        messages(&format!("{}let p: P = P {{ a: 1 }};", head)),
        vec!["Missing field 'b' in initializer of struct 'P'"]
    );
    assert_eq!(
        messages(&format!("{}let p: P = P {{ a: 1, b: \"x\", c: 2 }};", head)),
        vec!["Unknown field 'c' in initializer of struct 'P'"]
    );
    assert_eq!(
        messages(&format!("{}let p: P = P {{ b: 1, z: q, a: \"x\", a: 2 }};", head)),
        vec![
            "Type mismatch: expected 'Int', found 'Str'",
            "Type mismatch: expected 'Str', found 'Int'",
            "Unknown field 'z' in initializer of struct 'P'",
            "Undefined name 'q'",
            "Duplicate field 'a' in initializer of struct 'P'",
        ]
    );
    assert_eq!(
        messages("let p: Q = Q { a: nope };"),
        vec!["Unknown type 'Q'", "Undefined struct 'Q'", "Undefined name 'nope'"]
    );
}

#[test]
fn calls_fill_in_default_values() {
    let text = compile_ok(
        "fn f(a: Int, b: Int = 1 + 2, c: Str = \"z\") -> Int { return a; }\n\
         let x: Int = f(1);\n\
         let y: Int = f(1, 5);\n\
         let z: Int = f(1, 5, \"q\");\n",
    );
    assert!(text.contains("pub static x: i64 = f(1, (1 + 2), String::from(\"z\"));\n"), "{}", text);
    assert!(text.contains("pub static y: i64 = f(1, 5, String::from(\"z\"));\n"), "{}", text);
    assert!(text.contains("pub static z: i64 = f(1, 5, String::from(\"q\"));\n"), "{}", text);
    assert!(text.contains("pub fn f(a: i64, b: i64, c: String) -> i64 {\n"), "{}", text);
}

#[test]
fn default_values_may_call_functions_with_default_values() {
    let text = compile_ok(
        "fn one(a: Int = 1) -> Int { return a; }\n\
         fn two(b: Int = one()) -> Int { return b; }\n\
         let x: Int = two();\n",
    );
    assert!(text.contains("pub static x: i64 = two(one(1));\n"), "{}", text);
}

#[test]
fn default_values_that_need_each_other_cannot_be_lowered() {
    let (result, found) = compile(
        "fn f(a: Int = g()) -> Int { return a; }\n\
         fn g(b: Int = f()) -> Int { return b; }\n\
         let x: Int = f();\n",
    );
    assert_eq!(found, vec![]);
    assert_eq!(
        result,
        Err(Error::CodegenError(
            "Module 'unit': Default values of parameters depend on each other".to_string()
        ))
    );
}

#[test]
fn call_arguments_are_checked() {
    let head = "fn f(a: Int, b: Str = \"x\") -> Int { return a; }\n";
    assert_eq!(
        messages(&format!("{}let x: Int = f();", head)),
        vec!["Missing argument for parameter 'a' of function 'f'"]
    );
    assert_eq!(
        messages(&format!("{}let x: Int = f(1, \"a\", 3);", head)),
        vec!["Function 'f' takes at most 2 argument(s), found 3"]
    );
    assert_eq!(
        messages(&format!("{}let x: Int = f(true, 2);", head)),
        vec![
            "Type mismatch: expected 'Int', found 'Bool'",
            "Type mismatch: expected 'Str', found 'Int'"
        ]
    );
    assert_eq!(messages("let x: Int = g(1);"), vec!["Undefined function 'g'"]);
    assert_eq!(messages("let x: Int = (1)(2);"), vec!["Expression is not callable"]);
    assert_eq!(
        messages(&format!("{}let x: Str = f(1);", head)),
        vec!["Type mismatch: expected 'Str', found 'Int'"]
    );
}

#[test]
fn operators_are_checked() {
    assert_eq!(
        messages("let x: Int = 1 + 2.0;"),
        vec!["Operator '+' cannot be applied to 'Int' and 'Float'"]
    );
    assert_eq!(
        messages("let x: Bool = 1 && true;"),
        vec!["Operator '&&' cannot be applied to 'Int' and 'Bool'"]
    );
    assert_eq!(
        messages("let x: Bool = \"a\" < \"b\";"),
        vec!["Operator '<' cannot be applied to 'Str' and 'Str'"]
    );
    assert_eq!(messages("let x: Int = -true;"), vec!["Operator '-' cannot be applied to 'Bool'"]);
    assert_eq!(messages("let x: Bool = !1;"), vec!["Operator '!' cannot be applied to 'Int'"]);
    compile_ok("let a: Bool = \"a\" == \"b\";\nlet b: Bool = [1] != [2];\nlet c: Float = 1.5 / 2.0;");
}

#[test]
fn names_and_members_are_resolved() {
    assert_eq!(messages("let x: Int = y;"), vec!["Undefined name 'y'"]);
    assert_eq!(
        messages("struct S { a: Int }\nfn f(s: S) -> Int { return s.b; }"),
        vec!["Type 'S' has no field 'b'"]
    );
    assert_eq!(
        messages("fn f(n: Int) -> Int { return n.a; }"),
        vec!["Type 'Int' has no field 'a'"]
    );
    assert_eq!(
        messages("fn f() -> Int { if true { let a: Int = 1; } return a; }"),
        vec!["Undefined name 'a'"]
    );
    compile_ok("let a: Int = b;\nlet b: Int = 1;\nfn f() -> Int { let a: Int = 2; if true { } return a + b; }");
}

#[test]
fn lists_are_checked() {
    assert_eq!(
        messages("let x: List<Int> = [];"),
        vec!["Cannot infer the element type of an empty list"]
    );
    assert_eq!(
        messages("let x: List<Int> = [1, \"a\", true];"),
        vec![
            "Type mismatch: expected 'Int', found 'Str'",
            "Type mismatch: expected 'Int', found 'Bool'"
        ]
    );
    assert_eq!(
        messages("let x: List<Str> = [1];"),
        vec!["Type mismatch: expected 'List<Str>', found 'List<Int>'"]
    );
}

#[test]
fn assignments_are_checked() {
    assert_eq!(
        messages("fn f() -> Void { let a: Int = 1; a = 2; }"),
        vec!["Cannot assign to immutable binding 'a'"]
    );
    assert_eq!(
        messages("struct S { n: Int }\nfn f(s: S) -> Void { s.n = 2; }"),
        vec!["Cannot assign to immutable binding 's'"]
    );
    assert_eq!(
        messages("fn f() -> Void { var a: Int = 1; a = \"x\"; }"),
        vec!["Type mismatch: expected 'Int', found 'Str'"]
    );
    assert_eq!(messages("fn f() -> Void { 1 = 2; }"), vec!["Invalid assignment target"]);
    assert_eq!(
        messages("fn f() -> Void { f() = 1; }"),
        vec!["Invalid assignment target", "Type mismatch: expected 'Void', found 'Int'"]
    );
    assert_eq!(messages("const C: Int = 1;\nfn f() -> Void { C = 2; }"), vec![
        "Cannot assign to immutable binding 'C'"
    ]);
    compile_ok("struct S { n: Int }\nvar g: Int = 0;\nfn f() -> Void { var s: S = S { n: 1 }; s.n = 2; g = s.n; }");
}

#[test]
fn returns_are_checked() {
    assert_eq!(
        messages("fn f() -> Int { return; }"),
        vec!["Missing return value: expected 'Int'"]
    );
    assert_eq!(
        messages("fn f() -> Void { return 1; }"),
        vec!["A function that returns 'Void' must not return a value"]
    );
    assert_eq!(
        messages("fn f() -> Int { return \"a\"; }"),
        vec!["Type mismatch: expected 'Int', found 'Str'"]
    );
}

#[test]
fn conditions_are_bool() {
    assert_eq!(
        messages("fn f() -> Void { if 1 { } else if \"a\" { } }"),
        vec![
            "Type mismatch: expected 'Bool', found 'Int'",
            "Type mismatch: expected 'Bool', found 'Str'"
        ]
    );
}

#[test]
fn catch_clauses_are_checked() {
    assert_eq!(
        messages("fn f() -> Void { try { } catch (Nope) { } }"),
        vec!["Unknown exception type 'Nope'"]
    );
    assert_eq!(
        messages("struct E {}\nfn f() -> Void { try { } catch (E) { } catch (Int) { } catch (E) { let a: Int = b; } }"),
        vec!["Duplicate catch clause for 'E'", "Undefined name 'b'"]
    );
}

#[test]
fn declarations_are_checked() {
    assert_eq!(
        messages("let a: Int = 1;\nfn a() -> Void { }\nstruct a {}"),
        vec!["Duplicate definition of 'a'", "Duplicate definition of 'a'"]
    );
    assert_eq!(
        messages("fn f() -> Void { let a: Int = 1; let a: Int = 2; }"),
        vec!["Duplicate definition of 'a'"]
    );
    assert_eq!(
        messages("fn f(a: Int, a: Str) -> Void { }"),
        vec!["Duplicate parameter 'a' in function 'f'"]
    );
    assert_eq!(
        messages("struct S { a: Int, a: Str }"),
        vec!["Duplicate field 'a' in struct 'S'"]
    );
    assert_eq!(
        messages("let v: Void = 1;"),
        vec![
            "Type 'Void' is only valid as a return type",
            "Type mismatch: expected 'Void', found 'Int'"
        ]
    );
    assert_eq!(
        messages("fn f(x: List<Nope>) -> Other { }"),
        vec!["Unknown type 'Nope'", "Unknown type 'Other'"]
    );
    assert_eq!(
        messages("fn f(x: Int = \"a\") -> Void { }"),
        vec!["Type mismatch: expected 'Int', found 'Str'"]
    );
}

#[test]
fn struct_cycles_by_value_are_rejected() {
    assert_eq!(
        messages("struct A { b: B }\nstruct B { a: A }\nstruct C { n: Int }"),
        vec![
            "Struct 'A' has no finite size: its fields hold a cycle by value",
            "Struct 'B' has no finite size: its fields hold a cycle by value"
        ]
    );
    assert_eq!(
        messages("struct A { a: A }\nstruct D { a: A, n: Int }"),
        vec![
            "Struct 'A' has no finite size: its fields hold a cycle by value",
            "Struct 'D' has no finite size: its fields hold a cycle by value"
        ]
    );
    compile_ok("struct A { b: B, c: C }\nstruct B { c: C }\nstruct C { more: List<A> }");
}

#[test]
fn two_modules_give_two_files() {
    let sources = vec![
        SourceFile { path: "src/alpha.rsc".to_string(), text: "let a: Int = 1;".to_string() },
        SourceFile { path: "src/deep/beta.rsc".to_string(), text: "let b: Str = \"x\";".to_string() },
    ];
    let mut engine = DiagnosticEngine::new();
    let mut compiler = RusticCompiler::new();
    let files = compiler.compile_directory(&mut engine, &sources, "out").expect("files");
    assert_eq!(engine.len(), 0);
    assert_eq!(files.len(), 2);
    assert_eq!(files[0].path, "out/alpha.rs");
    assert_eq!(files[0].contents, "pub static a: i64 = 1;\n");
    assert_eq!(files[1].path, "out/beta.rs");
    assert_eq!(files[1].contents, "pub static b: String = String::from(\"x\");\n");
}

#[test]
fn a_failing_module_ends_the_run() {
    let sources = vec![
        SourceFile { path: "a.rsc".to_string(), text: "let a: Int = 1;".to_string() },
        SourceFile { path: "b.rsc".to_string(), text: "let b: Int = c;".to_string() },
        SourceFile { path: "c.rsc".to_string(), text: "let c: Int = \"x\";".to_string() },
    ];
    let mut engine = DiagnosticEngine::new();
    let mut compiler = RusticCompiler::new();
    let result = compiler.compile_directory(&mut engine, &sources, "out");
    assert_eq!(result, Err(Error::SemanticError("Undefined name 'c'".to_string())));
    assert_eq!(engine.len(), 1);
    assert_eq!(engine.get(0).span.file, "b.rsc");
    assert!(engine.has_errors());
    assert_eq!(engine.error_count(), 1);
}

#[test]
fn one_file_is_named_after_its_stem() {
    let mut engine = DiagnosticEngine::new();
    let mut compiler = RusticCompiler::new();
    let files = compiler
        .compile_file(&mut engine, "fn main() -> Void { }", "demo/app.rsc", "target/generated")
        .expect("files");
    assert_eq!(files.len(), 1);
    assert_eq!(files[0].path, "target/generated/app.rs");
    assert_eq!(files[0].contents, "pub fn main() -> () {\n}\n");
}
