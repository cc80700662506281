use rustic::compiler::project::{
    build_plan, build_result, io_failure, is_source_extension, is_source_path, library_root,
    manifest, module_name_of, module_name_or, module_names, output_path, toolchain_failure,
};
use rustic::compiler::RusticCompiler;
use rustic::diagnostics::{Diagnostic, DiagnosticEngine, Error, Span};

#[test]
fn source_files_end_in_rsc() {
    assert!(is_source_extension(Some("rsc")));
    assert!(!is_source_extension(Some("rs")));
    assert!(!is_source_extension(Some("RSC")));
    assert!(!is_source_extension(None));
    assert!(is_source_path("dir/a.rsc"));
    assert!(!is_source_path("dir/a.rsc.txt"));
    assert!(!is_source_path("dir/rsc"));
}

#[test]
fn module_names_are_file_stems() {
    assert_eq!(module_name_of("dir/sub/alpha.rsc", "main"), "alpha");
    assert_eq!(module_name_of("alpha.beta.rsc", "main"), "alpha.beta");
    assert_eq!(module_name_of("", "main"), "main");
    assert_eq!(module_name_of("..", "unnamed"), "unnamed");
    assert_eq!(module_name_or(None, "main"), "main");
    assert_eq!(module_name_or(Some("m".to_string()), "main"), "m");
    assert_eq!(
        module_names(&vec!["out/a.rs".to_string(), "out/b.rs".to_string(), "".to_string()]),
        vec!["a", "b", "unnamed"]
    );
}

#[test]
fn output_paths_join_directory_and_module() {
    assert_eq!(output_path("target/generated", "alpha"), "target/generated/alpha.rs");
    assert_eq!(output_path("", "a"), "/a.rs");
}

#[test]
fn build_project_lists_the_modules() {
    assert_eq!(library_root(&vec![]), "");
    assert_eq!(library_root(&vec!["a".to_string()]), "pub mod a;");
    assert_eq!(
        library_root(&vec!["a".to_string(), "b".to_string(), "c".to_string()]),
        "pub mod a;\npub mod b;\npub mod c;"
    );
    let plan = build_plan(&vec!["a".to_string(), "b".to_string()], "out");
    assert_eq!(plan.manifest_path, "out/Cargo.toml");
    assert_eq!(plan.root_path, "out/lib.rs");
    assert_eq!(plan.root, "pub mod a;\npub mod b;");
    assert_eq!(plan.manifest, manifest());
    assert!(plan.manifest.starts_with("[package]\nname = \"rustic-generated\"\n"));
    assert!(plan.manifest.contains("rustic-runtime = { path = \"../../../stdlib-runtime\" }\n"));
    let compiler = RusticCompiler::new();
    let plan = compiler.compile_to_native(&vec!["out/x.rs".to_string(), "out/y.rs".to_string()], "out");
    assert_eq!(plan.root, "pub mod x;\npub mod y;");
    assert_eq!(plan.manifest_path, "out/Cargo.toml");
}

#[test]
fn build_results() {
    assert_eq!(build_result(true, "warnings", "out"), Ok("out/target/release/rustic-generated".to_string()));
    assert_eq!(
        build_result(false, "error[E0425]", "out"),
        Err(Error::CompilationError("Cargo compilation failed: \nerror[E0425]".to_string()))
    );
    assert_eq!(
        io_failure("Failed to read file a.rsc", "not found"),
        Error::IoError("Failed to read file a.rsc: not found".to_string())
    );
    assert_eq!(
        toolchain_failure("no cargo"),
        Error::CompilationError("Failed to run cargo: no cargo".to_string())
    );
}

#[test]
fn errors_are_described_by_kind() {
    assert_eq!(Error::LexError("m".to_string()).describe(), "Lex error: m");
    assert_eq!(Error::ParseError("m".to_string()).describe(), "Parse error: m");
    assert_eq!(Error::SemanticError("m".to_string()).describe(), "Semantic error: m");
    assert_eq!(Error::CodegenError("m".to_string()).describe(), "Codegen error: m");
    assert_eq!(Error::IoError("m".to_string()).describe(), "IO error: m");
    assert_eq!(Error::CompilationError("m".to_string()).describe(), "Compilation error: m");
}

fn span(file: &str, line: usize, column: usize) -> Span {
    Span {
        file: file.to_string(),
        start_line: line,
        start_column: column,
        end_line: line,
        end_column: column + 1,
    }
}

#[test]
fn diagnostics_are_rendered_by_file_then_line() {
    let mut engine = DiagnosticEngine::new();
    assert!(!engine.has_errors());
    assert_eq!(engine.render_all(), Vec::<String>::new());
    engine.report(Diagnostic::error("e1".to_string(), span("b.rsc", 3, 1)));
    engine.report(Diagnostic::warning("w1".to_string(), span("a.rsc", 10, 2)));
    engine.report(Diagnostic::error("e2".to_string(), span("b.rsc", 1, 7)));
    engine.report(Diagnostic::error("e3".to_string(), span("a.rsc", 10, 1)));
    engine.report(Diagnostic::error("e4".to_string(), span("ab.rsc", 2, 120)));
    engine.report(Diagnostic::error("e5".to_string(), span("a.rsc", 9, 4)));
    assert_eq!(
        engine.render_all(),
        vec![
            "a.rsc:9:4: error: e5",
            "a.rsc:10:2: warning: w1",
            "a.rsc:10:1: error: e3",
            "ab.rsc:2:120: error: e4",
            "b.rsc:1:7: error: e2",
            "b.rsc:3:1: error: e1",
        ]
    );
    assert_eq!(engine.len(), 6);
    assert_eq!(engine.error_count(), 5);
    assert!(engine.has_errors());
    assert_eq!(engine.get(1).message, "w1");
    let a = Diagnostic::error("x".to_string(), span("a", 1, 1));
    let b = Diagnostic::error("x".to_string(), span("a", 2, 1));
    assert!(a.comes_before(&b));
    assert!(!b.comes_before(&a));
    assert!(!a.comes_before(&a.duplicate()));
    assert_eq!(a.span.cover(&b.span), Span {
        file: "a".to_string(),
        start_line: 1,
        start_column: 1,
        end_line: 2,
        end_column: 2,
    });
}
