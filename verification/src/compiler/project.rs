//! The files of a compilation: module names, output paths, and the
//! build project that holds the generated modules.

use vstd::prelude::*;
use crate::diagnostics::{Error, ErrorView};

verus! {

/// The stem of the file name of a path: `Path::file_stem`, as text.
/// Nothing is claimed of it.
#[verifier::external_body]
fn path_file_stem(path: &str) -> (stem: Option<String>) {
    match std::path::Path::new(path).file_stem() {
        Some(stem) => match stem.to_str() {
            Some(text) => Some(text.to_string()),
            None => None,
        },
        None => None,
    }
}

/// The extension of the file name of a path: `Path::extension`, as
/// text. Nothing is claimed of it.
#[verifier::external_body]
fn path_extension(path: &str) -> (extension: Option<String>) {
    match std::path::Path::new(path).extension() {
        Some(extension) => match extension.to_str() {
            Some(text) => Some(text.to_string()),
            None => None,
        },
        None => None,
    }
}

/// The extension of the files that hold source text.
pub open spec fn source_extension() -> Seq<char> {
    "rsc"@
}

/// Whether a file with the given extension holds source text.
pub fn is_source_extension(extension: Option<&str>) -> (b: bool)
    ensures
        b == (extension matches Some(e) && e@ == source_extension()),
{
    match extension {
        Some(e) => e.eq("rsc"),
        None => false,
    }
}

/// Whether the file at `path` holds source text, by its extension.
pub fn is_source_path(path: &str) -> (b: bool) {
    match path_extension(path) {
        Some(extension) => is_source_extension(Some(extension.as_str())),
        None => false,
    }
}

/// The name of the module of a file with the given stem: the stem, or
/// `fallback` for a file without one.
pub fn module_name_or(stem: Option<String>, fallback: &str) -> (name: String)
    ensures
        name@ == match stem {
            Some(s) => s@,
            None => fallback@,
        },
{
    match stem {
        Some(s) => s,
        None => String::from_str(fallback),
    }
}

/// The name of the module of the file at `path`: the stem of its file
/// name, or `fallback`.
pub fn module_name_of(path: &str, fallback: &str) -> (name: String) {
    module_name_or(path_file_stem(path), fallback)
}

/// The path of the generated file of a module.
pub open spec fn output_path_text(output_dir: Seq<char>, module_name: Seq<char>) -> Seq<char> {
    output_dir + "/"@ + module_name + ".rs"@
}

/// The path of the generated file of a module: `<dir>/<module>.rs`.
pub fn output_path(output_dir: &str, module_name: &str) -> (path: String)
    ensures
        path@ == output_path_text(output_dir@, module_name@),
{
    let mut path = String::from_str(output_dir);
    path.append("/");
    path.append(module_name);
    path.append(".rs");
    path
}

/// The manifest of the build project.
pub open spec fn manifest_text() -> Seq<char> {
    "[package]\nname = \"rustic-generated\"\nversion = \"0.1.0\"\nedition = \"2021\"\n\n[lib]\npath = \"lib.rs\"\n\n[dependencies]\nrustic-runtime = { path = \"../../../stdlib-runtime\" }\n"@
}

/// The manifest of the build project.
pub fn manifest() -> (text: String)
    ensures
        text@ == manifest_text(),
{
    String::from_str(
        "[package]\nname = \"rustic-generated\"\nversion = \"0.1.0\"\nedition = \"2021\"\n\n[lib]\npath = \"lib.rs\"\n\n[dependencies]\nrustic-runtime = { path = \"../../../stdlib-runtime\" }\n",
    )
}

/// The lines of the aggregate root for the modules at `from` and
/// behind: one declaration for each, separated by line feeds.
pub open spec fn root_text(modules: Seq<Seq<char>>, from: int) -> Seq<char>
    decreases modules.len() - from,
{
    if from < 0 || from >= modules.len() {
        Seq::empty()
    } else {
        (if from > 0 {
            "\n"@
        } else {
            Seq::empty()
        }) + "pub mod "@ + modules[from] + ";"@ + root_text(modules, from + 1)
    }
}

/// The aggregate root of the build project: it declares every
/// generated module, in order.
pub fn library_root(modules: &Vec<String>) -> (text: String)
    ensures
        text@ == root_text(modules.deep_view(), 0),
{
    let ghost names = modules.deep_view();
    let mut text = String::new();
    let mut n: usize = 0;
    while n < modules.len()
        invariant
            n <= modules.len(),
            names == modules.deep_view(),
            root_text(names, 0) == text@ + root_text(names, n as int),
        decreases modules.len() - n,
    {
        let ghost before = text@;
        if n > 0 {
            text.append("\n");
        }
        text.append("pub mod ");
        text.append(modules[n].as_str());
        text.append(";");
        assert(text@ + root_text(names, n + 1) == before + root_text(names, n as int));
        n = n + 1;
    }
    text
}

/// The names of the modules of generated files. A file without a stem
/// is named `unnamed`.
pub fn module_names(rust_files: &Vec<String>) -> (names: Vec<String>)
    ensures
        names.len() == rust_files.len(),
{
    let mut names: Vec<String> = Vec::new();
    let mut n: usize = 0;
    while n < rust_files.len()
        invariant
            n <= rust_files.len(),
            names.len() == n,
        decreases rust_files.len() - n,
    {
        names.push(module_name_of(rust_files[n].as_str(), "unnamed"));
        n = n + 1;
    }
    names
}

/// The files of the build project, to be written before the native
/// toolchain runs in the output directory.
pub struct BuildPlan {
    pub manifest_path: String,
    pub manifest: String,
    pub root_path: String,
    pub root: String,
}

/// The build project for the given modules.
pub fn build_plan(modules: &Vec<String>, output_dir: &str) -> (plan: BuildPlan)
    ensures
        plan.manifest_path@ == output_dir@ + "/Cargo.toml"@,
        plan.manifest@ == manifest_text(),
        plan.root_path@ == output_dir@ + "/lib.rs"@,
        plan.root@ == root_text(modules.deep_view(), 0),
{
    let mut manifest_path = String::from_str(output_dir);
    manifest_path.append("/Cargo.toml");
    let mut root_path = String::from_str(output_dir);
    root_path.append("/lib.rs");
    BuildPlan { manifest_path, manifest: manifest(), root_path, root: library_root(modules) }
}

/// The result of a run of the native toolchain.
pub open spec fn build_outcome(success: bool, stderr: Seq<char>, output_dir: Seq<char>) -> Result<
    Seq<char>,
    ErrorView,
> {
    if success {
        Ok(output_dir + "/target/release/rustic-generated"@)
    } else {
        Err(ErrorView::CompilationError("Cargo compilation failed: \n"@ + stderr))
    }
}

/// The result of a run of the native toolchain that ended: the path of
/// the binary where it succeeded, else the build error with what the
/// toolchain wrote to its error stream.
pub fn build_result(success: bool, stderr: &str, output_dir: &str) -> (result: Result<String, Error>)
    ensures
        match build_outcome(success, stderr@, output_dir@) {
            Ok(path) => result matches Ok(found) && found@ == path,
            Err(e) => result matches Err(found) && found@ == e,
        },
{
    if success {
        let mut path = String::from_str(output_dir);
        path.append("/target/release/rustic-generated");
        Ok(path)
    } else {
        let mut message = String::from_str("Cargo compilation failed: \n");
        message.append(stderr);
        Err(Error::CompilationError(message))
    }
}

/// The error of a failed access to the file system.
pub fn io_failure(what: &str, reason: &str) -> (e: Error)
    ensures
        e@ == ErrorView::IoError(what@ + ": "@ + reason@),
{
    let mut message = String::from_str(what);
    message.append(": ");
    message.append(reason);
    Error::IoError(message)
}

/// The error of a native toolchain that could not be run.
pub fn toolchain_failure(reason: &str) -> (e: Error)
    ensures
        e@ == ErrorView::CompilationError("Failed to run cargo: "@ + reason@),
{
    let mut message = String::from_str("Failed to run cargo: ");
    message.append(reason);
    Error::CompilationError(message)
}

} // verus!
