//! The compiler facade: the stages run on one module after another.

use vstd::prelude::*;
use crate::compiler::ast::{Program, ProgramView};
use crate::compiler::codegen::{failure_in, CodeGenerator};
use crate::compiler::grammar::program_of;
use crate::compiler::lexer::{tokens_of, Lexer};
use crate::compiler::lowering::lower_program;
use crate::compiler::parser::Parser;
use crate::compiler::project::{
    build_plan, module_name_of, module_names, output_path, output_path_text, BuildPlan,
};
use crate::compiler::semantic::SemanticAnalyzer;
use crate::compiler::typing::check_program;
use crate::diagnostics::{first_error, DiagnosticEngine, DiagnosticView, Error, ErrorView};

verus! {

/// What a stage of the compilation yields: its result or the error
/// that stopped it, and the diagnostics that it reports.
pub struct Outcome<T> {
    pub result: Result<T, ErrorView>,
    pub diagnostics: Seq<DiagnosticView>,
}

/// The front end: the syntax tree of a source text. A lexical error
/// stops before parsing, and reports no diagnostic; a violation of the
/// grammar is reported.
#[verifier::opaque]
pub open spec fn front_end_model(source: Seq<char>, file: Seq<char>) -> Outcome<ProgramView> {
    match tokens_of(source, file) {
        Err(e) => Outcome { result: Err(e), diagnostics: Seq::empty() },
        Ok(tokens) => match program_of(tokens) {
            Err(d) => Outcome { result: Err(ErrorView::ParseError(d.message)), diagnostics: seq![d] },
            Ok(program) => Outcome { result: Ok(program), diagnostics: Seq::empty() },
        },
    }
}

/// The back end: the Rust source text of a syntax tree. A module with
/// a semantic error is not lowered.
#[verifier::opaque]
pub open spec fn back_end_model(
    program: ProgramView,
    module_name: Seq<char>,
) -> Outcome<Seq<char>> {
    let found = check_program(program);
    match first_error(found) {
        Some(d) => Outcome { result: Err(ErrorView::SemanticError(d.message)), diagnostics: found },
        None => match lower_program(program) {
            Ok(text) => Outcome { result: Ok(text), diagnostics: found },
            Err(m) => Outcome { result: Err(failure_in(module_name, m)), diagnostics: found },
        },
    }
}

/// The compilation of one module: the front end, then the back end.
#[verifier::opaque]
pub open spec fn compile_model(source: Seq<char>, file: Seq<char>, module_name: Seq<char>) -> Outcome<
    Seq<char>,
> {
    let parsed = front_end_model(source, file);
    match parsed.result {
        Err(e) => Outcome { result: Err(e), diagnostics: parsed.diagnostics },
        Ok(program) => {
            let lowered = back_end_model(program, module_name);
            Outcome {
                result: lowered.result,
                diagnostics: parsed.diagnostics + lowered.diagnostics,
            }
        },
    }
}

/// The view of the result of a compilation.
pub open spec fn result_view(result: Result<String, Error>) -> Result<Seq<char>, ErrorView> {
    match result {
        Ok(text) => Ok(text@),
        Err(e) => Err(e@),
    }
}

/// The view of the result of the front end.
pub open spec fn parsed_view(result: Result<Program, Error>) -> Result<ProgramView, ErrorView> {
    match result {
        Ok(program) => Ok(program@),
        Err(e) => Err(e@),
    }
}

/// The registry that holds the first `n` entries: each name with the
/// program that was entered last under it.
pub open spec fn registry_of(entries: Seq<(String, Program)>, n: nat) -> Map<Seq<char>, ProgramView>
    decreases n,
{
    if n == 0 || n > entries.len() {
        Map::empty()
    } else {
        registry_of(entries, (n - 1) as nat).insert(entries[n - 1].0@, entries[n - 1].1@)
    }
}

/// The syntax tree of a source text.
pub fn parse_source(diagnostics: &mut DiagnosticEngine, source: &str, file_path: &str) -> (result:
    Result<Program, Error>)
    requires
        source@.len() < usize::MAX,
    ensures
        parsed_view(result) == front_end_model(source@, file_path@).result,
        final(diagnostics)@ == old(diagnostics)@ + front_end_model(source@, file_path@).diagnostics,
{
    proof {
        reveal(front_end_model);
    }
    let mut lexer = Lexer::new(source, file_path);
    let tokens = match lexer.tokenize() {
        Err(e) => {
            return Err(e);
        },
        Ok(tokens) => tokens,
    };
    let parser = Parser::new(tokens);
    parser.parse(diagnostics)
}

/// The Rust source text of a syntax tree that passes the analysis.
pub fn run_back_end(
    diagnostics: &mut DiagnosticEngine,
    program: &Program,
    module_name: &str,
) -> (result: Result<String, Error>)
    ensures
        result_view(result) == back_end_model(program@, module_name@).result,
        final(diagnostics)@ == old(diagnostics)@ + back_end_model(
            program@,
            module_name@,
        ).diagnostics,
{
    proof {
        reveal(back_end_model);
    }
    let mut analyzer = SemanticAnalyzer::new();
    match analyzer.analyze(program, diagnostics) {
        Err(e) => {
            return Err(e);
        },
        Ok(()) => {},
    }
    let generator = CodeGenerator::new();
    generator.generate(program, module_name)
}

/// A file of source text.
pub struct SourceFile {
    pub path: String,
    pub text: String,
}

/// The mathematical value of a [`SourceFile`].
pub struct SourceFileView {
    pub path: Seq<char>,
    pub text: Seq<char>,
}

impl DeepView for SourceFile {
    type V = SourceFileView;

    open spec fn deep_view(&self) -> SourceFileView {
        SourceFileView { path: self.path@, text: self.text@ }
    }
}

/// A generated file: where to write it and what it holds.
#[derive(Debug, Clone, PartialEq)]
pub struct GeneratedFile {
    pub path: String,
    pub contents: String,
}

/// The mathematical value of a [`GeneratedFile`].
pub struct GeneratedFileView {
    pub path: Seq<char>,
    pub contents: Seq<char>,
}

impl DeepView for GeneratedFile {
    type V = GeneratedFileView;

    open spec fn deep_view(&self) -> GeneratedFileView {
        GeneratedFileView { path: self.path@, contents: self.contents@ }
    }
}

/// The compilation of one module to a file in `output_dir`.
#[verifier::opaque]
pub open spec fn module_model(
    source: SourceFileView,
    module_name: Seq<char>,
    output_dir: Seq<char>,
) -> Outcome<GeneratedFileView> {
    let compiled = compile_model(source.text, source.path, module_name);
    Outcome {
        result: match compiled.result {
            Ok(text) => Ok(
                GeneratedFileView {
                    path: output_path_text(output_dir, module_name),
                    contents: text,
                },
            ),
            Err(e) => Err(e),
        },
        diagnostics: compiled.diagnostics,
    }
}

/// The compilation of the first `n` modules, one after the other. The
/// first module that fails ends the run: no module behind it is
/// compiled.
pub open spec fn modules_model(
    sources: Seq<SourceFileView>,
    names: Seq<Seq<char>>,
    output_dir: Seq<char>,
    n: nat,
) -> Outcome<Seq<GeneratedFileView>>
    decreases n,
{
    if n == 0 || n > sources.len() || n > names.len() {
        Outcome { result: Ok(Seq::empty()), diagnostics: Seq::empty() }
    } else {
        let before = modules_model(sources, names, output_dir, (n - 1) as nat);
        match before.result {
            Err(e) => before,
            Ok(files) => {
                let one = module_model(sources[n - 1], names[n - 1], output_dir);
                Outcome {
                    result: match one.result {
                        Ok(file) => Ok(files.push(file)),
                        Err(e) => Err(e),
                    },
                    diagnostics: before.diagnostics + one.diagnostics,
                }
            },
        }
    }
}

/// Whether each of the first `n` modules compiles.
pub open spec fn all_compile(sources: Seq<SourceFileView>, names: Seq<Seq<char>>, n: nat) -> bool
    decreases n,
{
    if n == 0 || n > sources.len() || n > names.len() {
        true
    } else {
        all_compile(sources, names, (n - 1) as nat) && compile_model(
            sources[n - 1].text,
            sources[n - 1].path,
            names[n - 1],
        ).result is Ok
    }
}

/// The registry after the first `n` modules were run through a
/// compiler with the registry `registry`: the modules before the first
/// that fails are entered.
pub open spec fn registry_model(
    registry: Map<Seq<char>, ProgramView>,
    sources: Seq<SourceFileView>,
    names: Seq<Seq<char>>,
    n: nat,
) -> Map<Seq<char>, ProgramView>
    decreases n,
{
    if n == 0 || n > sources.len() || n > names.len() {
        registry
    } else {
        let before = registry_model(registry, sources, names, (n - 1) as nat);
        if all_compile(sources, names, n) {
            before.insert(
                names[n - 1],
                front_end_model(sources[n - 1].text, sources[n - 1].path).result->Ok_0,
            )
        } else {
            before
        }
    }
}

/// A module yields a file exactly where it compiles.
pub proof fn lemma_module_success(source: SourceFileView, module_name: Seq<char>, output_dir: Seq<char>)
    ensures
        module_model(source, module_name, output_dir).result is Ok <==> compile_model(
            source.text,
            source.path,
            module_name,
        ).result is Ok,
        module_model(source, module_name, output_dir).diagnostics == compile_model(
            source.text,
            source.path,
            module_name,
        ).diagnostics,
        module_model(source, module_name, output_dir).result matches Ok(file) ==> file.path
            == output_path_text(output_dir, module_name) && compile_model(
            source.text,
            source.path,
            module_name,
        ).result == Ok::<Seq<char>, ErrorView>(file.contents),
{
    reveal(module_model);
}

/// A run succeeds exactly where each of its modules compiles.
pub proof fn lemma_run_success(
    sources: Seq<SourceFileView>,
    names: Seq<Seq<char>>,
    output_dir: Seq<char>,
    n: nat,
)
    ensures
        modules_model(sources, names, output_dir, n).result is Ok <==> all_compile(
            sources,
            names,
            n,
        ),
    decreases n,
{
    if !(n == 0 || n > sources.len() || n > names.len()) {
        lemma_run_success(sources, names, output_dir, (n - 1) as nat);
        lemma_module_success(sources[n - 1], names[n - 1], output_dir);
    }
}

/// Every run compiles its modules in order: where a run of `n` modules
/// succeeds, it yields `n` files; the file of each module lies in the
/// output directory under the name of the module and holds the text
/// that the module alone compiles to.
pub proof fn lemma_one_file_per_module(
    sources: Seq<SourceFileView>,
    names: Seq<Seq<char>>,
    output_dir: Seq<char>,
    n: nat,
)
    requires
        n <= sources.len(),
        n <= names.len(),
        modules_model(sources, names, output_dir, n).result is Ok,
    ensures
        modules_model(sources, names, output_dir, n).result->Ok_0.len() == n,
        forall|i: int|
            0 <= i < n ==> {
                let file = #[trigger] modules_model(sources, names, output_dir, n).result->Ok_0[i];
                &&& file.path == output_path_text(output_dir, names[i])
                &&& compile_model(sources[i].text, sources[i].path, names[i]).result == Ok::<
                    Seq<char>,
                    ErrorView,
                >(file.contents)
            },
    decreases n,
{
    if n > 0 {
        lemma_one_file_per_module(sources, names, output_dir, (n - 1) as nat);
        lemma_module_success(sources[n - 1], names[n - 1], output_dir);
    }
}

/// The compiler facade: it runs the stages on one module after
/// another, and keeps the syntax tree of every module that compiled.
pub struct RusticCompiler {
    modules: Vec<(String, Program)>,
}

impl RusticCompiler {
    /// The modules that compiled, by name.
    pub closed spec fn registry(&self) -> Map<Seq<char>, ProgramView> {
        registry_of(self.modules@, self.modules@.len())
    }

    /// A compiler that holds no module.
    pub fn new() -> (compiler: Self)
        ensures
            compiler.registry() == Map::<Seq<char>, ProgramView>::empty(),
    {
        RusticCompiler { modules: Vec::new() }
    }

    /// The syntax tree of the module `name`, where one was entered
    /// under that name: the one entered last.
    pub fn module(&self, name: &str) -> (found: Option<&Program>)
        ensures
            match found {
                Some(program) => self.registry().dom().contains(name@) && self.registry()[name@]
                    == program@,
                None => !self.registry().dom().contains(name@),
            },
    {
        let mut i = self.modules.len();
        while i > 0
            invariant
                i <= self.modules.len(),
                forall|j: int| i <= j < self.modules.len() ==> (#[trigger] self.modules[j]).0@ != name@,
            decreases i,
        {
            i = i - 1;
            if self.modules[i].0.as_str().eq(name) {
                proof {
                    Self::lemma_registry_latest(self.modules@, i as int, self.modules@.len());
                }
                return Some(&self.modules[i].1);
            }
        }
        proof {
            Self::lemma_registry_absent(self.modules@, name@, self.modules@.len());
        }
        None
    }

    /// The registry holds under a name the entry that was made last
    /// under it.
    proof fn lemma_registry_latest(entries: Seq<(String, Program)>, i: int, n: nat)
        requires
            0 <= i < n <= entries.len(),
            forall|j: int| i < j < n ==> (#[trigger] entries[j]).0@ != entries[i].0@,
        ensures
            registry_of(entries, n).dom().contains(entries[i].0@),
            registry_of(entries, n)[entries[i].0@] == entries[i].1@,
        decreases n,
    {
        if n > i + 1 {
            Self::lemma_registry_latest(entries, i, (n - 1) as nat);
            assert(entries[n - 1].0@ != entries[i].0@);
        }
    }

    /// The registry holds nothing under a name under which no entry
    /// was made.
    proof fn lemma_registry_absent(entries: Seq<(String, Program)>, name: Seq<char>, n: nat)
        requires
            n <= entries.len(),
            forall|j: int| 0 <= j < n ==> (#[trigger] entries[j]).0@ != name,
        ensures
            !registry_of(entries, n).dom().contains(name),
        decreases n,
    {
        if n > 0 {
            Self::lemma_registry_absent(entries, name, (n - 1) as nat);
            assert(entries[n - 1].0@ != name);
        }
    }

    /// Enters a module into the registry.
    fn register(&mut self, module_name: &str, program: Program)
        ensures
            final(self).registry() == old(self).registry().insert(module_name@, program@),
    {
        let ghost before = self.modules@;
        let name = String::from_str(module_name);
        self.modules.push((name, program));
        proof {
            Self::lemma_registry_prefix(self.modules@, before, before.len());
        }
    }

    /// The registry of the first `n` entries depends on them alone.
    proof fn lemma_registry_prefix(longer: Seq<(String, Program)>, shorter: Seq<(String, Program)>, n: nat)
        requires
            n <= shorter.len() <= longer.len(),
            forall|i: int| 0 <= i < shorter.len() ==> longer[i] == shorter[i],
        ensures
            registry_of(longer, n) == registry_of(shorter, n),
        decreases n,
    {
        if n > 0 {
            Self::lemma_registry_prefix(longer, shorter, (n - 1) as nat);
        }
    }

    /// Compiles the source text of one module to Rust source text.
    /// The diagnostics of the module are reported to `diagnostics`; the
    /// module is entered into the registry where it compiles.
    pub fn compile_source(
        &mut self,
        diagnostics: &mut DiagnosticEngine,
        source: &str,
        module_name: &str,
        file_path: &str,
    ) -> (result: Result<String, Error>)
        requires
            source@.len() < usize::MAX,
        ensures
            result_view(result) == compile_model(source@, file_path@, module_name@).result,
            final(diagnostics)@ == old(diagnostics)@ + compile_model(
                source@,
                file_path@,
                module_name@,
            ).diagnostics,
            final(self).registry() == if result is Ok {
                old(self).registry().insert(
                    module_name@,
                    front_end_model(source@, file_path@).result->Ok_0,
                )
            } else {
                old(self).registry()
            },
    {
        proof {
            reveal(compile_model);
        }
        let program = match parse_source(diagnostics, source, file_path) {
            Err(e) => {
                return Err(e);
            },
            Ok(program) => program,
        };
        let text = match run_back_end(diagnostics, &program, module_name) {
            Err(e) => {
                return Err(e);
            },
            Ok(text) => text,
        };
        self.register(module_name, program);
        Ok(text)
    }

    /// Compiles one module to the file that is to be written into
    /// `output_dir`.
    pub fn compile_module(
        &mut self,
        diagnostics: &mut DiagnosticEngine,
        source: &SourceFile,
        module_name: &str,
        output_dir: &str,
    ) -> (result: Result<GeneratedFile, Error>)
        requires
            source.text@.len() < usize::MAX,
        ensures
            match module_model(source.deep_view(), module_name@, output_dir@).result {
                Ok(file) => result matches Ok(found) && found.deep_view() == file,
                Err(e) => result matches Err(found) && found@ == e,
            },
            final(diagnostics)@ == old(diagnostics)@ + module_model(
                source.deep_view(),
                module_name@,
                output_dir@,
            ).diagnostics,
            final(self).registry() == if result is Ok {
                old(self).registry().insert(
                    module_name@,
                    front_end_model(source.text@, source.path@).result->Ok_0,
                )
            } else {
                old(self).registry()
            },
    {
        proof {
            reveal(module_model);
        }
        match self.compile_source(
            diagnostics,
            source.text.as_str(),
            module_name,
            source.path.as_str(),
        ) {
            Ok(contents) => Ok(GeneratedFile { path: output_path(output_dir, module_name), contents }),
            Err(e) => Err(e),
        }
    }

    /// Compiles the modules `sources`, named `names`, one after the
    /// other, to the files that are to be written into `output_dir`.
    /// The first module that fails ends the run.
    pub fn compile_modules(
        &mut self,
        diagnostics: &mut DiagnosticEngine,
        sources: &Vec<SourceFile>,
        names: &Vec<String>,
        output_dir: &str,
    ) -> (result: Result<Vec<GeneratedFile>, Error>)
        requires
            names.len() == sources.len(),
            forall|i: int| 0 <= i < sources.len() ==> (#[trigger] sources[i]).text@.len() < usize::MAX,
        ensures
            match modules_model(
                sources.deep_view(),
                names.deep_view(),
                output_dir@,
                sources.len() as nat,
            ).result {
                Ok(files) => result matches Ok(found) && found.deep_view() == files,
                Err(e) => result matches Err(found) && found@ == e,
            },
            final(diagnostics)@ == old(diagnostics)@ + modules_model(
                sources.deep_view(),
                names.deep_view(),
                output_dir@,
                sources.len() as nat,
            ).diagnostics,
            final(self).registry() == registry_model(
                old(self).registry(),
                sources.deep_view(),
                names.deep_view(),
                sources.len() as nat,
            ),
    {
        let ghost start = diagnostics@;
        let ghost registry = self.registry();
        let ghost all = sources.deep_view();
        let ghost labels = names.deep_view();
        let mut files: Vec<GeneratedFile> = Vec::new();
        assert(files.deep_view() == Seq::<GeneratedFileView>::empty());
        let mut n: usize = 0;
        while n < sources.len()
            invariant
                n <= sources.len(),
                names.len() == sources.len(),
                all == sources.deep_view(),
                labels == names.deep_view(),
                forall|i: int|
                    0 <= i < sources.len() ==> (#[trigger] sources[i]).text@.len() < usize::MAX,
                modules_model(all, labels, output_dir@, n as nat).result == Ok::<
                    Seq<GeneratedFileView>,
                    ErrorView,
                >(files.deep_view()),
                diagnostics@ == start + modules_model(all, labels, output_dir@, n as nat).diagnostics,
                self.registry() == registry_model(registry, all, labels, n as nat),
                start == old(diagnostics)@,
                registry == old(self).registry(),
            decreases sources.len() - n,
        {
            proof {
                lemma_run_success(all, labels, output_dir@, n as nat);
                lemma_run_success(all, labels, output_dir@, (n + 1) as nat);
                lemma_module_success(all[n as int], labels[n as int], output_dir@);
                assert(all[n as int] == sources[n as int].deep_view());
                assert(labels[n as int] == names[n as int]@);
            }
            match self.compile_module(diagnostics, &sources[n], names[n].as_str(), output_dir) {
                Err(e) => {
                    proof {
                        lemma_failure_ends_run(
                            registry,
                            all,
                            labels,
                            output_dir@,
                            (n + 1) as nat,
                            sources.len() as nat,
                        );
                    }
                    return Err(e);
                },
                Ok(file) => {
                    let ghost before = files.deep_view();
                    files.push(file);
                    assert(files.deep_view() == before.push(file.deep_view()));
                },
            }
            n = n + 1;
        }
        Ok(files)
    }

    /// Compiles the module of the file at `input_path`, which holds
    /// `source`. The module is named after the stem of the file, or
    /// `main`.
    pub fn compile_file(
        &mut self,
        diagnostics: &mut DiagnosticEngine,
        source: &str,
        input_path: &str,
        output_dir: &str,
    ) -> (result: Result<Vec<GeneratedFile>, Error>)
        requires
            source@.len() < usize::MAX,
        ensures
            result matches Ok(files) ==> files.len() == 1 && compile_model(
                source@,
                input_path@,
                Seq::empty(),
            ).result == Ok::<Seq<char>, ErrorView>(files[0].contents@),
            result is Ok <==> compile_model(source@, input_path@, Seq::empty()).result is Ok,
            final(diagnostics)@ == old(diagnostics)@ + compile_model(
                source@,
                input_path@,
                Seq::empty(),
            ).diagnostics,
    {
        let module_name = module_name_of(input_path, "main");
        proof {
            lemma_name_only_in_failure(source@, input_path@, module_name@, Seq::empty());
        }
        match self.compile_source(diagnostics, source, module_name.as_str(), input_path) {
            Ok(contents) => {
                let mut files: Vec<GeneratedFile> = Vec::new();
                files.push(
                    GeneratedFile { path: output_path(output_dir, module_name.as_str()), contents },
                );
                Ok(files)
            },
            Err(e) => Err(e),
        }
    }

    /// Compiles the source files of a directory, in the order given.
    /// Each module is named after the stem of its file, or `unnamed`.
    /// The first module that fails ends the run. Whether the run
    /// succeeds, the texts that it yields and the diagnostics that it
    /// reports do not depend on the names of the modules.
    pub fn compile_directory(
        &mut self,
        diagnostics: &mut DiagnosticEngine,
        sources: &Vec<SourceFile>,
        output_dir: &str,
    ) -> (result: Result<Vec<GeneratedFile>, Error>)
        requires
            forall|i: int|
                0 <= i < sources.len() ==> (#[trigger] sources[i]).text@.len() < usize::MAX,
        ensures
            result is Ok <==> all_compile(
                sources.deep_view(),
                unnamed(sources.len() as nat),
                sources.len() as nat,
            ),
            result matches Ok(files) ==> files.len() == sources.len() && forall|i: int|
                0 <= i < files.len() ==> compile_model(
                    sources[i].text@,
                    sources[i].path@,
                    Seq::empty(),
                ).result == Ok::<Seq<char>, ErrorView>((#[trigger] files[i]).contents@),
            final(diagnostics)@ == old(diagnostics)@ + modules_model(
                sources.deep_view(),
                unnamed(sources.len() as nat),
                output_dir@,
                sources.len() as nat,
            ).diagnostics,
    {
        let mut names: Vec<String> = Vec::new();
        let mut n: usize = 0;
        while n < sources.len()
            invariant
                n <= sources.len(),
                names.len() == n,
            decreases sources.len() - n,
        {
            names.push(module_name_of(sources[n].path.as_str(), "unnamed"));
            n = n + 1;
        }
        let result = self.compile_modules(diagnostics, sources, &names, output_dir);
        proof {
            lemma_names_do_not_matter(
                sources.deep_view(),
                names.deep_view(),
                unnamed(sources.len() as nat),
                output_dir@,
                sources.len() as nat,
            );
            lemma_run_success(
                sources.deep_view(),
                names.deep_view(),
                output_dir@,
                sources.len() as nat,
            );
            if result is Ok {
                let files = result->Ok_0;
                lemma_one_file_per_module(
                    sources.deep_view(),
                    names.deep_view(),
                    output_dir@,
                    sources.len() as nat,
                );
                assert forall|i: int| 0 <= i < files.len() implies compile_model(
                    sources[i].text@,
                    sources[i].path@,
                    Seq::empty(),
                ).result == Ok::<Seq<char>, ErrorView>((#[trigger] files[i]).contents@) by {
                    assert(files.deep_view()[i] == files[i].deep_view());
                    assert(sources.deep_view()[i] == sources[i].deep_view());
                    lemma_name_only_in_failure(
                        sources[i].text@,
                        sources[i].path@,
                        names[i]@,
                        Seq::empty(),
                    );
                }
            }
        }
        result
    }

    /// The files of the build project for the generated files
    /// `rust_files`, to be written into `output_dir` before the native
    /// toolchain is run there.
    pub fn compile_to_native(&self, rust_files: &Vec<String>, output_dir: &str) -> (plan: BuildPlan)
        ensures
            plan.manifest_path@ == output_dir@ + "/Cargo.toml"@,
            plan.manifest@ == crate::compiler::project::manifest_text(),
            plan.root_path@ == output_dir@ + "/lib.rs"@,
    {
        let names = module_names(rust_files);
        build_plan(&names, output_dir)
    }
}

/// Names for `n` modules that are all empty.
pub open spec fn unnamed(n: nat) -> Seq<Seq<char>> {
    Seq::new(n, |i: int| Seq::empty())
}

/// Whether a run succeeds and what it reports do not depend on the
/// names of its modules.
pub proof fn lemma_names_do_not_matter(
    sources: Seq<SourceFileView>,
    first: Seq<Seq<char>>,
    second: Seq<Seq<char>>,
    output_dir: Seq<char>,
    n: nat,
)
    requires
        n <= sources.len(),
        n <= first.len(),
        n <= second.len(),
    ensures
        all_compile(sources, first, n) <==> all_compile(sources, second, n),
        modules_model(sources, first, output_dir, n).diagnostics == modules_model(
            sources,
            second,
            output_dir,
            n,
        ).diagnostics,
    decreases n,
{
    if n > 0 {
        lemma_names_do_not_matter(sources, first, second, output_dir, (n - 1) as nat);
        lemma_run_success(sources, first, output_dir, (n - 1) as nat);
        lemma_run_success(sources, second, output_dir, (n - 1) as nat);
        lemma_module_success(sources[n - 1], first[n - 1], output_dir);
        lemma_module_success(sources[n - 1], second[n - 1], output_dir);
        lemma_name_only_in_failure(
            sources[n - 1].text,
            sources[n - 1].path,
            first[n - 1],
            second[n - 1],
        );
    }
}

/// The name of a module shows in nothing but the message of a failed
/// lowering: the text and the diagnostics of a module are those of its
/// source.
pub proof fn lemma_name_only_in_failure(
    source: Seq<char>,
    file: Seq<char>,
    first: Seq<char>,
    second: Seq<char>,
)
    ensures
        compile_model(source, file, first).diagnostics == compile_model(
            source,
            file,
            second,
        ).diagnostics,
        compile_model(source, file, first).result is Ok <==> compile_model(
            source,
            file,
            second,
        ).result is Ok,
        compile_model(source, file, first).result is Ok ==> compile_model(source, file, first).result
            == compile_model(source, file, second).result,
{
    reveal(compile_model);
    reveal(back_end_model);
}

/// A run that has failed stays as it is: the modules behind the failed
/// one add nothing.
pub proof fn lemma_failure_ends_run(
    registry: Map<Seq<char>, ProgramView>,
    sources: Seq<SourceFileView>,
    names: Seq<Seq<char>>,
    output_dir: Seq<char>,
    failed: nat,
    n: nat,
)
    requires
        failed <= n <= sources.len(),
        n <= names.len(),
        modules_model(sources, names, output_dir, failed).result is Err,
    ensures
        modules_model(sources, names, output_dir, n) == modules_model(
            sources,
            names,
            output_dir,
            failed,
        ),
        registry_model(registry, sources, names, n) == registry_model(
            registry,
            sources,
            names,
            failed,
        ),
    decreases n,
{
    if n > failed {
        lemma_failure_ends_run(registry, sources, names, output_dir, failed, (n - 1) as nat);
        lemma_run_success(sources, names, output_dir, (n - 1) as nat);
    }
}

} // verus!
