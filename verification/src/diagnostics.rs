//! Source locations, compiler errors and the diagnostics collector.

use vstd::prelude::*;
use crate::text::{chars_of, decimal_text, push_decimal};

verus! {

/// A range of source text: a file and the line and column at which the
/// range starts and ends. Lines and columns count from 1.
#[derive(Debug, Clone, PartialEq)]
pub struct Span {
    pub file: String,
    pub start_line: usize,
    pub start_column: usize,
    pub end_line: usize,
    pub end_column: usize,
}

/// The mathematical value of a [`Span`].
pub struct SpanView {
    pub file: Seq<char>,
    pub start_line: nat,
    pub start_column: nat,
    pub end_line: nat,
    pub end_column: nat,
}

impl View for Span {
    type V = SpanView;

    open spec fn view(&self) -> SpanView {
        SpanView {
            file: self.file@,
            start_line: self.start_line as nat,
            start_column: self.start_column as nat,
            end_line: self.end_line as nat,
            end_column: self.end_column as nat,
        }
    }
}

impl DeepView for Span {
    type V = SpanView;

    open spec fn deep_view(&self) -> SpanView {
        self@
    }
}

/// The span that starts where `first` starts and ends where `last` ends.
pub open spec fn span_cover(first: SpanView, last: SpanView) -> SpanView {
    SpanView {
        file: first.file,
        start_line: first.start_line,
        start_column: first.start_column,
        end_line: last.end_line,
        end_column: last.end_column,
    }
}

impl Span {
    /// A copy of this span.
    pub fn duplicate(&self) -> (copy: Span)
        ensures
            copy@ == self@,
    {
        Span {
            file: self.file.clone(),
            start_line: self.start_line,
            start_column: self.start_column,
            end_line: self.end_line,
            end_column: self.end_column,
        }
    }

    /// The span from the start of `self` to the end of `last`.
    pub fn cover(&self, last: &Span) -> (joined: Span)
        ensures
            joined@ == span_cover(self@, last@),
    {
        Span {
            file: self.file.clone(),
            start_line: self.start_line,
            start_column: self.start_column,
            end_line: last.end_line,
            end_column: last.end_column,
        }
    }
}

/// Why a compilation stopped.
#[derive(Debug, Clone, PartialEq)]
pub enum Error {
    /// The source text holds a malformed token.
    LexError(String),
    /// The token sequence violates the grammar.
    ParseError(String),
    /// The module is not well-typed or breaks a structural rule.
    SemanticError(String),
    /// The syntax tree cannot be lowered.
    CodegenError(String),
    /// The file system refused an access.
    IoError(String),
    /// The native toolchain could not be run or reported a failure.
    CompilationError(String),
}

/// The mathematical value of an [`Error`].
pub enum ErrorView {
    LexError(Seq<char>),
    ParseError(Seq<char>),
    SemanticError(Seq<char>),
    CodegenError(Seq<char>),
    IoError(Seq<char>),
    CompilationError(Seq<char>),
}

impl View for Error {
    type V = ErrorView;

    open spec fn view(&self) -> ErrorView {
        match self {
            Error::LexError(m) => ErrorView::LexError(m@),
            Error::ParseError(m) => ErrorView::ParseError(m@),
            Error::SemanticError(m) => ErrorView::SemanticError(m@),
            Error::CodegenError(m) => ErrorView::CodegenError(m@),
            Error::IoError(m) => ErrorView::IoError(m@),
            Error::CompilationError(m) => ErrorView::CompilationError(m@),
        }
    }
}

/// How grave a diagnostic is. An error stops the pipeline of the module
/// that it belongs to; a warning does not.
#[derive(Debug, Clone, Copy, PartialEq, Eq, Structural)]
pub enum Severity {
    Error,
    Warning,
}

/// A message of the compiler about a place in the source text.
#[derive(Debug, Clone, PartialEq)]
pub struct Diagnostic {
    pub severity: Severity,
    pub message: String,
    pub span: Span,
}

/// The mathematical value of a [`Diagnostic`].
pub struct DiagnosticView {
    pub severity: Severity,
    pub message: Seq<char>,
    pub span: SpanView,
}

impl View for Diagnostic {
    type V = DiagnosticView;

    open spec fn view(&self) -> DiagnosticView {
        DiagnosticView { severity: self.severity, message: self.message@, span: self.span@ }
    }
}

impl DeepView for Diagnostic {
    type V = DiagnosticView;

    open spec fn deep_view(&self) -> DiagnosticView {
        self@
    }
}

/// The error diagnostic with the given message and span.
pub open spec fn error_at(message: Seq<char>, span: SpanView) -> DiagnosticView {
    DiagnosticView { severity: Severity::Error, message, span }
}

impl Diagnostic {
    /// An error diagnostic.
    pub fn error(message: String, span: Span) -> (d: Diagnostic)
        ensures
            d@ == error_at(message@, span@),
    {
        Diagnostic { severity: Severity::Error, message, span }
    }

    /// A warning diagnostic.
    pub fn warning(message: String, span: Span) -> (d: Diagnostic)
        ensures
            d@ == (DiagnosticView { severity: Severity::Warning, message: message@, span: span@ }),
    {
        Diagnostic { severity: Severity::Warning, message, span }
    }

    /// A copy of this diagnostic.
    pub fn duplicate(&self) -> (copy: Diagnostic)
        ensures
            copy@ == self@,
    {
        Diagnostic {
            severity: self.severity,
            message: self.message.clone(),
            span: self.span.duplicate(),
        }
    }
}

/// Whether a diagnostic is an error.
pub open spec fn is_error(d: DiagnosticView) -> bool {
    d.severity == Severity::Error
}

/// The number of errors among diagnostics.
pub open spec fn count_errors(diagnostics: Seq<DiagnosticView>) -> nat
    decreases diagnostics.len(),
{
    if diagnostics.len() == 0 {
        0
    } else {
        count_errors(diagnostics.drop_last()) + if is_error(diagnostics.last()) {
            1nat
        } else {
            0nat
        }
    }
}

/// The first error among the diagnostics at `from` and behind.
pub open spec fn first_error_from(diagnostics: Seq<DiagnosticView>, from: int) -> Option<
    DiagnosticView,
>
    decreases diagnostics.len() - from,
{
    if from < 0 || from >= diagnostics.len() {
        None
    } else if is_error(diagnostics[from]) {
        Some(diagnostics[from])
    } else {
        first_error_from(diagnostics, from + 1)
    }
}

/// The first error among diagnostics.
pub open spec fn first_error(diagnostics: Seq<DiagnosticView>) -> Option<DiagnosticView> {
    first_error_from(diagnostics, 0)
}

/// The first error behind a prefix of diagnostics is the first error of
/// what stands behind the prefix.
pub proof fn lemma_first_error_behind(
    prefix: Seq<DiagnosticView>,
    rest: Seq<DiagnosticView>,
    from: int,
)
    requires
        0 <= from,
    ensures
        first_error_from(prefix + rest, prefix.len() + from) == first_error_from(rest, from),
    decreases rest.len() - from,
{
    if from < rest.len() {
        assert((prefix + rest)[prefix.len() + from] == rest[from]);
        lemma_first_error_behind(prefix, rest, from + 1);
    }
}

/// The collector of the diagnostics of one compiler run. It is handed
/// to every stage; the stages report through it, in order.
pub struct DiagnosticEngine {
    diagnostics: Vec<Diagnostic>,
}

impl View for DiagnosticEngine {
    type V = Seq<DiagnosticView>;

    /// The diagnostics reported so far, oldest first.
    closed spec fn view(&self) -> Seq<DiagnosticView> {
        self.diagnostics.deep_view()
    }
}

impl DiagnosticEngine {
    /// An engine that holds no diagnostic.
    pub fn new() -> (engine: Self)
        ensures
            engine@ == Seq::<DiagnosticView>::empty(),
    {
        let engine = DiagnosticEngine { diagnostics: Vec::new() };
        assert(engine.diagnostics.deep_view() == Seq::<DiagnosticView>::empty());
        engine
    }

    /// Appends a diagnostic.
    pub fn report(&mut self, diagnostic: Diagnostic)
        ensures
            final(self)@ == old(self)@.push(diagnostic@),
    {
        self.diagnostics.push(diagnostic);
        assert(self.diagnostics.deep_view() == old(self).diagnostics.deep_view().push(
            diagnostic@,
        ));
    }

    /// The number of diagnostics reported so far.
    pub fn len(&self) -> (n: usize)
        ensures
            n == self@.len(),
    {
        self.diagnostics.len()
    }

    /// A copy of the diagnostic at `index`.
    pub fn get(&self, index: usize) -> (d: Diagnostic)
        requires
            index < self@.len(),
        ensures
            d@ == self@[index as int],
    {
        self.diagnostics[index].duplicate()
    }

    /// The number of errors reported so far.
    pub fn error_count(&self) -> (n: usize)
        ensures
            n == count_errors(self@),
    {
        let mut n: usize = 0;
        let mut i: usize = 0;
        while i < self.diagnostics.len()
            invariant
                i <= self.diagnostics.len(),
                n <= i,
                n == count_errors(self@.take(i as int)),
            decreases self.diagnostics.len() - i,
        {
            proof {
                assert(self@.take(i + 1).drop_last() == self@.take(i as int));
                assert(self@.take(i + 1).last() == self.diagnostics[i as int]@);
            }
            match self.diagnostics[i].severity {
                Severity::Error => {
                    n = n + 1;
                },
                Severity::Warning => {},
            }
            i = i + 1;
        }
        assert(self@.take(i as int) == self@);
        n
    }

    /// The first error among the diagnostics at `from` and behind.
    pub fn first_error_from(&self, from: usize) -> (found: Option<Diagnostic>)
        ensures
            match first_error_from(self@, from as int) {
                Some(d) => found matches Some(e) && e@ == d,
                None => found is None,
            },
    {
        let mut i: usize = from;
        while i < self.diagnostics.len()
            invariant
                from <= i,
                first_error_from(self@, from as int) == first_error_from(self@, i as int),
            decreases self.diagnostics.len() - i,
        {
            assert(self@[i as int] == self.diagnostics[i as int]@);
            match self.diagnostics[i].severity {
                Severity::Error => {
                    return Some(self.diagnostics[i].duplicate());
                },
                Severity::Warning => {},
            }
            i = i + 1;
        }
        None
    }

    /// Whether an error was reported.
    pub fn has_errors(&self) -> (b: bool)
        ensures
            b == (count_errors(self@) > 0),
    {
        self.error_count() > 0
    }
}

/// Whether the text `a` comes before the text `b` in the order of the
/// dictionary, by the codes of the characters, from offset `i` on.
pub open spec fn text_less_from(a: Seq<char>, b: Seq<char>, i: int) -> bool
    decreases a.len() - i,
{
    if i < 0 || i >= b.len() {
        false
    } else if i >= a.len() {
        true
    } else if a[i] != b[i] {
        a[i] < b[i]
    } else {
        text_less_from(a, b, i + 1)
    }
}

/// Whether the text `a` comes before the text `b`.
pub open spec fn text_less(a: Seq<char>, b: Seq<char>) -> bool {
    text_less_from(a, b, 0)
}

/// Whether the diagnostic `a` is rendered before the diagnostic `b`
/// for its place alone: its file comes first, or it lies in the same
/// file on an earlier line.
pub open spec fn comes_before(a: DiagnosticView, b: DiagnosticView) -> bool {
    text_less(a.span.file, b.span.file) || (a.span.file == b.span.file && a.span.start_line
        < b.span.start_line)
}

/// The sorted diagnostics `sorted` with `d` put behind the last of them
/// that does not come after it.
pub open spec fn inserted(sorted: Seq<DiagnosticView>, d: DiagnosticView, from: int) -> Seq<
    DiagnosticView,
>
    decreases sorted.len() - from,
{
    if from < 0 || from >= sorted.len() {
        sorted.push(d)
    } else if comes_before(d, sorted[from]) {
        sorted.insert(from, d)
    } else {
        inserted(sorted, d, from + 1)
    }
}

/// The first `n` diagnostics in the order in which they are rendered:
/// by file, then by line; diagnostics of one line keep the order in
/// which they were reported.
pub open spec fn ordered(diagnostics: Seq<DiagnosticView>, n: nat) -> Seq<DiagnosticView>
    decreases n,
{
    if n == 0 || n > diagnostics.len() {
        Seq::empty()
    } else {
        inserted(ordered(diagnostics, (n - 1) as nat), diagnostics[n - 1], 0)
    }
}

/// The word for a severity.
pub open spec fn severity_text(severity: Severity) -> Seq<char> {
    match severity {
        Severity::Error => "error"@,
        Severity::Warning => "warning"@,
    }
}

/// The line that a diagnostic is rendered as: the file, the line and
/// the column of its start, its severity and its message.
pub open spec fn rendered(d: DiagnosticView) -> Seq<char> {
    d.span.file + ":"@ + decimal_text(d.span.start_line) + ":"@ + decimal_text(
        d.span.start_column,
    ) + ": "@ + severity_text(d.severity) + ": "@ + d.message
}

/// The lines of diagnostics, one for each.
pub open spec fn rendered_all(diagnostics: Seq<DiagnosticView>) -> Seq<Seq<char>> {
    Seq::new(diagnostics.len(), |i: int| rendered(diagnostics[i]))
}

/// Whether a sequence of diagnostics is in rendering order.
pub open spec fn in_order(diagnostics: Seq<DiagnosticView>) -> bool {
    forall|i: int, j: int|
        0 <= i < j < diagnostics.len() ==> !comes_before(
            #[trigger] diagnostics[j],
            #[trigger] diagnostics[i],
        )
}

/// No text comes before itself.
pub proof fn lemma_text_less_irreflexive(a: Seq<char>, i: int)
    ensures
        !text_less_from(a, a, i),
    decreases a.len() - i,
{
    if 0 <= i < a.len() {
        lemma_text_less_irreflexive(a, i + 1);
    }
}

/// The order of texts is transitive.
pub proof fn lemma_text_less_transitive(a: Seq<char>, b: Seq<char>, c: Seq<char>, i: int)
    requires
        text_less_from(a, b, i),
        text_less_from(b, c, i),
    ensures
        text_less_from(a, c, i),
    decreases a.len() - i,
{
    if i < a.len() && a[i] == b[i] && b[i] == c[i] {
        lemma_text_less_transitive(a, b, c, i + 1);
    }
}

/// The order of rendering is transitive.
pub proof fn lemma_comes_before_transitive(a: DiagnosticView, b: DiagnosticView, c: DiagnosticView)
    requires
        comes_before(a, b),
        comes_before(b, c),
    ensures
        comes_before(a, c),
{
    if text_less(a.span.file, b.span.file) && text_less(b.span.file, c.span.file) {
        lemma_text_less_transitive(a.span.file, b.span.file, c.span.file, 0);
    }
}

/// No diagnostic comes before itself.
pub proof fn lemma_comes_before_irreflexive(a: DiagnosticView)
    ensures
        !comes_before(a, a),
{
    lemma_text_less_irreflexive(a.span.file, 0);
}

/// Putting a diagnostic into diagnostics that are in order leaves them
/// in order, adds the diagnostic and loses none.
pub proof fn lemma_inserted(sorted: Seq<DiagnosticView>, d: DiagnosticView, from: int)
    requires
        in_order(sorted),
        0 <= from <= sorted.len(),
        forall|i: int| 0 <= i < from ==> !comes_before(d, #[trigger] sorted[i]),
    ensures
        in_order(inserted(sorted, d, from)),
        inserted(sorted, d, from).to_multiset() == sorted.to_multiset().insert(d),
        inserted(sorted, d, from).len() == sorted.len() + 1,
    decreases sorted.len() - from,
{
    broadcast use vstd::seq_lib::group_to_multiset_ensures;

    if from >= sorted.len() {
        let out = sorted.push(d);
        assert forall|i: int, j: int| 0 <= i < j < out.len() implies !comes_before(
            #[trigger] out[j],
            #[trigger] out[i],
        ) by {
            if j < sorted.len() {
                assert(out[j] == sorted[j] && out[i] == sorted[i]);
            }
        }
    } else if comes_before(d, sorted[from]) {
        let out = sorted.insert(from, d);
        assert forall|i: int, j: int| 0 <= i < j < out.len() implies !comes_before(
            #[trigger] out[j],
            #[trigger] out[i],
        ) by {
            if j == from {
                assert(out[i] == sorted[i]);
            } else if i == from {
                assert(out[j] == sorted[j - 1]);
                if comes_before(sorted[j - 1], d) {
                    lemma_comes_before_transitive(sorted[j - 1], d, sorted[from]);
                    lemma_comes_before_irreflexive(sorted[from]);
                    if j - 1 > from {
                        assert(!comes_before(sorted[j - 1], sorted[from]));
                    }
                }
            } else if j < from {
                assert(out[i] == sorted[i] && out[j] == sorted[j]);
            } else if i < from {
                assert(out[i] == sorted[i] && out[j] == sorted[j - 1]);
            } else {
                assert(out[i] == sorted[i - 1] && out[j] == sorted[j - 1]);
            }
        }
        sorted.to_multiset_ensures();
        assert(out.to_multiset() == sorted.to_multiset().insert(d));
    } else {
        lemma_inserted(sorted, d, from + 1);
    }
}

/// The order of rendering is an order of the diagnostics that were
/// reported: it holds each of them as often as it was reported, and it
/// goes by file, then by line.
pub proof fn law_rendering_order(diagnostics: Seq<DiagnosticView>, n: nat)
    requires
        n <= diagnostics.len(),
    ensures
        in_order(ordered(diagnostics, n)),
        ordered(diagnostics, n).to_multiset() == diagnostics.take(n as int).to_multiset(),
        ordered(diagnostics, n).len() == n,
    decreases n,
{
    broadcast use vstd::seq_lib::group_to_multiset_ensures;

    if n == 0 {
        assert(diagnostics.take(0) == Seq::<DiagnosticView>::empty());
    } else {
        law_rendering_order(diagnostics, (n - 1) as nat);
        lemma_inserted(ordered(diagnostics, (n - 1) as nat), diagnostics[n - 1], 0);
        assert(diagnostics.take(n as int) == diagnostics.take(n - 1).push(diagnostics[n - 1]));
    }
}

/// Whether the text `a` comes before the text `b`.
pub fn compare_text(a: &str, b: &str) -> (less: bool)
    ensures
        less == text_less(a@, b@),
{
    let x = chars_of(a);
    let y = chars_of(b);
    let mut i: usize = 0;
    while i < x.len() && i < y.len()
        invariant
            i <= x.len(),
            i <= y.len(),
            x@ == a@,
            y@ == b@,
            text_less(a@, b@) == text_less_from(a@, b@, i as int),
        decreases x.len() - i,
    {
        if x[i] != y[i] {
            return x[i] < y[i];
        }
        i = i + 1;
    }
    i < y.len()
}

impl Diagnostic {
    /// Whether this diagnostic is rendered before `other` for its place
    /// alone.
    pub fn comes_before(&self, other: &Diagnostic) -> (b: bool)
        ensures
            b == comes_before(self@, other@),
    {
        if compare_text(self.span.file.as_str(), other.span.file.as_str()) {
            true
        } else {
            self.span.file.as_str().eq(other.span.file.as_str()) && self.span.start_line
                < other.span.start_line
        }
    }

    /// The line that this diagnostic is rendered as.
    pub fn render(&self) -> (line: String)
        ensures
            line@ == rendered(self@),
    {
        let mut line = self.span.file.clone();
        line.append(":");
        push_decimal(&mut line, self.span.start_line as u64);
        line.append(":");
        push_decimal(&mut line, self.span.start_column as u64);
        line.append(": ");
        match self.severity {
            Severity::Error => line.append("error"),
            Severity::Warning => line.append("warning"),
        }
        line.append(": ");
        line.append(self.message.as_str());
        line
    }
}

impl DiagnosticEngine {
    /// The diagnostics in the order in which they are rendered.
    pub fn in_rendering_order(&self) -> (sorted: Vec<Diagnostic>)
        ensures
            sorted.deep_view() == ordered(self@, self@.len()),
    {
        let mut sorted: Vec<Diagnostic> = Vec::new();
        assert(sorted.deep_view() == Seq::<DiagnosticView>::empty());
        let mut n: usize = 0;
        while n < self.diagnostics.len()
            invariant
                n <= self.diagnostics.len(),
                sorted.deep_view() == ordered(self@, n as nat),
            decreases self.diagnostics.len() - n,
        {
            let d = self.diagnostics[n].duplicate();
            assert(d@ == self@[n as int]);
            let ghost before = sorted.deep_view();
            let mut at: usize = 0;
            while at < sorted.len() && !d.comes_before(&sorted[at])
                invariant
                    at <= sorted.len(),
                    before == sorted.deep_view(),
                    inserted(before, d@, 0) == inserted(before, d@, at as int),
                decreases sorted.len() - at,
            {
                at = at + 1;
            }
            sorted.insert(at, d);
            assert(sorted.deep_view() == before.insert(at as int, d@));
            assert(before.insert(before.len() as int, d@) == before.push(d@));
            n = n + 1;
        }
        sorted
    }

    /// The lines that the diagnostics are rendered as, in file-then-line
    /// order.
    pub fn render_all(&self) -> (lines: Vec<String>)
        ensures
            lines.deep_view() == rendered_all(ordered(self@, self@.len())),
    {
        let sorted = self.in_rendering_order();
        let mut lines: Vec<String> = Vec::new();
        let mut n: usize = 0;
        while n < sorted.len()
            invariant
                n <= sorted.len(),
                lines.len() == n,
                forall|i: int| 0 <= i < n ==> (#[trigger] lines[i])@ == rendered(sorted[i]@),
            decreases sorted.len() - n,
        {
            lines.push(sorted[n].render());
            n = n + 1;
        }
        assert(lines.deep_view() =~= rendered_all(sorted.deep_view()));
        lines
    }
}

impl Error {
    /// The kind of this error and its message, as one line.
    pub fn describe(&self) -> (line: String)
        ensures
            line@ == described(self@),
    {
        let (kind, message) = match self {
            Error::LexError(m) => ("Lex error: ", m),
            Error::ParseError(m) => ("Parse error: ", m),
            Error::SemanticError(m) => ("Semantic error: ", m),
            Error::CodegenError(m) => ("Codegen error: ", m),
            Error::IoError(m) => ("IO error: ", m),
            Error::CompilationError(m) => ("Compilation error: ", m),
        };
        let mut line = String::from_str(kind);
        line.append(message.as_str());
        line
    }
}

/// The kind of an error and its message, as one line.
pub open spec fn described(e: ErrorView) -> Seq<char> {
    match e {
        ErrorView::LexError(m) => "Lex error: "@ + m,
        ErrorView::ParseError(m) => "Parse error: "@ + m,
        ErrorView::SemanticError(m) => "Semantic error: "@ + m,
        ErrorView::CodegenError(m) => "Codegen error: "@ + m,
        ErrorView::IoError(m) => "IO error: "@ + m,
        ErrorView::CompilationError(m) => "Compilation error: "@ + m,
    }
}

} // verus!
