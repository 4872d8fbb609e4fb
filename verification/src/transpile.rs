//! The transpiler.
//!
//! To transpile a module is to parse its text, run the import rewrite pass
//! over it, and emit the result as text of the configured language level.
//! Each step can fail, and each failure is an error of its own kind that
//! names the file. A panic of the compiler is not caught here: the caller
//! runs `transpile` inside a boundary that catches it, and `conclude` says
//! what answer such a fault gives. One fault no boundary catches: on a text
//! that is nested deeper than the stack of the thread bears, the parser
//! ends the process.

use vstd::prelude::*;
use crate::compiler::{
    parse, parsed_emission, parsed_rest, spec_parse, LanguageLevel, ParsedModule,
};
use crate::resolve::{EntryPreference, ModuleResolver, ResolutionFailure, ResolvedName};
use crate::rewrite::{
    all_folded, can_stop_with, fails_with, has_no_bare, spec_rewrite, spec_rewrite_resolved,
    stops_at, RewriteError, RewriteErrorView, TransformImport,
};
use crate::specifier::{spec_classify, SpecifierKind};
use crate::url_path::is_under_root;

verus! {

/// The kinds of content that the server hands out.
#[derive(Clone, Copy, Debug, PartialEq, Eq, Structural)]
pub enum ContentType {
    /// `text/html`
    Html,
    /// `application/javascript`
    JavaScript,
    /// `text/plain`
    Plain,
}

impl ContentType {
    /// The name of the content type as it stands in a header.
    pub open spec fn spec_as_str(self) -> Seq<char> {
        match self {
            ContentType::Html => "text/html"@,
            ContentType::JavaScript => "application/javascript"@,
            ContentType::Plain => "text/plain"@,
        }
    }

    /// The name of the content type as it stands in a header.
    pub fn as_str(self) -> (name: &'static str)
        ensures
            name@ == self.spec_as_str(),
    {
        match self {
            ContentType::Html => "text/html",
            ContentType::JavaScript => "application/javascript",
            ContentType::Plain => "text/plain",
        }
    }
}

/// A transpiled module.
#[derive(Debug)]
pub struct TransformOutput {
    /// The emitted text.
    pub text: String,
    /// The content type of the text.
    pub mime: ContentType,
}

/// What went wrong with a module.
#[derive(Clone, Copy, Debug, PartialEq, Eq, Structural)]
pub enum ErrorKind {
    /// A bare specifier could not be matched to an installed package or to
    /// a file of it.
    Resolution,
    /// A specifier was resolved to a file outside the project root.
    OutOfRoot,
    /// The text of the module is not valid syntax.
    Parse,
    /// Parsing, rewriting or emitting ended in a fault of its own.
    Fault,
}

/// A module that could not be transpiled.
#[derive(Debug)]
pub struct TranspileError {
    /// What went wrong.
    pub kind: ErrorKind,
    /// The path of the module.
    pub file: String,
    /// What went wrong, in words.
    pub message: String,
}

/// What a `TranspileError` holds, as sequences of characters.
pub struct TranspileErrorView {
    pub kind: ErrorKind,
    pub file: Seq<char>,
    pub message: Seq<char>,
}

impl View for TranspileError {
    type V = TranspileErrorView;

    open spec fn view(&self) -> TranspileErrorView {
        TranspileErrorView { kind: self.kind, file: self.file@, message: self.message@ }
    }
}

/// What a compile came to.
#[derive(Debug)]
pub enum CompileOutcome {
    /// The module was parsed, rewritten and emitted: this is its text.
    Emitted(String),
    /// The text of the module is not valid syntax: this is what the parser
    /// said.
    ParseFailed(String),
    /// The import rewrite pass failed on a specifier.
    RewriteFailed(RewriteError),
    /// The compiler failed to emit the module, or a fault of the compiler
    /// was caught at the boundary: this is what is known of it.
    Faulted(String),
}

/// The outcome of a transpile, as sequences of characters.
pub enum TranspileView {
    Output { text: Seq<char>, mime: ContentType },
    Failure(TranspileErrorView),
}

/// The outcome of a transpile, as sequences of characters.
pub open spec fn transpile_view(r: Result<TransformOutput, TranspileError>) -> TranspileView {
    match r {
        Ok(output) => TranspileView::Output { text: output.text@, mime: output.mime },
        Err(e) => TranspileView::Failure(e@),
    }
}

/// The kind of error that a failure of the rewrite pass is reported as.
pub open spec fn spec_kind_of(e: RewriteErrorView) -> ErrorKind {
    match e {
        RewriteErrorView::Unresolved(_) => ErrorKind::Resolution,
        RewriteErrorView::OutOfRoot { .. } => ErrorKind::OutOfRoot,
    }
}

/// What is said of the reason for a failed resolution.
pub open spec fn spec_reason_text(reason: ResolutionFailure) -> Seq<char> {
    match reason {
        ResolutionFailure::Malformed => "not a valid package specifier"@,
        ResolutionFailure::NotFound => "not found: "@,
        ResolutionFailure::NotAFile => "not a file: "@,
    }
}

/// The message for a failure of the rewrite pass. It names the specifier and
/// the importing file, and then says what went wrong.
pub open spec fn spec_describe(e: RewriteErrorView) -> Seq<char> {
    let head = "cannot import \""@ + e.specifier() + "\" into "@ + e.importer() + ": "@;
    match e {
        RewriteErrorView::Unresolved(r) => head + spec_reason_text(r.reason) + r.detail,
        RewriteErrorView::OutOfRoot { resolved, root, .. } => head + resolved
            + " lies outside the project root "@ + root,
    }
}

/// The answer that an outcome of the compile of `file` gives: emitted text is
/// handed out as JavaScript, and each failure is an error of its kind that
/// names the file.
pub open spec fn spec_conclude(file: Seq<char>, outcome: CompileOutcome) -> TranspileView {
    match outcome {
        CompileOutcome::Emitted(text) => TranspileView::Output {
            text: text@,
            mime: ContentType::JavaScript,
        },
        CompileOutcome::ParseFailed(message) => TranspileView::Failure(
            TranspileErrorView { kind: ErrorKind::Parse, file, message: message@ },
        ),
        CompileOutcome::RewriteFailed(e) => TranspileView::Failure(
            TranspileErrorView { kind: spec_kind_of(e@), file, message: spec_describe(e@) },
        ),
        CompileOutcome::Faulted(message) => TranspileView::Failure(
            TranspileErrorView { kind: ErrorKind::Fault, file, message: message@ },
        ),
    }
}

/// What the answer of the compiler to the emitting of a module means: its
/// text is the emitted module, and its error is a fault.
pub open spec fn spec_emitted(answer: Result<String, String>) -> CompileOutcome {
    match answer {
        Ok(text) => CompileOutcome::Emitted(text),
        Err(message) => CompileOutcome::Faulted(message),
    }
}

/// Whether `m` is a module that the rewrite pass can make of the module
/// that `source`, the text of the file `path`, is parsed to: each source is
/// the rewrite of the one at its place, and nothing else has changed,
/// neither in the tree nor in the comments, the source text or the syntax.
/// Where the text holds no bare source there is nothing to rewrite, and `m`
/// is emitted as the parsed module is.
pub open spec fn is_fold_of(
    m: ParsedModule,
    path: Seq<char>,
    source: Seq<char>,
    root: Seq<char>,
    level: LanguageLevel,
) -> bool {
    &&& spec_parse(path, source) matches Some(sources) && all_folded(
        sources,
        m.sources(),
        path,
        root,
    ) && (has_no_bare(sources) ==> m.emission(level) == parsed_emission(path, source, level))
    &&& parsed_rest(path, source) == Some(m.rest())
}

/// Whether emitting the rewritten module of the text `source` of the file
/// `path` can come to `result`: a text, or `None` for a failure of the
/// compiler.
pub open spec fn can_emit(
    result: Option<Seq<char>>,
    path: Seq<char>,
    source: Seq<char>,
    root: Seq<char>,
    level: LanguageLevel,
) -> bool {
    exists|m: ParsedModule| #[trigger]
        is_fold_of(m, path, source, root, level) && m.emission(level) == result
}

/// Whether `outcome` is one that the compile of the text `source` of the
/// file `path` can come to, where `root` is the project root and `level` is
/// the language level.
///
/// A text that does not parse fails in the parser and nowhere else. One
/// that parses fails in the rewrite pass only with the error of the first
/// statement whose source cannot be rewritten. Else the source of every
/// statement is rewritten, and the outcome is what emitting the rewritten
/// module comes to: its text, or a fault where the compiler emits none.
pub open spec fn is_outcome_of(
    outcome: CompileOutcome,
    path: Seq<char>,
    source: Seq<char>,
    root: Seq<char>,
    level: LanguageLevel,
) -> bool {
    match spec_parse(path, source) {
        None => outcome is ParseFailed,
        Some(sources) => match outcome {
            CompileOutcome::ParseFailed(_) => false,
            CompileOutcome::RewriteFailed(e) => can_stop_with(sources, e@, path, root),
            CompileOutcome::Emitted(text) => can_emit(Some(text@), path, source, root, level),
            CompileOutcome::Faulted(_) => can_emit(None, path, source, root, level),
        },
    }
}

/// A module without a bare source is emitted as it was parsed: the outcome
/// of its compile is the text of `parsed_emission`, or a fault where that
/// is none, whatever is installed and whatever was compiled before.
pub proof fn lemma_module_without_bare_source(
    outcome: CompileOutcome,
    path: Seq<char>,
    source: Seq<char>,
    root: Seq<char>,
    level: LanguageLevel,
)
    requires
        is_outcome_of(outcome, path, source, root, level),
        spec_parse(path, source) matches Some(sources) && has_no_bare(sources),
    ensures
        match parsed_emission(path, source, level) {
            Some(text) => outcome matches CompileOutcome::Emitted(t) && t@ == text,
            None => outcome is Faulted,
        },
{
    let sources = spec_parse(path, source)->0;
    match outcome {
        CompileOutcome::RewriteFailed(e) => {
            let at = choose|at: int| #[trigger] stops_at(sources, at, e@, path, root);
            assert(fails_with(sources[at], e@, path, root));
        },
        _ => {},
    }
}

/// A bare specifier for which the lookup comes to no file is reported as a
/// resolution error, whatever else the lookup answers.
pub proof fn lemma_unresolved_is_a_resolution_error(
    found: Result<ResolvedName, String>,
    importer: Seq<char>,
    specifier: Seq<char>,
    root: Seq<char>,
)
    requires
        spec_classify(specifier) == SpecifierKind::Bare,
        !(found matches Ok(ResolvedName::File(_))),
    ensures
        spec_rewrite(found, importer, specifier, root) matches Err(e) && spec_kind_of(e)
            == ErrorKind::Resolution,
{
}

/// A specifier that is resolved to a file which does not lie below the root
/// is reported as out of root.
pub proof fn lemma_outside_root_is_out_of_root(
    resolved: Seq<char>,
    importer: Seq<char>,
    specifier: Seq<char>,
    root: Seq<char>,
)
    requires
        !is_under_root(resolved, root),
    ensures
        spec_rewrite_resolved(Ok(resolved), importer, specifier, root) matches Err(e)
            && spec_kind_of(e) == ErrorKind::OutOfRoot,
{
}

/// The message of a rewrite failure holds the specifier and the importing
/// file, each as it was written.
pub proof fn lemma_message_names_specifier_and_importer(e: RewriteErrorView)
    ensures
        exists|before: Seq<char>, between: Seq<char>, after: Seq<char>|
            spec_describe(e) == before + e.specifier() + between + e.importer() + after,
{
    let before = "cannot import \""@;
    let between = "\" into "@;
    match e {
        RewriteErrorView::Unresolved(r) => {
            let after = ": "@ + spec_reason_text(r.reason) + r.detail;
            assert(spec_describe(e) =~= before + e.specifier() + between + e.importer() + after);
        },
        RewriteErrorView::OutOfRoot { resolved, root, .. } => {
            let after = ": "@ + resolved + " lies outside the project root "@ + root;
            assert(spec_describe(e) =~= before + e.specifier() + between + e.importer() + after);
        },
    }
}

/// The kind of error that a failure of the rewrite pass is reported as.
pub fn kind_of(e: &RewriteError) -> (kind: ErrorKind)
    ensures
        kind == spec_kind_of(e@),
{
    match e {
        RewriteError::Unresolved(_) => ErrorKind::Resolution,
        RewriteError::OutOfRoot { .. } => ErrorKind::OutOfRoot,
    }
}

/// What is said of the reason for a failed resolution.
fn reason_text(reason: ResolutionFailure) -> (text: &'static str)
    ensures
        text@ == spec_reason_text(reason),
{
    match reason {
        ResolutionFailure::Malformed => "not a valid package specifier",
        ResolutionFailure::NotFound => "not found: ",
        ResolutionFailure::NotAFile => "not a file: ",
    }
}

/// The message for a failure of the rewrite pass.
pub fn describe(e: &RewriteError) -> (message: String)
    ensures
        message@ == spec_describe(e@),
{
    let mut message = String::from_str("cannot import \"");
    message.append(e.specifier());
    message.append("\" into ");
    message.append(e.importer());
    message.append(": ");
    match e {
        RewriteError::Unresolved(r) => {
            message.append(reason_text(r.reason));
            message.append(r.detail.as_str());
        },
        RewriteError::OutOfRoot { resolved, root, .. } => {
            message.append(resolved.as_str());
            message.append(" lies outside the project root ");
            message.append(root.as_str());
        },
    }
    message
}

/// Says what the answer of the compiler to the emitting of a module means.
pub fn emitted(answer: Result<String, String>) -> (outcome: CompileOutcome)
    ensures
        outcome == spec_emitted(answer),
{
    match answer {
        Ok(text) => CompileOutcome::Emitted(text),
        Err(message) => CompileOutcome::Faulted(message),
    }
}

/// Says which answer an outcome of the compile of `file` gives.
pub fn conclude(file: &str, outcome: CompileOutcome) -> (r: Result<TransformOutput, TranspileError>)
    ensures
        transpile_view(r) == spec_conclude(file@, outcome),
{
    match outcome {
        CompileOutcome::Emitted(text) => Ok(TransformOutput { text, mime: ContentType::JavaScript }),
        CompileOutcome::ParseFailed(message) => Err(
            TranspileError { kind: ErrorKind::Parse, file: file.to_owned(), message },
        ),
        CompileOutcome::RewriteFailed(e) => Err(
            TranspileError { kind: kind_of(&e), file: file.to_owned(), message: describe(&e) },
        ),
        CompileOutcome::Faulted(message) => Err(
            TranspileError { kind: ErrorKind::Fault, file: file.to_owned(), message },
        ),
    }
}

/// What is fixed before the first request is served: the project root, the
/// language level of the emitted text, and the resolver for bare specifiers.
/// Nothing of it changes afterwards, so one value serves every request.
pub struct Transpiler {
    root: String,
    target: LanguageLevel,
    resolver: ModuleResolver,
}

impl Transpiler {
    /// The project root.
    pub closed spec fn spec_root(&self) -> Seq<char> {
        self.root@
    }

    /// The language level of the emitted text.
    pub closed spec fn spec_target(&self) -> LanguageLevel {
        self.target
    }

    /// Which entry file of a package is preferred.
    pub closed spec fn spec_preference(&self) -> EntryPreference {
        self.resolver.spec_preference()
    }

    /// A transpiler for the project below `root`.
    pub fn new(root: &str, target: LanguageLevel, preference: EntryPreference) -> (t: Transpiler)
        ensures
            t.spec_root() == root@,
            t.spec_target() == target,
            t.spec_preference() == preference,
    {
        Transpiler { root: root.to_owned(), target, resolver: ModuleResolver::new(preference) }
    }

    /// The project root.
    pub fn root(&self) -> (root: &str)
        ensures
            root@ == self.spec_root(),
    {
        self.root.as_str()
    }

    /// The language level of the emitted text.
    pub fn target(&self) -> (target: LanguageLevel)
        ensures
            target == self.spec_target(),
    {
        self.target
    }

    /// Which entry file of a package is preferred.
    pub fn preference(&self) -> (preference: EntryPreference)
        ensures
            preference == self.spec_preference(),
    {
        self.resolver.preference()
    }

    /// Compiles the module `source` of the file `path`: parses it, rewrites
    /// the sources of its statements, and emits it at the language level of
    /// this transpiler.
    ///
    /// The outcome is one that `is_outcome_of` admits.
    pub fn compile(&self, path: &str, source: &str) -> (outcome: CompileOutcome)
        ensures
            is_outcome_of(outcome, path@, source@, self.spec_root(), self.spec_target()),
    {
        match parse(path, source) {
            Err(message) => CompileOutcome::ParseFailed(message),
            Ok(module) => {
                proof {
                    module.lemma_parse(path@, source@, self.target);
                }
                match self.import_pass(path).fold_module(module) {
                    Err(e) => CompileOutcome::RewriteFailed(e),
                    Ok(folded) => {
                        proof {
                            assert(is_fold_of(
                                folded,
                                path@,
                                source@,
                                self.spec_root(),
                                self.target,
                            ));
                        }
                        folded.emit(self.target)
                    },
                }
            },
        }
    }

    /// Transpiles the module `source` of the file `path`.
    ///
    /// The answer is what `conclude` makes of the outcome of the compile:
    /// the text that emitting the rewritten module comes to, as JavaScript,
    /// or an error that names the file. The error is of the kind `Parse`
    /// exactly where the text does not parse.
    pub fn transpile(&self, path: &str, source: &str) -> (r: Result<TransformOutput, TranspileError>)
        ensures
            exists|outcome: CompileOutcome|
                {
                    &&& #[trigger] is_outcome_of(
                        outcome,
                        path@,
                        source@,
                        self.spec_root(),
                        self.spec_target(),
                    )
                    &&& transpile_view(r) == spec_conclude(path@, outcome)
                },
            r matches Ok(output) ==> output.mime == ContentType::JavaScript,
            r matches Err(e) ==> e.file@ == path@,
            spec_parse(path@, source@) is None <==> (r matches Err(e) && e.kind
                == ErrorKind::Parse),
    {
        conclude(path, self.compile(path, source))
    }

    /// The import rewrite pass for the module at `path`.
    pub fn import_pass<'a>(&'a self, path: &'a str) -> (pass: TransformImport<'a>)
        ensures
            pass.root@ == self.spec_root(),
            pass.path@ == path@,
            pass.resolver.spec_preference() == self.spec_preference(),
    {
        TransformImport { root: self.root.as_str(), path, resolver: &self.resolver }
    }
}

} // verus!
