//! The compiler behind the transpiler: `swc`.
//!
//! Parsing a module and emitting it again as text of a language level are
//! the work of `swc`. A parsed module is a tree of `swc`'s own; this crate
//! reads and writes one thing in it, the sources of the statements that
//! link the module to another one. In which syntax a text is read is
//! decided here, by the extension of its file. What parsing and emitting
//! come to is fixed by what they are given, so each has a name here that
//! contracts can speak of. Everything of `swc` that the crate relies on is declared
//! in this file. What is taken for granted of it stands at the functions
//! marked `external_body`; nothing of that is proved, and all else is
//! proved from it.

use std::sync::Arc;
use vstd::prelude::*;
use vstd::string::StringSliceAdditionalSpecFns;
use vstd::utf8::encode_utf8;
use swc_core::base::config::Options;
use swc_core::base::{try_with_handler, Compiler};
use swc_core::common::comments::SingleThreadedComments;
use swc_core::common::{FileName, Globals, SourceFile, GLOBALS};
use swc_core::ecma::parser::{EsSyntax, Syntax, TsSyntax};
use swc_ecma_visit::swc_ecma_ast::{noop_pass, EsVersion, ModuleDecl, ModuleItem, Program};
use crate::serve::{extension_of, spec_extension};
use crate::text::same_chars;

verus! {

/// The language level of the emitted text.
#[derive(Clone, Copy, Debug, PartialEq, Eq, Structural)]
pub enum LanguageLevel {
    Es5,
    Es2015,
    Es2016,
    Es2017,
    Es2018,
    Es2019,
    Es2020,
    Es2021,
    Es2022,
    Es2023,
    Es2024,
    EsNext,
}

/// The syntax in which the text of a module is read.
#[derive(Clone, Copy, Debug, PartialEq, Eq, Structural)]
pub enum SourceSyntax {
    /// Plain ECMAScript.
    Ecmascript,
    /// ECMAScript with JSX.
    Jsx,
    /// TypeScript.
    Typescript,
    /// TypeScript with JSX.
    Tsx,
}

/// The compiler of `swc`.
#[verifier::external_type_specification]
#[verifier::external_body]
pub struct ExCompiler(Compiler);

/// A parsed program of `swc`: a module or a script.
#[verifier::external_type_specification]
#[verifier::external_body]
pub struct ExProgram(Program);

/// A source text as `swc` keeps it for its diagnostics.
#[verifier::external_type_specification]
#[verifier::external_body]
pub struct ExSourceFile(SourceFile);

/// The language levels of `swc`.
#[verifier::external_type_specification]
#[verifier::external_body]
pub struct ExEsVersion(EsVersion);

/// The comments of a source text as `swc` keeps them beside the tree.
#[verifier::external_type_specification]
#[verifier::external_body]
pub struct ExSingleThreadedComments(SingleThreadedComments);

/// The syntaxes of `swc`.
#[verifier::external_type_specification]
#[verifier::external_body]
pub struct ExSyntax(Syntax);

/// The sources of the statements of a program, one entry for each statement
/// at its top, in their order: the specifier behind `from` for an import
/// declaration, for a named export with a source and for an export of
/// everything, and `None` for any other statement. Only a module has
/// statements with a source.
pub uninterp spec fn module_sources(program: Program) -> Seq<Option<Seq<char>>>;

/// Which statements of a program are of types only, one entry for each
/// statement at its top, in their order: what `type_only` holds for an
/// import declaration, a named export and an export of everything, and
/// `false` for any other statement. TypeScript drops such a statement when
/// it is emitted.
pub uninterp spec fn module_type_only(program: Program) -> Seq<bool>;

/// All of a program but the sources of its statements: the program as
/// text, with every source left empty.
pub uninterp spec fn module_frame(program: Program) -> Seq<char>;

/// What parsing `source`, the text of the file `path`, as a module in the
/// syntax `syntax` comes to: the tree, the comments and the text as `swc`
/// keeps it, or `None` where the text is not valid in that syntax.
pub uninterp spec fn parsed_module(path: Seq<char>, syntax: Syntax, source: Seq<char>) -> Option<
    (Program, SingleThreadedComments, SourceFile),
>;

/// The language level of `swc` that stands for `level`.
pub uninterp spec fn es_version_of(level: LanguageLevel) -> EsVersion;

/// The syntax of `swc` that stands for `syntax`.
pub uninterp spec fn swc_syntax_of(syntax: SourceSyntax) -> Syntax;

/// What emitting a program comes to, with its comments, the text it was
/// parsed from and the syntax it was parsed in, at the language level
/// `target`: the text, or `None` where `swc` fails to emit it.
pub uninterp spec fn emitted_text(
    program: Program,
    comments: SingleThreadedComments,
    file: SourceFile,
    syntax: Syntax,
    target: EsVersion,
) -> Option<Seq<char>>;

/// The most bytes a module may have: `swc` counts positions in 32 bits.
pub const MAX_SOURCE_BYTES: usize = 0x7fff_ffff;

/// A parsed module: the tree and the comments, together with the compiler
/// that parsed it, the source text as the compiler keeps it, and the syntax
/// it was read in.
pub struct ParsedModule {
    compiler: Compiler,
    program: Program,
    comments: SingleThreadedComments,
    file: Arc<SourceFile>,
    syntax: Syntax,
}

/// All of a parsed module that the rewrite pass leaves alone: the frame of
/// the tree, the comments, the source text with its file name, and the
/// syntax.
pub struct ModuleRest {
    pub frame: Seq<char>,
    pub comments: SingleThreadedComments,
    pub file: SourceFile,
    pub syntax: Syntax,
}

/// The syntax in which the file `path` is read, by its extension:
/// TypeScript for `ts` and `mts`, TypeScript with JSX for `tsx` and `mtsx`,
/// ECMAScript with JSX for `jsx`, and plain ECMAScript for every other file.
pub open spec fn spec_syntax_of(path: Seq<char>) -> SourceSyntax {
    match spec_extension(path) {
        Some(e) => if e == "ts"@ || e == "mts"@ {
            SourceSyntax::Typescript
        } else if e == "tsx"@ || e == "mtsx"@ {
            SourceSyntax::Tsx
        } else if e == "jsx"@ {
            SourceSyntax::Jsx
        } else {
            SourceSyntax::Ecmascript
        },
        None => SourceSyntax::Ecmascript,
    }
}

/// The sources of a list of statements, as sequences of characters.
pub open spec fn sources_view(list: Seq<Option<String>>) -> Seq<Option<Seq<char>>> {
    list.map_values(
        |source: Option<String>|
            match source {
                Some(s) => Some(s@),
                None => None,
            },
    )
}

/// Whether `source` is short enough to be handed to the parser.
pub open spec fn fits(source: Seq<char>) -> bool {
    encode_utf8(source).len() <= MAX_SOURCE_BYTES
}

/// The sources of the statements of a program that are not of types only:
/// a statement of types only counts as one without a source.
pub closed spec fn live_sources(program: Program) -> Seq<Option<Seq<char>>> {
    Seq::new(
        module_sources(program).len(),
        |i: int|
            if module_type_only(program)[i] {
                None
            } else {
                module_sources(program)[i]
            },
    )
}

/// What parsing `source`, the text of the file `path`, comes to, in the
/// syntax of that file.
pub closed spec fn parsed(path: Seq<char>, source: Seq<char>) -> Option<
    (Program, SingleThreadedComments, SourceFile),
> {
    parsed_module(path, swc_syntax_of(spec_syntax_of(path)), source)
}

/// What parsing `source`, the text of the file `path`, comes to: the
/// sources of the statements of the module. A text whose encoding is longer
/// than `MAX_SOURCE_BYTES` is not parsed at all, any other text is left to
/// the parser.
pub closed spec fn spec_parse(path: Seq<char>, source: Seq<char>) -> Option<
    Seq<Option<Seq<char>>>,
> {
    match parsed(path, source) {
        Some((program, _, _)) if fits(source) => Some(live_sources(program)),
        _ => None,
    }
}

/// All that the rewrite pass leaves alone of the module that `source`, the
/// text of the file `path`, is parsed to.
pub closed spec fn parsed_rest(path: Seq<char>, source: Seq<char>) -> Option<ModuleRest> {
    match parsed(path, source) {
        Some((program, comments, file)) => Some(
            ModuleRest {
                frame: module_frame(program),
                comments,
                file,
                syntax: swc_syntax_of(spec_syntax_of(path)),
            },
        ),
        None => None,
    }
}

/// What emitting the module that `source`, the text of the file `path`, is
/// parsed to comes to at the language level `level`, with nothing in it
/// rewritten: the text, or `None` where the compiler fails to emit it.
pub closed spec fn parsed_emission(
    path: Seq<char>,
    source: Seq<char>,
    level: LanguageLevel,
) -> Option<Seq<char>> {
    match parsed(path, source) {
        Some((program, comments, file)) => emitted_text(
            program,
            comments,
            file,
            swc_syntax_of(spec_syntax_of(path)),
            es_version_of(level),
        ),
        None => None,
    }
}

impl ParsedModule {
    /// The sources of the statements of the module, one entry for each
    /// statement at its top, in their order: the specifier behind `from`
    /// for an import declaration, for a named export with a source and for
    /// an export of everything, unless the statement is of types only, and
    /// `None` for any other statement.
    pub closed spec fn sources(&self) -> Seq<Option<Seq<char>>> {
        live_sources(self.program)
    }

    /// All of the module that the rewrite pass leaves alone.
    pub closed spec fn rest(&self) -> ModuleRest {
        ModuleRest {
            frame: module_frame(self.program),
            comments: self.comments,
            file: *self.file,
            syntax: self.syntax,
        }
    }

    /// What emitting the module comes to at the language level `level`: the
    /// text, or `None` where the compiler fails to emit it.
    pub closed spec fn emission(&self, level: LanguageLevel) -> Option<Seq<char>> {
        emitted_text(self.program, self.comments, *self.file, self.syntax, es_version_of(level))
    }

    /// Whether the module is what `source`, the text of the file `path`, is
    /// parsed to, with nothing in it rewritten.
    pub closed spec fn is_parse_of(&self, path: Seq<char>, source: Seq<char>) -> bool {
        &&& parsed(path, source) == Some((self.program, self.comments, *self.file))
        &&& self.syntax == swc_syntax_of(spec_syntax_of(path))
    }

    /// A module that is what a text is parsed to has the sources and the
    /// rest of that text, and is emitted as that text is.
    pub proof fn lemma_parse(&self, path: Seq<char>, source: Seq<char>, level: LanguageLevel)
        requires
            self.is_parse_of(path, source),
        ensures
            fits(source) ==> spec_parse(path, source) == Some(self.sources()),
            parsed_rest(path, source) == Some(self.rest()),
            parsed_emission(path, source, level) == self.emission(level),
    {
    }

    /// How many statements the module has.
    pub fn len(&self) -> (n: usize)
        ensures
            n == self.sources().len(),
    {
        statement_count(&self.program)
    }

    /// The source of the statement `at`, where it has one.
    pub(crate) fn source(&self, at: usize) -> (source: Option<String>)
        requires
            at < self.sources().len(),
        ensures
            source is Some <==> self.sources()[at as int] is Some,
            source matches Some(s) ==> self.sources()[at as int] == Some(s@),
    {
        if type_only_at(&self.program, at) {
            None
        } else {
            source_at(&self.program, at)
        }
    }

    /// Gives the statement `at` the source `source`. The statement must have
    /// had one.
    pub(crate) fn set_source(&mut self, at: usize, source: &str)
        requires
            at < old(self).sources().len(),
            old(self).sources()[at as int] is Some,
        ensures
            final(self).sources() == old(self).sources().update(at as int, Some(source@)),
            final(self).rest() == old(self).rest(),
    {
        set_source_at(&mut self.program, at, source);
        proof {
            assert(final(self).sources() =~= old(self).sources().update(at as int, Some(source@)));
        }
    }

    /// The sources of all statements of the module, in their order.
    pub fn source_list(&self) -> (list: Vec<Option<String>>)
        ensures
            sources_view(list@) == self.sources(),
    {
        let n = self.len();
        let mut list: Vec<Option<String>> = Vec::new();
        let mut i: usize = 0;
        while i < n
            invariant
                n == self.sources().len(),
                i <= n,
                list@.len() == i,
                sources_view(list@) == self.sources().take(i as int),
            decreases n - i,
        {
            let source = self.source(i);
            let ghost before = list@;
            list.push(source);
            proof {
                assert forall|j: int| 0 <= j < i + 1 implies sources_view(list@)[j]
                    == self.sources()[j] by {
                    if j < i {
                        assert(sources_view(before)[j] == self.sources().take(i as int)[j]);
                    }
                }
                assert(sources_view(list@) =~= self.sources().take(i + 1));
            }
            i += 1;
        }
        proof {
            assert(self.sources().take(n as int) == self.sources());
        }
        list
    }

    /// Emits the module as text of the language level `level`.
    ///
    /// The outcome is what `emitted` makes of the answer of the compiler:
    /// the text that emitting the module comes to, or a fault with what the
    /// compiler said where it comes to none.
    pub(crate) fn emit(self, level: LanguageLevel) -> (outcome: crate::transpile::CompileOutcome)
        ensures
            match self.emission(level) {
                Some(text) => outcome matches crate::transpile::CompileOutcome::Emitted(t) && t@
                    == text,
                None => outcome is Faulted,
            },
    {
        crate::transpile::emitted(emit_program(self, es_version(level)))
    }
}

/// The syntax in which the file `path` is read, by its extension.
pub fn syntax_of(path: &str) -> (syntax: SourceSyntax)
    ensures
        syntax == spec_syntax_of(path@),
{
    match extension_of(path) {
        Some(ext) => {
            let e = ext.as_str();
            if same_chars(e, "ts") || same_chars(e, "mts") {
                SourceSyntax::Typescript
            } else if same_chars(e, "tsx") || same_chars(e, "mtsx") {
                SourceSyntax::Tsx
            } else if same_chars(e, "jsx") {
                SourceSyntax::Jsx
            } else {
                SourceSyntax::Ecmascript
            }
        },
        None => SourceSyntax::Ecmascript,
    }
}

/// Parses `source`, the text of the file `path`, as a module, in the
/// syntax of that file.
///
/// A text of more than `MAX_SOURCE_BYTES` bytes is not handed to the
/// compiler and counts as one that does not parse. The error is what the
/// parser said, in words.
pub fn parse(path: &str, source: &str) -> (parsed: Result<ParsedModule, String>)
    ensures
        match parsed {
            Ok(module) => {
                &&& module.is_parse_of(path@, source@)
                &&& spec_parse(path@, source@) == Some(module.sources())
                &&& parsed_rest(path@, source@) == Some(module.rest())
            },
            Err(_) => spec_parse(path@, source@) is None,
        },
{
    if source.as_bytes().len() > MAX_SOURCE_BYTES {
        return Err("the module is too long to be parsed".to_owned());
    }
    parse_program(path, source, swc_syntax(syntax_of(path)))
}

/// Gives the `Syntax` of `swc` that stands for `syntax`: `Es` or
/// `Typescript` with its defaults, and with `jsx` or `tsx` set for the two
/// syntaxes with JSX. `swc_syntax_of` is the name for it.
#[verifier::external_body]
fn swc_syntax(syntax: SourceSyntax) -> (swc: Syntax)
    ensures
        swc == swc_syntax_of(syntax),
{
    match syntax {
        SourceSyntax::Ecmascript => Syntax::Es(EsSyntax::default()),
        SourceSyntax::Jsx => Syntax::Es(EsSyntax { jsx: true, ..Default::default() }),
        SourceSyntax::Typescript => Syntax::Typescript(TsSyntax::default()),
        SourceSyntax::Tsx => Syntax::Typescript(TsSyntax { tsx: true, ..Default::default() }),
    }
}

/// Gives the `EsVersion` of `swc` that stands for `level`: the variant of
/// the same name. `es_version_of` is the name for it.
#[verifier::external_body]
fn es_version(level: LanguageLevel) -> (version: EsVersion)
    ensures
        version == es_version_of(level),
{
    match level {
        LanguageLevel::Es5 => EsVersion::Es5,
        LanguageLevel::Es2015 => EsVersion::Es2015,
        LanguageLevel::Es2016 => EsVersion::Es2016,
        LanguageLevel::Es2017 => EsVersion::Es2017,
        LanguageLevel::Es2018 => EsVersion::Es2018,
        LanguageLevel::Es2019 => EsVersion::Es2019,
        LanguageLevel::Es2020 => EsVersion::Es2020,
        LanguageLevel::Es2021 => EsVersion::Es2021,
        LanguageLevel::Es2022 => EsVersion::Es2022,
        LanguageLevel::Es2023 => EsVersion::Es2023,
        LanguageLevel::Es2024 => EsVersion::Es2024,
        LanguageLevel::EsNext => EsVersion::EsNext,
    }
}

/// Makes a compiler with an empty source map by `Compiler::new`, registers
/// `source` with that map under the file name `path`, by
/// `SourceMap::new_source_file`, and calls `Compiler::parse_js` on it in the
/// syntax `syntax`, with `swc`'s defaults for the language level and the
/// kind of program: a module. The comments go to a store of their own. The
/// call is made inside `try_with_handler` and a set of `GLOBALS` of its
/// own, as `swc` asks.
///
/// Whether a text parses, and to which tree and comments, is fixed by the
/// text and the syntax: the positions in the tree start anew with each
/// compiler. `parsed_module` is the name for it; it takes the file name
/// too, which the registered text holds. An error comes back as the
/// diagnostics of the parser in words; nothing is claimed of them. The text
/// must fit the 32 bits in which `swc` counts positions.
///
/// The parser descends into a text as deep as the text is nested, and what
/// depth the stack of the thread bears is not known here: on a text that is
/// nested deeper the process ends, and no boundary catches that.
#[verifier::external_body]
fn parse_program(path: &str, source: &str, syntax: Syntax) -> (parsed: Result<ParsedModule, String>)
    requires
        source.spec_bytes().len() <= MAX_SOURCE_BYTES,
    ensures
        match parsed {
            Ok(module) => {
                &&& parsed_module(path@, syntax, source@) == Some(
                    (module.program, module.comments, *module.file),
                )
                &&& module.syntax == syntax
            },
            Err(_) => parsed_module(path@, syntax, source@) is None,
        },
{
    let (compiler, comments) = (Compiler::new(Default::default()), SingleThreadedComments::default());
    let name = FileName::Real(path.into()).into();
    let file = compiler.cm.new_source_file(name, source.to_string());
    let parsed = GLOBALS.set(&Globals::new(), || {
        try_with_handler(compiler.cm.clone(), Default::default(), |handler| {
            let (target, kind) = Default::default();
            compiler.parse_js(file.clone(), handler, target, syntax, kind, Some(&comments))
        })
    });
    match parsed {
        Ok(program) => Ok(ParsedModule { compiler, program, comments, file, syntax }),
        Err(diagnostics) => Err(diagnostics.to_string()),
    }
}

/// Counts the statements at the top of a program: the length of the `body`
/// of `Module` or `Script`.
#[verifier::external_body]
fn statement_count(program: &Program) -> (n: usize)
    ensures
        n == module_sources(*program).len(),
{
    match program {
        Program::Module(module) => module.body.len(),
        Program::Script(script) => script.body.len(),
    }
}

/// Reads the source of the statement `at` of a program: the value of `src`
/// in an `ImportDecl`, a `NamedExport` and an `ExportAll` of a module, and
/// `None` for any other statement. A value that is no valid Unicode text is
/// read with each unpaired surrogate replaced.
#[verifier::external_body]
fn source_at(program: &Program, at: usize) -> (source: Option<String>)
    requires
        at < module_sources(*program).len(),
    ensures
        source is Some <==> module_sources(*program)[at as int] is Some,
        source matches Some(s) ==> module_sources(*program)[at as int] == Some(s@),
{
    let src = match program.as_module().map(|module| &module.body[at]) {
        Some(ModuleItem::ModuleDecl(ModuleDecl::Import(n))) => Some(&n.src),
        Some(ModuleItem::ModuleDecl(ModuleDecl::ExportNamed(n))) => n.src.as_ref(),
        Some(ModuleItem::ModuleDecl(ModuleDecl::ExportAll(n))) => Some(&n.src),
        _ => None,
    };
    src.map(|s| s.value.to_string_lossy().into_owned())
}

/// Reads whether the statement `at` of a program is of types only: the
/// value of `type_only` in an `ImportDecl`, a `NamedExport` and an
/// `ExportAll` of a module, and `false` for any other statement.
#[verifier::external_body]
fn type_only_at(program: &Program, at: usize) -> (only: bool)
    requires
        at < module_sources(*program).len(),
    ensures
        only == module_type_only(*program)[at as int],
{
    match program.as_module().map(|module| &module.body[at]) {
        Some(ModuleItem::ModuleDecl(ModuleDecl::Import(n))) => n.type_only,
        Some(ModuleItem::ModuleDecl(ModuleDecl::ExportNamed(n))) => n.type_only,
        Some(ModuleItem::ModuleDecl(ModuleDecl::ExportAll(n))) => n.type_only,
        _ => false,
    }
}

/// Writes the source of the statement `at` of a program: `src` of the
/// `ImportDecl`, `NamedExport` or `ExportAll` becomes a string literal with
/// the value `source`. Nothing else of the statement changes, and no other
/// statement.
#[verifier::external_body]
fn set_source_at(program: &mut Program, at: usize, source: &str)
    requires
        at < module_sources(*old(program)).len(),
        module_sources(*old(program))[at as int] is Some,
    ensures
        module_sources(*final(program)) == module_sources(*old(program)).update(
            at as int,
            Some(source@),
        ),
        module_type_only(*final(program)) == module_type_only(*old(program)),
        module_frame(*final(program)) == module_frame(*old(program)),
{
    match program.as_mut_module().map(|module| &mut module.body[at]) {
        Some(ModuleItem::ModuleDecl(ModuleDecl::Import(n))) => n.src = Box::new(source.into()),
        Some(ModuleItem::ModuleDecl(ModuleDecl::ExportNamed(n))) => {
            n.src = Some(Box::new(source.into()))
        },
        Some(ModuleItem::ModuleDecl(ModuleDecl::ExportAll(n))) => n.src = Box::new(source.into()),
        _ => {},
    }
}

/// Calls `Compiler::process_js_with_custom_pass` on a parsed module with
/// its comments and its source text, with `swc`'s default options but for
/// the syntax, which is the one the module was parsed in, and the language
/// level `target`, and with no pass of the caller's before or after `swc`'s
/// own. The call is made inside `try_with_handler` and a set of `GLOBALS`
/// of its own, as `swc` asks.
///
/// With these options `swc` loads no configuration from disk, takes no
/// value from the environment into the output, and writes no source map:
/// what it emits, and whether it emits at all, is fixed by what is handed
/// to it, the tree, the comments, the source text with its file name, the
/// syntax and the language level. `emitted_text` is the name for it. An
/// error comes back as what `swc` said, in words; nothing is claimed of
/// them.
///
/// Like the parser, `swc` descends as deep as the tree is nested. On its
/// first call in a process `swc` asks for the working directory and
/// panics where the process has none. No argument decides that.
#[verifier::external_body]
fn emit_program(module: ParsedModule, target: EsVersion) -> (emitted: Result<String, String>)
    ensures
        match emitted {
            Ok(text) => emitted_text(
                module.program,
                module.comments,
                *module.file,
                module.syntax,
                target,
            ) == Some(text@),
            Err(_) => emitted_text(
                module.program,
                module.comments,
                *module.file,
                module.syntax,
                target,
            ) is None,
        },
{
    let ParsedModule { compiler, program, comments, file, syntax } = module;
    let (mut options, program) = (Options::default(), Some(program));
    options.config.jsc.syntax = Some(syntax);
    options.config.jsc.target = Some(target);
    let emitted = GLOBALS.set(&Globals::new(), || {
        try_with_handler(compiler.cm.clone(), Default::default(), |handler| {
            let no_pass = |_: &Program| noop_pass();
            compiler
                .process_js_with_custom_pass(file, program, handler, &options, comments, no_pass, no_pass)
        })
    });
    emitted.map(|output| output.code).map_err(|diagnostics| diagnostics.to_string())
}

} // verus!
