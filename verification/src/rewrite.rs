//! The import rewrite pass.
//!
//! Three kinds of statement link a module to another one: an import
//! declaration, a named export with a source, and an export of everything
//! from a source. The pass gives each of them the specifier that the browser
//! can fetch from this server: a bare specifier is resolved to a file and
//! rewritten into the URL path of that file, any other specifier stays as it
//! is. Of a module the pass sees the sources of its statements and nothing
//! else.

use vstd::prelude::*;
use crate::compiler::ParsedModule;
use crate::resolve::{
    malformed, resolution_view, spec_malformed, spec_resolution_of, BareSpecifier,
    ModuleResolver, ResolutionError, ResolutionErrorView, ResolvedName,
};
use crate::specifier::{classify, is_well_formed_bare, spec_classify, SpecifierKind};
use crate::url_path::{spec_to_root_relative, to_root_relative};

verus! {

/// Why a specifier could not be rewritten.
#[derive(Debug)]
pub enum RewriteError {
    /// The specifier could not be resolved to a file.
    Unresolved(ResolutionError),
    /// The specifier was resolved to a file that does not lie below the
    /// project root.
    OutOfRoot {
        /// The specifier as it was written.
        specifier: String,
        /// The file that holds the import.
        importer: String,
        /// The file that the specifier was resolved to.
        resolved: String,
        /// The project root.
        root: String,
    },
}

/// What a `RewriteError` holds, as sequences of characters.
pub enum RewriteErrorView {
    Unresolved(ResolutionErrorView),
    OutOfRoot { specifier: Seq<char>, importer: Seq<char>, resolved: Seq<char>, root: Seq<char> },
}

impl View for RewriteError {
    type V = RewriteErrorView;

    open spec fn view(&self) -> RewriteErrorView {
        match self {
            RewriteError::Unresolved(e) => RewriteErrorView::Unresolved(e@),
            RewriteError::OutOfRoot { specifier, importer, resolved, root } => {
                RewriteErrorView::OutOfRoot {
                    specifier: specifier@,
                    importer: importer@,
                    resolved: resolved@,
                    root: root@,
                }
            },
        }
    }
}

impl RewriteErrorView {
    /// The specifier that could not be rewritten.
    pub open spec fn specifier(self) -> Seq<char> {
        match self {
            RewriteErrorView::Unresolved(e) => e.specifier,
            RewriteErrorView::OutOfRoot { specifier, .. } => specifier,
        }
    }

    /// The file that holds the import.
    pub open spec fn importer(self) -> Seq<char> {
        match self {
            RewriteErrorView::Unresolved(e) => e.importer,
            RewriteErrorView::OutOfRoot { importer, .. } => importer,
        }
    }
}

impl RewriteError {
    /// The specifier that could not be rewritten.
    pub fn specifier(&self) -> (s: &str)
        ensures
            s@ == self@.specifier(),
    {
        match self {
            RewriteError::Unresolved(e) => e.specifier.as_str(),
            RewriteError::OutOfRoot { specifier, .. } => specifier.as_str(),
        }
    }

    /// The file that holds the import.
    pub fn importer(&self) -> (s: &str)
        ensures
            s@ == self@.importer(),
    {
        match self {
            RewriteError::Unresolved(e) => e.importer.as_str(),
            RewriteError::OutOfRoot { importer, .. } => importer.as_str(),
        }
    }
}

/// The outcome of a rewrite, as sequences of characters.
pub open spec fn rewrite_view(r: Result<String, RewriteError>) -> Result<
    Seq<char>,
    RewriteErrorView,
> {
    match r {
        Ok(specifier) => Ok(specifier@),
        Err(e) => Err(e@),
    }
}

/// The specifier that takes the place of a bare one, given what its
/// resolution came to: the URL path of the resolved file where that file lies
/// below `root`, an error that names specifier and importer where it does
/// not, and the error of the resolution where there is one.
pub open spec fn spec_rewrite_resolved(
    resolution: Result<Seq<char>, ResolutionErrorView>,
    importer: Seq<char>,
    specifier: Seq<char>,
    root: Seq<char>,
) -> Result<Seq<char>, RewriteErrorView> {
    match resolution {
        Ok(resolved) => match spec_to_root_relative(resolved, root) {
            Some(url) => Ok(url),
            None => Err(RewriteErrorView::OutOfRoot { specifier, importer, resolved, root }),
        },
        Err(e) => Err(RewriteErrorView::Unresolved(e)),
    }
}

/// The specifier that takes the place of `specifier`, where `found` is what
/// the lookup answers. A relative or absolute specifier stays as it is.
/// Every bare specifier is looked up, but for the empty one and those whose
/// first component is `.` or `..`: these are an error.
pub open spec fn spec_rewrite(
    found: Result<ResolvedName, String>,
    importer: Seq<char>,
    specifier: Seq<char>,
    root: Seq<char>,
) -> Result<Seq<char>, RewriteErrorView> {
    if spec_classify(specifier) != SpecifierKind::Bare {
        Ok(specifier)
    } else if !is_well_formed_bare(specifier) {
        Err(RewriteErrorView::Unresolved(spec_malformed(importer, specifier)))
    } else {
        spec_rewrite_resolved(
            spec_resolution_of(found, importer, specifier),
            importer,
            specifier,
            root,
        )
    }
}

/// Whether `outcome` is what the rewrite of `specifier` comes to under some
/// answer of the lookup.
pub open spec fn is_rewrite_of(
    outcome: Result<Seq<char>, RewriteErrorView>,
    importer: Seq<char>,
    specifier: Seq<char>,
    root: Seq<char>,
) -> bool {
    exists|found: Result<ResolvedName, String>|
        outcome == #[trigger] spec_rewrite(found, importer, specifier, root)
}

/// A specifier that is not bare is rewritten to itself, whatever the lookup
/// would answer.
pub proof fn lemma_rewrite_keeps_other_specifiers(
    outcome: Result<Seq<char>, RewriteErrorView>,
    importer: Seq<char>,
    specifier: Seq<char>,
    root: Seq<char>,
)
    requires
        spec_classify(specifier) != SpecifierKind::Bare,
        is_rewrite_of(outcome, importer, specifier, root),
    ensures
        outcome == Ok::<Seq<char>, RewriteErrorView>(specifier),
{
}

/// A rewritten bare specifier, put behind the root, is the file that the
/// specifier was resolved to, as long as the root ends in no separator and
/// no `\` follows the root in the path of that file.
pub proof fn lemma_rewrite_round_trip(
    resolved: Seq<char>,
    importer: Seq<char>,
    specifier: Seq<char>,
    root: Seq<char>,
)
    requires
        spec_rewrite_resolved(Ok(resolved), importer, specifier, root) is Ok,
        root.len() == 0 || !crate::url_path::is_separator(root.last()),
        forall|i: int| root.len() <= i < resolved.len() ==> #[trigger] resolved[i] != '\\',
    ensures
        spec_rewrite_resolved(Ok(resolved), importer, specifier, root) matches Ok(url) && root
            + url == resolved,
{
    crate::url_path::lemma_root_relative_round_trip(resolved, root);
}

/// A failed rewrite names the specifier and the importer it was asked for.
pub proof fn lemma_rewrite_error_names_its_input(
    found: Result<ResolvedName, String>,
    importer: Seq<char>,
    specifier: Seq<char>,
    root: Seq<char>,
)
    ensures
        spec_rewrite(found, importer, specifier, root) matches Err(e) ==> e.specifier()
            == specifier && e.importer() == importer,
{
}

/// Rewrites the bare `specifier`, imported by `importer`, given what its
/// resolution came to.
pub fn rewrite_resolved(
    resolution: Result<String, ResolutionError>,
    importer: &str,
    specifier: &str,
    root: &str,
) -> (r: Result<String, RewriteError>)
    ensures
        rewrite_view(r) == spec_rewrite_resolved(
            resolution_view(resolution),
            importer@,
            specifier@,
            root@,
        ),
{
    match resolution {
        Ok(resolved) => match to_root_relative(resolved.as_str(), root) {
            Ok(url) => Ok(url),
            Err(escaped) => Err(
                RewriteError::OutOfRoot {
                    specifier: specifier.to_owned(),
                    importer: importer.to_owned(),
                    resolved: escaped.path,
                    root: escaped.root,
                },
            ),
        },
        Err(e) => Err(RewriteError::Unresolved(e)),
    }
}

/// Whether `after` is the source `before` of a statement with the rewrite
/// done: still none where the statement had none, and else a source that the
/// rewrite of the old one can come to.
pub open spec fn source_folded(
    before: Option<Seq<char>>,
    after: Option<Seq<char>>,
    importer: Seq<char>,
    root: Seq<char>,
) -> bool {
    match before {
        None => after is None,
        Some(src) => after matches Some(new_src) && is_rewrite_of(
            Ok(new_src),
            importer,
            src,
            root,
        ),
    }
}

/// Whether the rewrite of the source `source` of a statement can fail with
/// `e`.
pub open spec fn fails_with(
    source: Option<Seq<char>>,
    e: RewriteErrorView,
    importer: Seq<char>,
    root: Seq<char>,
) -> bool {
    source matches Some(src) && is_rewrite_of(Err(e), importer, src, root)
}

/// Whether the source `source` of a statement can be rewritten.
pub open spec fn can_fold(source: Option<Seq<char>>, importer: Seq<char>, root: Seq<char>) -> bool {
    exists|after: Option<Seq<char>>| #[trigger] source_folded(source, after, importer, root)
}

/// Whether every source of `after` is the one of `before` at the same place
/// with the rewrite done.
pub open spec fn all_folded(
    before: Seq<Option<Seq<char>>>,
    after: Seq<Option<Seq<char>>>,
    importer: Seq<char>,
    root: Seq<char>,
) -> bool {
    &&& after.len() == before.len()
    &&& forall|i: int|
        0 <= i < before.len() ==> source_folded(before[i], #[trigger] after[i], importer, root)
}

/// Whether the pass over `sources` can stop at the statement `at` with the
/// error `e`: the rewrite of that statement can fail with `e`, and every
/// statement before it can be rewritten.
pub open spec fn stops_at(
    sources: Seq<Option<Seq<char>>>,
    at: int,
    e: RewriteErrorView,
    importer: Seq<char>,
    root: Seq<char>,
) -> bool {
    &&& 0 <= at < sources.len()
    &&& fails_with(sources[at], e, importer, root)
    &&& forall|i: int| 0 <= i < at ==> can_fold(#[trigger] sources[i], importer, root)
}

/// Whether none of `sources` is bare, so that the pass has nothing to
/// rewrite.
pub open spec fn has_no_bare(sources: Seq<Option<Seq<char>>>) -> bool {
    forall|i: int|
        0 <= i < sources.len() ==> (#[trigger] sources[i] matches Some(src) ==> spec_classify(src)
            != SpecifierKind::Bare)
}

/// Whether the pass over `sources` can fail with the error `e`.
pub open spec fn can_stop_with(
    sources: Seq<Option<Seq<char>>>,
    e: RewriteErrorView,
    importer: Seq<char>,
    root: Seq<char>,
) -> bool {
    exists|at: int| #[trigger] stops_at(sources, at, e, importer, root)
}

/// A statement whose source is relative or absolute, and one without a
/// source, is the same after the pass.
pub proof fn lemma_pass_keeps_other_statements(
    before: Seq<Option<Seq<char>>>,
    after: Seq<Option<Seq<char>>>,
    importer: Seq<char>,
    root: Seq<char>,
    i: int,
)
    requires
        all_folded(before, after, importer, root),
        0 <= i < before.len(),
        before[i] matches Some(src) ==> spec_classify(src) != SpecifierKind::Bare,
    ensures
        after[i] == before[i],
{
    assert(source_folded(before[i], after[i], importer, root));
}

/// The import rewrite pass for one module: it knows the project root, the
/// path of the module, and the resolver to put bare specifiers to.
pub struct TransformImport<'a> {
    /// The project root, which is the document root as well.
    pub root: &'a str,
    /// The path of the module whose statements are rewritten.
    pub path: &'a str,
    /// Resolves bare specifiers.
    pub resolver: &'a ModuleResolver,
}

impl<'a> TransformImport<'a> {
    /// Rewrites one specifier.
    ///
    /// A relative or absolute specifier comes back as it is. A bare one is
    /// put to the resolver, unless it is not well formed, and the file it
    /// is resolved to is rewritten into a URL path below the root; each
    /// failure on the way is an error that names the specifier and the
    /// module.
    pub fn rewrite_specifier(&self, specifier: &str) -> (r: Result<String, RewriteError>)
        ensures
            is_rewrite_of(rewrite_view(r), self.path@, specifier@, self.root@),
            spec_classify(specifier@) != SpecifierKind::Bare ==> rewrite_view(r) == Ok::<
                Seq<char>,
                RewriteErrorView,
            >(specifier@),
            r matches Err(e) ==> e@.specifier() == specifier@ && e@.importer() == self.path@,
    {
        let ghost any: Result<ResolvedName, String> = arbitrary();
        match classify(specifier) {
            SpecifierKind::Bare => match BareSpecifier::parse(specifier) {
                Some(bare) => {
                    let resolution = self.resolver.resolve(self.path, &bare);
                    let ghost found = choose|found: Result<ResolvedName, String>|
                        resolution_view(resolution) == #[trigger] spec_resolution_of(
                            found,
                            self.path@,
                            bare@,
                        );
                    let r = rewrite_resolved(resolution, self.path, specifier, self.root);
                    assert(rewrite_view(r) == spec_rewrite(
                        found,
                        self.path@,
                        specifier@,
                        self.root@,
                    ));
                    r
                },
                None => {
                    let r = Err(RewriteError::Unresolved(malformed(self.path, specifier)));
                    assert(rewrite_view(r) == spec_rewrite(
                        any,
                        self.path@,
                        specifier@,
                        self.root@,
                    ));
                    r
                },
            },
            _ => {
                let r = Ok(specifier.to_owned());
                assert(rewrite_view(r) == spec_rewrite(any, self.path@, specifier@, self.root@));
                r
            },
        }
    }

    /// Runs the pass over a parsed module.
    ///
    /// The statements are gone through in their order. A statement without
    /// a source, or with one that is not bare, is not touched: a module
    /// without a bare source comes back as it was. Where every bare source
    /// can be rewritten, the module comes back with each of them rewritten
    /// and nothing else changed. Else the pass stops at the
    /// first statement whose source cannot be rewritten, and the answer is
    /// the error of that statement. The module is taken by value: nothing
    /// else sees it while it is rewritten, and after a failure it is gone.
    pub fn fold_module(&self, module: ParsedModule) -> (r: Result<ParsedModule, RewriteError>)
        ensures
            match r {
                Ok(folded) => {
                    &&& all_folded(module.sources(), folded.sources(), self.path@, self.root@)
                    &&& folded.rest() == module.rest()
                    &&& has_no_bare(module.sources()) ==> folded == module
                },
                Err(e) => can_stop_with(module.sources(), e@, self.path@, self.root@),
            },
    {
        let ghost before = module.sources();
        let mut folded = module;
        let n = folded.len();
        let mut i: usize = 0;
        while i < n
            invariant
                before == module.sources(),
                folded.rest() == module.rest(),
                has_no_bare(before.take(i as int)) ==> folded == module,
                n == before.len(),
                i <= n,
                folded.sources().len() == n,
                forall|j: int|
                    0 <= j < i ==> source_folded(
                        before[j],
                        #[trigger] folded.sources()[j],
                        self.path@,
                        self.root@,
                    ),
                forall|j: int| i <= j < n ==> #[trigger] folded.sources()[j] == before[j],
            decreases n - i,
        {
            let ghost current = folded.sources();
            proof {
                if has_no_bare(before.take(i + 1)) {
                    assert forall|j: int| 0 <= j < i implies (#[trigger] before.take(
                        i as int,
                    )[j] matches Some(src) ==> spec_classify(src) != SpecifierKind::Bare) by {
                        assert(before.take(i as int)[j] == before.take(i + 1)[j]);
                    }
                    assert(before.take(i + 1)[i as int] == before[i as int]);
                }
            }
            match folded.source(i) {
                Some(src) => match classify(src.as_str()) {
                    SpecifierKind::Bare => match self.rewrite_specifier(src.as_str()) {
                        Ok(new_src) => {
                            folded.set_source(i, new_src.as_str());
                            proof {
                                assert forall|j: int| 0 <= j < i + 1 implies source_folded(
                                    before[j],
                                    #[trigger] folded.sources()[j],
                                    self.path@,
                                    self.root@,
                                ) by {
                                    if j < i {
                                        assert(folded.sources()[j] == current[j]);
                                    }
                                }
                            }
                        },
                        Err(e) => {
                            proof {
                                assert forall|j: int| 0 <= j < i implies can_fold(
                                    #[trigger] before[j],
                                    self.path@,
                                    self.root@,
                                ) by {
                                    assert(source_folded(
                                        before[j],
                                        current[j],
                                        self.path@,
                                        self.root@,
                                    ));
                                }
                                assert(stops_at(before, i as int, e@, self.path@, self.root@));
                            }
                            return Err(e);
                        },
                    },
                    _ => {
                        // The browser resolves this one by itself: the
                        // statement is not touched.
                        proof {
                            let any: Result<ResolvedName, String> = arbitrary();
                            assert(spec_rewrite(any, self.path@, src@, self.root@) == Ok::<
                                Seq<char>,
                                RewriteErrorView,
                            >(src@));
                        }
                    },
                },
                None => {},
            }
            i += 1;
        }
        proof {
            assert(before.take(n as int) == before);
        }
        Ok(folded)
    }
}

} // verus!
