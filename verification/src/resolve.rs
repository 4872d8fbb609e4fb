//! Resolution of bare specifiers to files on disk.
//!
//! The lookup itself is the work of `swc_ecma_loader`: from the directory of
//! the importing file it walks up through the ancestors, looks in each for a
//! `node_modules` directory that holds the package, and there for the entry
//! file that the package declares, or for an index file. What it finds
//! depends on what is on disk, so nothing is claimed of it here; this module
//! decides what is asked of it and what each of its answers means.

use vstd::prelude::*;
use swc_core::common::FileName;
use swc_ecma_loader::resolve::{Resolution, Resolve};
use swc_ecma_loader::resolvers::node::NodeModulesResolver;
use swc_ecma_loader::TargetEnv;
use crate::specifier::{is_well_formed, is_well_formed_bare};

verus! {

/// Which entry file of a package is taken where the package declares one for
/// the browser beside the general one.
#[derive(Clone, Copy, Debug, PartialEq, Eq, Structural)]
pub enum EntryPreference {
    /// The entry for the browser, where there is one.
    Browser,
    /// The general entry. The lookup then resolves as for Node: the name of
    /// a module that is built into Node stands for that module and for no
    /// file, even where a package of that name is installed.
    Generic,
}

/// A well-formed bare specifier: see `is_well_formed_bare`.
pub struct BareSpecifier {
    text: String,
}

impl View for BareSpecifier {
    type V = Seq<char>;

    closed spec fn view(&self) -> Seq<char> {
        self.text@
    }
}

impl BareSpecifier {
    #[verifier::type_invariant]
    spec fn well_formed(self) -> bool {
        is_well_formed_bare(self.text@)
    }

    /// Reads `text` as a bare specifier; `None` where it is not well
    /// formed.
    pub fn parse(text: &str) -> (parsed: Option<BareSpecifier>)
        ensures
            parsed is Some <==> is_well_formed_bare(text@),
            parsed matches Some(b) ==> b@ == text@,
    {
        if is_well_formed(text) {
            Some(BareSpecifier { text: text.to_owned() })
        } else {
            None
        }
    }

    /// The specifier as it was written.
    pub fn as_str(&self) -> (text: &str)
        ensures
            text@ == self@,
            is_well_formed_bare(text@),
    {
        proof {
            use_type_invariant(self);
        }
        self.text.as_str()
    }
}

/// What a lookup came to.
#[derive(Debug)]
pub enum ResolvedName {
    /// The path of a file.
    File(String),
    /// A name that stands for no file, such as that of a module which the
    /// package asks to leave out of the browser.
    Virtual(String),
}

/// Why a bare specifier could not be resolved.
#[derive(Clone, Copy, Debug, PartialEq, Eq, Structural)]
pub enum ResolutionFailure {
    /// The specifier is empty, or its first component is `.` or `..`: it
    /// names no package.
    Malformed,
    /// No package directory, entry file or index file was found.
    NotFound,
    /// The lookup ended at a name that stands for no file.
    NotAFile,
}

/// A bare specifier that could not be resolved.
#[derive(Debug)]
pub struct ResolutionError {
    /// Why the resolution failed.
    pub reason: ResolutionFailure,
    /// The specifier as it was written.
    pub specifier: String,
    /// The file that holds the import.
    pub importer: String,
    /// What the lookup reported, or the name it ended at.
    pub detail: String,
}

/// What a `ResolutionError` holds, as sequences of characters.
pub struct ResolutionErrorView {
    pub reason: ResolutionFailure,
    pub specifier: Seq<char>,
    pub importer: Seq<char>,
    pub detail: Seq<char>,
}

impl View for ResolutionError {
    type V = ResolutionErrorView;

    open spec fn view(&self) -> ResolutionErrorView {
        ResolutionErrorView {
            reason: self.reason,
            specifier: self.specifier@,
            importer: self.importer@,
            detail: self.detail@,
        }
    }
}

/// The outcome of a resolution, as sequences of characters.
pub open spec fn resolution_view(r: Result<String, ResolutionError>) -> Result<
    Seq<char>,
    ResolutionErrorView,
> {
    match r {
        Ok(path) => Ok(path@),
        Err(e) => Err(e@),
    }
}

/// What each answer of a lookup means for the import of `specifier` by
/// `importer`: a file is the resolved path, anything else is an error that
/// names both.
pub open spec fn spec_resolution_of(
    found: Result<ResolvedName, String>,
    importer: Seq<char>,
    specifier: Seq<char>,
) -> Result<Seq<char>, ResolutionErrorView> {
    match found {
        Ok(ResolvedName::File(path)) => Ok(path@),
        Ok(ResolvedName::Virtual(name)) => Err(
            ResolutionErrorView {
                reason: ResolutionFailure::NotAFile,
                specifier,
                importer,
                detail: name@,
            },
        ),
        Err(message) => Err(
            ResolutionErrorView {
                reason: ResolutionFailure::NotFound,
                specifier,
                importer,
                detail: message@,
            },
        ),
    }
}

/// The error for a specifier that is not a well-formed bare specifier.
pub open spec fn spec_malformed(importer: Seq<char>, specifier: Seq<char>) -> ResolutionErrorView {
    ResolutionErrorView {
        reason: ResolutionFailure::Malformed,
        specifier,
        importer,
        detail: Seq::<char>::empty(),
    }
}

/// Says what an answer of a lookup means for the import of `specifier` by
/// `importer`.
pub fn resolution_of(found: Result<ResolvedName, String>, importer: &str, specifier: &str) -> (r:
    Result<String, ResolutionError>)
    ensures
        resolution_view(r) == spec_resolution_of(found, importer@, specifier@),
{
    match found {
        Ok(ResolvedName::File(path)) => Ok(path),
        Ok(ResolvedName::Virtual(name)) => Err(
            ResolutionError {
                reason: ResolutionFailure::NotAFile,
                specifier: specifier.to_owned(),
                importer: importer.to_owned(),
                detail: name,
            },
        ),
        Err(message) => Err(
            ResolutionError {
                reason: ResolutionFailure::NotFound,
                specifier: specifier.to_owned(),
                importer: importer.to_owned(),
                detail: message,
            },
        ),
    }
}

/// The error for a specifier that is not a well-formed bare specifier.
pub fn malformed(importer: &str, specifier: &str) -> (e: ResolutionError)
    ensures
        e@ == spec_malformed(importer@, specifier@),
{
    ResolutionError {
        reason: ResolutionFailure::Malformed,
        specifier: specifier.to_owned(),
        importer: importer.to_owned(),
        detail: String::new(),
    }
}

/// The resolver of `swc_ecma_loader`. Nothing of what it holds is read here.
#[verifier::external_type_specification]
#[verifier::external_body]
pub struct ExNodeModulesResolver(NodeModulesResolver);

/// Calls `NodeModulesResolver::new` with the `TargetEnv` that stands for
/// `preference`, no aliases, and symbolic links followed.
///
/// Nothing is claimed of the resolver that comes back.
#[verifier::external_body]
fn node_modules_resolver(preference: EntryPreference) -> NodeModulesResolver {
    let target = match preference {
        EntryPreference::Browser => TargetEnv::Browser,
        EntryPreference::Generic => TargetEnv::Node,
    };
    NodeModulesResolver::new(target, Default::default(), false)
}

/// Calls `NodeModulesResolver::resolve` for `specifier` as imported by the
/// file `importer`.
///
/// A file name that the resolver gives comes back as `File`, any other name
/// as `Virtual`, and its error as the text of that error. Which of them comes
/// back depends on what is on disk, so nothing is claimed of it. The
/// resolver is asked for well-formed bare specifiers only. One whose first
/// component is `.` or `..` it reads as a path, without a look at any
/// package directory, and on Windows, where `\` ends a component too, it
/// can panic on such a path.
#[verifier::external_body]
fn lookup(resolver: &NodeModulesResolver, importer: &str, specifier: &str) -> (found: Result<
    ResolvedName,
    String,
>)
    requires
        is_well_formed_bare(specifier@),
{
    match resolver.resolve(&FileName::Real(importer.into()), specifier) {
        Ok(Resolution { filename: FileName::Real(path), .. }) => Ok(
            ResolvedName::File(path.display().to_string()),
        ),
        Ok(other) => Ok(ResolvedName::Virtual(other.filename.to_string())),
        Err(error) => Err(format!("{error:#}")),
    }
}

/// Resolves bare specifiers against the packages installed on disk.
pub struct ModuleResolver {
    preference: EntryPreference,
    inner: NodeModulesResolver,
}

impl ModuleResolver {
    /// The preference this resolver was made with.
    pub closed spec fn spec_preference(&self) -> EntryPreference {
        self.preference
    }

    /// A resolver with the given preference for entry files.
    pub fn new(preference: EntryPreference) -> (resolver: ModuleResolver)
        ensures
            resolver.spec_preference() == preference,
    {
        ModuleResolver { preference, inner: node_modules_resolver(preference) }
    }

    /// The preference this resolver was made with.
    pub fn preference(&self) -> (preference: EntryPreference)
        ensures
            preference == self.spec_preference(),
    {
        self.preference
    }

    /// Resolves `specifier`, as imported by the file `importer`, to the path
    /// of a file.
    ///
    /// The answer is what `spec_resolution_of` makes of some answer of the
    /// lookup: a path, or an error with the reason `NotFound` or `NotAFile`
    /// that names the specifier and the importer.
    pub fn resolve(&self, importer: &str, specifier: &BareSpecifier) -> (r: Result<
        String,
        ResolutionError,
    >)
        ensures
            exists|found: Result<ResolvedName, String>|
                resolution_view(r) == #[trigger] spec_resolution_of(found, importer@, specifier@),
    {
        let found = lookup(&self.inner, importer, specifier.as_str());
        resolution_of(found, importer, specifier.as_str())
    }
}

} // verus!
