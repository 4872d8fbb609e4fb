//! Module specifiers: the strings that follow `from` in an import or export.
//!
//! A specifier is relative, absolute or bare. Only bare specifiers name a
//! package, and only those are ever resolved; the browser resolves the other
//! two against the URL of the importing module by itself.

use vstd::prelude::*;
use crate::text::chars_of;

verus! {

/// The three classes a module specifier falls into.
#[derive(Clone, Copy, Debug, PartialEq, Eq, Structural)]
pub enum SpecifierKind {
    /// Begins with `./` or `../`.
    Relative,
    /// Begins with `/`.
    Absolute,
    /// Anything else: a package name, possibly followed by a subpath.
    Bare,
}

/// Whether `s` begins with `./` or `../`.
pub open spec fn is_relative(s: Seq<char>) -> bool {
    seq!['.', '/'].is_prefix_of(s) || seq!['.', '.', '/'].is_prefix_of(s)
}

/// Whether `s` begins with `/`.
pub open spec fn is_absolute(s: Seq<char>) -> bool {
    seq!['/'].is_prefix_of(s)
}

/// The class of a specifier, as a function of its characters.
pub open spec fn spec_classify(s: Seq<char>) -> SpecifierKind {
    if is_relative(s) {
        SpecifierKind::Relative
    } else if is_absolute(s) {
        SpecifierKind::Absolute
    } else {
        SpecifierKind::Bare
    }
}

/// Whether `c` ends the first component of a specifier that is read as a
/// path: `/`, and `\`, which separates components on Windows.
pub open spec fn ends_component(c: char) -> bool {
    c == '/' || c == '\\'
}

/// Whether the first component of `s` is `.` or `..`. The package lookup
/// reads such a specifier as a path and looks at no package directory.
pub open spec fn begins_with_dots(s: Seq<char>) -> bool {
    ||| s.len() >= 1 && s[0] == '.' && (s.len() == 1 || ends_component(s[1]))
    ||| s.len() >= 2 && s[0] == '.' && s[1] == '.' && (s.len() == 2 || ends_component(s[2]))
}

/// Whether `s` is a well-formed bare specifier: it is bare, it is not empty,
/// and its first component is neither `.` nor `..`. Every such specifier is
/// put to the package lookup, whatever else it holds.
pub open spec fn is_well_formed_bare(s: Seq<char>) -> bool {
    &&& spec_classify(s) == SpecifierKind::Bare
    &&& s.len() > 0
    &&& !begins_with_dots(s)
}

/// The three classes part the specifiers: each specifier is in exactly one,
/// and which one follows from its prefix alone.
pub proof fn lemma_classes_part_specifiers(s: Seq<char>)
    ensures
        spec_classify(s) == SpecifierKind::Relative <==> is_relative(s),
        spec_classify(s) == SpecifierKind::Absolute <==> is_absolute(s),
        spec_classify(s) == SpecifierKind::Bare <==> !is_relative(s) && !is_absolute(s),
        !(is_relative(s) && is_absolute(s)),
        is_well_formed_bare(s) ==> spec_classify(s) == SpecifierKind::Bare,
        s.len() == 0 ==> spec_classify(s) == SpecifierKind::Bare && !is_well_formed_bare(s),
{
    if is_relative(s) {
        assert(s[0] == '.');
    }
    if is_absolute(s) {
        assert(s.subrange(0, 1)[0] == '/');
    }
}

/// Classifies a specifier by its prefix.
pub fn classify(specifier: &str) -> (kind: SpecifierKind)
    ensures
        kind == spec_classify(specifier@),
{
    let c = chars_of(specifier);
    let n: usize = c.len();
    if n >= 2 && c[0] == '.' && c[1] == '/' {
        SpecifierKind::Relative
    } else if n >= 3 && c[0] == '.' && c[1] == '.' && c[2] == '/' {
        SpecifierKind::Relative
    } else if n >= 1 && c[0] == '/' {
        SpecifierKind::Absolute
    } else {
        proof {
            if is_absolute(specifier@) {
                assert(specifier@.subrange(0, 1)[0] == '/');
            }
        }
        SpecifierKind::Bare
    }
}

/// Whether a specifier is a well-formed bare specifier.
pub fn is_well_formed(specifier: &str) -> (ok: bool)
    ensures
        ok == is_well_formed_bare(specifier@),
{
    let c = chars_of(specifier);
    let n: usize = c.len();
    if n == 0 {
        return false;
    }
    match classify(specifier) {
        SpecifierKind::Bare => {},
        _ => {
            return false;
        },
    }
    if c[0] != '.' {
        return true;
    }
    if n == 1 || c[1] == '/' || c[1] == '\\' {
        return false;
    }
    !(c[1] == '.' && (n == 2 || c[2] == '/' || c[2] == '\\'))
}

} // verus!
