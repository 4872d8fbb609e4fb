//! From a file on disk to the URL under which this server hands it out, and
//! back.
//!
//! The project root is also the document root, so a file below the root is
//! served under the path that is left when the root is taken off its front,
//! and a request for a path asks for the file that has the root in front of
//! that path. Both are decided on the characters of the paths alone:
//! nothing is looked up on disk, and `.` or `..` components are not
//! followed. Both `/` and `\` count as directory separators; in the URL
//! every separator is `/`.

use vstd::prelude::*;
use crate::text::chars_of;

verus! {

/// Whether `c` separates the components of a file path.
pub open spec fn is_separator(c: char) -> bool {
    c == '/' || c == '\\'
}

/// The length of `root` without the separators at its end.
pub open spec fn root_base_len(root: Seq<char>) -> nat
    decreases root.len(),
{
    if root.len() > 0 && is_separator(root.last()) {
        root_base_len(root.drop_last())
    } else {
        root.len()
    }
}

/// `root` without the separators at its end.
pub open spec fn root_base(root: Seq<char>) -> Seq<char> {
    root.take(root_base_len(root) as int)
}

/// Whether `path` names something below `root`: it begins with the root, and
/// a separator follows.
pub open spec fn is_under_root(path: Seq<char>, root: Seq<char>) -> bool {
    let base = root_base(root);
    &&& base.is_prefix_of(path)
    &&& path.len() > base.len()
    &&& is_separator(path[base.len() as int])
}

/// A character of a file path as it stands in a URL.
pub open spec fn url_char(c: char) -> char {
    if c == '\\' {
        '/'
    } else {
        c
    }
}

/// A stretch of a file path as it stands in a URL.
pub open spec fn url_chars(s: Seq<char>) -> Seq<char> {
    s.map_values(|c: char| url_char(c))
}

/// The URL path of the file `path` when `root` is the document root, and
/// `None` where the file is not below the root.
pub open spec fn spec_to_root_relative(path: Seq<char>, root: Seq<char>) -> Option<Seq<char>> {
    if is_under_root(path, root) {
        Some(url_chars(path.skip(root_base_len(root) as int)))
    } else {
        None
    }
}

/// The file that a request for `url_path` asks for when `root` is the
/// document root: the root, without the separators at its end, with the
/// path of the URL behind it. A path that does not begin with `/` asks for
/// no file.
pub open spec fn spec_request_file(root: Seq<char>, url_path: Seq<char>) -> Option<Seq<char>> {
    if url_path.len() > 0 && url_path[0] == '/' {
        Some(root_base(root) + url_path)
    } else {
        None
    }
}

/// A resolved path that does not lie below the project root.
#[derive(Debug)]
pub struct OutOfRootError {
    /// The path that was to be rewritten.
    pub path: String,
    /// The root it was held against.
    pub root: String,
}

/// What an `OutOfRootError` holds, as sequences of characters.
pub struct OutOfRootErrorView {
    pub path: Seq<char>,
    pub root: Seq<char>,
}

impl View for OutOfRootError {
    type V = OutOfRootErrorView;

    open spec fn view(&self) -> OutOfRootErrorView {
        OutOfRootErrorView { path: self.path@, root: self.root@ }
    }
}

/// The trailing separators of a root do not reach into its base.
pub proof fn lemma_root_base(root: Seq<char>)
    ensures
        root_base_len(root) <= root.len(),
        root_base_len(root) > 0 ==> !is_separator(root[root_base_len(root) - 1]),
        forall|i: int| root_base_len(root) <= i < root.len() ==> is_separator(#[trigger] root[i]),
        root_base_len(root) == root.len() <==> (root.len() == 0 || !is_separator(root.last())),
    decreases root.len(),
{
    if root.len() > 0 && is_separator(root.last()) {
        let shorter = root.drop_last();
        lemma_root_base(shorter);
        assert forall|i: int| root_base_len(root) <= i < root.len() implies is_separator(
            #[trigger] root[i],
        ) by {
            if i < shorter.len() {
                assert(root[i] == shorter[i]);
            }
        }
    }
}

/// A URL path made by `spec_to_root_relative` begins with `/`, holds no `\`,
/// and is as long as what follows the root in the file path.
pub proof fn lemma_root_relative_shape(path: Seq<char>, root: Seq<char>)
    requires
        spec_to_root_relative(path, root) is Some,
    ensures
        ({
            let url = spec_to_root_relative(path, root).unwrap();
            &&& url.len() == path.len() - root_base_len(root)
            &&& url.len() > 0
            &&& url[0] == '/'
            &&& forall|i: int| 0 <= i < url.len() ==> #[trigger] url[i] != '\\'
        }),
{
    lemma_root_base(root);
}

/// Putting the root back in front of the URL path gives the file path again,
/// as long as the root ends in no separator and no `\` follows it in the file
/// path; and on no other input.
pub proof fn lemma_root_relative_round_trip(path: Seq<char>, root: Seq<char>)
    requires
        spec_to_root_relative(path, root) is Some,
    ensures
        root + spec_to_root_relative(path, root).unwrap() == path <==> {
            &&& root.len() == 0 || !is_separator(root.last())
            &&& forall|i: int| root.len() <= i < path.len() ==> #[trigger] path[i] != '\\'
        },
{
    lemma_root_base(root);
    let url = spec_to_root_relative(path, root).unwrap();
    if root_base_len(root) == root.len() {
        if forall|i: int| root.len() <= i < path.len() ==> #[trigger] path[i] != '\\' {
            // Nothing changes behind the root, so the URL path is what
            // follows the root.
            assert(url =~= path.skip(root.len() as int));
            assert(root =~= path.subrange(0, root.len() as int));
            assert(root + url =~= path);
        } else {
            // Where the file path holds a `\`, the URL path holds a `/`.
            let i = choose|i: int| root.len() <= i < path.len() && #[trigger] path[i] == '\\';
            assert((root + url)[i] != path[i]);
        }
    } else {
        // A separator at the end of the root is counted twice.
        assert((root + url).len() != path.len());
    }
}

/// A file below the root is asked for by the URL path that it is rewritten
/// to, as long as no `\` stands in its path behind the root.
pub proof fn lemma_rewritten_path_asks_for_the_file(path: Seq<char>, root: Seq<char>)
    requires
        is_under_root(path, root),
        forall|i: int| root_base_len(root) <= i < path.len() ==> #[trigger] path[i] != '\\',
    ensures
        spec_to_root_relative(path, root) matches Some(url) && spec_request_file(root, url)
            == Some(path),
{
    lemma_root_base(root);
    let rest = path.skip(root_base_len(root) as int);
    assert(url_chars(rest) =~= rest);
    assert(root_base(root) + rest =~= path);
}

/// The file that a URL path asks for is rewritten to that URL path again, as
/// long as no `\` stands in it.
pub proof fn lemma_requested_file_is_rewritten_to_its_url(root: Seq<char>, url_path: Seq<char>)
    requires
        spec_request_file(root, url_path) is Some,
        forall|i: int| 0 <= i < url_path.len() ==> #[trigger] url_path[i] != '\\',
    ensures
        spec_request_file(root, url_path) matches Some(file) && spec_to_root_relative(file, root)
            == Some(url_path),
{
    lemma_root_base(root);
    let base = root_base(root);
    assert((base + url_path).skip(base.len() as int) =~= url_path);
    assert(url_chars(url_path) =~= url_path);
}

/// How many leading characters of `root` are left when the separators at its
/// end are dropped.
fn base_len_of(root: &Vec<char>) -> (n: usize)
    ensures
        n == root_base_len(root@),
        n <= root.len(),
{
    let mut n: usize = root.len();
    proof {
        assert(root@.take(n as int) == root@);
    }
    while n > 0 && (root[n - 1] == '/' || root[n - 1] == '\\')
        invariant
            n <= root.len(),
            root_base_len(root@) == root_base_len(root@.take(n as int)),
        decreases n,
    {
        proof {
            assert(root@.take(n as int).drop_last() == root@.take(n - 1));
        }
        n -= 1;
    }
    n
}

/// Whether the first `n` characters of `prefix` open `path`.
fn opens_with(path: &Vec<char>, prefix: &Vec<char>, n: usize) -> (yes: bool)
    requires
        n <= prefix.len(),
    ensures
        yes == prefix@.take(n as int).is_prefix_of(path@),
{
    if path.len() < n {
        return false;
    }
    let mut i: usize = 0;
    while i < n
        invariant
            i <= n <= prefix.len(),
            n <= path.len(),
            path@.take(i as int) == prefix@.take(i as int),
        decreases n - i,
    {
        if path[i] != prefix[i] {
            assert(prefix@.take(n as int)[i as int] != path@.subrange(0, n as int)[i as int]);
            return false;
        }
        i += 1;
    }
    true
}

/// Rewrites the file path `path` into the URL path under which a server whose
/// document root is `root` hands the file out.
///
/// The root is taken off the front of the path, and every `\` that follows
/// becomes `/`. A path that does not lie below the root is an error that
/// holds both paths.
pub fn to_root_relative(path: &str, root: &str) -> (url: Result<String, OutOfRootError>)
    ensures
        match url {
            Ok(u) => spec_to_root_relative(path@, root@) == Some(u@),
            Err(e) => spec_to_root_relative(path@, root@) is None && e@ == (OutOfRootErrorView {
                path: path@,
                root: root@,
            }),
        },
{
    let p = chars_of(path);
    let r = chars_of(root);
    let base = base_len_of(&r);
    if !opens_with(&p, &r, base) || p.len() <= base || !(p[base] == '/' || p[base] == '\\') {
        return Err(OutOfRootError { path: path.to_owned(), root: root.to_owned() });
    }
    let mut out = String::new();
    let mut from: usize = base;
    let mut i: usize = base;
    proof {
        reveal_strlit("/");
    }
    // `out` holds the URL path of what lies before `from`; from there to `i`
    // the path holds no `\`, and is appended in one piece.
    while i < p.len()
        invariant
            p@ == path@,
            "/"@ == seq!['/'],
            base <= from <= i <= p.len(),
            forall|j: int| from <= j < i ==> p@[j] != '\\',
            out@ + path@.subrange(from as int, i as int) == url_chars(
                path@.subrange(base as int, i as int),
            ),
        decreases p.len() - i,
    {
        proof {
            let done = path@.subrange(base as int, i as int);
            assert(path@.subrange(base as int, i + 1) == done.push(path@[i as int]));
            assert(url_chars(done.push(path@[i as int])) =~= url_chars(done).push(
                url_char(path@[i as int]),
            ));
        }
        if p[i] == '\\' {
            out.append(path.substring_char(from, i));
            out.append("/");
            from = i + 1;
        } else {
            proof {
                assert(path@.subrange(from as int, i + 1) == path@.subrange(
                    from as int,
                    i as int,
                ).push(path@[i as int]));
            }
        }
        i += 1;
    }
    out.append(path.substring_char(from, p.len()));
    Ok(out)
}

/// The file that a request for `url_path` asks for when `root` is the
/// document root.
pub fn request_file(root: &str, url_path: &str) -> (file: Option<String>)
    ensures
        file is Some <==> spec_request_file(root@, url_path@) is Some,
        file matches Some(f) ==> spec_request_file(root@, url_path@) == Some(f@),
{
    let u = chars_of(url_path);
    if u.len() == 0 || u[0] != '/' {
        return None;
    }
    let r = chars_of(root);
    let base = base_len_of(&r);
    let mut file = root.substring_char(0, base).to_owned();
    file.append(url_path);
    Some(file)
}

} // verus!
