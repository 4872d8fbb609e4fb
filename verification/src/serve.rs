//! What the server answers to a request for a file.
//!
//! Reading the file and sending the answer are the work of the caller. In
//! between stand two decisions, made here: what to do with a file once it
//! was read, or was found missing, and what to answer once a script was
//! transpiled. A file is told apart by the extension of its name alone.

use vstd::prelude::*;
use crate::text::{chars_of, same_chars};
use crate::transpile::{ContentType, TransformOutput, TranspileError, TranspileErrorView};
use crate::url_path::is_separator;

verus! {

/// The index behind the last separator of `path`: where the name of the file
/// begins.
pub open spec fn file_name_start(path: Seq<char>) -> int
    decreases path.len(),
{
    if path.len() == 0 {
        0
    } else if is_separator(path.last()) {
        path.len() as int
    } else {
        file_name_start(path.drop_last())
    }
}

/// The index of the last `.` of `path` at or behind `from`, or `from - 1`
/// where there is none.
pub open spec fn last_dot(path: Seq<char>, from: int) -> int
    decreases path.len(),
{
    if path.len() <= from || path.len() == 0 {
        from - 1
    } else if path.last() == '.' {
        path.len() - 1
    } else {
        last_dot(path.drop_last(), from)
    }
}

/// The extension of the file that `path` names: what follows the last `.` of
/// the file name. A name without a `.`, or with none but the one it begins
/// with, has no extension.
pub open spec fn spec_extension(path: Seq<char>) -> Option<Seq<char>> {
    let start = file_name_start(path);
    let dot = last_dot(path, start);
    if dot <= start {
        None
    } else {
        Some(path.skip(dot + 1))
    }
}

/// The classes of file that the server tells apart.
#[derive(Clone, Copy, Debug, PartialEq, Eq, Structural)]
pub enum FileClass {
    /// A page: handed out as it is, as HTML.
    Html,
    /// A script: transpiled, and handed out as JavaScript.
    Script,
    /// Anything else: handed out as it is, as plain text.
    Other,
}

/// Whether `ext` is one of the extensions of a script.
pub open spec fn is_script_extension(ext: Seq<char>) -> bool {
    ||| ext == "js"@
    ||| ext == "ts"@
    ||| ext == "jsx"@
    ||| ext == "tsx"@
    ||| ext == "mjs"@
    ||| ext == "cjs"@
    ||| ext == "mts"@
    ||| ext == "mtsx"@
}

/// The class of a file with the extension `ext`.
pub open spec fn spec_class_of_extension(ext: Option<Seq<char>>) -> FileClass {
    match ext {
        Some(e) => if e == "html"@ {
            FileClass::Html
        } else if is_script_extension(e) {
            FileClass::Script
        } else {
            FileClass::Other
        },
        None => FileClass::Other,
    }
}

/// The class of the file that `path` names.
pub open spec fn spec_file_class(path: Seq<char>) -> FileClass {
    spec_class_of_extension(spec_extension(path))
}

/// `file_name_start` and `last_dot` stay within the path, and find what
/// their names say.
pub proof fn lemma_extension_bounds(path: Seq<char>)
    ensures
        0 <= file_name_start(path) <= path.len(),
        file_name_start(path) > 0 ==> is_separator(path[file_name_start(path) - 1]),
        forall|i: int| file_name_start(path) <= i < path.len() ==> !is_separator(#[trigger] path[i]),
        file_name_start(path) - 1 <= last_dot(path, file_name_start(path)) < path.len(),
        last_dot(path, file_name_start(path)) >= file_name_start(path) ==> path[last_dot(
            path,
            file_name_start(path),
        )] == '.',
        forall|i: int|
            last_dot(path, file_name_start(path)) < i < path.len() && file_name_start(path) <= i
                ==> #[trigger] path[i] != '.',
{
    lemma_file_name_start(path);
    lemma_last_dot(path, file_name_start(path));
}

proof fn lemma_file_name_start(path: Seq<char>)
    ensures
        0 <= file_name_start(path) <= path.len(),
        file_name_start(path) > 0 ==> is_separator(path[file_name_start(path) - 1]),
        forall|i: int| file_name_start(path) <= i < path.len() ==> !is_separator(#[trigger] path[i]),
    decreases path.len(),
{
    if path.len() > 0 && !is_separator(path.last()) {
        let shorter = path.drop_last();
        lemma_file_name_start(shorter);
        assert forall|i: int| file_name_start(path) <= i < path.len() implies !is_separator(
            #[trigger] path[i],
        ) by {
            if i < shorter.len() {
                assert(path[i] == shorter[i]);
            }
        }
    }
}

proof fn lemma_last_dot(path: Seq<char>, from: int)
    requires
        0 <= from <= path.len(),
    ensures
        from - 1 <= last_dot(path, from) < path.len(),
        last_dot(path, from) >= from ==> path[last_dot(path, from)] == '.',
        forall|i: int| last_dot(path, from) < i < path.len() && from <= i ==> #[trigger] path[i] != '.',
    decreases path.len(),
{
    if !(path.len() <= from || path.len() == 0) && path.last() != '.' {
        let shorter = path.drop_last();
        lemma_last_dot(shorter, from);
        assert forall|i: int| last_dot(path, from) < i < path.len() && from <= i implies #[trigger] path[i]
            != '.' by {
            if i < shorter.len() {
                assert(path[i] == shorter[i]);
            }
        }
    }
}

/// The extension of the file that `path` names.
pub fn extension_of(path: &str) -> (ext: Option<String>)
    ensures
        ext is Some <==> spec_extension(path@) is Some,
        ext matches Some(e) ==> spec_extension(path@) == Some(e@),
{
    let c = chars_of(path);
    let n: usize = c.len();
    // Walk back from the end to the last `.` of the file name.
    let mut i: usize = n;
    let mut dot: Option<usize> = None;
    proof {
        assert(c@.take(n as int) == c@);
    }
    while i > 0 && !(c[i - 1] == '/' || c[i - 1] == '\\')
        invariant
            c@ == path@,
            n == c.len(),
            i <= n,
            file_name_start(c@) == file_name_start(c@.take(i as int)),
            forall|j: int| i <= j < n ==> !is_separator(#[trigger] c@[j]),
            match dot {
                Some(d) => i <= d < n && c@[d as int] == '.' && forall|j: int|
                    d < j < n ==> #[trigger] c@[j] != '.',
                None => forall|j: int| i <= j < n ==> #[trigger] c@[j] != '.',
            },
        decreases i,
    {
        proof {
            assert(c@.take(i as int).drop_last() == c@.take(i - 1));
        }
        if dot.is_none() && c[i - 1] == '.' {
            dot = Some(i - 1);
        }
        i -= 1;
    }
    proof {
        // The walk has stopped where the file name begins, and `dot` is the
        // last `.` from there on.
        assert(file_name_start(c@) == i);
        lemma_last_dot(c@, i as int);
    }
    match dot {
        Some(d) => {
            if d > i {
                Some(path.substring_char(d + 1, n).to_owned())
            } else {
                None
            }
        },
        None => None,
    }
}

/// The class of a file with the extension `ext`.
pub fn class_of_extension(ext: Option<&str>) -> (class: FileClass)
    ensures
        class == spec_class_of_extension(
            match ext {
                Some(e) => Some(e@),
                None => None,
            },
        ),
{
    match ext {
        Some(e) => {
            if same_chars(e, "html") {
                FileClass::Html
            } else if same_chars(e, "js") || same_chars(e, "ts") || same_chars(e, "jsx")
                || same_chars(e, "tsx") || same_chars(e, "mjs") || same_chars(e, "cjs")
                || same_chars(e, "mts") || same_chars(e, "mtsx") {
                FileClass::Script
            } else {
                FileClass::Other
            }
        },
        None => FileClass::Other,
    }
}

/// The class of the file that `path` names.
pub fn file_class(path: &str) -> (class: FileClass)
    ensures
        class == spec_file_class(path@),
{
    match extension_of(path) {
        Some(e) => class_of_extension(Some(e.as_str())),
        None => class_of_extension(None),
    }
}

/// An answer to a request.
#[derive(Debug)]
pub struct Response {
    /// The status code.
    pub status: u16,
    /// The content type of the body, where the answer has one.
    pub content_type: Option<ContentType>,
    /// The body.
    pub body: String,
}

/// What a `Response` holds, with the body as a sequence of characters.
pub struct ResponseView {
    pub status: u16,
    pub content_type: Option<ContentType>,
    pub body: Seq<char>,
}

impl View for Response {
    type V = ResponseView;

    open spec fn view(&self) -> ResponseView {
        ResponseView { status: self.status, content_type: self.content_type, body: self.body@ }
    }
}

/// What is left to do once the file of a request was read.
#[derive(Debug)]
pub enum Step {
    /// Send this answer.
    Respond(Response),
    /// Transpile this text, and answer with what `after_transpile` makes of
    /// the outcome.
    Transpile(String),
}

/// What a `Step` holds, as sequences of characters.
pub enum StepView {
    Respond(ResponseView),
    Transpile(Seq<char>),
}

impl View for Step {
    type V = StepView;

    open spec fn view(&self) -> StepView {
        match self {
            Step::Respond(response) => StepView::Respond(response@),
            Step::Transpile(source) => StepView::Transpile(source@),
        }
    }
}

/// What is left to do for the file `path`, where `content` is what was read
/// of it, and `None` stands for a file that could not be read: a missing
/// file is answered with 404 and an empty body, a script is to be
/// transpiled, and any other file is handed out as it is, a page as HTML
/// and the rest as plain text.
pub open spec fn spec_after_read(path: Seq<char>, content: Option<Seq<char>>) -> StepView {
    match content {
        None => StepView::Respond(
            ResponseView { status: 404, content_type: None, body: Seq::<char>::empty() },
        ),
        Some(text) => match spec_file_class(path) {
            FileClass::Html => StepView::Respond(
                ResponseView { status: 200, content_type: Some(ContentType::Html), body: text },
            ),
            FileClass::Script => StepView::Transpile(text),
            FileClass::Other => StepView::Respond(
                ResponseView { status: 200, content_type: Some(ContentType::Plain), body: text },
            ),
        },
    }
}

/// The body of the answer for a module that could not be transpiled: the
/// file, and what went wrong with it.
pub open spec fn spec_diagnostic(e: TranspileErrorView) -> Seq<char> {
    e.file + ": "@ + e.message
}

/// The answer for a transpiled script: the emitted text with its content
/// type, or 500 with a diagnostic as plain text.
pub open spec fn spec_after_transpile(r: Result<TransformOutput, TranspileError>) -> ResponseView {
    match r {
        Ok(output) => ResponseView {
            status: 200,
            content_type: Some(output.mime),
            body: output.text@,
        },
        Err(e) => ResponseView {
            status: 500,
            content_type: Some(ContentType::Plain),
            body: spec_diagnostic(e@),
        },
    }
}

/// Decides what is left to do for the file `path`, given what was read of
/// it; `None` stands for a file that could not be read.
pub fn after_read(path: &str, content: Option<String>) -> (step: Step)
    ensures
        step@ == spec_after_read(
            path@,
            match content {
                Some(text) => Some(text@),
                None => None,
            },
        ),
{
    match content {
        None => Step::Respond(Response { status: 404, content_type: None, body: String::new() }),
        Some(text) => match file_class(path) {
            FileClass::Html => Step::Respond(
                Response { status: 200, content_type: Some(ContentType::Html), body: text },
            ),
            FileClass::Script => Step::Transpile(text),
            FileClass::Other => Step::Respond(
                Response { status: 200, content_type: Some(ContentType::Plain), body: text },
            ),
        },
    }
}

/// Decides the answer for a script, given what its transpile came to.
pub fn after_transpile(r: Result<TransformOutput, TranspileError>) -> (response: Response)
    ensures
        response@ == spec_after_transpile(r),
{
    match r {
        Ok(output) => Response {
            status: 200,
            content_type: Some(output.mime),
            body: output.text,
        },
        Err(e) => {
            let mut body = e.file;
            body.append(": ");
            body.append(e.message.as_str());
            Response { status: 500, content_type: Some(ContentType::Plain), body }
        },
    }
}

} // verus!
