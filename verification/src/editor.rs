//! Composing a message in an editor: the draft handed to the editor, and
//! what is made of the text that comes back.

use vstd::prelude::*;
use vstd::string::StringExecFns;
use crate::error::{outcome_view, PostError, PostErrorView};
use crate::text::{
    is_whitespace, is_whitespace_char, lemma_leading_whitespace, string_from_chars, to_chars, trim,
    trim_bounds, trim_start,
};

verus! {

/// The draft that the editor opens on: an empty first line for the message,
/// then comment lines that explain what to do.
pub open spec fn spec_template() -> Seq<char> {
    "\n# Enter your message above this line.\n# Lines starting with '#' will be ignored.\n# An empty message aborts the post.\n"@
}

/// The editor that is launched when the environment names none.
pub open spec fn spec_default_editor() -> Seq<char> {
    "vim"@
}

/// The editor to launch: the first choice if there is one, else the second,
/// else the default.
pub open spec fn spec_choose_editor(first: Option<Seq<char>>, second: Option<Seq<char>>) -> Seq<
    char,
> {
    match first {
        Some(e) => e,
        None => match second {
            Some(v) => v,
            None => spec_default_editor(),
        },
    }
}

/// The number of characters of `s` before its first line feed, or the length
/// of `s` where it holds none.
pub open spec fn line_end(s: Seq<char>) -> int
    decreases s.len(),
{
    if s.len() == 0 || s[0] == '\n' {
        0
    } else {
        1 + line_end(s.drop_first())
    }
}

/// A line without the carriage return that ended it, if one did.
pub open spec fn strip_carriage_return(line: Seq<char>) -> Seq<char> {
    if line.len() > 0 && line.last() == '\r' {
        line.drop_last()
    } else {
        line
    }
}

/// The lines of a text. A line ends at a line feed, or at a carriage return
/// directly followed by one; the terminator is not part of the line. The
/// last line needs no terminator, and an empty text has no lines.
pub open spec fn lines(s: Seq<char>) -> Seq<Seq<char>>
    decreases s.len(),
{
    let e = line_end(s);
    if s.len() == 0 {
        Seq::empty()
    } else if e < 0 || e >= s.len() {
        seq![s]
    } else {
        seq![strip_carriage_return(s.take(e))] + lines(s.skip(e + 1))
    }
}

/// A comment line is one whose first character that is not white space is `#`.
pub open spec fn is_comment_line(line: Seq<char>) -> bool {
    let rest = trim_start(line);
    rest.len() > 0 && rest[0] == '#'
}

/// The test that tells the lines that stay from the comment lines.
pub open spec fn is_kept() -> spec_fn(Seq<char>) -> bool {
    |line: Seq<char>| !is_comment_line(line)
}

/// The lines put together again, with one line feed between two lines.
pub open spec fn join_lines(ls: Seq<Seq<char>>) -> Seq<char>
    decreases ls.len(),
{
    if ls.len() == 0 {
        Seq::empty()
    } else if ls.len() == 1 {
        ls[0]
    } else {
        join_lines(ls.drop_last()) + seq!['\n'] + ls.last()
    }
}

/// The text of a draft without its comment lines.
pub open spec fn without_comments(content: Seq<char>) -> Seq<char> {
    join_lines(lines(content).filter(is_kept()))
}

/// The message that a draft holds: its lines that are no comments, joined by
/// line feeds, without the white space around the whole.
pub open spec fn composed_message(content: Seq<char>) -> Seq<char> {
    trim(without_comments(content))
}

/// What the result of composing is for a given draft: the message, or
/// `EmptyMessage` where nothing is left.
pub open spec fn spec_compose(content: Seq<char>) -> Result<Seq<char>, PostErrorView> {
    if composed_message(content).len() == 0 {
        Err(PostErrorView::EmptyMessage)
    } else {
        Ok(composed_message(content))
    }
}

/// The first line feed of a text is where `line_end` says: a position
/// before which no line feed stands, and which holds one or is the end.
pub proof fn lemma_line_end(s: Seq<char>, k: int)
    requires
        0 <= k <= s.len(),
        forall|j: int| 0 <= j < k ==> #[trigger] s[j] != '\n',
        k < s.len() ==> s[k] == '\n',
    ensures
        line_end(s) == k,
    decreases s.len(),
{
    if k > 0 {
        let t = s.drop_first();
        assert forall|j: int| 0 <= j < k - 1 implies #[trigger] t[j] != '\n' by {
            assert(t[j] == s[j + 1]);
        }
        lemma_line_end(t, k - 1);
    }
}

/// The draft that the editor opens on.
pub fn template() -> (r: &'static str)
    ensures
        r@ == spec_template(),
{
    "\n# Enter your message above this line.\n# Lines starting with '#' will be ignored.\n# An empty message aborts the post.\n"
}

/// The editor to launch, given what the environment holds under `EDITOR`
/// (first) and under `VISUAL` (second).
pub fn choose_editor(first: Option<String>, second: Option<String>) -> (r: String)
    ensures
        r@ == spec_choose_editor(
            match first { Some(e) => Some(e@), None => None },
            match second { Some(v) => Some(v@), None => None },
        ),
{
    match first {
        Some(e) => e,
        None => match second {
            Some(v) => v,
            None => "vim".to_owned(),
        },
    }
}

/// The position of the first line feed at or after `from`, or the length of
/// `v` where none follows.
fn find_line_end(v: &Vec<char>, from: usize) -> (end: usize)
    requires
        from <= v.len(),
    ensures
        from <= end <= v.len(),
        end - from == line_end(v@.skip(from as int)),
{
    let n = v.len();
    let mut end: usize = from;
    while end < n && v[end] != '\n'
        invariant
            from <= end <= n == v.len(),
            forall|j: int| from <= j < end ==> #[trigger] v@[j] != '\n',
        decreases n - end,
    {
        end = end + 1;
    }
    proof {
        let s = v@.skip(from as int);
        assert forall|j: int| 0 <= j < end - from implies #[trigger] s[j] != '\n' by {
            assert(s[j] == v@[j + from]);
        }
        lemma_line_end(s, end - from);
    }
    end
}

/// Whether `v[from..to]` is a comment line.
fn is_comment(v: &Vec<char>, from: usize, to: usize) -> (r: bool)
    requires
        from <= to <= v.len(),
    ensures
        r == is_comment_line(v@.subrange(from as int, to as int)),
{
    let mut k: usize = from;
    while k < to && is_whitespace_char(v[k])
        invariant
            from <= k <= to <= v.len(),
            forall|j: int| from <= j < k ==> is_whitespace(#[trigger] v@[j]),
        decreases to - k,
    {
        k = k + 1;
    }
    proof {
        let line = v@.subrange(from as int, to as int);
        assert forall|j: int| 0 <= j < k - from implies is_whitespace(#[trigger] line[j]) by {
            assert(line[j] == v@[j + from]);
        }
        lemma_leading_whitespace(line, k - from);
        if k < to {
            assert(trim_start(line)[0] == v@[k as int]);
        }
    }
    k < to && v[k] == '#'
}

/// Appends `v[from..to]` to `out`.
fn append_range(out: &mut Vec<char>, v: &Vec<char>, from: usize, to: usize)
    requires
        from <= to <= v.len(),
    ensures
        final(out)@ == old(out)@ + v@.subrange(from as int, to as int),
{
    let mut i: usize = from;
    while i < to
        invariant
            from <= i <= to <= v.len(),
            out@ == old(out)@ + v@.subrange(from as int, i as int),
        decreases to - i,
    {
        out.push(v[i]);
        i = i + 1;
        assert(out@ =~= old(out)@ + v@.subrange(from as int, i as int));
    }
}

/// The characters of a draft without its comment lines.
#[verifier::rlimit(40)]
fn strip_comments(v: &Vec<char>) -> (out: Vec<char>)
    ensures
        out@ == without_comments(v@),
{
    let n = v.len();
    let mut out: Vec<char> = Vec::new();
    let mut pos: usize = 0;
    let mut any = false;
    let ghost mut done: Seq<Seq<char>> = Seq::empty();
    assert(v@.skip(0) =~= v@);
    assert(done + lines(v@) =~= lines(v@));
    while pos < n
        invariant
            pos <= n == v.len(),
            lines(v@) == done + lines(v@.skip(pos as int)),
            out@ == join_lines(done.filter(is_kept())),
            any == (done.filter(is_kept()).len() > 0),
        decreases n - pos,
    {
        let ghost s = v@.skip(pos as int);
        let end = find_line_end(v, pos);
        let mut stop = end;
        let next = if end < n {
            if stop > pos && v[stop - 1] == '\r' {
                stop = stop - 1;
            }
            end + 1
        } else {
            n
        };
        let ghost line = v@.subrange(pos as int, stop as int);
        proof {
            assert(s.take(end - pos) =~= v@.subrange(pos as int, end as int));
            if end < n {
                assert(s.skip(end - pos + 1) =~= v@.skip(next as int));
                if end > pos {
                    assert(s.take(end - pos).last() == v@[end - 1]);
                }
                assert(line =~= strip_carriage_return(s.take(end - pos)));
            } else {
                assert(line =~= s);
                assert(lines(v@.skip(next as int)) =~= Seq::<Seq<char>>::empty());
            }
            assert(lines(s) =~= seq![line] + lines(v@.skip(next as int)));
            assert(lines(v@) =~= done.push(line) + lines(v@.skip(next as int)));
        }
        let ghost kept = done.filter(is_kept());
        let ghost before = out@;
        if !is_comment(v, pos, stop) {
            if any {
                out.push('\n');
            }
            append_range(&mut out, v, pos, stop);
            any = true;
        }
        proof {
            done.lemma_filter_push(line, is_kept());
            if is_kept()(line) {
                assert(kept.push(line).drop_last() =~= kept);
                if kept.len() > 0 {
                    assert(out@ =~= before + seq!['\n'] + line);
                } else {
                    assert(before =~= Seq::<char>::empty());
                    assert(out@ =~= line);
                }
            }
            done = done.push(line);
        }
        pos = next;
    }
    proof {
        assert(lines(v@.skip(n as int)) =~= Seq::<Seq<char>>::empty());
        assert(done + Seq::<Seq<char>>::empty() =~= done);
    }
    out
}

/// The message that a draft holds. Lines whose first character that is not
/// white space is `#` are dropped; the others are joined by line feeds and
/// the white space around the whole is removed. A draft of which nothing is
/// left gives `EmptyMessage`.
pub fn compose(content: &str) -> (r: Result<String, PostError>)
    ensures
        outcome_view(r) == spec_compose(content@),
{
    let chars = to_chars(content);
    let kept = strip_comments(&chars);
    let (a, b) = trim_bounds(&kept);
    if a == b {
        Err(PostError::EmptyMessage)
    } else {
        Ok(string_from_chars(&kept, a, b))
    }
}

/// What can go wrong around the editor, apart from the editor's own verdict.
#[derive(Debug, Clone, Copy, PartialEq, Eq, Structural)]
pub enum EditorFault {
    /// The draft file could not be created.
    CreateFile,
    /// The draft could not be written to the file.
    WriteTemplate,
    /// The file could not be flushed.
    Flush,
    /// The editor could not be launched.
    Launch,
    /// The edited file could not be read back.
    ReadBack,
}

/// What came of handing the draft to the editor.
#[derive(Debug, PartialEq, Eq)]
pub enum EditorSession {
    /// The session broke off before the edited text could be read.
    Failed(EditorFault),
    /// The editor exited with a status other than zero.
    Aborted,
    /// The editor exited with status zero and left this text in the file.
    Saved(String),
}

pub enum EditorSessionView {
    Failed(EditorFault),
    Aborted,
    Saved(Seq<char>),
}

impl View for EditorSession {
    type V = EditorSessionView;

    open spec fn view(&self) -> EditorSessionView {
        match self {
            EditorSession::Failed(fault) => EditorSessionView::Failed(*fault),
            EditorSession::Aborted => EditorSessionView::Aborted,
            EditorSession::Saved(content) => EditorSessionView::Saved(content@),
        }
    }
}

/// What was being done when a fault happened.
pub open spec fn spec_fault_context(fault: EditorFault, editor: Seq<char>) -> Seq<char> {
    match fault {
        EditorFault::CreateFile => "Failed to create temporary file"@,
        EditorFault::WriteTemplate => "Failed to write template to temporary file"@,
        EditorFault::Flush => "Failed to flush temporary file"@,
        EditorFault::Launch => "Failed to launch editor: "@ + editor,
        EditorFault::ReadBack => "Failed to read edited content"@,
    }
}

/// The message that a session with the editor gives: `IOError` for a fault,
/// `EditorAborted` for an editor that did not exit with status zero, and
/// else what the saved text holds.
pub open spec fn spec_open_editor(editor: Seq<char>, session: EditorSessionView) -> Result<
    Seq<char>,
    PostErrorView,
> {
    match session {
        EditorSessionView::Failed(fault) => Err(
            PostErrorView::IOError(spec_fault_context(fault, editor)),
        ),
        EditorSessionView::Aborted => Err(PostErrorView::EditorAborted),
        EditorSessionView::Saved(content) => spec_compose(content),
    }
}

/// What was being done when a fault happened.
pub fn fault_context(fault: EditorFault, editor: &str) -> (r: String)
    ensures
        r@ == spec_fault_context(fault, editor@),
{
    match fault {
        EditorFault::CreateFile => "Failed to create temporary file".to_owned(),
        EditorFault::WriteTemplate => "Failed to write template to temporary file".to_owned(),
        EditorFault::Flush => "Failed to flush temporary file".to_owned(),
        EditorFault::Launch => {
            let mut text = "Failed to launch editor: ".to_owned();
            text.append(editor);
            text
        },
        EditorFault::ReadBack => "Failed to read edited content".to_owned(),
    }
}

/// The message composed in the user's editor, given what came of the
/// session in which `editor` was run on the draft.
pub fn open_editor(editor: &str, session: EditorSession) -> (r: Result<String, PostError>)
    ensures
        outcome_view(r) == spec_open_editor(editor@, session@),
{
    match session {
        EditorSession::Failed(fault) => Err(PostError::IOError(fault_context(fault, editor))),
        EditorSession::Aborted => Err(PostError::EditorAborted),
        EditorSession::Saved(content) => compose(content.as_str()),
    }
}

} // verus!
