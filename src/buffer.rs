//! The text buffer: the loaded lines of a document and where they came from.
use vstd::prelude::*;

verus! {

/// The lines of a document, in document order, and the path they were
/// loaded from (`None` for an unnamed buffer).
pub struct Buffer {
    pub file: Option<String>,
    pub lines: Vec<String>,
}

/// The characters of an optional path.
pub open spec fn file_view(f: Option<String>) -> Option<Seq<char>> {
    match f {
        Some(s) => Some(s@),
        None => None,
    }
}

/// The pieces of a text between its newline characters, in order; one more
/// piece than there are newlines.
pub open spec fn newline_pieces(s: Seq<char>) -> Seq<Seq<char>>
    decreases s.len(),
{
    if s.len() == 0 {
        seq![Seq::empty()]
    } else {
        let p = newline_pieces(s.drop_last());
        if s.last() == '\n' {
            p.push(Seq::empty())
        } else {
            p.update(p.len() - 1, p.last().push(s.last()))
        }
    }
}

/// A line without the carriage return that ended it, if it had one.
pub open spec fn strip_cr(l: Seq<char>) -> Seq<char> {
    if l.len() > 0 && l.last() == '\r' {
        l.drop_last()
    } else {
        l
    }
}

/// The lines of a text. A line ends at "\n" or "\r\n", which is not part of
/// it; the last line needs no ending, and an empty text has no lines.
pub open spec fn text_lines(s: Seq<char>) -> Seq<Seq<char>> {
    let p = newline_pieces(s);
    let ended = p.drop_last().map_values(|l: Seq<char>| strip_cr(l));
    if p.last().len() == 0 {
        ended
    } else {
        ended.push(p.last())
    }
}

/// Relies on str::lines: the lines of the text, split at "\n" or "\r\n",
/// without their endings, the final ending optional.
#[verifier::external_body]
fn split_lines(text: &str) -> (r: Vec<String>)
    ensures
        r@.map_values(|l: String| l@) == text_lines(text@),
{
    text.lines().map(String::from).collect()
}

impl Buffer {
    /// The characters of each line, in document order.
    pub open spec fn lines_view(&self) -> Seq<Seq<char>> {
        self.lines@.map_values(|l: String| l@)
    }

    /// A buffer over lines that were loaded from `file`.
    pub fn new(file: Option<String>, lines: Vec<String>) -> (r: Buffer)
        ensures
            file_view(r.file) == file_view(file),
            r.lines_view() == lines@.map_values(|l: String| l@),
    {
        Buffer { file, lines }
    }

    /// A buffer over the lines of `text`, the contents of the file at `file`.
    pub fn from_text(file: Option<String>, text: &str) -> (r: Buffer)
        ensures
            file_view(r.file) == file_view(file),
            r.lines_view() == text_lines(text@),
    {
        let lines = split_lines(text);
        Buffer { file, lines }
    }

    /// An unnamed buffer with no lines.
    pub fn empty() -> (r: Buffer)
        ensures
            r.file is None,
            r.lines_view() == Seq::<Seq<char>>::empty(),
    {
        let r = Buffer { file: None, lines: Vec::new() };
        assert(r.lines_view() =~= Seq::<Seq<char>>::empty());
        r
    }

    /// The number of lines.
    pub fn line_count(&self) -> (r: usize)
        ensures
            r == self.lines_view().len(),
    {
        self.lines.len()
    }
}

} // verus!
