//! Source texts, split into lines the way ariadne splits them.
use vstd::prelude::*;
use crate::location::{has_line, line_chars, SourceLocation};

verus! {

/// One line of a source text: the number of characters before it in the whole
/// text, and its characters, line terminator included.
#[derive(Debug, PartialEq, Eq)]
pub struct SourceLine {
    pub offset: usize,
    pub text: Vec<char>,
}

/// A named source text, held as its lines.
#[derive(Debug, PartialEq, Eq)]
pub struct Source {
    pub file_name: String,
    pub lines: Vec<SourceLine>,
}

/// The characters that end a line: carriage return, line feed, vertical tab,
/// form feed, next line, and the line and paragraph separators.
pub open spec fn is_line_separator(c: char) -> bool {
    ||| c == '\r'
    ||| c == '\n'
    ||| c == '\u{0B}'
    ||| c == '\u{0C}'
    ||| c == '\u{85}'
    ||| c == '\u{2028}'
    ||| c == '\u{2029}'
}

/// The texts of `lines`, one after the other.
pub open spec fn joined(lines: Seq<(usize, Seq<char>)>) -> Seq<char>
    decreases lines.len(),
{
    if lines.len() == 0 {
        Seq::empty()
    } else {
        joined(lines.drop_last()) + lines.last().1
    }
}

/// A line of a split: not empty, with no separator before its last
/// character but the carriage return of a closing carriage return and line
/// feed; ended by a separator unless it is the last line.
pub open spec fn is_split_line(line: Seq<char>, last: bool) -> bool {
    &&& line.len() > 0
    &&& forall|j: int|
        0 <= j < line.len() - 1 && #[trigger] is_line_separator(line[j]) ==> j == line.len() - 2 && line[j] == '\r'
            && line[j + 1] == '\n'
    &&& !last ==> is_line_separator(line.last())
}

/// `lines` is `text` cut after each line separator, a carriage return and the
/// line feed right after it counting as one, each line with the number of
/// characters before it; an empty text is one empty line.
pub open spec fn splits_into_lines(text: Seq<char>, lines: Seq<(usize, Seq<char>)>) -> bool {
    if text.len() == 0 {
        lines == seq![(0usize, Seq::<char>::empty())]
    } else {
        &&& lines.len() >= 1
        &&& joined(lines) == text
        &&& forall|i: int| 0 <= i < lines.len() ==> #[trigger] lines[i].0 == joined(lines.take(i)).len()
        &&& forall|i: int| 0 <= i < lines.len() ==> is_split_line(#[trigger] lines[i].1, i == lines.len() - 1)
        &&& forall|i: int|
            0 <= i < lines.len() - 1 && #[trigger] lines[i].1.last() == '\r' ==> lines[i + 1].1[0] != '\n'
    }
}

pub open spec fn line_view(line: SourceLine) -> (usize, Seq<char>) {
    (line.offset, line.text@)
}

/// Splits `text` into lines with `ariadne::Source::from`, then reads back each
/// line's offset (`Line::offset`) and text (`Source::get_line_text`).
/// Trusted: `Source::from` cuts the text after each of its seven separators,
/// merging a carriage return with the line feed that follows it, counts each
/// line's offset in characters, and gives an empty text one empty line; the
/// text of each line is the slice of the text that the line spans.
#[verifier::external_body]
fn ariadne_split_lines(text: &str) -> (lines: Vec<SourceLine>)
    ensures
        splits_into_lines(text@, lines@.map_values(|l: SourceLine| line_view(l))),
        lines@.len() >= 1,
{
    let source = ariadne::Source::from(text);
    source
        .lines()
        .map(|line| SourceLine {
            offset: line.offset(),
            text: source.get_line_text(line).unwrap_or_default().chars().collect(),
        })
        .collect()
}

impl Source {
    /// Reads `text` as the source named `file_name`.
    pub fn new(file_name: &str, text: &str) -> (source: Source)
        ensures
            source.file_name@ == file_name@,
            splits_into_lines(text@, source.lines@.map_values(|l: SourceLine| line_view(l))),
            source.lines@.len() >= 1,
    {
        Source { file_name: file_name.to_owned(), lines: ariadne_split_lines(text) }
    }
}

impl Source {
    /// The columns `columns` of line `line`.
    pub fn location(&self, line: usize, columns: core::ops::Range<usize>) -> (loc: SourceLocation<'_>)
        requires
            has_line(self, line as int),
            columns.start <= columns.end <= line_chars(self, line as int).len(),
        ensures
            loc.wf(),
            loc.file == self,
            loc.line == line,
            loc.start_column == columns.start,
            loc.end_column == columns.end,
    {
        SourceLocation::new(self, line, columns)
    }

    /// Line `line`, whole.
    pub fn full_line(&self, line: usize) -> (loc: SourceLocation<'_>)
        requires
            has_line(self, line as int),
        ensures
            loc.wf(),
            loc.file == self,
            loc.line == line,
            loc.start_column == 0,
            loc@ == line_chars(self, line as int),
    {
        SourceLocation::full_line(self, line)
    }
}

} // verus!
