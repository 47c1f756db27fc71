//! A location in a source text: a range of columns of one line.
use vstd::prelude::*;
use crate::chars::{
    class_prefix_len, class_suffix_len, in_class, is_in_class, is_symbol_char, lemma_class_prefix_len,
    lemma_class_suffix_len, spec_is_symbol_char, CharClass,
};
use crate::source::Source;

verus! {

/// A range of columns in one line of a source. Columns count characters from
/// the start of the line, not bytes of its UTF-8 text: on a line that holds
/// characters outside ASCII a column is smaller than the byte index of the
/// same place, and so is the position it gives in a report, which counts
/// characters as the line offsets do. The end column is exclusive.
#[derive(Clone, Copy, Debug, PartialEq, Eq)]
pub struct SourceLocation<'s> {
    pub file: &'s Source,
    pub line: usize,
    pub start_column: usize,
    pub end_column: usize,
    pub line_offset: usize,
}

/// The text of a line of a source, terminator included.
pub open spec fn line_chars(file: &Source, line: int) -> Seq<char> {
    file.lines@[line].text@
}

impl<'s> SourceLocation<'s> {
    /// The text of the line that holds this location.
    pub open spec fn line_text(self) -> Seq<char> {
        line_chars(self.file, self.line as int)
    }

    /// The location lies within its line, and knows the line's offset.
    pub open spec fn wf(self) -> bool {
        &&& self.line < self.file.lines@.len()
        &&& self.start_column <= self.end_column <= self.line_text().len()
        &&& self.line_offset == self.file.lines@[self.line as int].offset
    }

    /// A location of the same line with other columns.
    pub open spec fn with_columns(self, start: int, end: int) -> SourceLocation<'s> {
        SourceLocation { start_column: start as usize, end_column: end as usize, ..self }
    }

    /// The first character offset of this location in the whole text.
    pub open spec fn spec_span_start(self) -> int {
        self.line_offset + self.start_column
    }
}

impl<'s> View for SourceLocation<'s> {
    type V = Seq<char>;

    /// The characters that the location covers.
    open spec fn view(&self) -> Seq<char> {
        self.line_text().subrange(self.start_column as int, self.end_column as int)
    }
}

/// Whether the source has a line of index `line`.
pub open spec fn has_line(file: &Source, line: int) -> bool {
    0 <= line < file.lines@.len()
}

impl<'s> SourceLocation<'s> {
    /// The columns `columns` of line `line` of `file`.
    pub fn new(file: &'s Source, line: usize, columns: core::ops::Range<usize>) -> (loc: SourceLocation<'s>)
        requires
            has_line(file, line as int),
            columns.start <= columns.end <= line_chars(file, line as int).len(),
        ensures
            loc.wf(),
            loc.file == file,
            loc.line == line,
            loc.start_column == columns.start,
            loc.end_column == columns.end,
    {
        SourceLocation {
            file,
            line,
            start_column: columns.start,
            end_column: columns.end,
            line_offset: file.lines[line].offset,
        }
    }

    /// The whole line `line` of `file`, terminator included.
    pub fn full_line(file: &'s Source, line: usize) -> (loc: SourceLocation<'s>)
        requires
            has_line(file, line as int),
        ensures
            loc.wf(),
            loc.file == file,
            loc.line == line,
            loc.start_column == 0,
            loc.end_column == line_chars(file, line as int).len(),
            loc@ == line_chars(file, line as int),
    {
        let loc = SourceLocation {
            file,
            line,
            start_column: 0,
            end_column: file.lines[line].text.len(),
            line_offset: file.lines[line].offset,
        };
        assert(loc@ =~= line_chars(file, line as int));
        loc
    }

    /// The character offset of the start of this location in the whole text.
    pub fn span_start(&self) -> (n: usize)
        requires
            self.wf(),
            self.spec_span_start() <= usize::MAX,
        ensures
            n == self.spec_span_start(),
    {
        self.line_offset + self.start_column
    }

    /// The character offset just past the end of this location in the whole text.
    pub fn span_end(&self) -> (n: usize)
        requires
            self.wf(),
            self.line_offset + self.end_column <= usize::MAX,
        ensures
            n == self.line_offset + self.end_column,
    {
        self.line_offset + self.end_column
    }

    /// The characters that the location covers.
    pub fn text(&self) -> (s: Vec<char>)
        requires
            self.wf(),
        ensures
            s@ == self@,
    {
        let line = &self.file.lines[self.line].text;
        let mut s: Vec<char> = Vec::new();
        let mut i: usize = self.start_column;
        while i < self.end_column
            invariant
                self.wf(),
                    line@ == self.line_text(),
                self.start_column <= i <= self.end_column,
                s@ == self.line_text().subrange(self.start_column as int, i as int),
            decreases self.end_column - i,
        {
            s.push(line[i]);
            i += 1;
            assert(s@ =~= self.line_text().subrange(self.start_column as int, i as int));
        }
        s
    }

    /// The character at index `i` of the location.
    pub fn char_at(&self, i: usize) -> (c: char)
        requires
            self.wf(),
            i < self@.len(),
        ensures
            c == self@[i as int],
    {
        self.file.lines[self.line].text[self.start_column + i]
    }

    /// The number of characters the location covers.
    pub fn len(&self) -> (n: usize)
        requires
            self.wf(),
        ensures
            n == self@.len(),
    {
        self.end_column - self.start_column
    }

    /// Whether the location covers no character.
    pub fn is_empty(&self) -> (b: bool)
        requires
            self.wf(),
        ensures
            b == (self@.len() == 0),
    {
        self.start_column == self.end_column
    }

    /// The location shortened to at most `max_len` characters.
    pub fn truncate(self, max_len: usize) -> (loc: SourceLocation<'s>)
        requires
            self.wf(),
        ensures
            loc.wf(),
            loc.file == self.file && loc.line == self.line && loc.line_offset == self.line_offset,
            loc.start_column == self.start_column,
            loc.end_column <= self.end_column,
            loc == spec_truncate(self, max_len as int),
    {
        let mut loc = self;
        if self.len() > max_len {
            loc.end_column = self.start_column + max_len;
        }
        loc
    }

    /// The location widened by `by` characters on both sides.
    pub fn grow(self, by: usize) -> (loc: SourceLocation<'s>)
        requires
            self.wf(),
            self.start_column >= by,
            self.end_column + by <= self.line_text().len(),
        ensures
            loc.wf(),
            loc == spec_grow(self, by as int),
    {
        let line_len = self.file.lines[self.line].text.len();
        let mut loc = self;
        loc.start_column = self.start_column - by;
        loc.end_column = self.end_column + by;
        loc
    }

    /// The location widened by `by` characters to the left.
    pub fn grow_start(self, by: usize) -> (loc: SourceLocation<'s>)
        requires
            self.wf(),
            self.start_column >= by,
        ensures
            loc.wf(),
            loc == spec_grow_start(self, by as int),
    {
        let mut loc = self;
        loc.start_column = self.start_column - by;
        loc
    }

    /// The location widened by `by` characters to the right.
    pub fn grow_end(self, by: usize) -> (loc: SourceLocation<'s>)
        requires
            self.wf(),
            self.end_column + by <= self.line_text().len(),
        ensures
            loc.wf(),
            loc == self.with_columns(self.start_column as int, self.end_column + by),
    {
        let line_len = self.file.lines[self.line].text.len();
        let mut loc = self;
        loc.end_column = self.end_column + by;
        loc
    }

    /// Whether the location starts with the character `c`.
    pub fn starts_with_char(&self, c: char) -> (b: bool)
        requires
            self.wf(),
        ensures
            b == (self@.len() > 0 && self@[0] == c),
    {
        !self.is_empty() && self.char_at(0) == c
    }

    /// Whether the location starts with a character that may stand in a name.
    pub fn starts_with_symbol_char(&self) -> (b: bool)
        requires
            self.wf(),
        ensures
            b == (self@.len() > 0 && spec_is_symbol_char(self@[0])),
    {
        !self.is_empty() && is_symbol_char(self.char_at(0))
    }

    /// Whether the location starts with the characters `prefix`.
    pub fn starts_with_chars(&self, prefix: &[char]) -> (b: bool)
        requires
            self.wf(),
        ensures
            b == (prefix@.len() <= self@.len() && self@.subrange(0, prefix@.len() as int) == prefix@),
    {
        if prefix.len() > self.len() {
            return false;
        }
        let mut i: usize = 0;
        while i < prefix.len()
            invariant
                self.wf(),
                    prefix@.len() <= self@.len(),
                0 <= i <= prefix@.len(),
                forall|j: int| 0 <= j < i ==> self@[j] == prefix@[j],
            decreases prefix@.len() - i,
        {
            if self.char_at(i) != prefix[i] {
                assert(self@.subrange(0, prefix@.len() as int)[i as int] != prefix@[i as int]);
                return false;
            }
            i += 1;
        }
        assert(self@.subrange(0, prefix@.len() as int) =~= prefix@);
        true
    }

    /// Whether the location starts with the text `prefix`.
    pub fn starts_with(&self, prefix: &str) -> (b: bool)
        requires
            self.wf(),
        ensures
            b == (prefix@.len() <= self@.len() && self@.subrange(0, prefix@.len() as int) == prefix@),
    {
        let chars = str_chars(prefix);
        self.starts_with_chars(chars.as_slice())
    }

    /// Whether the location has the same text as `other`.
    pub fn same_text(&self, other: &SourceLocation) -> (b: bool)
        requires
            self.wf(),
            other.wf(),
        ensures
            b == (self@ == other@),
    {
        if self.len() != other.len() {
            return false;
        }
        let mut i: usize = 0;
        while i < self.len()
            invariant
                self.wf(),
                other.wf(),
                self@.len() == other@.len(),
                0 <= i <= self@.len(),
                forall|j: int| 0 <= j < i ==> self@[j] == other@[j],
            decreases self@.len() - i,
        {
            if self.char_at(i) != other.char_at(i) {
                return false;
            }
            i += 1;
        }
        assert(self@ =~= other@);
        true
    }

    /// Whether the location starts with the text of `other`.
    pub fn starts_with_text_of(&self, other: &SourceLocation) -> (b: bool)
        requires
            self.wf(),
            other.wf(),
        ensures
            b == (other@.len() <= self@.len() && self@.subrange(0, other@.len() as int) == other@),
    {
        if other.len() > self.len() {
            return false;
        }
        let mut i: usize = 0;
        while i < other.len()
            invariant
                self.wf(),
                other.wf(),
                other@.len() <= self@.len(),
                0 <= i <= other@.len(),
                forall|j: int| 0 <= j < i ==> self@[j] == other@[j],
            decreases other@.len() - i,
        {
            if self.char_at(i) != other.char_at(i) {
                assert(self@.subrange(0, other@.len() as int)[i as int] != other@[i as int]);
                return false;
            }
            i += 1;
        }
        assert(self@.subrange(0, other@.len() as int) =~= other@);
        true
    }

    /// Whether the text of the location is `text`.
    pub fn text_is(&self, text: &str) -> (b: bool)
        requires
            self.wf(),
        ensures
            b == (self@ == text@),
    {
        let chars = str_chars(text);
        if chars.len() != self.len() {
            return false;
        }
        let r = self.starts_with_chars(chars.as_slice());
        assert(self@.subrange(0, chars@.len() as int) =~= self@);
        r
    }

    /// The number of leading characters in `class`.
    fn prefix_len(&self, class: CharClass) -> (n: usize)
        requires
            self.wf(),
        ensures
            n == class_prefix_len(self@, class),
    {
        let mut i: usize = 0;
        while i < self.len() && is_in_class(self.char_at(i), class)
            invariant
                self.wf(),
                    0 <= i <= self@.len(),
                forall|j: int| 0 <= j < i ==> in_class(#[trigger] self@[j], class),
            decreases self@.len() - i,
        {
            i += 1;
        }
        proof {
            lemma_class_prefix_len(self@, class, i as int);
        }
        i
    }

    /// The number of trailing characters in `class`.
    fn suffix_len(&self, class: CharClass) -> (n: usize)
        requires
            self.wf(),
        ensures
            n == class_suffix_len(self@, class),
    {
        let len = self.len();
        let mut i: usize = 0;
        while i < len && is_in_class(self.char_at(len - 1 - i), class)
            invariant
                self.wf(),
                    len == self@.len(),
                0 <= i <= len,
                forall|j: int| len - i <= j < len ==> in_class(#[trigger] self@[j], class),
            decreases len - i,
        {
            i += 1;
        }
        proof {
            lemma_class_suffix_len(self@, class, i as int);
        }
        i
    }

    /// Splits the location into its longest prefix of characters in `class`
    /// and the rest.
    pub fn partition(self, class: CharClass) -> (parts: (SourceLocation<'s>, SourceLocation<'s>))
        requires
            self.wf(),
        ensures
            parts.0.wf(),
            parts.1.wf(),
            parts.0.file == self.file && parts.0.line == self.line && parts.0.line_offset == self.line_offset,
            parts.1.file == self.file && parts.1.line == self.line && parts.1.line_offset == self.line_offset,
            parts.0.start_column == self.start_column,
            parts.0.end_column == parts.1.start_column,
            parts.1.end_column == self.end_column,
            parts == spec_partition(self, class),
    {
        let n = self.prefix_len(class);
        proof {
            lemma_class_prefix_len(self@, class, n as int);
        }
        let mut matching = self;
        let mut rest = self;
        matching.end_column = self.start_column + n;
        rest.start_column = self.start_column + n;
        (matching, rest)
    }

    /// The location without its leading characters in `class`.
    pub fn trim_start_matches(self, class: CharClass) -> (loc: SourceLocation<'s>)
        requires
            self.wf(),
        ensures
            loc.wf(),
            loc.file == self.file && loc.line == self.line && loc.line_offset == self.line_offset,
            self.start_column <= loc.start_column <= loc.end_column <= self.end_column,
            loc.end_column == self.end_column,
            loc == spec_partition(self, class).1,
    {
        self.partition(class).1
    }

    /// The location without its leading whitespace.
    pub fn trim_start(self) -> (loc: SourceLocation<'s>)
        requires
            self.wf(),
        ensures
            loc.wf(),
            loc.file == self.file && loc.line == self.line && loc.line_offset == self.line_offset,
            self.start_column <= loc.start_column <= loc.end_column <= self.end_column,
            loc.end_column == self.end_column,
            loc == spec_trim_start(self),
    {
        self.trim_start_matches(CharClass::Whitespace)
    }

    /// The location without its leading and trailing characters of `class`;
    /// a location of such characters alone becomes empty at its start.
    pub fn trim_matches(self, class: CharClass) -> (loc: SourceLocation<'s>)
        requires
            self.wf(),
        ensures
            loc.wf(),
            loc.file == self.file && loc.line == self.line && loc.line_offset == self.line_offset,
            self.start_column <= loc.start_column <= loc.end_column <= self.end_column,
            loc == spec_trim_matches(self, class),
    {
        let lead = self.prefix_len(class);
        let mut loc = self;
        if lead == self.len() {
            loc.end_column = self.start_column;
        } else {
            let trail = self.suffix_len(class);
            proof {
                lemma_class_prefix_len(self@, class, lead as int);
                lemma_class_suffix_len(self@, class, trail as int);
                if lead + trail > self@.len() {
                    assert(in_class(self@[lead as int], class));
                }
            }
            loc.start_column = self.start_column + lead;
            loc.end_column = self.end_column - trail;
        }
        loc
    }

    /// The location without its leading and trailing whitespace; a location
    /// of whitespace alone becomes empty at its start.
    pub fn trim(self) -> (loc: SourceLocation<'s>)
        requires
            self.wf(),
        ensures
            loc.wf(),
            loc.file == self.file && loc.line == self.line && loc.line_offset == self.line_offset,
            self.start_column <= loc.start_column <= loc.end_column <= self.end_column,
            loc == spec_trim(self),
    {
        self.trim_matches(CharClass::Whitespace)
    }

    /// The leading whitespace of the location.
    pub fn take_while_whitespace(self) -> (loc: SourceLocation<'s>)
        requires
            self.wf(),
        ensures
            loc.wf(),
            loc.file == self.file && loc.line == self.line && loc.line_offset == self.line_offset,
            loc.start_column == self.start_column,
            loc.end_column <= self.end_column,
            loc == spec_partition(self, CharClass::Whitespace).0,
    {
        self.partition(CharClass::Whitespace).0
    }

    /// The location up to its first whitespace.
    pub fn take_until_whitespace(self) -> (loc: SourceLocation<'s>)
        requires
            self.wf(),
        ensures
            loc.wf(),
            loc.file == self.file && loc.line == self.line && loc.line_offset == self.line_offset,
            loc.start_column == self.start_column,
            loc.end_column <= self.end_column,
            loc == spec_take_until_whitespace(self),
    {
        self.partition(CharClass::NotWhitespace).0
    }

    /// The location after the character `c`, if it starts with `c`.
    pub fn strip_prefix_char(self, c: char) -> (loc: Option<SourceLocation<'s>>)
        requires
            self.wf(),
        ensures
            loc matches Some(l) ==> l.wf() && l.file == self.file && l.line == self.line && l.line_offset == self.line_offset && l.start_column == self.start_column + 1
                && l.end_column == self.end_column,
            loc == spec_strip_prefix(self, seq![c]),
    {
        if self.starts_with_char(c) {
            let mut loc = self;
            loc.start_column = self.start_column + 1;
            assert(self@.subrange(0, 1) =~= seq![c]);
            Some(loc)
        } else {
            proof {
                if self@.len() > 0 {
                    assert(self@.subrange(0, 1)[0] == self@[0]);
                }
            }
            None
        }
    }

    /// The location after the text `prefix`, if it starts with it.
    pub fn strip_prefix(self, prefix: &str) -> (loc: Option<SourceLocation<'s>>)
        requires
            self.wf(),
        ensures
            loc matches Some(l) ==> l.wf() && l.file == self.file && l.line == self.line && l.line_offset == self.line_offset && l.start_column == self.start_column + prefix@.len()
                && l.end_column == self.end_column,
            loc == spec_strip_prefix(self, prefix@),
    {
        let chars = str_chars(prefix);
        if self.starts_with_chars(chars.as_slice()) {
            let mut loc = self;
            loc.start_column = self.start_column + chars.len();
            Some(loc)
        } else {
            None
        }
    }

    /// The part of the location that is the text `prefix`, if it starts with it.
    pub fn take_prefix(self, prefix: &str) -> (loc: Option<SourceLocation<'s>>)
        requires
            self.wf(),
        ensures
            loc matches Some(l) ==> l.wf() && l.file == self.file && l.line == self.line && l.line_offset == self.line_offset && l.start_column == self.start_column
                && l.end_column == self.start_column + prefix@.len(),
            loc == spec_take_prefix(self, prefix@),
    {
        let chars = str_chars(prefix);
        if self.starts_with_chars(chars.as_slice()) {
            let mut loc = self;
            loc.end_column = self.start_column + chars.len();
            Some(loc)
        } else {
            None
        }
    }
}

/// Whether `loc` starts with `prefix`.
pub open spec fn spec_starts_with(loc: SourceLocation, prefix: Seq<char>) -> bool {
    prefix.len() <= loc@.len() && loc@.subrange(0, prefix.len() as int) == prefix
}

/// The longest prefix of `loc` in `class`, and the rest.
pub open spec fn spec_partition<'s>(loc: SourceLocation<'s>, class: CharClass) -> (SourceLocation<'s>, SourceLocation<'s>) {
    let n = class_prefix_len(loc@, class);
    (
        loc.with_columns(loc.start_column as int, loc.start_column + n),
        loc.with_columns(loc.start_column + n, loc.end_column as int),
    )
}

pub open spec fn spec_truncate<'s>(loc: SourceLocation<'s>, max_len: int) -> SourceLocation<'s> {
    if loc@.len() > max_len {
        loc.with_columns(loc.start_column as int, loc.start_column + max_len)
    } else {
        loc
    }
}

pub open spec fn spec_grow<'s>(loc: SourceLocation<'s>, by: int) -> SourceLocation<'s> {
    loc.with_columns(loc.start_column - by, loc.end_column + by)
}

pub open spec fn spec_grow_start<'s>(loc: SourceLocation<'s>, by: int) -> SourceLocation<'s> {
    loc.with_columns(loc.start_column - by, loc.end_column as int)
}

pub open spec fn spec_take_until_whitespace<'s>(loc: SourceLocation<'s>) -> SourceLocation<'s> {
    spec_partition(loc, CharClass::NotWhitespace).0
}

pub open spec fn spec_trim_start<'s>(loc: SourceLocation<'s>) -> SourceLocation<'s> {
    spec_partition(loc, CharClass::Whitespace).1
}

pub open spec fn spec_trim_matches<'s>(loc: SourceLocation<'s>, class: CharClass) -> SourceLocation<'s> {
    let lead = class_prefix_len(loc@, class);
    if lead == loc@.len() {
        loc.with_columns(loc.start_column as int, loc.start_column as int)
    } else {
        loc.with_columns(loc.start_column + lead, loc.end_column - class_suffix_len(loc@, class))
    }
}

pub open spec fn spec_trim<'s>(loc: SourceLocation<'s>) -> SourceLocation<'s> {
    spec_trim_matches(loc, CharClass::Whitespace)
}

pub open spec fn spec_strip_prefix<'s>(loc: SourceLocation<'s>, prefix: Seq<char>) -> Option<SourceLocation<'s>> {
    if spec_starts_with(loc, prefix) {
        Some(loc.with_columns(loc.start_column + prefix.len(), loc.end_column as int))
    } else {
        None
    }
}

pub open spec fn spec_take_prefix<'s>(loc: SourceLocation<'s>, prefix: Seq<char>) -> Option<SourceLocation<'s>> {
    if spec_starts_with(loc, prefix) {
        Some(loc.with_columns(loc.start_column as int, loc.start_column + prefix.len()))
    } else {
        None
    }
}

/// The characters of `s`.
pub(crate) fn str_chars(s: &str) -> (chars: Vec<char>)
    ensures
        chars@ == s@,
{
    broadcast use vstd::string::axiom_spec_iter;
    let mut chars: Vec<char> = Vec::new();
    for c in it: s.chars()
        invariant
            it.seq() == s@,
            chars@ == it.seq().take(it.index() as int),
    {
        chars.push(c);
    }
    assert(chars@ =~= s@);
    chars
}

} // verus!
