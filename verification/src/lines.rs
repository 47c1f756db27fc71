//! A range of whole lines of a source, with the indentation that the lines of
//! the context being read share.
use vstd::prelude::*;
use crate::location::{has_line, line_chars, SourceLocation};
use crate::source::Source;

verus! {

/// The lines `start_line .. end_line` of a source.
#[derive(Clone, Copy, Debug, PartialEq, Eq)]
pub struct SourceLocationLines<'s> {
    pub file: &'s Source,
    /// inclusive start bound
    pub start_line: usize,
    /// exclusive end bound
    pub end_line: usize,
    pub reference_indentation: Option<SourceLocation<'s>>,
}

impl<'s> SourceLocationLines<'s> {
    pub open spec fn wf(self) -> bool {
        &&& self.start_line <= self.end_line <= self.file.lines@.len()
        &&& self.reference_indentation matches Some(r) ==> r.wf()
    }

    /// The number of lines spanned.
    pub open spec fn spec_len(self) -> int {
        self.end_line - self.start_line
    }

    /// The first line, whole.
    pub open spec fn spec_first(self) -> SourceLocation<'s> {
        SourceLocation {
            file: self.file,
            line: self.start_line,
            start_column: 0,
            end_column: line_chars(self.file, self.start_line as int).len() as usize,
            line_offset: self.file.lines@[self.start_line as int].offset,
        }
    }

    /// The lines without the first one.
    pub open spec fn spec_advance(self) -> SourceLocationLines<'s> {
        SourceLocationLines { start_line: (self.start_line + 1) as usize, ..self }
    }

    pub open spec fn spec_with_reference_indentation(self, indentation: SourceLocation<'s>) -> SourceLocationLines<'s> {
        SourceLocationLines { reference_indentation: Some(indentation), ..self }
    }

    /// All lines of `file`, with no reference indentation.
    pub fn top_level(file: &'s Source) -> (lines: SourceLocationLines<'s>)
        ensures
            lines.wf(),
            lines == (SourceLocationLines {
                file,
                start_line: 0,
                end_line: file.lines@.len() as usize,
                reference_indentation: None,
            }),
    {
        SourceLocationLines { file, start_line: 0, end_line: file.lines.len(), reference_indentation: None }
    }

    /// Number of lines spanned by this location.
    pub fn len(&self) -> (n: usize)
        requires
            self.wf(),
        ensures
            n == self.spec_len(),
    {
        self.end_line - self.start_line
    }

    pub fn is_empty(&self) -> (b: bool)
        requires
            self.wf(),
        ensures
            b == (self.spec_len() == 0),
    {
        self.start_line == self.end_line
    }

    /// The first line, if there is one.
    pub fn first(&self) -> (line: Option<SourceLocation<'s>>)
        requires
            self.wf(),
        ensures
            line == (if self.spec_len() == 0 { None } else { Some(self.spec_first()) }),
            line matches Some(l) ==> l.wf(),
    {
        if self.is_empty() {
            None
        } else {
            assert(has_line(self.file, self.start_line as int));
            Some(SourceLocation::full_line(self.file, self.start_line))
        }
    }

    /// The first line of lines that are not empty.
    pub fn first_line(&self) -> (line: SourceLocation<'s>)
        requires
            self.wf(),
            self.spec_len() > 0,
        ensures
            line == self.spec_first(),
            line.wf(),
    {
        assert(has_line(self.file, self.start_line as int));
        SourceLocation::full_line(self.file, self.start_line)
    }

    /// Lines that are not empty, without the first one.
    pub fn advance_line(self) -> (lines: SourceLocationLines<'s>)
        requires
            self.wf(),
            self.spec_len() > 0,
        ensures
            lines == self.spec_advance(),
            lines.wf(),
    {
        let mut lines = self;
        lines.start_line = self.start_line + 1;
        lines
    }

    /// The lines without the first one, if there is one.
    pub fn advance(self) -> (lines: Option<SourceLocationLines<'s>>)
        requires
            self.wf(),
        ensures
            lines == (if self.spec_len() == 0 { None } else { Some(self.spec_advance()) }),
            lines matches Some(l) ==> l.wf(),
    {
        if self.is_empty() {
            None
        } else {
            let mut lines = self;
            lines.start_line = self.start_line + 1;
            Some(lines)
        }
    }

    pub fn with_reference_indentation(self, reference_indentation: SourceLocation<'s>) -> (lines: SourceLocationLines<'s>)
        requires
            self.wf(),
            reference_indentation.wf(),
        ensures
            lines.wf(),
            lines == self.spec_with_reference_indentation(reference_indentation),
    {
        let mut lines = self;
        lines.reference_indentation = Some(reference_indentation);
        lines
    }
}

} // verus!
