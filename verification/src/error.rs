//! What the parser reports when a line does not read.
use vstd::prelude::*;
use crate::location::SourceLocation;

verus! {

/// The colour a label of a report is drawn in.
#[derive(Debug, Clone, Copy, PartialEq, Eq)]
pub enum LabelColor {
    Cyan,
    BrightRed,
}

/// A label of a report: a place in the text, what is said of it, and its colour.
#[derive(Debug, Clone, Copy)]
pub struct ReportLabel<'s> {
    pub location: SourceLocation<'s>,
    pub message: &'static str,
    pub color: LabelColor,
}

#[derive(Debug, Clone, Copy)]
pub enum ParseError<'s> {
    IndentationMismatch { expected_indentation: SourceLocation<'s>, actual_indentation: SourceLocation<'s> },
    UnexpectedIndentation { indentation: SourceLocation<'s> },
    ReservedSymbol { location: SourceLocation<'s> },
    ExpectedSignatureStatement { location: SourceLocation<'s> },
    ExpectedFunctionStatement { location: SourceLocation<'s> },
    ExpectedSignatureOrFunction { location: SourceLocation<'s> },
    ExpectedSignature { location: SourceLocation<'s> },
    ExpectedFunction { location: SourceLocation<'s> },
    ExpectedClosingParen { location: SourceLocation<'s> },
    ExpectedEndOfLine { location: SourceLocation<'s> },
    ExpectedEquals { location: SourceLocation<'s> },
    ExpectedSignatureAssignmentRhs { location: SourceLocation<'s> },
    ExpectedTo { location: SourceLocation<'s> },
    ExpectedAsOrTo { location: SourceLocation<'s> },
    ExpectedFunctionAssignmentRhs { location: SourceLocation<'s> },
    ExpectedFromOrSignatureOrEndOfLine { location: SourceLocation<'s> },
    ExpectedFromOrSignatureOrFunction { location: SourceLocation<'s> },
    ExpectedUsingOrEndOfLine { location: SourceLocation<'s> },
    ExpectedFrom { location: SourceLocation<'s> },
    ExpectedUsingOrFunctionOrEndOfLine { location: SourceLocation<'s> },
    ExpectedFunctionOrEndOfLine { location: SourceLocation<'s> },
    GiveInSignatureContext { location: SourceLocation<'s> },
    ConjureInFunctionContext { location: SourceLocation<'s> },
}

impl<'s> ParseError<'s> {
    /// The location the report is about: the actual indentation for an
    /// indentation mismatch, else the one location the error holds.
    pub open spec fn spec_location(self) -> SourceLocation<'s> {
        match self {
            ParseError::IndentationMismatch { actual_indentation, .. } => actual_indentation,
            ParseError::UnexpectedIndentation { indentation } => indentation,
            ParseError::ReservedSymbol { location } => location,
            ParseError::ExpectedSignatureStatement { location } => location,
            ParseError::ExpectedFunctionStatement { location } => location,
            ParseError::ExpectedSignatureOrFunction { location } => location,
            ParseError::ExpectedSignature { location } => location,
            ParseError::ExpectedFunction { location } => location,
            ParseError::ExpectedClosingParen { location } => location,
            ParseError::ExpectedEndOfLine { location } => location,
            ParseError::ExpectedEquals { location } => location,
            ParseError::ExpectedSignatureAssignmentRhs { location } => location,
            ParseError::ExpectedTo { location } => location,
            ParseError::ExpectedAsOrTo { location } => location,
            ParseError::ExpectedFunctionAssignmentRhs { location } => location,
            ParseError::ExpectedFromOrSignatureOrEndOfLine { location } => location,
            ParseError::ExpectedFromOrSignatureOrFunction { location } => location,
            ParseError::ExpectedUsingOrEndOfLine { location } => location,
            ParseError::ExpectedFrom { location } => location,
            ParseError::ExpectedUsingOrFunctionOrEndOfLine { location } => location,
            ParseError::ExpectedFunctionOrEndOfLine { location } => location,
            ParseError::GiveInSignatureContext { location } => location,
            ParseError::ConjureInFunctionContext { location } => location,
        }
    }

    /// All locations the error holds lie within their lines.
    pub open spec fn wf(self) -> bool {
        match self {
            ParseError::IndentationMismatch { expected_indentation, actual_indentation } =>
                expected_indentation.wf() && actual_indentation.wf(),
            _ => self.spec_location().wf(),
        }
    }

    /// The location the report is about.
    pub fn location(&self) -> (loc: SourceLocation<'s>)
        ensures
            loc == self.spec_location(),
    {
        match *self {
            ParseError::IndentationMismatch { actual_indentation, .. } => actual_indentation,
            ParseError::UnexpectedIndentation { indentation } => indentation,
            ParseError::ReservedSymbol { location } => location,
            ParseError::ExpectedSignatureStatement { location } => location,
            ParseError::ExpectedFunctionStatement { location } => location,
            ParseError::ExpectedSignatureOrFunction { location } => location,
            ParseError::ExpectedSignature { location } => location,
            ParseError::ExpectedFunction { location } => location,
            ParseError::ExpectedClosingParen { location } => location,
            ParseError::ExpectedEndOfLine { location } => location,
            ParseError::ExpectedEquals { location } => location,
            ParseError::ExpectedSignatureAssignmentRhs { location } => location,
            ParseError::ExpectedTo { location } => location,
            ParseError::ExpectedAsOrTo { location } => location,
            ParseError::ExpectedFunctionAssignmentRhs { location } => location,
            ParseError::ExpectedFromOrSignatureOrEndOfLine { location } => location,
            ParseError::ExpectedFromOrSignatureOrFunction { location } => location,
            ParseError::ExpectedUsingOrEndOfLine { location } => location,
            ParseError::ExpectedFrom { location } => location,
            ParseError::ExpectedUsingOrFunctionOrEndOfLine { location } => location,
            ParseError::ExpectedFunctionOrEndOfLine { location } => location,
            ParseError::GiveInSignatureContext { location } => location,
            ParseError::ConjureInFunctionContext { location } => location,
        }
    }

    /// The headline of the report.
    pub fn message(&self) -> (m: &'static str)
        ensures
            self is IndentationMismatch ==> m@ == "indentation mismatch"@,
            self is UnexpectedIndentation ==> m@ == "unexpected indentation"@,
            self is ReservedSymbol ==> m@ == "reserved symbol used as function or signature name"@,
            self is ExpectedSignatureStatement ==> m@ == "expected assignment or 'conjure' keyword"@,
            self is ExpectedFunctionStatement ==> m@ == "expected assignment or 'give' keyword"@,
            self is ExpectedSignatureOrFunction ==> m@ == "expected signature or function"@,
            self is ExpectedSignature ==> m@ == "expected signature"@,
            self is ExpectedFunction ==> m@ == "expected function"@,
            self is ExpectedClosingParen ==> m@ == "expected ')'"@,
            self is ExpectedEndOfLine ==> m@ == "expected end of line"@,
            self is ExpectedUsingOrEndOfLine ==> m@ == "expected 'using' keyword or end of line"@,
            self is ExpectedEquals ==> m@ == "expected '='"@,
            self is ExpectedSignatureAssignmentRhs ==> m@ == "expected 'define', 'give', 'take' or 'conjure' keyword"@,
            self is ExpectedFunctionAssignmentRhs ==> m@ == "expected 'define', 'give', 'take' or 'conjure' keyword"@,
            self is ExpectedTo ==> m@ == "expected 'to' keyword"@,
            self is ExpectedAsOrTo ==> m@ == "expected 'as' or 'to' keyword"@,
            self is ExpectedFromOrSignatureOrEndOfLine ==> m@ == "expected 'from' keyword, signature or end of line"@,
            self is ExpectedFromOrSignatureOrFunction ==> m@ == "expected 'from' keyword, signature or function"@,
            self is ExpectedFrom ==> m@ == "expected 'from' keyword"@,
            self is ExpectedUsingOrFunctionOrEndOfLine ==> m@ == "expected 'using' keyword, function or end of line"@,
            self is ExpectedFunctionOrEndOfLine ==> m@ == "expected function or end of line"@,
            self is GiveInSignatureContext ==> m@ == "'give' statements cannot be used in signature contexts"@,
            self is ConjureInFunctionContext ==> m@ == "'conjure' statements cannot be used in function contexts"@,
    {
        match self {
            ParseError::IndentationMismatch { .. } => "indentation mismatch",
            ParseError::UnexpectedIndentation { .. } => "unexpected indentation",
            ParseError::ReservedSymbol { .. } => "reserved symbol used as function or signature name",
            ParseError::ExpectedSignatureStatement { .. } => "expected assignment or 'conjure' keyword",
            ParseError::ExpectedFunctionStatement { .. } => "expected assignment or 'give' keyword",
            ParseError::ExpectedSignatureOrFunction { .. } => "expected signature or function",
            ParseError::ExpectedSignature { .. } => "expected signature",
            ParseError::ExpectedFunction { .. } => "expected function",
            ParseError::ExpectedClosingParen { .. } => "expected ')'",
            ParseError::ExpectedEndOfLine { .. } => "expected end of line",
            ParseError::ExpectedUsingOrEndOfLine { .. } => "expected 'using' keyword or end of line",
            ParseError::ExpectedEquals { .. } => "expected '='",
            ParseError::ExpectedSignatureAssignmentRhs { .. } => "expected 'define', 'give', 'take' or 'conjure' keyword",
            ParseError::ExpectedFunctionAssignmentRhs { .. } => "expected 'define', 'give', 'take' or 'conjure' keyword",
            ParseError::ExpectedTo { .. } => "expected 'to' keyword",
            ParseError::ExpectedAsOrTo { .. } => "expected 'as' or 'to' keyword",
            ParseError::ExpectedFromOrSignatureOrEndOfLine { .. } => "expected 'from' keyword, signature or end of line",
            ParseError::ExpectedFromOrSignatureOrFunction { .. } => "expected 'from' keyword, signature or function",
            ParseError::ExpectedFrom { .. } => "expected 'from' keyword",
            ParseError::ExpectedUsingOrFunctionOrEndOfLine { .. } => "expected 'using' keyword, function or end of line",
            ParseError::ExpectedFunctionOrEndOfLine { .. } => "expected function or end of line",
            ParseError::GiveInSignatureContext { .. } => "'give' statements cannot be used in signature contexts",
            ParseError::ConjureInFunctionContext { .. } => "'conjure' statements cannot be used in function contexts",
        }
    }

    /// The labels of the report, in order: for an indentation mismatch the
    /// actual indentation in bright red, then the expected one in cyan; for
    /// any other error its location, in cyan, marked "here".
    pub fn labels(&self) -> (r: Vec<ReportLabel<'s>>)
        ensures
            match *self {
                ParseError::IndentationMismatch { expected_indentation, actual_indentation } => {
                    &&& r@.len() == 2
                    &&& r@[0].location == actual_indentation
                    &&& r@[0].message@ == "this indentation..."@
                    &&& r@[0].color == LabelColor::BrightRed
                    &&& r@[1].location == expected_indentation
                    &&& r@[1].message@ == "... should be like this"@
                    &&& r@[1].color == LabelColor::Cyan
                },
                _ => {
                    &&& r@.len() == 1
                    &&& r@[0].location == self.spec_location()
                    &&& r@[0].message@ == "here"@
                    &&& r@[0].color == LabelColor::Cyan
                },
            },
    {
        let mut r: Vec<ReportLabel<'s>> = Vec::new();
        match *self {
            ParseError::IndentationMismatch { expected_indentation, actual_indentation } => {
                r.push(ReportLabel { location: actual_indentation, message: "this indentation...", color: LabelColor::BrightRed });
                r.push(ReportLabel { location: expected_indentation, message: "... should be like this", color: LabelColor::Cyan });
            },
            _ => {
                r.push(ReportLabel { location: self.location(), message: "here", color: LabelColor::Cyan });
            },
        }
        r
    }
}

} // verus!
