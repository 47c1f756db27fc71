//! The parser: reads a source, line by line, into contexts of statements.
//! Nested contexts (after `define`) are indented deeper than the line that
//! opens them; empty lines and lines starting with `#` are skipped.
use vstd::prelude::*;
use crate::chars::{
    char_is_whitespace, class_prefix_len, in_class, is_symbol_char, lemma_class_prefix_len, spec_is_symbol_char, CharClass,
};
use crate::error::ParseError;
use crate::lines::SourceLocationLines;
use crate::source::Source;
use crate::location::{
    spec_grow, spec_grow_start, spec_partition, spec_starts_with, spec_strip_prefix, spec_take_prefix,
    spec_take_until_whitespace, spec_trim, spec_trim_start, spec_truncate, SourceLocation,
};
use crate::syntax::{
    dependencies_wf, function_statement_wf, signature_statement_wf, ConjureDependencies, ConjureDependency,
    ConjureFunction, ConjureSignature, ForeignFunction, ForeignSignature, Function, FunctionAssignmentRhs,
    FunctionStatement, GiveFunction, GiveFunctionToFunction, GiveFunctionToSignature, GiveSignature,
    GiveSignatureToFunction, GiveSignatureToSignature, List, Signature, SignatureAssignmentRhs, SignatureStatement,
    TakeFunction, TakeFunctionFrom, TakeSignature, TakeSignatureFrom, DefineSignature, DefineFunction,
    SignatureContext, FunctionContext, SignatureAssignment, FunctionAssignment, signature_statements_wf,
    function_statements_wf, signature_assignment_wf, function_assignment_wf,
};

verus! {

/// A parse of part of a line: what is left of the line, and what was read.
pub type LocationParseResult<'s, T> = Result<(SourceLocation<'s>, T), ParseError<'s>>;

/// A parse of lines: the lines that are left, and what was read.
pub type LinesParseResult<'s, T> = Result<(SourceLocationLines<'s>, T), ParseError<'s>>;

/// Names that cannot name a signature or a function.
pub open spec fn is_reserved(name: Seq<char>) -> bool {
    name == "define"@ || name == "take"@ || name == "give"@ || name == "conjure"@
}

/// A location that is what is left of `input` after reading from its start:
/// the same line and end, and a start no further left.
pub open spec fn is_rest_of<'s>(rest: SourceLocation<'s>, input: SourceLocation<'s>) -> bool {
    &&& rest.wf()
    &&& rest.file == input.file
    &&& rest.line == input.line
    &&& rest.line_offset == input.line_offset
    &&& rest.end_column == input.end_column
    &&& input.start_column <= rest.start_column
}

pub open spec fn spec_parse_symbol<'s>(location: SourceLocation<'s>) -> LocationParseResult<'s, SourceLocation<'s>> {
    let (symbol, rest) = spec_partition(location, CharClass::Symbol);
    if symbol@.len() == 0 {
        Err(ParseError::ExpectedSignatureOrFunction { location: spec_take_until_whitespace(rest) })
    } else if is_reserved(symbol@) {
        Err(ParseError::ReservedSymbol { location: symbol })
    } else {
        Ok((rest, symbol))
    }
}

/// Reads a name: the longest run of symbol characters at the start, which
/// must not be empty nor a keyword.
pub fn parse_symbol<'s>(location: SourceLocation<'s>) -> (res: LocationParseResult<'s, SourceLocation<'s>>)
    requires
        location.wf(),
    ensures
        res == spec_parse_symbol(location),
        res matches Ok((rest, symbol)) ==> is_rest_of(rest, location) && rest.start_column > location.start_column
            && symbol.wf() && symbol.line == location.line && symbol.file == location.file
            && symbol.start_column == location.start_column && symbol.end_column == rest.start_column,
        res matches Err(e) ==> e.wf(),
        res matches Err(ParseError::ExpectedSignatureOrFunction { location: l }) ==> l.start_column
            == location.start_column,
{
    let (symbol, location) = location.partition(CharClass::Symbol);
    if symbol.is_empty() {
        let location = location.take_until_whitespace();
        Err(ParseError::ExpectedSignatureOrFunction { location })
    } else if symbol.text_is("define") || symbol.text_is("take") || symbol.text_is("give") || symbol.text_is(
        "conjure",
    ) {
        Err(ParseError::ReservedSymbol { location: symbol })
    } else {
        Ok((location, symbol))
    }
}

pub open spec fn spec_parse_signature<'s>(location: SourceLocation<'s>) -> LocationParseResult<'s, Signature<'s>> {
    match spec_strip_prefix(location, seq!['(']) {
        Some(location) => match spec_parse_symbol(location) {
            Ok((location, symbol)) => match spec_strip_prefix(location, seq![')']) {
                Some(location) => Ok((location, Signature { with_parens: spec_grow(symbol, 1), symbol })),
                None => Err(ParseError::ExpectedClosingParen { location: spec_truncate(location, 1) }),
            },
            Err(ParseError::ExpectedSignatureOrFunction { location }) => Err(
                ParseError::ExpectedSignature { location: spec_grow_start(location, 1) },
            ),
            Err(other) => Err(other),
        },
        None => Err(ParseError::ExpectedSignature { location: spec_take_until_whitespace(location) }),
    }
}

/// Reads a signature: a name in parentheses.
pub fn parse_signature<'s>(location: SourceLocation<'s>) -> (res: LocationParseResult<'s, Signature<'s>>)
    requires
        location.wf(),
    ensures
        res == spec_parse_signature(location),
        res matches Ok((rest, signature)) ==> is_rest_of(rest, location) && rest.start_column > location.start_column
            && signature.wf(),
        res matches Err(e) ==> e.wf(),
{
    if let Some(location) = location.strip_prefix_char('(') {
        match parse_symbol(location) {
            Ok((location, symbol)) => {
                if let Some(location) = location.strip_prefix_char(')') {
                    let signature = Signature { with_parens: symbol.grow(1), symbol };
                    Ok((location, signature))
                } else {
                    let location = location.truncate(1);
                    Err(ParseError::ExpectedClosingParen { location })
                }
            },
            Err(ParseError::ExpectedSignatureOrFunction { location: error_location }) => {
                let error_location = error_location.grow_start(1);
                Err(ParseError::ExpectedSignature { location: error_location })
            },
            Err(other) => Err(other),
        }
    } else {
        let location = location.take_until_whitespace();
        Err(ParseError::ExpectedSignature { location })
    }
}

pub open spec fn spec_parse_function<'s>(location: SourceLocation<'s>) -> LocationParseResult<'s, Function<'s>> {
    match spec_parse_symbol(location) {
        Ok((location, symbol)) => Ok((location, Function { symbol })),
        Err(ParseError::ExpectedSignatureOrFunction { location }) => Err(ParseError::ExpectedFunction { location }),
        Err(other) => Err(other),
    }
}

/// Reads a function: a name.
pub fn parse_function<'s>(location: SourceLocation<'s>) -> (res: LocationParseResult<'s, Function<'s>>)
    requires
        location.wf(),
    ensures
        res == spec_parse_function(location),
        res matches Ok((rest, function)) ==> is_rest_of(rest, location) && rest.start_column > location.start_column
            && function.wf(),
        res matches Err(e) ==> e.wf(),
{
    match parse_symbol(location) {
        Ok((location, symbol)) => Ok((location, Function { symbol })),
        Err(ParseError::ExpectedSignatureOrFunction { location }) => Err(ParseError::ExpectedFunction { location }),
        Err(other) => Err(other),
    }
}

pub open spec fn spec_parse_conjure_dependency<'s>(location: SourceLocation<'s>) -> LocationParseResult<'s, ConjureDependency<'s>> {
    if spec_starts_with(location, seq!['(']) {
        match spec_parse_signature(location) {
            Ok((location, signature)) => Ok((location, ConjureDependency::Signature(signature))),
            Err(e) => Err(e),
        }
    } else if location@.len() > 0 && spec_is_symbol_char(location@[0]) {
        match spec_parse_function(location) {
            Ok((location, function)) => Ok((location, ConjureDependency::Function(function))),
            Err(e) => Err(e),
        }
    } else {
        Err(ParseError::ExpectedSignatureOrFunction { location: spec_take_until_whitespace(location) })
    }
}

/// Reads one dependency of a conjuration: a signature or a function.
pub fn parse_conjure_dependency<'s>(location: SourceLocation<'s>) -> (res: LocationParseResult<'s, ConjureDependency<'s>>)
    requires
        location.wf(),
    ensures
        res == spec_parse_conjure_dependency(location),
        res matches Ok((rest, dependency)) ==> is_rest_of(rest, location) && rest.start_column > location.start_column
            && dependency.wf(),
        res matches Err(e) ==> e.wf(),
{
    if location.starts_with_char('(') {
        assert(location@.subrange(0, 1) =~= seq![location@[0]]);
        let (location, signature) = parse_signature(location)?;
        Ok((location, ConjureDependency::Signature(signature)))
    } else if location.starts_with_symbol_char() {
        assert(!spec_starts_with(location, seq!['('])) by {
            if spec_starts_with(location, seq!['(']) {
                assert(location@.subrange(0, 1)[0] == location@[0]);
            }
        }
        let (location, function) = parse_function(location)?;
        Ok((location, ConjureDependency::Function(function)))
    } else {
        assert(!spec_starts_with(location, seq!['('])) by {
            if spec_starts_with(location, seq!['(']) {
                assert(location@.subrange(0, 1)[0] == location@[0]);
            }
        }
        let location = location.take_until_whitespace();
        Err(ParseError::ExpectedSignatureOrFunction { location })
    }
}

/// The dependencies that follow the first one: each after whitespace, until
/// only whitespace is left.
pub open spec fn spec_parse_more_conjure_dependencies<'s>(location: SourceLocation<'s>) -> LocationParseResult<
    's,
    ConjureDependencies<'s>,
>
    decreases location.end_column - location.start_column,
{
    if spec_trim_start(location)@.len() == 0 {
        Ok((location, List::Nil))
    } else {
        let trimmed = spec_trim_start(location);
        match spec_parse_conjure_dependency(trimmed) {
            Ok((rest, next)) => if rest.start_column > location.start_column && rest.end_column == location.end_column
                && rest.start_column <= rest.end_column {
                match spec_parse_more_conjure_dependencies(rest) {
                    Ok((rest, more)) => Ok((rest, List::Cons(Box::new(next), Box::new(more)))),
                    Err(e) => Err(e),
                }
            } else {
                Ok((rest, List::Nil))
            },
            Err(e) => Err(e),
        }
    }
}

fn parse_more_conjure_dependencies<'s>(location: SourceLocation<'s>) -> (res: LocationParseResult<'s, ConjureDependencies<'s>>)
    requires
        location.wf(),
    ensures
        res == spec_parse_more_conjure_dependencies(location),
        res matches Ok((rest, dependencies)) ==> is_rest_of(rest, location) && dependencies_wf(dependencies),
        res matches Err(e) ==> e.wf(),
    decreases location.end_column - location.start_column,
{
    let trimmed = location.trim_start();
    if trimmed.is_empty() {
        Ok((location, List::Nil))
    } else {
        let (rest, next) = parse_conjure_dependency(trimmed)?;
        let (rest, more) = parse_more_conjure_dependencies(rest)?;
        Ok((rest, List::Cons(Box::new(next), Box::new(more))))
    }
}

pub open spec fn spec_parse_conjure_dependencies<'s>(location: SourceLocation<'s>) -> LocationParseResult<'s, ConjureDependencies<'s>> {
    match spec_strip_prefix(location, "using"@) {
        Some(location) => {
            let location = spec_trim_start(location);
            match spec_parse_conjure_dependency(location) {
                Ok((location, first)) => match spec_parse_more_conjure_dependencies(location) {
                    Ok((location, more)) => Ok((location, List::Cons(Box::new(first), Box::new(more)))),
                    Err(e) => Err(e),
                },
                Err(e) => Err(e),
            }
        },
        None => Ok((location, List::Nil)),
    }
}

/// Reads `using` and the dependencies after it, or nothing.
pub fn parse_conjure_dependencies<'s>(location: SourceLocation<'s>) -> (res: LocationParseResult<'s, ConjureDependencies<'s>>)
    requires
        location.wf(),
    ensures
        res == spec_parse_conjure_dependencies(location),
        res matches Ok((rest, dependencies)) ==> is_rest_of(rest, location) && dependencies_wf(dependencies),
        res matches Err(e) ==> e.wf(),
{
    if let Some(location) = location.strip_prefix("using") {
        let location = location.trim_start();
        let (location, first) = parse_conjure_dependency(location)?;
        let (location, more) = parse_more_conjure_dependencies(location)?;
        Ok((location, List::Cons(Box::new(first), Box::new(more))))
    } else {
        Ok((location, List::Nil))
    }
}

pub open spec fn spec_parse_maybe_as_signature<'s>(location: SourceLocation<'s>, implicit: Signature<'s>) -> LocationParseResult<'s, ForeignSignature<'s>> {
    match spec_strip_prefix(location, "as"@) {
        Some(location) => match spec_parse_signature(spec_trim_start(location)) {
            Ok((location, signature)) => Ok((location, ForeignSignature::Explicit(signature))),
            Err(e) => Err(e),
        },
        None => Ok((location, ForeignSignature::Implicit(implicit))),
    }
}

/// Reads `as` and a signature, or nothing (then the name is `implicit`'s).
pub fn parse_maybe_as_signature<'s>(location: SourceLocation<'s>, implicit: Signature<'s>) -> (res: LocationParseResult<'s, ForeignSignature<'s>>)
    requires
        location.wf(),
        implicit.wf(),
    ensures
        res == spec_parse_maybe_as_signature(location, implicit),
        res matches Ok((rest, foreign)) ==> is_rest_of(rest, location) && foreign.wf(),
        res matches Err(e) ==> e.wf(),
{
    if let Some(location) = location.strip_prefix("as") {
        let location = location.trim_start();
        let (location, signature) = parse_signature(location)?;
        Ok((location, ForeignSignature::Explicit(signature)))
    } else {
        Ok((location, ForeignSignature::Implicit(implicit)))
    }
}

pub open spec fn spec_parse_maybe_as_function<'s>(location: SourceLocation<'s>, implicit: Function<'s>) -> LocationParseResult<'s, ForeignFunction<'s>> {
    match spec_strip_prefix(location, "as"@) {
        Some(location) => match spec_parse_function(spec_trim_start(location)) {
            Ok((location, function)) => Ok((location, ForeignFunction::Explicit(function))),
            Err(e) => Err(e),
        },
        None => Ok((location, ForeignFunction::Implicit(implicit))),
    }
}

/// Reads `as` and a function, or nothing (then the name is `implicit`'s).
pub fn parse_maybe_as_function<'s>(location: SourceLocation<'s>, implicit: Function<'s>) -> (res: LocationParseResult<'s, ForeignFunction<'s>>)
    requires
        location.wf(),
        implicit.wf(),
    ensures
        res == spec_parse_maybe_as_function(location, implicit),
        res matches Ok((rest, foreign)) ==> is_rest_of(rest, location) && foreign.wf(),
        res matches Err(e) ==> e.wf(),
{
    if let Some(location) = location.strip_prefix("as") {
        let location = location.trim_start();
        let (location, function) = parse_function(location)?;
        Ok((location, ForeignFunction::Explicit(function)))
    } else {
        Ok((location, ForeignFunction::Implicit(implicit)))
    }
}

pub open spec fn spec_parse_give_signature_statement<'s>(location: SourceLocation<'s>, statement_location: SourceLocation<'s>) -> Result<FunctionStatement<'s>, ParseError<'s>> {
    match spec_parse_signature(location) {
        Ok((location, signature)) => {
            let location = spec_trim_start(location);
            if location@.len() != 0 {
                Err(ParseError::ExpectedEndOfLine { location })
            } else {
                Ok(FunctionStatement::GiveSignature(GiveSignature { signature, location: statement_location }))
            }
        },
        Err(e) => Err(e),
    }
}

/// Reads the rest of `give (S)`: the signature, then the end of the line.
pub fn parse_give_signature_statement<'s>(location: SourceLocation<'s>, statement_location: SourceLocation<'s>) -> (res: Result<FunctionStatement<'s>, ParseError<'s>>)
    requires
        location.wf(),
        statement_location.wf(),
    ensures
        res == spec_parse_give_signature_statement(location, statement_location),
        res matches Ok(statement) ==> function_statement_wf(statement),
        res matches Err(e) ==> e.wf(),
{
    let (location, signature) = parse_signature(location)?;
    let location = location.trim_start();
    if !location.is_empty() {
        Err(ParseError::ExpectedEndOfLine { location })
    } else {
        Ok(FunctionStatement::GiveSignature(GiveSignature { signature, location: statement_location }))
    }
}

pub open spec fn spec_parse_give_function_statement<'s>(location: SourceLocation<'s>, statement_location: SourceLocation<'s>) -> Result<FunctionStatement<'s>, ParseError<'s>> {
    match spec_parse_function(location) {
        Ok((location, function)) => {
            let location = spec_trim_start(location);
            if location@.len() != 0 {
                Err(ParseError::ExpectedEndOfLine { location })
            } else {
                Ok(FunctionStatement::GiveFunction(GiveFunction { function, location: statement_location }))
            }
        },
        Err(e) => Err(e),
    }
}

/// Reads the rest of `give f`: the function, then the end of the line.
pub fn parse_give_function_statement<'s>(location: SourceLocation<'s>, statement_location: SourceLocation<'s>) -> (res: Result<FunctionStatement<'s>, ParseError<'s>>)
    requires
        location.wf(),
        statement_location.wf(),
    ensures
        res == spec_parse_give_function_statement(location, statement_location),
        res matches Ok(statement) ==> function_statement_wf(statement),
        res matches Err(e) ==> e.wf(),
{
    let (location, function) = parse_function(location)?;
    let location = location.trim_start();
    if !location.is_empty() {
        Err(ParseError::ExpectedEndOfLine { location })
    } else {
        Ok(FunctionStatement::GiveFunction(GiveFunction { function, location: statement_location }))
    }
}

/// Whether the location starts with a character that may stand in a name.
pub open spec fn starts_with_symbol_char(location: SourceLocation) -> bool {
    location@.len() > 0 && spec_is_symbol_char(location@[0])
}

pub open spec fn spec_parse_give_statement<'s>(location: SourceLocation<'s>, statement_location: SourceLocation<'s>) -> Result<FunctionStatement<'s>, ParseError<'s>> {
    if spec_starts_with(location, seq!['(']) {
        spec_parse_give_signature_statement(location, statement_location)
    } else if starts_with_symbol_char(location) {
        spec_parse_give_function_statement(location, statement_location)
    } else {
        Err(ParseError::ExpectedSignatureOrFunction { location })
    }
}

pub proof fn lemma_starts_with_char(location: SourceLocation, c: char)
    ensures
        spec_starts_with(location, seq![c]) == (location@.len() > 0 && location@[0] == c),
{
    if location@.len() > 0 {
        assert(location@.subrange(0, 1)[0] == location@[0]);
        if location@[0] == c {
            assert(location@.subrange(0, 1) =~= seq![c]);
        }
    }
}

/// Reads what follows `give`: a signature or a function.
pub fn parse_give_statement<'s>(location: SourceLocation<'s>, statement_location: SourceLocation<'s>) -> (res: Result<FunctionStatement<'s>, ParseError<'s>>)
    requires
        location.wf(),
        statement_location.wf(),
    ensures
        res == spec_parse_give_statement(location, statement_location),
        res matches Ok(statement) ==> function_statement_wf(statement),
        res matches Err(e) ==> e.wf(),
{
    proof {
        lemma_starts_with_char(location, '(');
    }
    if location.starts_with_char('(') {
        parse_give_signature_statement(location, statement_location)
    } else if location.starts_with_symbol_char() {
        parse_give_function_statement(location, statement_location)
    } else {
        Err(ParseError::ExpectedSignatureOrFunction { location })
    }
}

pub open spec fn spec_parse_equals<'s>(location: SourceLocation<'s>) -> Result<SourceLocation<'s>, ParseError<'s>> {
    match spec_strip_prefix(location, "="@) {
        Some(rest) => Ok(rest),
        None => Err(ParseError::ExpectedEquals { location: spec_truncate(location, 1) }),
    }
}

/// Reads `=`.
pub fn parse_equals<'s>(location: SourceLocation<'s>) -> (res: Result<SourceLocation<'s>, ParseError<'s>>)
    requires
        location.wf(),
    ensures
        res == spec_parse_equals(location),
        res matches Ok(rest) ==> is_rest_of(rest, location),
        res matches Err(e) ==> e.wf(),
{
    if let Some(rest) = location.strip_prefix("=") {
        Ok(rest)
    } else {
        let location = location.truncate(1);
        Err(ParseError::ExpectedEquals { location })
    }
}

pub open spec fn spec_parse_take_signature_or_take_signature_from<'s>(location: SourceLocation<'s>, implicit: Signature<'s>) -> Result<SignatureAssignmentRhs<'s>, ParseError<'s>> {
    if location@.len() == 0 {
        Ok(SignatureAssignmentRhs::Take(TakeSignature {  }))
    } else {
        let foreign: Result<(SourceLocation<'s>, ForeignSignature<'s>), ParseError<'s>> = match spec_strip_prefix(location, "from"@) {
            Some(location) => Ok((location, ForeignSignature::Implicit(implicit))),
            None => match spec_parse_signature(location) {
                Ok((location, signature)) => {
                    let location = spec_trim_start(location);
                    match spec_strip_prefix(location, "from"@) {
                        Some(location) => Ok((location, ForeignSignature::Explicit(signature))),
                        None => Err(ParseError::ExpectedFrom { location }),
                    }
                },
                Err(ParseError::ExpectedSignature { location }) => Err(
                    ParseError::ExpectedFromOrSignatureOrEndOfLine { location },
                ),
                Err(other) => Err(other),
            },
        };
        match foreign {
            Ok((location, foreign)) => match spec_parse_function(spec_trim_start(location)) {
                Ok((location, source)) => {
                    let location = spec_trim_start(location);
                    if location@.len() == 0 {
                        Ok(SignatureAssignmentRhs::TakeFrom(TakeSignatureFrom { foreign, source }))
                    } else {
                        Err(ParseError::ExpectedEndOfLine { location })
                    }
                },
                Err(e) => Err(e),
            },
            Err(e) => Err(e),
        }
    }
}

/// Reads what follows `take` in a signature assignment: nothing (the
/// signature is taken), or `from f` / `(S) from f`.
pub fn parse_take_signature_or_take_signature_from<'s>(location: SourceLocation<'s>, implicit: Signature<'s>) -> (res: Result<SignatureAssignmentRhs<'s>, ParseError<'s>>)
    requires
        location.wf(),
        implicit.wf(),
    ensures
        res == spec_parse_take_signature_or_take_signature_from(location, implicit),
        res matches Ok(rhs) ==> rhs_signature_wf(rhs),
        res matches Err(e) ==> e.wf(),
{
    if location.is_empty() {
        Ok(SignatureAssignmentRhs::Take(TakeSignature {  }))
    } else {
        let (location, foreign) = if let Some(location) = location.strip_prefix("from") {
            (location, ForeignSignature::Implicit(implicit))
        } else {
            let (location, signature) = match parse_signature(location) {
                Ok((location, signature)) => (location, signature),
                Err(ParseError::ExpectedSignature { location }) => {
                    return Err(ParseError::ExpectedFromOrSignatureOrEndOfLine { location });
                },
                Err(other) => return Err(other),
            };
            let location = location.trim_start();
            if let Some(location) = location.strip_prefix("from") {
                (location, ForeignSignature::Explicit(signature))
            } else {
                return Err(ParseError::ExpectedFrom { location });
            }
        };
        let location = location.trim_start();
        let (location, source) = parse_function(location)?;
        let location = location.trim_start();
        if location.is_empty() {
            Ok(SignatureAssignmentRhs::TakeFrom(TakeSignatureFrom { foreign, source }))
        } else {
            Err(ParseError::ExpectedEndOfLine { location })
        }
    }
}

/// The locations in a right-hand side that is read on one line lie within
/// their lines.
pub open spec fn rhs_signature_wf(rhs: SignatureAssignmentRhs) -> bool {
    match rhs {
        SignatureAssignmentRhs::Take(_) => true,
        SignatureAssignmentRhs::Define(_) => false,
        SignatureAssignmentRhs::TakeFrom(t) => t.foreign.wf() && t.source.wf(),
        SignatureAssignmentRhs::GiveSignatureToSignature(g) => g.signature.wf() && g.foreign.wf() && g.source.wf(),
        SignatureAssignmentRhs::GiveFunctionToSignature(g) => g.function.wf() && g.foreign.wf() && g.source.wf(),
    }
}

pub open spec fn rhs_function_wf(rhs: FunctionAssignmentRhs) -> bool {
    match rhs {
        FunctionAssignmentRhs::Take(t) => t.signature.wf(),
        FunctionAssignmentRhs::Define(_) => false,
        FunctionAssignmentRhs::TakeFrom(t) => t.foreign.wf() && t.source.wf(),
        FunctionAssignmentRhs::GiveSignatureToFunction(g) => g.signature.wf() && g.foreign.wf() && g.source.wf(),
        FunctionAssignmentRhs::GiveFunctionToFunction(g) => g.function.wf() && g.foreign.wf() && g.source.wf(),
    }
}

/// After the given signature or function and its foreign name: `to` and the
/// source. Both `as` and `to` are two characters long, hence the truncation.
pub open spec fn spec_expected_to_or_as<'s>(location: SourceLocation<'s>, explicit: bool) -> ParseError<'s> {
    let location = spec_truncate(location, 2);
    if explicit {
        ParseError::ExpectedTo { location }
    } else {
        ParseError::ExpectedAsOrTo { location }
    }
}

pub open spec fn spec_parse_give_to_signature<'s>(location: SourceLocation<'s>) -> Result<SignatureAssignmentRhs<'s>, ParseError<'s>> {
    if spec_starts_with(location, seq!['(']) {
        match spec_parse_signature(location) {
            Ok((location, signature)) => match spec_parse_maybe_as_signature(spec_trim_start(location), signature) {
                Ok((location, foreign)) => {
                    let location = spec_trim_start(location);
                    match spec_strip_prefix(location, "to"@) {
                        Some(location) => match spec_parse_signature(spec_trim_start(location)) {
                            Ok((location, source)) => {
                                let location = spec_trim_start(location);
                                if location@.len() == 0 {
                                    Ok(SignatureAssignmentRhs::GiveSignatureToSignature(GiveSignatureToSignature { signature, foreign, source }))
                                } else {
                                    Err(ParseError::ExpectedEndOfLine { location })
                                }
                            },
                            Err(e) => Err(e),
                        },
                        None => Err(spec_expected_to_or_as(location, foreign is Explicit)),
                    }
                },
                Err(e) => Err(e),
            },
            Err(e) => Err(e),
        }
    } else if starts_with_symbol_char(location) {
        match spec_parse_function(location) {
            Ok((location, function)) => match spec_parse_maybe_as_function(spec_trim_start(location), function) {
                Ok((location, foreign)) => {
                    let location = spec_trim_start(location);
                    match spec_strip_prefix(location, "to"@) {
                        Some(location) => match spec_parse_signature(spec_trim_start(location)) {
                            Ok((location, source)) => {
                                let location = spec_trim_start(location);
                                if location@.len() == 0 {
                                    Ok(SignatureAssignmentRhs::GiveFunctionToSignature(GiveFunctionToSignature { function, foreign, source }))
                                } else {
                                    Err(ParseError::ExpectedEndOfLine { location })
                                }
                            },
                            Err(e) => Err(e),
                        },
                        None => Err(spec_expected_to_or_as(location, foreign is Explicit)),
                    }
                },
                Err(e) => Err(e),
            },
            Err(e) => Err(e),
        }
    } else {
        Err(ParseError::ExpectedSignatureOrFunction { location: spec_take_until_whitespace(location) })
    }
}

/// Reads what follows `give` in a signature assignment:
/// `(S) [as (T)] to (U)` or `f [as g] to (U)`.
pub fn parse_give_to_signature<'s>(location: SourceLocation<'s>) -> (res: Result<SignatureAssignmentRhs<'s>, ParseError<'s>>)
    requires
        location.wf(),
    ensures
        res == spec_parse_give_to_signature(location),
        res matches Ok(rhs) ==> rhs_signature_wf(rhs),
        res matches Err(e) ==> e.wf(),
{
    proof {
        lemma_starts_with_char(location, '(');
    }
    if location.starts_with_char('(') {
        let (location, signature) = parse_signature(location)?;
        let location = location.trim_start();
        let (location, foreign) = parse_maybe_as_signature(location, signature)?;
        let location = location.trim_start();
        if let Some(location) = location.strip_prefix("to") {
            let location = location.trim_start();
            let (location, source) = parse_signature(location)?;
            let location = location.trim_start();
            if location.is_empty() {
                Ok(SignatureAssignmentRhs::GiveSignatureToSignature(GiveSignatureToSignature { signature, foreign, source }))
            } else {
                Err(ParseError::ExpectedEndOfLine { location })
            }
        } else {
            let location = location.truncate(2);
            match foreign {
                ForeignSignature::Explicit(_) => Err(ParseError::ExpectedTo { location }),
                ForeignSignature::Implicit(_) => Err(ParseError::ExpectedAsOrTo { location }),
            }
        }
    } else if location.starts_with_symbol_char() {
        let (location, function) = parse_function(location)?;
        let location = location.trim_start();
        let (location, foreign) = parse_maybe_as_function(location, function)?;
        let location = location.trim_start();
        if let Some(location) = location.strip_prefix("to") {
            let location = location.trim_start();
            let (location, source) = parse_signature(location)?;
            let location = location.trim_start();
            if location.is_empty() {
                Ok(SignatureAssignmentRhs::GiveFunctionToSignature(GiveFunctionToSignature { function, foreign, source }))
            } else {
                Err(ParseError::ExpectedEndOfLine { location })
            }
        } else {
            let location = location.truncate(2);
            match foreign {
                ForeignFunction::Explicit(_) => Err(ParseError::ExpectedTo { location }),
                ForeignFunction::Implicit(_) => Err(ParseError::ExpectedAsOrTo { location }),
            }
        }
    } else {
        let location = location.take_until_whitespace();
        Err(ParseError::ExpectedSignatureOrFunction { location })
    }
}

pub open spec fn spec_parse_give_to_function<'s>(location: SourceLocation<'s>) -> Result<FunctionAssignmentRhs<'s>, ParseError<'s>> {
    if spec_starts_with(location, seq!['(']) {
        match spec_parse_signature(location) {
            Ok((location, signature)) => match spec_parse_maybe_as_signature(spec_trim_start(location), signature) {
                Ok((location, foreign)) => {
                    let location = spec_trim_start(location);
                    match spec_strip_prefix(location, "to"@) {
                        Some(location) => match spec_parse_function(spec_trim_start(location)) {
                            Ok((location, source)) => {
                                let location = spec_trim_start(location);
                                if location@.len() == 0 {
                                    Ok(FunctionAssignmentRhs::GiveSignatureToFunction(GiveSignatureToFunction { signature, foreign, source }))
                                } else {
                                    Err(ParseError::ExpectedEndOfLine { location })
                                }
                            },
                            Err(e) => Err(e),
                        },
                        None => Err(spec_expected_to_or_as(location, foreign is Explicit)),
                    }
                },
                Err(e) => Err(e),
            },
            Err(e) => Err(e),
        }
    } else if starts_with_symbol_char(location) {
        match spec_parse_function(location) {
            Ok((location, function)) => match spec_parse_maybe_as_function(spec_trim_start(location), function) {
                Ok((location, foreign)) => {
                    let location = spec_trim_start(location);
                    match spec_strip_prefix(location, "to"@) {
                        Some(location) => match spec_parse_function(spec_trim_start(location)) {
                            Ok((location, source)) => {
                                let location = spec_trim_start(location);
                                if location@.len() == 0 {
                                    Ok(FunctionAssignmentRhs::GiveFunctionToFunction(GiveFunctionToFunction { function, foreign, source }))
                                } else {
                                    Err(ParseError::ExpectedEndOfLine { location })
                                }
                            },
                            Err(e) => Err(e),
                        },
                        None => Err(spec_expected_to_or_as(location, foreign is Explicit)),
                    }
                },
                Err(e) => Err(e),
            },
            Err(e) => Err(e),
        }
    } else {
        Err(ParseError::ExpectedSignatureOrFunction { location: spec_take_until_whitespace(location) })
    }
}

/// Reads what follows `give` in a function assignment:
/// `(S) [as (T)] to f` or `g [as h] to f`.
pub fn parse_give_to_function<'s>(location: SourceLocation<'s>) -> (res: Result<FunctionAssignmentRhs<'s>, ParseError<'s>>)
    requires
        location.wf(),
    ensures
        res == spec_parse_give_to_function(location),
        res matches Ok(rhs) ==> rhs_function_wf(rhs),
        res matches Err(e) ==> e.wf(),
{
    proof {
        lemma_starts_with_char(location, '(');
    }
    if location.starts_with_char('(') {
        let (location, signature) = parse_signature(location)?;
        let location = location.trim_start();
        let (location, foreign) = parse_maybe_as_signature(location, signature)?;
        let location = location.trim_start();
        if let Some(location) = location.strip_prefix("to") {
            let location = location.trim_start();
            let (location, source) = parse_function(location)?;
            let location = location.trim_start();
            if location.is_empty() {
                Ok(FunctionAssignmentRhs::GiveSignatureToFunction(GiveSignatureToFunction { signature, foreign, source }))
            } else {
                Err(ParseError::ExpectedEndOfLine { location })
            }
        } else {
            let location = location.truncate(2);
            match foreign {
                ForeignSignature::Explicit(_) => Err(ParseError::ExpectedTo { location }),
                ForeignSignature::Implicit(_) => Err(ParseError::ExpectedAsOrTo { location }),
            }
        }
    } else if location.starts_with_symbol_char() {
        let (location, function) = parse_function(location)?;
        let location = location.trim_start();
        let (location, foreign) = parse_maybe_as_function(location, function)?;
        let location = location.trim_start();
        if let Some(location) = location.strip_prefix("to") {
            let location = location.trim_start();
            let (location, source) = parse_function(location)?;
            let location = location.trim_start();
            if location.is_empty() {
                Ok(FunctionAssignmentRhs::GiveFunctionToFunction(GiveFunctionToFunction { function, foreign, source }))
            } else {
                Err(ParseError::ExpectedEndOfLine { location })
            }
        } else {
            let location = location.truncate(2);
            match foreign {
                ForeignFunction::Explicit(_) => Err(ParseError::ExpectedTo { location }),
                ForeignFunction::Implicit(_) => Err(ParseError::ExpectedAsOrTo { location }),
            }
        }
    } else {
        let location = location.take_until_whitespace();
        Err(ParseError::ExpectedSignatureOrFunction { location })
    }
}

pub open spec fn spec_parse_take_function_or_take_function_from<'s>(location: SourceLocation<'s>, implicit: Function<'s>) -> Result<FunctionAssignmentRhs<'s>, ParseError<'s>> {
    if spec_starts_with(location, seq!['(']) {
        match spec_parse_signature(location) {
            Ok((location, signature)) => {
                let location = spec_trim_start(location);
                if location@.len() != 0 {
                    Err(ParseError::ExpectedEndOfLine { location })
                } else {
                    Ok(FunctionAssignmentRhs::Take(TakeFunction { signature }))
                }
            },
            Err(e) => Err(e),
        }
    } else {
        let foreign: Result<(SourceLocation<'s>, ForeignFunction<'s>), ParseError<'s>> = match spec_strip_prefix(location, "from"@) {
            Some(location) => Ok((location, ForeignFunction::Implicit(implicit))),
            None => match spec_parse_function(location) {
                Ok((location, function)) => {
                    let location = spec_trim_start(location);
                    match spec_strip_prefix(location, "from"@) {
                        Some(location) => Ok((location, ForeignFunction::Explicit(function))),
                        None => Err(ParseError::ExpectedFrom { location }),
                    }
                },
                Err(ParseError::ExpectedFunction { location }) => Err(
                    ParseError::ExpectedFromOrSignatureOrFunction { location },
                ),
                Err(other) => Err(other),
            },
        };
        match foreign {
            Ok((location, foreign)) => match spec_parse_function(spec_trim_start(location)) {
                Ok((location, source)) => {
                    let location = spec_trim_start(location);
                    if location@.len() == 0 {
                        Ok(FunctionAssignmentRhs::TakeFrom(TakeFunctionFrom { foreign, source }))
                    } else {
                        Err(ParseError::ExpectedEndOfLine { location })
                    }
                },
                Err(e) => Err(e),
            },
            Err(e) => Err(e),
        }
    }
}

/// Reads what follows `take` in a function assignment: a signature (the
/// function is taken), or `from f` / `g from f`.
pub fn parse_take_function_or_take_function_from<'s>(location: SourceLocation<'s>, implicit: Function<'s>) -> (res: Result<FunctionAssignmentRhs<'s>, ParseError<'s>>)
    requires
        location.wf(),
        implicit.wf(),
    ensures
        res == spec_parse_take_function_or_take_function_from(location, implicit),
        res matches Ok(rhs) ==> rhs_function_wf(rhs),
        res matches Err(e) ==> e.wf(),
{
    proof {
        lemma_starts_with_char(location, '(');
    }
    if location.starts_with_char('(') {
        let (location, signature) = parse_signature(location)?;
        let location = location.trim_start();
        if !location.is_empty() {
            return Err(ParseError::ExpectedEndOfLine { location });
        }
        Ok(FunctionAssignmentRhs::Take(TakeFunction { signature }))
    } else {
        let (location, foreign) = if let Some(location) = location.strip_prefix("from") {
            (location, ForeignFunction::Implicit(implicit))
        } else {
            let (location, function) = match parse_function(location) {
                Ok((location, function)) => (location, function),
                Err(ParseError::ExpectedFunction { location }) => {
                    return Err(ParseError::ExpectedFromOrSignatureOrFunction { location });
                },
                Err(other) => return Err(other),
            };
            let location = location.trim_start();
            if let Some(location) = location.strip_prefix("from") {
                (location, ForeignFunction::Explicit(function))
            } else {
                return Err(ParseError::ExpectedFrom { location });
            }
        };
        let location = location.trim_start();
        let (location, source) = parse_function(location)?;
        let location = location.trim_start();
        if location.is_empty() {
            Ok(FunctionAssignmentRhs::TakeFrom(TakeFunctionFrom { foreign, source }))
        } else {
            Err(ParseError::ExpectedEndOfLine { location })
        }
    }
}

pub open spec fn spec_parse_conjure_statement<'s>(location: SourceLocation<'s>, statement_location: SourceLocation<'s>) -> Result<SignatureStatement<'s>, ParseError<'s>> {
    match spec_parse_signature(location) {
        Ok((location, signature)) => {
            let location = spec_trim_start(location);
            let function: Result<(SourceLocation<'s>, Option<Function<'s>>), ParseError<'s>> =
                if spec_starts_with(location, "using"@) || location@.len() == 0 {
                Ok((location, None))
            } else {
                match spec_parse_function(location) {
                    Ok((location, function)) => Ok((spec_trim_start(location), Some(function))),
                    Err(e) => Err(e),
                }
            };
            match function {
                Ok((location, function)) => match spec_parse_conjure_dependencies(location) {
                    Ok((location, dependencies)) => if location@.len() != 0 {
                        if dependencies is Nil {
                            Err(ParseError::ExpectedUsingOrFunctionOrEndOfLine { location })
                        } else {
                            Err(ParseError::ExpectedFunctionOrEndOfLine { location })
                        }
                    } else {
                        match function {
                            Some(function) => Ok(SignatureStatement::ConjureFunction(ConjureFunction {
                                function,
                                signature,
                                dependencies,
                                location: statement_location,
                            })),
                            None => Ok(SignatureStatement::ConjureSignature(ConjureSignature {
                                signature,
                                dependencies,
                                location: statement_location,
                            })),
                        }
                    },
                    Err(e) => Err(e),
                },
                Err(e) => Err(e),
            }
        },
        Err(e) => Err(e),
    }
}

/// Reads the rest of a `conjure` statement: `(S) [f] [using ...]`.
pub fn parse_conjure_statement<'s>(location: SourceLocation<'s>, statement_location: SourceLocation<'s>) -> (res: Result<SignatureStatement<'s>, ParseError<'s>>)
    requires
        location.wf(),
        statement_location.wf(),
    ensures
        res == spec_parse_conjure_statement(location, statement_location),
        res matches Ok(statement) ==> signature_statement_wf(statement),
        res matches Err(e) ==> e.wf(),
{
    let (location, signature) = parse_signature(location)?;
    let location = location.trim_start();
    let (location, function) = if location.starts_with("using") || location.is_empty() {
        (location, None)
    } else {
        let (location, function) = parse_function(location)?;
        let location = location.trim_start();
        (location, Some(function))
    };
    let (location, dependencies) = parse_conjure_dependencies(location)?;
    if !location.is_empty() {
        if dependencies.is_empty() {
            Err(ParseError::ExpectedUsingOrFunctionOrEndOfLine { location })
        } else {
            Err(ParseError::ExpectedFunctionOrEndOfLine { location })
        }
    } else if let Some(function) = function {
        Ok(SignatureStatement::ConjureFunction(ConjureFunction { function, signature, dependencies, location: statement_location }))
    } else {
        Ok(SignatureStatement::ConjureSignature(ConjureSignature { signature, dependencies, location: statement_location }))
    }
}

/// Lines that are what is left of `input` after reading from its start.
pub open spec fn is_lines_rest_of<'s>(rest: SourceLocationLines<'s>, input: SourceLocationLines<'s>) -> bool {
    &&& rest.wf()
    &&& rest.file == input.file
    &&& rest.end_line == input.end_line
    &&& input.start_line <= rest.start_line
    &&& rest.reference_indentation == input.reference_indentation
}

/// A line that holds nothing to read: whitespace alone, or a comment.
pub open spec fn is_empty_line(line: SourceLocation) -> bool {
    let line = spec_trim_start(line);
    line@.len() == 0 || spec_starts_with(line, "#"@)
}

pub open spec fn spec_skip_empty_lines<'s>(location: SourceLocationLines<'s>) -> Option<SourceLocationLines<'s>>
    decreases location.spec_len(),
{
    if location.spec_len() <= 0 {
        None
    } else if !is_empty_line(location.spec_first()) {
        Some(location)
    } else {
        spec_skip_empty_lines(location.spec_advance())
    }
}

pub proof fn lemma_skip_empty_lines<'s>(location: SourceLocationLines<'s>)
    ensures
        spec_skip_empty_lines(location) matches Some(rest) ==> rest.file == location.file && rest.end_line
            == location.end_line && location.start_line <= rest.start_line < rest.end_line
            && rest.reference_indentation == location.reference_indentation,
    decreases location.spec_len(),
{
    if location.spec_len() > 0 && is_empty_line(location.spec_first()) {
        lemma_skip_empty_lines(location.spec_advance());
    }
}

/// Line `l` of the lines of `location`, whole.
pub open spec fn line_at<'s>(location: SourceLocationLines<'s>, l: int) -> SourceLocation<'s> {
    SourceLocationLines { start_line: l as usize, ..location }.spec_first()
}

/// Law: skipping stops at the first line that is neither blank nor a
/// comment, and every line before it is one; where it finds none, every line
/// was one.
pub proof fn lemma_skipped_lines_are_empty<'s>(location: SourceLocationLines<'s>)
    ensures
        match spec_skip_empty_lines(location) {
            None => forall|l: int| location.start_line <= l < location.end_line ==> is_empty_line(#[trigger] line_at(location, l)),
            Some(rest) => !is_empty_line(rest.spec_first()) && forall|l: int|
                location.start_line <= l < rest.start_line ==> is_empty_line(#[trigger] line_at(location, l)),
        },
    decreases location.spec_len(),
{
    if location.spec_len() > 0 && is_empty_line(location.spec_first()) {
        let next = location.spec_advance();
        lemma_skipped_lines_are_empty(next);
        assert(next.start_line == location.start_line + 1);
        assert(line_at(location, location.start_line as int) == location.spec_first());
        assert forall|l: int| next.start_line <= l < location.end_line implies #[trigger] line_at(location, l) == line_at(next, l) by {}
        match spec_skip_empty_lines(next) {
            None => {
                assert forall|l: int| location.start_line <= l < location.end_line implies is_empty_line(#[trigger] line_at(location, l)) by {
                    if l > location.start_line {
                        assert(line_at(location, l) == line_at(next, l));
                    }
                }
            },
            Some(rest) => {
                assert forall|l: int| location.start_line <= l < rest.start_line implies is_empty_line(#[trigger] line_at(location, l)) by {
                    lemma_skip_empty_lines(next);
                    if l > location.start_line {
                        assert(line_at(location, l) == line_at(next, l));
                    }
                }
            },
        }
    }
}

/// If this returns `None`, then all lines in `location` were empty.
/// If this returns `Some(new_location)`, `new_location` is non-empty and
/// starts with a non-empty line.
pub fn skip_empty_lines<'s>(location: SourceLocationLines<'s>) -> (res: Option<SourceLocationLines<'s>>)
    requires
        location.wf(),
    ensures
        res == spec_skip_empty_lines(location),
        res matches Some(rest) ==> is_lines_rest_of(rest, location) && rest.start_line < rest.end_line,
{
    let mut current = location;
    loop
        invariant
            current.wf(),
            is_lines_rest_of(current, location),
            spec_skip_empty_lines(current) == spec_skip_empty_lines(location),
        decreases current.spec_len(),
    {
        let line = match current.first() {
            Some(line) => line,
            None => return None,
        };
        let line = line.trim_start();
        let line_is_empty = line.is_empty() || line.starts_with("#");
        if !line_is_empty {
            assert(!is_empty_line(current.spec_first()));
            assert(spec_skip_empty_lines(current) == Some(current));
            return Some(current);
        } else {
            current = match current.advance() {
                Some(next) => next,
                None => return None,
            };
        }
    }
}

pub open spec fn spec_parse_define_signature<'s>(location: SourceLocation<'s>, following_lines: SourceLocationLines<'s>) -> LinesParseResult<'s, SignatureAssignmentRhs<'s>>
    decreases following_lines.spec_len(), 5nat,
{
    if location@.len() != 0 {
        Err(ParseError::ExpectedEndOfLine { location })
    } else {
        match spec_parse_indented_signature_context(following_lines) {
            Ok((following_lines, context)) => Ok((following_lines, SignatureAssignmentRhs::Define(DefineSignature { context }))),
            Err(e) => Err(e),
        }
    }
}

/// Reads what follows `define`: the end of the line, then the indented
/// context on the following lines. `location` does not hold the keyword.
pub fn parse_define_signature<'s>(location: SourceLocation<'s>, following_lines: SourceLocationLines<'s>) -> (res: LinesParseResult<'s, SignatureAssignmentRhs<'s>>)
    requires
        location.wf(),
        following_lines.wf(),
    ensures
        res == spec_parse_define_signature(location, following_lines),
        res matches Ok((rest, rhs)) ==> is_lines_rest_of(rest, following_lines) && rhs is Define
            && signature_statements_wf(rhs->Define_0.context.statements),
        res matches Err(e) ==> e.wf(),
    decreases following_lines.spec_len(), 5nat,
{
    if !location.is_empty() {
        return Err(ParseError::ExpectedEndOfLine { location });
    }
    let (following_lines, context) = parse_indented_signature_context(following_lines)?;
    let rhs = SignatureAssignmentRhs::Define(DefineSignature { context });
    Ok((following_lines, rhs))
}

pub open spec fn spec_parse_define_function<'s>(location: SourceLocation<'s>, following_lines: SourceLocationLines<'s>) -> LinesParseResult<'s, FunctionAssignmentRhs<'s>>
    decreases following_lines.spec_len(), 5nat,
{
    if location@.len() != 0 {
        Err(ParseError::ExpectedEndOfLine { location })
    } else {
        match spec_parse_indented_function_context(following_lines) {
            Ok((following_lines, context)) => Ok((following_lines, FunctionAssignmentRhs::Define(DefineFunction { context }))),
            Err(e) => Err(e),
        }
    }
}

/// Reads what follows `define`: the end of the line, then the indented
/// context on the following lines. `location` does not hold the keyword.
pub fn parse_define_function<'s>(location: SourceLocation<'s>, following_lines: SourceLocationLines<'s>) -> (res: LinesParseResult<'s, FunctionAssignmentRhs<'s>>)
    requires
        location.wf(),
        following_lines.wf(),
    ensures
        res == spec_parse_define_function(location, following_lines),
        res matches Ok((rest, rhs)) ==> is_lines_rest_of(rest, following_lines) && rhs is Define
            && function_statements_wf(rhs->Define_0.context.statements),
        res matches Err(e) ==> e.wf(),
    decreases following_lines.spec_len(), 5nat,
{
    if !location.is_empty() {
        return Err(ParseError::ExpectedEndOfLine { location });
    }
    let (following_lines, context) = parse_indented_function_context(following_lines)?;
    let rhs = FunctionAssignmentRhs::Define(DefineFunction { context });
    Ok((following_lines, rhs))
}

pub open spec fn spec_parse_signature_assignment_rhs<'s>(location: SourceLocation<'s>, following_lines: SourceLocationLines<'s>, implicit: Signature<'s>) -> LinesParseResult<'s, SignatureAssignmentRhs<'s>>
    decreases following_lines.spec_len(), 6nat,
{
    match spec_strip_prefix(location, "define"@) {
        Some(location) => spec_parse_define_signature(spec_trim_start(location), following_lines),
        None => match spec_strip_prefix(location, "take"@) {
            Some(location) => match spec_parse_take_signature_or_take_signature_from(spec_trim_start(location), implicit) {
                Ok(rhs) => Ok((following_lines, rhs)),
                Err(e) => Err(e),
            },
            None => match spec_strip_prefix(location, "give"@) {
                Some(location) => match spec_parse_give_to_signature(spec_trim_start(location)) {
                    Ok(rhs) => Ok((following_lines, rhs)),
                    Err(e) => Err(e),
                },
                None => Err(ParseError::ExpectedSignatureAssignmentRhs { location: spec_take_until_whitespace(location) }),
            },
        },
    }
}

/// Reads the right-hand side of a signature assignment: `define`, `take ...`
/// or `give ...`.
pub fn parse_signature_assignment_rhs<'s>(location: SourceLocation<'s>, following_lines: SourceLocationLines<'s>, implicit: Signature<'s>) -> (res: LinesParseResult<'s, SignatureAssignmentRhs<'s>>)
    requires
        location.wf(),
        following_lines.wf(),
        implicit.wf(),
    ensures
        res == spec_parse_signature_assignment_rhs(location, following_lines, implicit),
        res matches Ok((rest, rhs)) ==> is_lines_rest_of(rest, following_lines) && (match rhs {
            SignatureAssignmentRhs::Define(d) => signature_statements_wf(d.context.statements),
            _ => rhs_signature_wf(rhs),
        }),
        res matches Err(e) ==> e.wf(),
    decreases following_lines.spec_len(), 6nat,
{
    if let Some(location) = location.strip_prefix("define") {
        let location = location.trim_start();
        parse_define_signature(location, following_lines)
    } else if let Some(location) = location.strip_prefix("take") {
        let location = location.trim_start();
        let rhs = parse_take_signature_or_take_signature_from(location, implicit)?;
        Ok((following_lines, rhs))
    } else if let Some(location) = location.strip_prefix("give") {
        let location = location.trim_start();
        let rhs = parse_give_to_signature(location)?;
        Ok((following_lines, rhs))
    } else {
        let location = location.take_until_whitespace();
        Err(ParseError::ExpectedSignatureAssignmentRhs { location })
    }
}

pub open spec fn spec_parse_function_assignment_rhs<'s>(location: SourceLocation<'s>, following_lines: SourceLocationLines<'s>, implicit: Function<'s>) -> LinesParseResult<'s, FunctionAssignmentRhs<'s>>
    decreases following_lines.spec_len(), 6nat,
{
    match spec_strip_prefix(location, "define"@) {
        Some(location) => spec_parse_define_function(spec_trim_start(location), following_lines),
        None => match spec_strip_prefix(location, "take"@) {
            Some(location) => match spec_parse_take_function_or_take_function_from(spec_trim_start(location), implicit) {
                Ok(rhs) => Ok((following_lines, rhs)),
                Err(e) => Err(e),
            },
            None => match spec_strip_prefix(location, "give"@) {
                Some(location) => match spec_parse_give_to_function(spec_trim_start(location)) {
                    Ok(rhs) => Ok((following_lines, rhs)),
                    Err(e) => Err(e),
                },
                None => Err(ParseError::ExpectedFunctionAssignmentRhs { location: spec_take_until_whitespace(location) }),
            },
        },
    }
}

/// Reads the right-hand side of a function assignment: `define`, `take ...`
/// or `give ...`.
pub fn parse_function_assignment_rhs<'s>(location: SourceLocation<'s>, following_lines: SourceLocationLines<'s>, implicit: Function<'s>) -> (res: LinesParseResult<'s, FunctionAssignmentRhs<'s>>)
    requires
        location.wf(),
        following_lines.wf(),
        implicit.wf(),
    ensures
        res == spec_parse_function_assignment_rhs(location, following_lines, implicit),
        res matches Ok((rest, rhs)) ==> is_lines_rest_of(rest, following_lines) && (match rhs {
            FunctionAssignmentRhs::Define(d) => function_statements_wf(d.context.statements),
            _ => rhs_function_wf(rhs),
        }),
        res matches Err(e) ==> e.wf(),
    decreases following_lines.spec_len(), 6nat,
{
    if let Some(location) = location.strip_prefix("define") {
        let location = location.trim_start();
        parse_define_function(location, following_lines)
    } else if let Some(location) = location.strip_prefix("take") {
        let location = location.trim_start();
        let rhs = parse_take_function_or_take_function_from(location, implicit)?;
        Ok((following_lines, rhs))
    } else if let Some(location) = location.strip_prefix("give") {
        let location = location.trim_start();
        let rhs = parse_give_to_function(location)?;
        Ok((following_lines, rhs))
    } else {
        let location = location.take_until_whitespace();
        Err(ParseError::ExpectedFunctionAssignmentRhs { location })
    }
}

pub open spec fn spec_parse_signature_assignment_statement<'s>(location: SourceLocation<'s>, following_lines: SourceLocationLines<'s>) -> LinesParseResult<'s, SignatureAssignment<'s>>
    decreases following_lines.spec_len(), 7nat,
{
    let statement_location = spec_trim(location);
    match spec_parse_signature(location) {
        Ok((location, lhs)) => match spec_parse_equals(spec_trim_start(location)) {
            Ok(location) => match spec_parse_signature_assignment_rhs(spec_trim_start(location), following_lines, lhs) {
                Ok((following_lines, rhs)) => Ok((following_lines, SignatureAssignment { lhs, rhs, location: statement_location })),
                Err(e) => Err(e),
            },
            Err(e) => Err(e),
        },
        Err(e) => Err(e),
    }
}

/// Reads `(S) = ...`; a `define` reads on into `following_lines`.
pub fn parse_signature_assignment_statement<'s>(location: SourceLocation<'s>, following_lines: SourceLocationLines<'s>) -> (res: LinesParseResult<'s, SignatureAssignment<'s>>)
    requires
        location.wf(),
        following_lines.wf(),
    ensures
        res == spec_parse_signature_assignment_statement(location, following_lines),
        res matches Ok((rest, assignment)) ==> is_lines_rest_of(rest, following_lines) && signature_assignment_wf(assignment),
        res matches Err(e) ==> e.wf(),
    decreases following_lines.spec_len(), 7nat,
{
    let statement_location = location.trim();
    let (location, lhs) = parse_signature(location)?;
    let location = location.trim_start();
    let location = parse_equals(location)?;
    let location = location.trim_start();
    let (following_lines, rhs) = parse_signature_assignment_rhs(location, following_lines, lhs)?;
    let statement = SignatureAssignment { lhs, rhs, location: statement_location };
    Ok((following_lines, statement))
}

pub open spec fn spec_parse_function_assignment_statement<'s>(location: SourceLocation<'s>, following_lines: SourceLocationLines<'s>) -> LinesParseResult<'s, FunctionAssignment<'s>>
    decreases following_lines.spec_len(), 7nat,
{
    let statement_location = spec_trim(location);
    match spec_parse_function(location) {
        Ok((location, lhs)) => match spec_parse_equals(spec_trim_start(location)) {
            Ok(location) => match spec_parse_function_assignment_rhs(spec_trim_start(location), following_lines, lhs) {
                Ok((following_lines, rhs)) => Ok((following_lines, FunctionAssignment { lhs, rhs, location: statement_location })),
                Err(e) => Err(e),
            },
            Err(e) => Err(e),
        },
        Err(e) => Err(e),
    }
}

/// Reads `f = ...`; a `define` reads on into `following_lines`.
pub fn parse_function_assignment_statement<'s>(location: SourceLocation<'s>, following_lines: SourceLocationLines<'s>) -> (res: LinesParseResult<'s, FunctionAssignment<'s>>)
    requires
        location.wf(),
        following_lines.wf(),
    ensures
        res == spec_parse_function_assignment_statement(location, following_lines),
        res matches Ok((rest, assignment)) ==> is_lines_rest_of(rest, following_lines) && function_assignment_wf(assignment),
        res matches Err(e) ==> e.wf(),
    decreases following_lines.spec_len(), 7nat,
{
    let statement_location = location.trim();
    let (location, lhs) = parse_function(location)?;
    let location = location.trim_start();
    let location = parse_equals(location)?;
    let location = location.trim_start();
    let (following_lines, rhs) = parse_function_assignment_rhs(location, following_lines, lhs)?;
    let statement = FunctionAssignment { lhs, rhs, location: statement_location };
    Ok((following_lines, statement))
}

pub open spec fn spec_parse_signature_statement<'s>(location: SourceLocationLines<'s>) -> LinesParseResult<'s, SignatureStatement<'s>>
    decreases location.spec_len(), 0nat,
{
    let line = spec_trim_start(location.spec_first());
    let statement_location = spec_trim(line);
    let rest = location.spec_advance();
    if location.spec_len() <= 0 {
        Err(ParseError::ExpectedSignatureStatement { location: statement_location })
    } else {
        match spec_take_prefix(line, "give"@) {
            Some(keyword) => Err(ParseError::GiveInSignatureContext { location: keyword }),
            None => match spec_strip_prefix(line, "conjure"@) {
                Some(l) => match spec_parse_conjure_statement(spec_trim_start(l), statement_location) {
                    Ok(statement) => Ok((rest, statement)),
                    Err(e) => Err(e),
                },
                None => if spec_starts_with(line, seq!['(']) {
                    match spec_parse_signature_assignment_statement(line, rest) {
                        Ok((rest, a)) => Ok((rest, SignatureStatement::SignatureAssignment(a))),
                        Err(e) => Err(e),
                    }
                } else if starts_with_symbol_char(line) {
                    match spec_parse_function_assignment_statement(line, rest) {
                        Ok((rest, a)) => Ok((rest, SignatureStatement::FunctionAssignment(a))),
                        Err(e) => Err(e),
                    }
                } else {
                    Err(ParseError::ExpectedSignatureStatement { location: statement_location })
                },
            },
        }
    }
}

/// Reads the statement on the first line of a signature context (and, for a
/// `define`, the indented lines after it).
pub fn parse_signature_statement<'s>(location: SourceLocationLines<'s>) -> (res: LinesParseResult<'s, SignatureStatement<'s>>)
    requires
        location.wf(),
        location.spec_len() > 0,
    ensures
        res == spec_parse_signature_statement(location),
        res matches Ok((rest, statement)) ==> is_lines_rest_of(rest, location) && rest.start_line > location.start_line
            && signature_statement_wf(statement),
        res matches Err(e) ==> e.wf(),
    decreases location.spec_len(), 0nat,
{
    let line = location.first_line().trim_start();
    let statement_location = line.trim();
    let rest = location.advance_line();
    proof {
        lemma_starts_with_char(line, '(');
    }
    if let Some(keyword) = line.take_prefix("give") {
        Err(ParseError::GiveInSignatureContext { location: keyword })
    } else if let Some(l) = line.strip_prefix("conjure") {
        let l = l.trim_start();
        let statement = parse_conjure_statement(l, statement_location)?;
        Ok((rest, statement))
    } else if line.starts_with_char('(') {
        let (rest, statement) = parse_signature_assignment_statement(line, rest)?;
        Ok((rest, SignatureStatement::SignatureAssignment(statement)))
    } else if line.starts_with_symbol_char() {
        let (rest, statement) = parse_function_assignment_statement(line, rest)?;
        Ok((rest, SignatureStatement::FunctionAssignment(statement)))
    } else {
        Err(ParseError::ExpectedSignatureStatement { location: statement_location })
    }
}

pub open spec fn spec_parse_function_statement<'s>(location: SourceLocationLines<'s>) -> LinesParseResult<'s, FunctionStatement<'s>>
    decreases location.spec_len(), 0nat,
{
    let line = spec_trim_start(location.spec_first());
    let statement_location = spec_trim(line);
    let rest = location.spec_advance();
    if location.spec_len() <= 0 {
        Err(ParseError::ExpectedFunctionStatement { location: statement_location })
    } else {
        match spec_take_prefix(line, "conjure"@) {
            Some(keyword) => Err(ParseError::ConjureInFunctionContext { location: keyword }),
            None => match spec_strip_prefix(line, "give"@) {
                Some(l) => match spec_parse_give_statement(spec_trim_start(l), statement_location) {
                    Ok(statement) => Ok((rest, statement)),
                    Err(e) => Err(e),
                },
                None => if spec_starts_with(line, seq!['(']) {
                    match spec_parse_signature_assignment_statement(line, rest) {
                        Ok((rest, a)) => Ok((rest, FunctionStatement::SignatureAssignment(a))),
                        Err(e) => Err(e),
                    }
                } else if starts_with_symbol_char(line) {
                    match spec_parse_function_assignment_statement(line, rest) {
                        Ok((rest, a)) => Ok((rest, FunctionStatement::FunctionAssignment(a))),
                        Err(e) => Err(e),
                    }
                } else {
                    Err(ParseError::ExpectedFunctionStatement { location: statement_location })
                },
            },
        }
    }
}

/// Reads the statement on the first line of a function context (and, for a
/// `define`, the indented lines after it).
pub fn parse_function_statement<'s>(location: SourceLocationLines<'s>) -> (res: LinesParseResult<'s, FunctionStatement<'s>>)
    requires
        location.wf(),
        location.spec_len() > 0,
    ensures
        res == spec_parse_function_statement(location),
        res matches Ok((rest, statement)) ==> is_lines_rest_of(rest, location) && rest.start_line > location.start_line
            && function_statement_wf(statement),
        res matches Err(e) ==> e.wf(),
    decreases location.spec_len(), 0nat,
{
    let line = location.first_line().trim_start();
    let statement_location = line.trim();
    let rest = location.advance_line();
    proof {
        lemma_starts_with_char(line, '(');
    }
    if let Some(keyword) = line.take_prefix("conjure") {
        Err(ParseError::ConjureInFunctionContext { location: keyword })
    } else if let Some(l) = line.strip_prefix("give") {
        let l = l.trim_start();
        let statement = parse_give_statement(l, statement_location)?;
        Ok((rest, statement))
    } else if line.starts_with_char('(') {
        let (rest, statement) = parse_signature_assignment_statement(line, rest)?;
        Ok((rest, FunctionStatement::SignatureAssignment(statement)))
    } else if line.starts_with_symbol_char() {
        let (rest, statement) = parse_function_assignment_statement(line, rest)?;
        Ok((rest, FunctionStatement::FunctionAssignment(statement)))
    } else {
        Err(ParseError::ExpectedFunctionStatement { location: statement_location })
    }
}

/// A line of a context: a statement, or `TRACE`.
pub enum StatementOrTrace<T> {
    Statement(T),
    Trace,
}

pub open spec fn spec_parse_signature_statement_or_trace<'s>(location: SourceLocationLines<'s>) -> LinesParseResult<'s, StatementOrTrace<SignatureStatement<'s>>>
    decreases location.spec_len(), 1nat,
{
    if location.spec_len() > 0 && spec_trim(location.spec_first())@ == "TRACE"@ {
        Ok((location.spec_advance(), StatementOrTrace::Trace))
    } else {
        match spec_parse_signature_statement(location) {
            Ok((rest, statement)) => Ok((rest, StatementOrTrace::Statement(statement))),
            Err(e) => Err(e),
        }
    }
}

/// Reads the first line of a signature context: `TRACE`, or a statement.
pub fn parse_signature_statement_or_trace<'s>(location: SourceLocationLines<'s>) -> (res: LinesParseResult<'s, StatementOrTrace<SignatureStatement<'s>>>)
    requires
        location.wf(),
        location.spec_len() > 0,
    ensures
        res == spec_parse_signature_statement_or_trace(location),
        res matches Ok((rest, item)) ==> is_lines_rest_of(rest, location) && rest.start_line > location.start_line
            && (item matches StatementOrTrace::Statement(statement) ==> signature_statement_wf(statement)),
        res matches Err(e) ==> e.wf(),
    decreases location.spec_len(), 1nat,
{
    let line = location.first_line();
    if line.trim().text_is("TRACE") {
        Ok((location.advance_line(), StatementOrTrace::Trace))
    } else {
        let (rest, statement) = parse_signature_statement(location)?;
        Ok((rest, StatementOrTrace::Statement(statement)))
    }
}

/// How a non-empty line relates to the reference indentation of the context
/// being read: it continues the context, it ends it (its indentation is less
/// deep), or it is indented wrongly.
pub open spec fn spec_check_indentation<'s>(location: SourceLocationLines<'s>) -> Result<bool, ParseError<'s>> {
    let line = location.spec_first();
    let indentation = spec_partition(line, CharClass::Whitespace).0;
    match location.reference_indentation {
        Some(reference) => if !spec_starts_with(line, reference@) {
            Ok(false)
        } else if indentation@ != reference@ {
            Err(ParseError::IndentationMismatch { expected_indentation: reference, actual_indentation: indentation })
        } else {
            Ok(true)
        },
        None => if indentation@.len() != 0 {
            Err(ParseError::UnexpectedIndentation { indentation })
        } else {
            Ok(true)
        },
    }
}

pub open spec fn spec_parse_signature_statements<'s>(location: SourceLocationLines<'s>) -> Result<(SourceLocationLines<'s>, bool, List<SignatureStatement<'s>>), ParseError<'s>>
    decreases location.spec_len(), 2nat,
{
    match spec_skip_empty_lines(location) {
        None => Ok((location, false, List::Nil)),
        Some(current) => {
            proof {
                lemma_skip_empty_lines(location);
            }
            match spec_check_indentation(current) {
                Err(e) => Err(e),
                Ok(false) => Ok((current, false, List::Nil)),
                Ok(true) => match spec_parse_signature_statement_or_trace(current) {
                    Err(e) => Err(e),
                    Ok((rest, item)) => if current.start_line < rest.start_line <= rest.end_line && rest.end_line
                        == current.end_line {
                        match spec_parse_signature_statements(rest) {
                            Ok((rest, trace, statements)) => match item {
                                StatementOrTrace::Trace => Ok((rest, true, statements)),
                                StatementOrTrace::Statement(statement) => Ok(
                                    (rest, trace, List::Cons(Box::new(statement), Box::new(statements))),
                                ),
                            },
                            Err(e) => Err(e),
                        }
                    } else {
                        Ok((rest, false, List::Nil))
                    },
                },
            }
        },
    }
}

/// Reads the statements of a signature context, one per non-empty line, while
/// the lines keep the reference indentation; also tells whether a `TRACE`
/// line was among them.
pub fn parse_signature_statements<'s>(location: SourceLocationLines<'s>) -> (res: Result<(SourceLocationLines<'s>, bool, List<SignatureStatement<'s>>), ParseError<'s>>)
    requires
        location.wf(),
    ensures
        res == spec_parse_signature_statements(location),
        res matches Ok((rest, _, statements)) ==> is_lines_rest_of(rest, location) && signature_statements_wf(statements),
        location.reference_indentation is None ==> (res matches Ok((rest, _, _)) ==> spec_skip_empty_lines(rest)
            is None),
        res matches Err(e) ==> e.wf(),
    decreases location.spec_len(), 2nat,
{
    let current = match skip_empty_lines(location) {
        Some(current) => current,
        None => return Ok((location, false, List::Nil)),
    };
    let line = current.first_line();
    let indentation = line.take_while_whitespace();
    match current.reference_indentation {
        Some(reference) => {
            if !line.starts_with_text_of(&reference) {
                return Ok((current, false, List::Nil));
            }
            if !indentation.same_text(&reference) {
                return Err(ParseError::IndentationMismatch { expected_indentation: reference, actual_indentation: indentation });
            }
        },
        None => {
            if !indentation.is_empty() {
                return Err(ParseError::UnexpectedIndentation { indentation });
            }
        },
    }
    let (rest, item) = parse_signature_statement_or_trace(current)?;
    let (rest, trace, statements) = parse_signature_statements(rest)?;
    match item {
        StatementOrTrace::Trace => Ok((rest, true, statements)),
        StatementOrTrace::Statement(statement) => Ok((rest, trace, List::Cons(Box::new(statement), Box::new(statements)))),
    }
}

pub open spec fn spec_parse_signature_context<'s>(location: SourceLocationLines<'s>) -> LinesParseResult<'s, SignatureContext<'s>>
    decreases location.spec_len(), 3nat,
{
    match spec_parse_signature_statements(location) {
        Ok((rest, trace, statements)) => Ok((rest, SignatureContext { trace, statements })),
        Err(e) => Err(e),
    }
}

/// Reads a signature context: its statements, at the reference indentation.
pub fn parse_signature_context<'s>(location: SourceLocationLines<'s>) -> (res: LinesParseResult<'s, SignatureContext<'s>>)
    requires
        location.wf(),
    ensures
        res == spec_parse_signature_context(location),
        res matches Ok((rest, context)) ==> is_lines_rest_of(rest, location) && signature_statements_wf(context.statements),
        location.reference_indentation is None ==> (res matches Ok((rest, _)) ==> spec_skip_empty_lines(rest) is None),
        res matches Err(e) ==> e.wf(),
    decreases location.spec_len(), 3nat,
{
    let (rest, trace, statements) = parse_signature_statements(location)?;
    Ok((rest, SignatureContext { trace, statements }))
}

pub open spec fn spec_parse_indented_signature_context<'s>(location: SourceLocationLines<'s>) -> LinesParseResult<'s, SignatureContext<'s>>
    decreases location.spec_len(), 4nat,
{
    let empty = SignatureContext { trace: false, statements: List::Nil };
    match spec_skip_empty_lines(location) {
        Some(current) => {
            proof {
                lemma_skip_empty_lines(location);
            }
            let indentation = spec_partition(current.spec_first(), CharClass::Whitespace).0;
            let deeper = match current.reference_indentation {
                Some(reference) => spec_starts_with(indentation, reference@) && indentation@ != reference@,
                None => indentation@.len() != 0,
            };
            if deeper {
                match spec_parse_signature_context(current.spec_with_reference_indentation(indentation)) {
                    Ok((rest, context)) => Ok((
                        SourceLocationLines { reference_indentation: current.reference_indentation, ..rest },
                        context,
                    )),
                    Err(e) => Err(e),
                }
            } else {
                Ok((current, empty))
            }
        },
        None => Ok((location, empty)),
    }
}

/// Reads the context that a `define` opens: the lines after it that are
/// indented deeper than the reference indentation. If the next non-empty line
/// is not, the context is empty.
pub fn parse_indented_signature_context<'s>(location: SourceLocationLines<'s>) -> (res: LinesParseResult<'s, SignatureContext<'s>>)
    requires
        location.wf(),
    ensures
        res == spec_parse_indented_signature_context(location),
        res matches Ok((rest, context)) ==> is_lines_rest_of(rest, location) && signature_statements_wf(context.statements),
        res matches Err(e) ==> e.wf(),
    decreases location.spec_len(), 4nat,
{
    let current = match skip_empty_lines(location) {
        Some(current) => current,
        None => return Ok((location, SignatureContext { trace: false, statements: List::Nil })),
    };
    let line = current.first_line();
    let indentation = line.take_while_whitespace();
    let deeper = match current.reference_indentation {
        Some(reference) => indentation.starts_with_text_of(&reference) && !indentation.same_text(&reference),
        None => !indentation.is_empty(),
    };
    if deeper {
        let old_reference_indentation = current.reference_indentation;
        let (mut rest, context) = parse_signature_context(current.with_reference_indentation(indentation))?;
        rest.reference_indentation = old_reference_indentation;
        Ok((rest, context))
    } else {
        Ok((current, SignatureContext { trace: false, statements: List::Nil }))
    }
}

pub open spec fn spec_parse_function_statement_or_trace<'s>(location: SourceLocationLines<'s>) -> LinesParseResult<'s, StatementOrTrace<FunctionStatement<'s>>>
    decreases location.spec_len(), 1nat,
{
    if location.spec_len() > 0 && spec_trim(location.spec_first())@ == "TRACE"@ {
        Ok((location.spec_advance(), StatementOrTrace::Trace))
    } else {
        match spec_parse_function_statement(location) {
            Ok((rest, statement)) => Ok((rest, StatementOrTrace::Statement(statement))),
            Err(e) => Err(e),
        }
    }
}

/// Reads the first line of a function context: `TRACE`, or a statement.
pub fn parse_function_statement_or_trace<'s>(location: SourceLocationLines<'s>) -> (res: LinesParseResult<'s, StatementOrTrace<FunctionStatement<'s>>>)
    requires
        location.wf(),
        location.spec_len() > 0,
    ensures
        res == spec_parse_function_statement_or_trace(location),
        res matches Ok((rest, item)) ==> is_lines_rest_of(rest, location) && rest.start_line > location.start_line
            && (item matches StatementOrTrace::Statement(statement) ==> function_statement_wf(statement)),
        res matches Err(e) ==> e.wf(),
    decreases location.spec_len(), 1nat,
{
    let line = location.first_line();
    if line.trim().text_is("TRACE") {
        Ok((location.advance_line(), StatementOrTrace::Trace))
    } else {
        let (rest, statement) = parse_function_statement(location)?;
        Ok((rest, StatementOrTrace::Statement(statement)))
    }
}

pub open spec fn spec_parse_function_statements<'s>(location: SourceLocationLines<'s>) -> Result<(SourceLocationLines<'s>, bool, List<FunctionStatement<'s>>), ParseError<'s>>
    decreases location.spec_len(), 2nat,
{
    match spec_skip_empty_lines(location) {
        None => Ok((location, false, List::Nil)),
        Some(current) => {
            proof {
                lemma_skip_empty_lines(location);
            }
            match spec_check_indentation(current) {
                Err(e) => Err(e),
                Ok(false) => Ok((current, false, List::Nil)),
                Ok(true) => match spec_parse_function_statement_or_trace(current) {
                    Err(e) => Err(e),
                    Ok((rest, item)) => if current.start_line < rest.start_line <= rest.end_line && rest.end_line
                        == current.end_line {
                        match spec_parse_function_statements(rest) {
                            Ok((rest, trace, statements)) => match item {
                                StatementOrTrace::Trace => Ok((rest, true, statements)),
                                StatementOrTrace::Statement(statement) => Ok(
                                    (rest, trace, List::Cons(Box::new(statement), Box::new(statements))),
                                ),
                            },
                            Err(e) => Err(e),
                        }
                    } else {
                        Ok((rest, false, List::Nil))
                    },
                },
            }
        },
    }
}

/// Reads the statements of a function context, one per non-empty line, while
/// the lines keep the reference indentation; also tells whether a `TRACE`
/// line was among them.
pub fn parse_function_statements<'s>(location: SourceLocationLines<'s>) -> (res: Result<(SourceLocationLines<'s>, bool, List<FunctionStatement<'s>>), ParseError<'s>>)
    requires
        location.wf(),
    ensures
        res == spec_parse_function_statements(location),
        res matches Ok((rest, _, statements)) ==> is_lines_rest_of(rest, location) && function_statements_wf(statements),
        location.reference_indentation is None ==> (res matches Ok((rest, _, _)) ==> spec_skip_empty_lines(rest)
            is None),
        res matches Err(e) ==> e.wf(),
    decreases location.spec_len(), 2nat,
{
    let current = match skip_empty_lines(location) {
        Some(current) => current,
        None => return Ok((location, false, List::Nil)),
    };
    let line = current.first_line();
    let indentation = line.take_while_whitespace();
    match current.reference_indentation {
        Some(reference) => {
            if !line.starts_with_text_of(&reference) {
                return Ok((current, false, List::Nil));
            }
            if !indentation.same_text(&reference) {
                return Err(ParseError::IndentationMismatch { expected_indentation: reference, actual_indentation: indentation });
            }
        },
        None => {
            if !indentation.is_empty() {
                return Err(ParseError::UnexpectedIndentation { indentation });
            }
        },
    }
    let (rest, item) = parse_function_statement_or_trace(current)?;
    let (rest, trace, statements) = parse_function_statements(rest)?;
    match item {
        StatementOrTrace::Trace => Ok((rest, true, statements)),
        StatementOrTrace::Statement(statement) => Ok((rest, trace, List::Cons(Box::new(statement), Box::new(statements)))),
    }
}

pub open spec fn spec_parse_function_context<'s>(location: SourceLocationLines<'s>) -> LinesParseResult<'s, FunctionContext<'s>>
    decreases location.spec_len(), 3nat,
{
    match spec_parse_function_statements(location) {
        Ok((rest, trace, statements)) => Ok((rest, FunctionContext { trace, statements })),
        Err(e) => Err(e),
    }
}

/// Reads a function context: its statements, at the reference indentation.
pub fn parse_function_context<'s>(location: SourceLocationLines<'s>) -> (res: LinesParseResult<'s, FunctionContext<'s>>)
    requires
        location.wf(),
    ensures
        res == spec_parse_function_context(location),
        res matches Ok((rest, context)) ==> is_lines_rest_of(rest, location) && function_statements_wf(context.statements),
        location.reference_indentation is None ==> (res matches Ok((rest, _)) ==> spec_skip_empty_lines(rest) is None),
        res matches Err(e) ==> e.wf(),
    decreases location.spec_len(), 3nat,
{
    let (rest, trace, statements) = parse_function_statements(location)?;
    Ok((rest, FunctionContext { trace, statements }))
}

pub open spec fn spec_parse_indented_function_context<'s>(location: SourceLocationLines<'s>) -> LinesParseResult<'s, FunctionContext<'s>>
    decreases location.spec_len(), 4nat,
{
    let empty = FunctionContext { trace: false, statements: List::Nil };
    match spec_skip_empty_lines(location) {
        Some(current) => {
            proof {
                lemma_skip_empty_lines(location);
            }
            let indentation = spec_partition(current.spec_first(), CharClass::Whitespace).0;
            let deeper = match current.reference_indentation {
                Some(reference) => spec_starts_with(indentation, reference@) && indentation@ != reference@,
                None => indentation@.len() != 0,
            };
            if deeper {
                match spec_parse_function_context(current.spec_with_reference_indentation(indentation)) {
                    Ok((rest, context)) => Ok((
                        SourceLocationLines { reference_indentation: current.reference_indentation, ..rest },
                        context,
                    )),
                    Err(e) => Err(e),
                }
            } else {
                Ok((current, empty))
            }
        },
        None => Ok((location, empty)),
    }
}

/// Reads the context that a `define` opens: the lines after it that are
/// indented deeper than the reference indentation. If the next non-empty line
/// is not, the context is empty.
pub fn parse_indented_function_context<'s>(location: SourceLocationLines<'s>) -> (res: LinesParseResult<'s, FunctionContext<'s>>)
    requires
        location.wf(),
    ensures
        res == spec_parse_indented_function_context(location),
        res matches Ok((rest, context)) ==> is_lines_rest_of(rest, location) && function_statements_wf(context.statements),
        res matches Err(e) ==> e.wf(),
    decreases location.spec_len(), 4nat,
{
    let current = match skip_empty_lines(location) {
        Some(current) => current,
        None => return Ok((location, FunctionContext { trace: false, statements: List::Nil })),
    };
    let line = current.first_line();
    let indentation = line.take_while_whitespace();
    let deeper = match current.reference_indentation {
        Some(reference) => indentation.starts_with_text_of(&reference) && !indentation.same_text(&reference),
        None => !indentation.is_empty(),
    };
    if deeper {
        let old_reference_indentation = current.reference_indentation;
        let (mut rest, context) = parse_function_context(current.with_reference_indentation(indentation))?;
        rest.reference_indentation = old_reference_indentation;
        Ok((rest, context))
    } else {
        Ok((current, FunctionContext { trace: false, statements: List::Nil }))
    }
}

/// The whole source, read as a signature context at the top level (no
/// indentation).
pub open spec fn spec_parse_file_as_signature_context<'s>(source: &'s Source) -> Result<SignatureContext<'s>, ParseError<'s>> {
    match spec_parse_signature_context(top_level_lines(source)) {
        Ok((_, context)) => Ok(context),
        Err(e) => Err(e),
    }
}

/// Whether reading the whole source as a signature context leaves lines unread
/// (blank or comment lines after the last statement).
pub open spec fn leaves_lines_as_signature_context(source: &Source) -> bool {
    spec_parse_signature_context(top_level_lines(source)) matches Ok((rest, _)) && rest.spec_len() != 0
}

/// Reads the whole source as a signature context. Reading must consume every
/// line: trailing blank or comment lines are left out by `requires`.
pub fn parse_file_as_signature_context<'s>(source: &'s Source) -> (res: Result<SignatureContext<'s>, ParseError<'s>>)
    requires
        !leaves_lines_as_signature_context(source),
    ensures
        res == spec_parse_file_as_signature_context(source),
        res matches Ok(context) ==> signature_statements_wf(context.statements),
        res matches Err(e) ==> e.wf(),
{
    let (rest, context) = parse_signature_context(SourceLocationLines::top_level(source))?;
    Ok(context)
}

/// Reads the whole source as a signature context; `None` where lines would be
/// left unread, which `parse_file_as_signature_context` does not accept.
pub fn parse_file_as_signature_context_checked<'s>(source: &'s Source) -> (res: Option<Result<SignatureContext<'s>, ParseError<'s>>>)
    ensures
        res is None <==> leaves_lines_as_signature_context(source),
        res matches Some(r) ==> r == spec_parse_file_as_signature_context(source),
        res matches Some(Ok(context)) ==> signature_statements_wf(context.statements),
        res matches Some(Err(e)) ==> e.wf(),
{
    match parse_signature_context(SourceLocationLines::top_level(source)) {
        Ok((rest, context)) => if rest.is_empty() {
            Some(Ok(context))
        } else {
            None
        },
        Err(e) => Some(Err(e)),
    }
}

/// The whole source, read as a function context at the top level (no
/// indentation).
pub open spec fn spec_parse_file_as_function_context<'s>(source: &'s Source) -> Result<FunctionContext<'s>, ParseError<'s>> {
    match spec_parse_function_context(top_level_lines(source)) {
        Ok((_, context)) => Ok(context),
        Err(e) => Err(e),
    }
}

/// Whether reading the whole source as a function context leaves lines unread
/// (blank or comment lines after the last statement).
pub open spec fn leaves_lines_as_function_context(source: &Source) -> bool {
    spec_parse_function_context(top_level_lines(source)) matches Ok((rest, _)) && rest.spec_len() != 0
}

/// Reads the whole source as a function context. Reading must consume every
/// line: trailing blank or comment lines are left out by `requires`.
pub fn parse_file_as_function_context<'s>(source: &'s Source) -> (res: Result<FunctionContext<'s>, ParseError<'s>>)
    requires
        !leaves_lines_as_function_context(source),
    ensures
        res == spec_parse_file_as_function_context(source),
        res matches Ok(context) ==> function_statements_wf(context.statements),
        res matches Err(e) ==> e.wf(),
{
    let (rest, context) = parse_function_context(SourceLocationLines::top_level(source))?;
    Ok(context)
}

/// Reads the whole source as a function context; `None` where lines would be
/// left unread, which `parse_file_as_function_context` does not accept.
pub fn parse_file_as_function_context_checked<'s>(source: &'s Source) -> (res: Option<Result<FunctionContext<'s>, ParseError<'s>>>)
    ensures
        res is None <==> leaves_lines_as_function_context(source),
        res matches Some(r) ==> r == spec_parse_file_as_function_context(source),
        res matches Some(Ok(context)) ==> function_statements_wf(context.statements),
        res matches Some(Err(e)) ==> e.wf(),
{
    match parse_function_context(SourceLocationLines::top_level(source)) {
        Ok((rest, context)) => if rest.is_empty() {
            Some(Ok(context))
        } else {
            None
        },
        Err(e) => Some(Err(e)),
    }
}

/// All lines of a source, with no reference indentation.
pub open spec fn top_level_lines<'s>(source: &'s Source) -> SourceLocationLines<'s> {
    SourceLocationLines { file: source, start_line: 0, end_line: source.lines@.len() as usize, reference_indentation: None }
}

/// The text a dependency of a conjuration was read from.
pub open spec fn dependency_location<'s>(d: ConjureDependency<'s>) -> SourceLocation<'s> {
    match d {
        ConjureDependency::Signature(s) => s.with_parens,
        ConjureDependency::Function(f) => f.symbol,
    }
}

/// The dependencies lie on line `line`, each one not empty, one after the
/// other, from column `from` to column `to`.
pub open spec fn dependencies_in_order<'s>(deps: ConjureDependencies<'s>, line: usize, from: int, to: int) -> bool
    decreases deps,
{
    match deps {
        List::Nil => true,
        List::Cons(d, rest) => {
            let l = dependency_location(*d);
            &&& l.line == line
            &&& from <= l.start_column < l.end_column <= to
            &&& dependencies_in_order(*rest, line, l.end_column as int, to)
        },
    }
}

/// Column `col` lies in one of the dependencies.
pub open spec fn dependencies_cover<'s>(deps: ConjureDependencies<'s>, col: int) -> bool
    decreases deps,
{
    match deps {
        List::Nil => false,
        List::Cons(d, rest) => dependency_location(*d).start_column <= col < dependency_location(*d).end_column
            || dependencies_cover(*rest, col),
    }
}

/// Each character of `loc` from column `from` on that is no whitespace lies
/// in one of the dependencies.
pub open spec fn all_read<'s>(loc: SourceLocation<'s>, deps: ConjureDependencies<'s>, from: int) -> bool {
    forall|col: int|
        from <= col < loc.end_column && !char_is_whitespace(#[trigger] loc.line_text()[col]) ==> dependencies_cover(deps, col)
}

/// `rest` is `loc` from column `start` on.
pub open spec fn is_suffix_from<'s>(rest: SourceLocation<'s>, loc: SourceLocation<'s>, start: int) -> bool {
    &&& rest.file == loc.file
    &&& rest.line == loc.line
    &&& rest.line_offset == loc.line_offset
    &&& rest.end_column == loc.end_column
    &&& rest.start_column == start
}

proof fn lemma_trim_start_columns<'s>(loc: SourceLocation<'s>)
    requires
        loc.wf(),
    ensures
        loc.start_column <= spec_trim_start(loc).start_column <= loc.end_column,
        is_suffix_from(spec_trim_start(loc), loc, spec_trim_start(loc).start_column as int),
        spec_trim_start(loc).wf(),
        forall|col: int| loc.start_column <= col < spec_trim_start(loc).start_column ==> char_is_whitespace(#[trigger] loc.line_text()[col]),
        spec_trim_start(loc)@.len() == loc.end_column - spec_trim_start(loc).start_column,
{
    let n = class_prefix_len(loc@, CharClass::Whitespace);
    lemma_class_prefix_len(loc@, CharClass::Whitespace, n as int);
    assert forall|col: int| loc.start_column <= col < loc.start_column + n implies char_is_whitespace(#[trigger] loc.line_text()[col]) by {
        assert(loc@[col - loc.start_column] == loc.line_text()[col]);
        assert(in_class(loc@[col - loc.start_column], CharClass::Whitespace));
    }
}

proof fn lemma_parse_symbol_columns<'s>(loc: SourceLocation<'s>)
    requires
        loc.wf(),
    ensures
        spec_parse_symbol(loc) matches Ok((rest, symbol)) ==> {
            &&& symbol.line == loc.line
            &&& symbol.start_column == loc.start_column
            &&& symbol.start_column < symbol.end_column
            &&& symbol.end_column == rest.start_column
            &&& is_suffix_from(rest, loc, rest.start_column as int)
            &&& rest.wf()
        },
{
    let n = class_prefix_len(loc@, CharClass::Symbol);
    lemma_class_prefix_len(loc@, CharClass::Symbol, n as int);
}

proof fn lemma_parse_signature_columns<'s>(loc: SourceLocation<'s>)
    requires
        loc.wf(),
    ensures
        spec_parse_signature(loc) matches Ok((rest, signature)) ==> {
            &&& signature.with_parens.line == loc.line
            &&& signature.with_parens.start_column == loc.start_column
            &&& signature.with_parens.start_column < signature.with_parens.end_column
            &&& signature.with_parens.end_column == rest.start_column
            &&& is_suffix_from(rest, loc, rest.start_column as int)
            &&& rest.wf()
        },
{
    if let Some(inner) = spec_strip_prefix(loc, seq!['(']) {
        lemma_parse_symbol_columns(inner);
        if let Ok((after, symbol)) = spec_parse_symbol(inner) {
            if let Some(rest) = spec_strip_prefix(after, seq![')']) {
                assert(rest.start_column == after.start_column + 1);
            }
        }
    }
}

proof fn lemma_parse_conjure_dependency_columns<'s>(loc: SourceLocation<'s>)
    requires
        loc.wf(),
    ensures
        spec_parse_conjure_dependency(loc) matches Ok((rest, d)) ==> {
            &&& dependency_location(d).line == loc.line
            &&& dependency_location(d).start_column == loc.start_column
            &&& dependency_location(d).start_column < dependency_location(d).end_column
            &&& dependency_location(d).end_column == rest.start_column
            &&& is_suffix_from(rest, loc, rest.start_column as int)
            &&& rest.wf()
        },
{
    lemma_parse_signature_columns(loc);
    lemma_parse_symbol_columns(loc);
}

proof fn lemma_parse_more_conjure_dependencies_reads_all<'s>(loc: SourceLocation<'s>)
    requires
        loc.wf(),
    ensures
        spec_parse_more_conjure_dependencies(loc) matches Ok((rest, deps)) ==> {
            &&& loc.start_column <= rest.start_column <= loc.end_column
            &&& is_suffix_from(rest, loc, rest.start_column as int)
            &&& dependencies_in_order(deps, loc.line, loc.start_column as int, rest.start_column as int)
            &&& all_read(loc, deps, loc.start_column as int)
        },
    decreases loc.end_column - loc.start_column,
{
    let trimmed = spec_trim_start(loc);
    lemma_trim_start_columns(loc);
    if trimmed@.len() == 0 {
        assert forall|col: int|
            loc.start_column <= col < loc.end_column && !char_is_whitespace(#[trigger] loc.line_text()[col]) implies dependencies_cover(
            List::<ConjureDependency<'s>>::Nil,
            col,
        ) by {}
    } else {
        lemma_parse_conjure_dependency_columns(trimmed);
        if let Ok((r1, d)) = spec_parse_conjure_dependency(trimmed) {
            lemma_parse_more_conjure_dependencies_reads_all(r1);
            if let Ok((rest, more)) = spec_parse_more_conjure_dependencies(r1) {
                let deps = List::Cons(Box::new(d), Box::new(more));
                assert(spec_parse_more_conjure_dependencies(loc) == Ok::<(SourceLocation<'s>, ConjureDependencies<'s>), ParseError<'s>>((rest, deps)));
                assert forall|col: int|
                    loc.start_column <= col < loc.end_column && !char_is_whitespace(#[trigger] loc.line_text()[col]) implies dependencies_cover(
                    deps,
                    col,
                ) by {
                    if col >= r1.start_column {
                        assert(r1.line_text() == loc.line_text());
                        assert(!char_is_whitespace(r1.line_text()[col]));
                    }
                }
            }
        }
    }
}

/// Law: after `using`, the parser reads every dependency written on the
/// rest of the line, in order: the dependencies lie one after the other
/// after `using`, and every character after `using` that is no whitespace
/// lies in one of them. Without `using`, nothing is read.
pub proof fn lemma_parse_conjure_dependencies_reads_all<'s>(loc: SourceLocation<'s>)
    requires
        loc.wf(),
    ensures
        spec_parse_conjure_dependencies(loc) matches Ok((rest, deps)) ==> if spec_starts_with(loc, "using"@) {
            &&& deps is Cons
            &&& is_suffix_from(rest, loc, rest.start_column as int)
            &&& dependencies_in_order(deps, loc.line, loc.start_column + 5, rest.start_column as int)
            &&& all_read(loc, deps, loc.start_column + 5)
        } else {
            deps is Nil && rest == loc
        },
{
    if let Some(after) = spec_strip_prefix(loc, "using"@) {
        assert("using"@.len() == 5) by {
            reveal_strlit("using");
        }
        let trimmed = spec_trim_start(after);
        lemma_trim_start_columns(after);
        lemma_parse_conjure_dependency_columns(trimmed);
        if let Ok((r1, first)) = spec_parse_conjure_dependency(trimmed) {
            lemma_parse_more_conjure_dependencies_reads_all(r1);
            if let Ok((rest, more)) = spec_parse_more_conjure_dependencies(r1) {
                let deps = List::Cons(Box::new(first), Box::new(more));
                assert forall|col: int|
                    loc.start_column + 5 <= col < loc.end_column && !char_is_whitespace(#[trigger] loc.line_text()[col]) implies dependencies_cover(
                    deps,
                    col,
                ) by {
                    assert(after.line_text() == loc.line_text());
                    if col >= r1.start_column {
                        assert(r1.line_text() == loc.line_text());
                        assert(!char_is_whitespace(r1.line_text()[col]));
                    }
                }
            }
        }
    }
}

} // verus!
