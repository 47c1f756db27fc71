use conjure::error::{LabelColor, ParseError};
use conjure::location::SourceLocation;
use conjure::parse::{parse_file_as_function_context_checked, parse_file_as_signature_context_checked};
use conjure::source::Source;
use conjure::syntax::{FunctionStatement, List, SignatureStatement};

fn parse_error_message(text: &str) -> &'static str {
    let source = Source::new("test.txt", text);
    match parse_file_as_function_context_checked(&source) {
        Some(Err(error)) => error.message(),
        Some(Ok(_)) => panic!("expected a parse error"),
        None => panic!("lines left after parsing"),
    }
}

fn function_statements(text: &str) -> usize {
    let source = Source::new("test.txt", text);
    match parse_file_as_function_context_checked(&source) {
        Some(Ok(context)) => {
            let mut n = 0;
            let mut list = &context.statements;
            while let List::Cons(_, rest) = list {
                n += 1;
                list = rest;
            }
            n
        }
        _ => panic!("expected a context"),
    }
}

#[test]
fn statements_are_parsed_in_order() {
    let source = Source::new("test.txt", "(A) = take\nf = take (A)\ngive (A)\ngive f");
    let context = match parse_file_as_function_context_checked(&source) {
        Some(Ok(context)) => context,
        _ => panic!("expected a context"),
    };
    assert!(!context.trace);
    let mut kinds = Vec::new();
    let mut list = &context.statements;
    while let List::Cons(statement, rest) = list {
        kinds.push(match **statement {
            FunctionStatement::SignatureAssignment(_) => "signature",
            FunctionStatement::FunctionAssignment(_) => "function",
            FunctionStatement::GiveSignature(_) => "give signature",
            FunctionStatement::GiveFunction(_) => "give function",
        });
        list = rest;
    }
    assert_eq!(kinds, vec!["signature", "function", "give signature", "give function"]);
}

#[test]
fn comments_and_empty_lines_are_skipped() {
    assert_eq!(function_statements("# a comment\n\n(A) = take\n   # indented comment\ngive (A)"), 2);
}

#[test]
fn trace_line_sets_trace() {
    let source = Source::new("test.txt", "TRACE\n(A) = take");
    match parse_file_as_function_context_checked(&source) {
        Some(Ok(context)) => {
            assert!(context.trace);
            assert!(matches!(context.statements, List::Cons(_, _)));
        }
        _ => panic!("expected a context"),
    }
}

#[test]
fn trailing_newline_is_fine() {
    assert_eq!(function_statements("(A) = take\n"), 1);
}

#[test]
fn empty_text_leaves_a_line() {
    let source = Source::new("test.txt", "");
    assert!(parse_file_as_function_context_checked(&source).is_none());
}

#[test]
fn trailing_blank_line_is_left() {
    let source = Source::new("test.txt", "(A) = take\n\n");
    assert!(parse_file_as_function_context_checked(&source).is_none());
}

#[test]
fn nested_definition() {
    let source = Source::new("test.txt", "(T) = define\n    (X) = take\n    conjure (Y)\ngive (T)");
    let context = match parse_file_as_function_context_checked(&source) {
        Some(Ok(context)) => context,
        _ => panic!("expected a context"),
    };
    assert!(matches!(context.statements, List::Cons(_, _)));
}

#[test]
fn dependencies_end_at_the_line_terminator_only_on_the_last_line() {
    // the line terminator stays after the last dependency, so only the
    // file's last line can end with dependencies
    let source = Source::new("test.txt", "(T) = define\n    (X) = take\n    conjure (Y) using (X)");
    assert!(matches!(parse_file_as_function_context_checked(&source), Some(Ok(_))));
    assert_eq!(
        parse_error_message("(T) = define\n    (X) = take\n    conjure (Y) using (X)\ngive (T)"),
        "expected function or end of line"
    );
}

#[test]
fn comment_after_a_statement_is_no_comment() {
    assert_eq!(parse_error_message("(A) = take # taken"), "expected 'from' keyword, signature or end of line");
}

#[test]
fn signature_context_with_conjurations() {
    let source = Source::new("test.txt", "(N) = take\nconjure (B)\nconjure (N) g using (B)");
    match parse_file_as_signature_context_checked(&source) {
        Some(Ok(context)) => {
            let mut kinds = Vec::new();
            let mut list = &context.statements;
            while let List::Cons(statement, rest) = list {
                kinds.push(match **statement {
                    SignatureStatement::SignatureAssignment(_) => "signature",
                    SignatureStatement::FunctionAssignment(_) => "function",
                    SignatureStatement::ConjureSignature(_) => "conjure signature",
                    SignatureStatement::ConjureFunction(_) => "conjure function",
                });
                list = rest;
            }
            assert_eq!(kinds, vec!["signature", "conjure signature", "conjure function"]);
        }
        _ => panic!("expected a context"),
    }
}

#[test]
fn expected_equals() {
    assert_eq!(parse_error_message("(A) take"), "expected '='");
}

#[test]
fn reserved_symbol() {
    assert_eq!(parse_error_message("take = take (S)"), "reserved symbol used as function or signature name");
}

#[test]
fn unexpected_indentation() {
    assert_eq!(parse_error_message("    (A) = take"), "unexpected indentation");
}

#[test]
fn indentation_mismatch() {
    let source = Source::new("test.txt", "(T) = define\n  (X) = take\n    (Y) = take");
    match parse_file_as_function_context_checked(&source) {
        Some(Err(ParseError::IndentationMismatch { expected_indentation, actual_indentation })) => {
            assert_eq!(expected_indentation.len(), 2);
            assert_eq!(actual_indentation.len(), 4);
        }
        _ => panic!("expected an indentation mismatch"),
    }
}

#[test]
fn expected_end_of_line_after_define() {
    assert_eq!(parse_error_message("(A) = define x"), "expected end of line");
}

#[test]
fn give_in_signature_context() {
    assert_eq!(parse_error_message("(T) = define\n    give (A)"), "'give' statements cannot be used in signature contexts");
}

#[test]
fn conjure_in_function_context() {
    assert_eq!(parse_error_message("conjure (A)"), "'conjure' statements cannot be used in function contexts");
}

#[test]
fn expected_signature_assignment_rhs() {
    assert_eq!(parse_error_message("(A) = frob"), "expected 'define', 'give', 'take' or 'conjure' keyword");
}

#[test]
fn expected_closing_paren() {
    assert_eq!(parse_error_message("(A = take"), "expected ')'");
}

#[test]
fn expected_function_statement() {
    assert_eq!(parse_error_message("= take"), "expected assignment or 'give' keyword");
}

#[test]
fn expected_as_or_to() {
    assert_eq!(parse_error_message("(A) = give (B) (C)"), "expected 'as' or 'to' keyword");
}

#[test]
fn expected_to() {
    assert_eq!(parse_error_message("(A) = give (B) as (C) (D)"), "expected 'to' keyword");
}

#[test]
fn expected_from() {
    assert_eq!(parse_error_message("(A) = take (B) f"), "expected 'from' keyword");
}

#[test]
fn expected_signature() {
    assert_eq!(parse_error_message("f = take (S)\n(A) = give (B) to g"), "expected signature");
}

#[test]
fn expected_function() {
    assert_eq!(parse_error_message("(A) = take from (B)"), "expected function");
}

#[test]
fn expected_function_assignment_rhs() {
    assert_eq!(parse_error_message("f = frob"), "expected 'define', 'give', 'take' or 'conjure' keyword");
}

#[test]
fn expected_signature_or_function() {
    assert_eq!(parse_error_message("(A) = give = x"), "expected signature or function");
}

#[test]
fn expected_from_or_signature_or_function() {
    assert_eq!(parse_error_message("f = take = x"), "expected 'from' keyword, signature or function");
}

#[test]
fn expected_using_or_function_or_end_of_line() {
    assert_eq!(parse_error_message("(T) = define\n    conjure (B) g h"), "expected 'using' keyword, function or end of line");
}

#[test]
fn expected_signature_statement() {
    assert_eq!(parse_error_message("(T) = define\n    = x"), "expected assignment or 'conjure' keyword");
}

#[test]
fn an_indentation_mismatch_is_labelled_at_both_indentations() {
    let source = Source::new("test.txt", "    a\n  b");
    let expected = SourceLocation { file: &source, line: 0, start_column: 0, end_column: 4, line_offset: 0 };
    let actual = SourceLocation { file: &source, line: 1, start_column: 0, end_column: 2, line_offset: 6 };
    let error = ParseError::IndentationMismatch { expected_indentation: expected, actual_indentation: actual };
    let labels = error.labels();
    assert_eq!(labels.len(), 2);
    assert_eq!(labels[0].location, actual);
    assert_eq!(labels[0].message, "this indentation...");
    assert_eq!(labels[0].color, LabelColor::BrightRed);
    assert_eq!(labels[1].location, expected);
    assert_eq!(labels[1].message, "... should be like this");
    assert_eq!(labels[1].color, LabelColor::Cyan);
    assert_eq!(error.location(), actual);
    assert_eq!(error.message(), "indentation mismatch");
    let other = ParseError::ExpectedEquals { location: actual };
    let labels = other.labels();
    assert_eq!(labels.len(), 1);
    assert_eq!(labels[0].location, actual);
    assert_eq!(labels[0].message, "here");
    assert_eq!(labels[0].color, LabelColor::Cyan);
}
