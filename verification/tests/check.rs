use conjure::check::error::{CheckError, CheckResult};
use conjure::check::evaluate::{check_function_context, check_function_context_with_ids, CheckOutcome, TraceEntry};
use conjure::check::format::{write_trace_entry, IndentingFormatter};
use conjure::check::items::Items;
use conjure::check::value::{KnownFunctionValue, SignatureName, Span};
use conjure::error::LabelColor;
use conjure::parse::parse_file_as_function_context_checked;
use conjure::source::Source;
use conjure::syntax::{FunctionContext, List};

fn check(text: &str) -> CheckResult<KnownFunctionValue> {
    let source = Source::new("test.txt", text);
    let context = match parse_file_as_function_context_checked(&source) {
        Some(Ok(context)) => context,
        Some(Err(error)) => panic!("parse error: {}", error.message()),
        None => panic!("lines left after parsing"),
    };
    check_function_context(&source, &context).expect("identifiers drawn").result
}

fn outcome_with_ids(text: &str, ids: &[u64]) -> (Source, Vec<u64>, String) {
    let source = Source::new("test.txt", text);
    let ids = ids.to_vec();
    let rendered = {
        let context = match parse_file_as_function_context_checked(&source) {
            Some(Ok(context)) => context,
            _ => panic!("expected a context"),
        };
        let outcome: CheckOutcome = check_function_context_with_ids(&source, &context, &ids);
        let mut out = IndentingFormatter::new();
        for entry in &outcome.trace {
            assert!(write_trace_entry(&mut out, &source, &outcome.resolver, entry));
        }
        out.buf.iter().collect::<String>()
    };
    (source, ids, rendered)
}

fn items_len<T>(items: &Items<T>) -> usize {
    match items {
        Items::Nil => 0,
        Items::Cons(_, rest) => 1 + items_len(rest),
    }
}

#[test]
fn take_and_give_signature() {
    let value = check("(A) = take\ngive (A)").ok().expect("checks");
    assert_eq!(items_len(&value.taken_signatures), 1);
    assert_eq!(items_len(&value.given_signatures), 1);
    assert_eq!(items_len(&value.taken_functions), 0);
    assert_eq!(items_len(&value.given_functions), 0);
}

#[test]
fn take_and_give_function() {
    let value = check("(S) = take\nf = take (S)\ngive f").ok().expect("checks");
    assert_eq!(items_len(&value.taken_signatures), 1);
    assert_eq!(items_len(&value.taken_functions), 1);
    assert_eq!(items_len(&value.given_functions), 1);
}

#[test]
fn comment_lines_do_not_count() {
    assert!(check("# a comment\n(A) = take\n# another\ngive (A)").is_ok());
}

#[test]
fn unresolved_signature() {
    assert!(matches!(check("give (A)"), Err(CheckError::CannotResolveSignature { .. })));
}

#[test]
fn unresolved_function() {
    assert!(matches!(check("give f"), Err(CheckError::CannotResolveFunction { .. })));
}

#[test]
fn signature_given_twice() {
    assert!(matches!(check("(A) = take\ngive (A)\ngive (A)"), Err(CheckError::CannotGiveSignatureTwice { .. })));
}

#[test]
fn function_given_twice() {
    assert!(matches!(check("(S) = take\nf = take (S)\ngive f\ngive f"), Err(CheckError::CannotGiveFunctionTwice { .. })));
}

#[test]
fn two_given_signatures_with_one_name() {
    let text = "(A) = take\ngive (A)\n(A) = define\n    conjure (B)\ngive (A)";
    assert!(matches!(check(text), Err(CheckError::CannotGiveTwoSignaturesWithIdenticalName { .. })));
}

#[test]
fn two_taken_signatures_with_one_name() {
    assert!(matches!(
        check("(A) = take\n(A) = take"),
        Err(CheckError::CannotTakeTwoSignaturesWithIdenticalName { .. })
    ));
}

#[test]
fn two_taken_functions_with_one_name() {
    assert!(matches!(
        check("(S) = take\nf = take (S)\nf = take (S)"),
        Err(CheckError::CannotTakeTwoFunctionsWithIdenticalName { .. })
    ));
}

#[test]
fn signature_taken_from_function() {
    let text = "(S) = define\n    conjure (B)\nf = take (S)\n(B) = take from f\ngive (B)";
    let value = check(text).ok().expect("checks");
    assert_eq!(items_len(&value.given_signatures), 1);
    assert_eq!(items_len(&value.taken_functions), 1);
}

#[test]
fn signature_taken_under_another_name() {
    let text = "(S) = define\n    conjure (B)\nf = take (S)\n(C) = take (B) from f\ngive (C)";
    assert!(check(text).is_ok());
}

#[test]
fn signature_not_given_by_function() {
    let text = "(S) = define\n    conjure (B)\nf = take (S)\n(C) = take from f";
    assert!(matches!(check(text), Err(CheckError::CannotResolveGivenSignature { .. })));
}

#[test]
fn signature_taken_from_unknown_function() {
    let text = "(S) = take\nf = take (S)\n(B) = take from f";
    assert!(matches!(check(text), Err(CheckError::CannotTakeSignatureFromUnknownFunction { .. })));
}

#[test]
fn function_taken_from_function() {
    let text = "(N) = take\n(S) = define\n    conjure (N) g\nf = take (S)\ng = take from f\ngive g";
    assert!(check(text).is_ok());
}

#[test]
fn function_not_given_by_function() {
    let text = "(N) = take\n(S) = define\n    conjure (N) g\nf = take (S)\nh = take from f";
    assert!(matches!(check(text), Err(CheckError::CannotResolveGivenFunction { .. })));
}

#[test]
fn function_taken_from_unknown_function() {
    let text = "(S) = take\nf = take (S)\ng = take from f";
    assert!(matches!(check(text), Err(CheckError::CannotTakeFunctionFromUnknownFunction { .. })));
}

#[test]
fn dependencies_of_a_taken_signature_must_be_provided() {
    let text = "f = define\n    (X) = take\n    give (X)\n(Y) = take (X) from f";
    assert!(matches!(check(text), Err(CheckError::TakenSignatureDependenciesNotProvided { .. })));
}

#[test]
fn dependencies_of_a_taken_function_must_be_provided() {
    let text = "(S) = take\nf = define\n    g = take (S)\n    give g\nh = take g from f";
    assert!(matches!(check(text), Err(CheckError::TakenFunctionDependenciesNotProvided { .. })));
}

#[test]
fn signature_given_to_signature() {
    let text = "(T) = define\n    (X) = take\n(A) = take\n(U) = give (A) as (X) to (T)\ngive (U)";
    assert!(check(text).is_ok());
}

#[test]
fn signature_given_to_signature_that_does_not_take_it() {
    let text = "(T) = define\n    (X) = take\n(A) = take\n(U) = give (A) to (T)";
    assert!(matches!(check(text), Err(CheckError::CannotResolveTakenSignatureOfSignature { .. })));
}

#[test]
fn signature_given_to_unknown_signature() {
    let text = "(T) = take\n(A) = take\n(U) = give (A) to (T)";
    assert!(matches!(check(text), Err(CheckError::CannotGiveSignatureToUnknownSignature { .. })));
}

#[test]
fn function_given_to_unknown_signature() {
    let text = "(T) = take\n(S) = take\nh = take (S)\n(U) = give h to (T)";
    assert!(matches!(check(text), Err(CheckError::CannotGiveFunctionToUnknownSignature { .. })));
}

#[test]
fn function_given_to_signature() {
    let text = "(S) = take\n(T) = define\n    g = take (S)\nh = take (S)\n(U) = give h as g to (T)";
    assert!(check(text).is_ok());
}

#[test]
fn function_of_other_signature_given_to_signature() {
    let text = "(S) = take\n(R) = take\n(T) = define\n    g = take (S)\nh = take (R)\n(U) = give h as g to (T)";
    assert!(matches!(
        check(text),
        Err(CheckError::FunctionGivenToSignatureDoesNotHaveExpectedSignature { .. })
    ));
}

#[test]
fn function_given_to_function() {
    let text = "(S) = take\nf = define\n    g = take (S)\nh = take (S)\nk = give h as g to f\ngive k";
    assert!(check(text).is_ok());
}

#[test]
fn function_of_other_signature_given_to_function() {
    let text = "(S) = take\n(R) = take\nf = define\n    g = take (S)\nh = take (R)\nk = give h as g to f";
    assert!(matches!(
        check(text),
        Err(CheckError::FunctionGivenToFunctionDoesNotHaveExpectedSignature { .. })
    ));
}

#[test]
fn signature_given_to_function() {
    let text = "(S) = take\nf = define\n    (X) = take\n    give (X)\nk = give (S) as (X) to f\n(Y) = take (X) from k";
    assert!(check(text).is_ok());
}

#[test]
fn signature_given_to_function_that_does_not_take_it() {
    let text = "(S) = take\nf = define\n    (X) = take\nk = give (S) to f";
    assert!(matches!(check(text), Err(CheckError::CannotResolveTakenSignatureOfFunction { .. })));
}

#[test]
fn function_given_to_function_that_does_not_take_it() {
    let text = "(S) = take\nf = define\n    g = take (S)\nh = take (S)\nk = give h to f";
    assert!(matches!(check(text), Err(CheckError::CannotResolveTakenFunctionOfFunction { .. })));
}

#[test]
fn signature_given_to_unknown_function() {
    let text = "(S) = take\nf = take (S)\nk = give (S) to f";
    assert!(matches!(check(text), Err(CheckError::CannotGiveSignatureToUnknownFunction { .. })));
}

#[test]
fn function_given_to_unknown_function() {
    let text = "(S) = take\nf = take (S)\nk = give f to f";
    assert!(matches!(check(text), Err(CheckError::CannotGiveFunctionToUnknownFunction { .. })));
}

#[test]
fn signature_conjured_twice() {
    let text = "(T) = define\n    conjure (B)\n    conjure (B)";
    assert!(matches!(check(text), Err(CheckError::CannotConjureTwoSignaturesWithIdenticalName { .. })));
}

#[test]
fn function_conjured_twice() {
    let text = "(N) = take\n(T) = define\n    conjure (N) g\n    conjure (N) g";
    assert!(matches!(check(text), Err(CheckError::CannotConjureTwoFunctionsWithIdenticalName { .. })));
}

#[test]
fn names_of_a_definition_stay_inside() {
    let text = "(T) = define\n    (X) = take\ngive (X)";
    assert!(matches!(check(text), Err(CheckError::CannotResolveSignature { .. })));
}

#[test]
fn enclosing_names_are_visible_inside() {
    // the inner context resolves (A) from the enclosing one, where it is unknown
    let text = "(A) = take\nf = define\n    (B) = give (A) as (A) to (A)";
    assert!(matches!(check(text), Err(CheckError::CannotGiveSignatureToUnknownSignature { .. })));
}

#[test]
fn trace_of_a_taken_signature() {
    let (_source, _ids, rendered) = outcome_with_ids("TRACE\n(A) = take", &[7]);
    assert_eq!(rendered, "(A) := Lambda  (A).  (A)\n\n");
}

#[test]
fn trace_of_a_taken_function() {
    let (_source, _ids, rendered) = outcome_with_ids("TRACE\n(S) = take\nf = take (S)", &[1, 2]);
    assert_eq!(rendered, "(S) := Lambda  (S).  (S)\n\nf := Lambda  (S). f\n\n");
}

#[test]
fn no_trace_without_trace_line() {
    let (_source, _ids, rendered) = outcome_with_ids("(A) = take", &[7]);
    assert_eq!(rendered, "");
}

#[test]
fn identifiers_come_from_the_given_sequence() {
    let source = Source::new("test.txt", "(A) = take\ngive (A)");
    let context = match parse_file_as_function_context_checked(&source) {
        Some(Ok(context)) => context,
        _ => panic!("expected a context"),
    };
    let outcome = check_function_context_with_ids(&source, &context, &vec![42]);
    let value = outcome.result.ok().expect("checks");
    match &value.given_signatures {
        Items::Cons(entry, _) => assert_eq!(entry.0, 42),
        Items::Nil => panic!("a given signature"),
    }
    match &value.taken_signatures {
        Items::Cons(id, _) => assert_eq!(**id, 42),
        Items::Nil => panic!("a taken signature"),
    }
    match &outcome.trace.len() {
        0 => {}
        _ => panic!("no trace"),
    }
    let _unused: Option<&TraceEntry> = outcome.trace.first();
}

#[test]
fn function_given_to_signature_that_does_not_take_it() {
    let text = "(S) = take\n(T) = define\n    g = take (S)\nh = take (S)\n(U) = give h to (T)";
    assert!(matches!(check(text), Err(CheckError::CannotResolveTakenFunctionOfSignature { .. })));
}

#[test]
fn two_given_functions_with_one_name() {
    let text = "(S) = take\nf = take (S)\ngive f\nf = define\n    (X) = take\ngive f";
    assert!(matches!(check(text), Err(CheckError::CannotGiveTwoFunctionsWithIdenticalName { .. })));
}

#[test]
fn error_names() {
    let text = "(A) = take\ngive (A)\ngive (A)";
    match check(text) {
        Err(error) => assert_eq!(error.name(), "CheckError::CannotGiveSignatureTwice"),
        Ok(_) => panic!("expected an error"),
    }
}

#[test]
fn unresolved_names_are_labelled_here() {
    let span = |start: usize, end: usize| Span { line: 0, start_column: start, end_column: end, line_offset: 0 };
    let error = CheckError::CannotResolveSignature { signature: SignatureName { with_parens: span(0, 3), symbol: span(1, 2) } };
    let (anchor, labels) = error.report_labels().expect("a report");
    assert_eq!(anchor, span(0, 3));
    assert_eq!(labels.len(), 1);
    assert_eq!(labels[0].span, span(0, 3));
    assert_eq!(labels[0].message, "here");
    assert_eq!(labels[0].color, LabelColor::Cyan);
    let error = CheckError::CannotResolveFunction { function: span(4, 5) };
    let (anchor, labels) = error.report_labels().expect("a report");
    assert_eq!(anchor, span(4, 5));
    assert_eq!(labels[0].span, span(4, 5));
    let error = CheckError::CannotGiveSignatureTwice {
        signature: SignatureName { with_parens: span(0, 3), symbol: span(1, 2) },
        statement: span(0, 9),
    };
    assert!(error.report_labels().is_none());
}

#[test]
fn a_context_without_statements_always_has_an_outcome() {
    let source = Source::new("test.txt", "");
    let context = FunctionContext { trace: false, statements: List::Nil };
    let outcome = check_function_context(&source, &context).expect("an outcome");
    assert!(outcome.result.is_ok());
}
