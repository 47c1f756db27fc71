use conjure::check::describes::can_be_used_in_place_of;
use conjure::check::evaluate::check_function_context_with_ids;
use conjure::check::format::IndentingFormatter;
use conjure::check::items::{get, insert, set_add, set_has, Items};
use conjure::check::names::{name_insert, name_lookup};
use conjure::check::error::CheckError;
use conjure::check::substitute::{function_fn, function_sig, signature_sig};
use conjure::check::value::{
    ContextResolver, FunctionId, FunctionValue, LambdaDependencies, SignatureId, SignatureName, SignatureValue, Span,
    UnknownFunctionValue, UnknownSignatureValue,
};
use conjure::location::SourceLocation;
use conjure::parse::{parse_file_as_function_context_checked, skip_empty_lines};
use conjure::lines::SourceLocationLines;
use conjure::source::Source;
use std::rc::Rc;

fn given_function(source: &Source, ids: &[u64]) -> FunctionValue {
    let context = match parse_file_as_function_context_checked(source) {
        Some(Ok(context)) => context,
        _ => panic!("expected a context"),
    };
    let outcome = check_function_context_with_ids(source, &context, &ids.to_vec());
    let value = outcome.result.ok().expect("checks");
    match &value.given_functions {
        Items::Cons(entry, _) => entry.1.function.copy(),
        Items::Nil => panic!("a given function"),
    }
}

#[test]
fn a_function_is_described_by_its_own_signature() {
    let source = Source::new("test.txt", "(N) = take\n(S) = define\n    (X) = take\n    conjure (B)\n    conjure (N) g\nf = take (S)\ngive f");
    let function = given_function(&source, &[1, 2, 3, 4, 5, 6]);
    let signature = function.signature();
    assert_eq!(signature.describes(&source, &function).ok(), Some(true));
    assert_eq!(can_be_used_in_place_of(&source, &signature, &signature).ok(), Some(true));
}

#[test]
fn a_defined_function_is_described_by_its_own_signature() {
    let source = Source::new("test.txt", "(S) = take\nf = define\n    g = take (S)\n    (X) = take\n    give g\n    give (X)\ngive f");
    let function = given_function(&source, &[10, 20, 30, 40]);
    assert_eq!(function.signature().describes(&source, &function).ok(), Some(true));
}

#[test]
fn dependencies_together_are_the_union() {
    let a = LambdaDependencies {
        signatures: set_add(&set_add(&Items::Nil, 1), 2),
        functions: Items::Nil,
    };
    let b = LambdaDependencies {
        signatures: set_add(&set_add(&Items::Nil, 2), 3),
        functions: Items::Nil,
    };
    let both = a.checked_add(&b).ok().expect("no conflict");
    for id in [1, 2, 3] {
        assert!(set_has(&both.signatures, id));
    }
    assert!(!set_has(&both.signatures, 4));
    let mut order = Vec::new();
    let mut items = &both.signatures;
    while let Items::Cons(x, rest) = items {
        order.push(**x);
        items = rest;
    }
    assert_eq!(order, vec![1, 2, 3]);
}

#[test]
fn a_map_gives_back_what_was_inserted() {
    let m = insert(&insert(&Items::Nil, 7, "seven"), 8, "eight");
    let m = insert(&m, 7, "SEVEN");
    assert_eq!(get(&m, 7), Some(&"SEVEN"));
    assert_eq!(get(&m, 8), Some(&"eight"));
    assert_eq!(get(&m, 9), None);
    match &m {
        Items::Cons(first, _) => assert_eq!(first.0, 7),
        Items::Nil => panic!("not empty"),
    }
    let _shared: Rc<(u64, &str)> = match m {
        Items::Cons(first, _) => first,
        Items::Nil => panic!("not empty"),
    };
}

#[test]
fn names_are_found_by_their_text() {
    let source = Source::new("test.txt", "foo bar foo");
    let span = |start: usize, end: usize| Span { line: 0, start_column: start, end_column: end, line_offset: 0 };
    let m = name_insert(&source, &Items::Nil, span(0, 3), 1);
    let m = name_insert(&source, &m, span(4, 7), 2);
    assert_eq!(name_lookup(&source, &m, span(8, 11)), Some(1));
    assert_eq!(name_lookup(&source, &m, span(4, 7)), Some(2));
    let m = name_insert(&source, &m, span(8, 11), 3);
    assert_eq!(name_lookup(&source, &m, span(0, 3)), Some(3));
    assert_eq!(name_lookup(&source, &m, span(0, 2)), None);
}

#[test]
fn skipping_stops_at_the_first_line_with_content() {
    let source = Source::new("test.txt", "\n   \n# comment\n  (A) = take\n");
    let lines = SourceLocationLines::top_level(&source);
    let rest = skip_empty_lines(lines).expect("a line with content");
    assert_eq!(rest.start_line, 3);
    let blank = Source::new("test.txt", "\n  # only comments\n\n");
    assert!(skip_empty_lines(SourceLocationLines::top_level(&blank)).is_none());
}

#[test]
fn new_lines_are_indented_by_two_spaces_a_level() {
    let mut out = IndentingFormatter::new();
    out.write_str("a");
    let written = out.indented(|mut out| {
        out.new_line();
        out.write_str("b");
        let inner = out.indented(|mut out| {
            out.new_line();
            out.write_str("c");
            (out, 2)
        });
        (out, inner + 1)
    });
    assert_eq!(written, 3);
    out.new_line();
    out.write_str("d");
    assert_eq!(out.indentation, 0);
    assert_eq!(out.buf.iter().collect::<String>(), "a\n  b\n    c\nd");
}

#[test]
fn indented_keeps_what_was_written_at_both_levels() {
    let mut out = IndentingFormatter::new();
    out.indented(|mut out| {
        out.indented(|mut out| {
            out.new_line();
            (out, ())
        });
        (out, ())
    });
    assert_eq!(out.indentation, 0);
    assert_eq!(out.buf.iter().collect::<String>(), "\n    ");
}

#[test]
fn trimming_a_location_of_whitespace_leaves_it_empty_at_its_start() {
    let source = Source::new("test.txt", "ab    ");
    let location = SourceLocation::new(&source, 0, 2..6);
    let trimmed = location.trim();
    assert_eq!(trimmed.start_column, 2);
    assert_eq!(trimmed.end_column, 2);
}

#[test]
fn what_was_given_is_no_longer_taken() {
    let source = Source::new(
        "test.txt",
        "(T) = define\n    (X) = take\n(A) = take\n(U) = give (A) as (X) to (T)\n(V) = give (A) as (X) to (U)",
    );
    let context = match parse_file_as_function_context_checked(&source) {
        Some(Ok(context)) => context,
        _ => panic!("expected a context"),
    };
    let outcome = check_function_context_with_ids(&source, &context, &vec![1, 2, 3, 4, 5]);
    assert!(matches!(outcome.result, Err(CheckError::CannotResolveTakenSignatureOfSignature { .. })));
}

#[test]
fn a_removed_taken_signature_is_not_found() {
    let source = Source::new("test.txt", "(X) (Y)");
    let span = |start: usize, end: usize| Span { line: 0, start_column: start, end_column: end, line_offset: 0 };
    let x = SignatureName { with_parens: span(0, 3), symbol: span(1, 2) };
    let y = SignatureName { with_parens: span(4, 7), symbol: span(5, 6) };
    let r = ContextResolver::new();
    let r = r.insert_taken_signature(&source, 1, x, span(0, 3)).ok().expect("first");
    let r = r.insert_taken_signature(&source, 2, y, span(4, 7)).ok().expect("second");
    assert!(r.insert_taken_signature(&source, 3, x, span(0, 3)).is_err());
    assert_eq!(r.taken_signature_id(&source, span(1, 2)), Some(1));
    let r = r.remove_taken_signature(&source, 1);
    assert_eq!(r.taken_signature_id(&source, span(1, 2)), None);
    assert_eq!(r.taken_signature_id(&source, span(5, 6)), Some(2));
}

#[test]
fn adding_dependencies_again_changes_nothing() {
    let a = LambdaDependencies {
        signatures: set_add(&set_add(&Items::Nil, 1), 2),
        functions: Items::Nil,
    };
    let b = LambdaDependencies {
        signatures: set_add(&set_add(&Items::Nil, 2), 3),
        functions: Items::Nil,
    };
    let once = a.add(&b);
    let twice = once.add(&b);
    assert_eq!(format!("{:?}", twice), format!("{:?}", once));
    let with_nothing = once.add(&LambdaDependencies::new());
    assert_eq!(format!("{:?}", with_nothing), format!("{:?}", once));
    let with_itself = once.add(&once);
    assert_eq!(format!("{:?}", with_itself), format!("{:?}", once));
}

#[test]
fn removing_a_taken_signature_undoes_taking_it() {
    let source = Source::new("test.txt", "(X) (Y)");
    let span = |start: usize, end: usize| Span { line: 0, start_column: start, end_column: end, line_offset: 0 };
    let x = SignatureName { with_parens: span(0, 3), symbol: span(1, 2) };
    let y = SignatureName { with_parens: span(4, 7), symbol: span(5, 6) };
    let before = ContextResolver::new().insert_taken_signature(&source, 2, y, span(4, 7)).ok().expect("first");
    let taken = before.insert_taken_signature(&source, 1, x, span(0, 3)).ok().expect("second");
    let after = taken.remove_taken_signature(&source, 1);
    assert_eq!(format!("{:?}", after), format!("{:?}", before));
}

#[test]
fn removing_a_taken_function_undoes_taking_it() {
    let source = Source::new("test.txt", "f g");
    let span = |start: usize, end: usize| Span { line: 0, start_column: start, end_column: end, line_offset: 0 };
    let before = ContextResolver::new().insert_taken_function(&source, 2, span(2, 3), span(2, 3)).ok().expect("first");
    let taken = before.insert_taken_function(&source, 1, span(0, 1), span(0, 1)).ok().expect("second");
    assert_eq!(taken.taken_function_id(&source, span(0, 1)), Some(1));
    let after = taken.remove_taken_function(&source, 1);
    assert_eq!(format!("{:?}", after), format!("{:?}", before));
}

#[test]
fn substituting_what_does_not_occur_changes_nothing() {
    let source = Source::new("test.txt", "");
    let taken = |id: u64| SignatureValue::Unknown(UnknownSignatureValue::Taken(SignatureId(id)));
    let function = FunctionValue::Unknown(UnknownFunctionValue::Taken(FunctionId(3), Rc::new(taken(5))));
    let replacement = taken(7);
    let unchanged = function_sig(&source, &function, 9, &replacement, 100).ok().expect("substituted");
    assert_eq!(format!("{:?}", unchanged), format!("{:?}", function));
    let unchanged = function_fn(&source, &function, 4, &function, 100).ok().expect("substituted");
    assert_eq!(format!("{:?}", unchanged), format!("{:?}", function));
    let changed = function_sig(&source, &function, 5, &replacement, 100).ok().expect("substituted");
    let expected = FunctionValue::Unknown(UnknownFunctionValue::Taken(FunctionId(3), Rc::new(taken(7))));
    assert_eq!(format!("{:?}", changed), format!("{:?}", expected));
    let signature = signature_sig(&source, &taken(5), 6, &replacement, 100).ok().expect("substituted");
    assert_eq!(format!("{:?}", signature), format!("{:?}", taken(5)));
}

#[test]
fn taking_a_name_twice_is_refused_by_name() {
    let source = Source::new("test.txt", "(X) (X) f f");
    let span = |start: usize, end: usize| Span { line: 0, start_column: start, end_column: end, line_offset: 0 };
    let first = SignatureName { with_parens: span(0, 3), symbol: span(1, 2) };
    let second = SignatureName { with_parens: span(4, 7), symbol: span(5, 6) };
    let r = ContextResolver::new().insert_taken_signature(&source, 1, first, span(0, 3)).ok().expect("first");
    assert!(matches!(
        r.insert_taken_signature(&source, 2, second, span(4, 7)),
        Err(CheckError::CannotTakeTwoSignaturesWithIdenticalName { .. })
    ));
    let r = r.insert_taken_function(&source, 3, span(8, 9), span(8, 9)).ok().expect("function");
    assert!(matches!(
        r.insert_taken_function(&source, 4, span(10, 11), span(10, 11)),
        Err(CheckError::CannotTakeTwoFunctionsWithIdenticalName { .. })
    ));
}
