use conjure::chars::{is_in_class, is_symbol_char, is_whitespace, CharClass};
use conjure::location::SourceLocation;
use conjure::source::Source;

#[test]
fn grow() {
    let source = Source::new("foo.txt", "hello");
    let location = SourceLocation::new(&source, 0, 2..3);
    let full_line = SourceLocation::full_line(&source, 0);
    assert_eq!(location.grow(2), full_line);
}

#[test]
fn trim_start() {
    let source = Source::new("foo.txt", "   hello");
    let full_line = SourceLocation::full_line(&source, 0);
    let hello = SourceLocation::new(&source, 0, 3..8);
    assert_eq!(full_line.trim_start(), hello);
}

#[test]
fn trim() {
    let source = Source::new("foo.txt", "   hello  ");
    let full_line = SourceLocation::full_line(&source, 0);
    let hello = SourceLocation::new(&source, 0, 3..8);
    assert_eq!(full_line.trim(), hello);
}

#[test]
fn truncate_to_word() {
    let source = Source::new("foo.txt", "hello foo bar");
    let full_line = SourceLocation::full_line(&source, 0);
    let hello = SourceLocation::new(&source, 0, 0..5);
    assert_eq!(full_line.take_until_whitespace(), hello);
}

#[test]
fn strip_prefix() {
    let source = Source::new("foo.txt", "hello foo bar");
    let full_line = SourceLocation::full_line(&source, 0);
    let after_hello = SourceLocation::new(&source, 0, 5..13);
    assert_eq!(full_line.strip_prefix("hello"), Some(after_hello));
    assert_eq!(full_line.strip_prefix("not hello"), None);
}

#[test]
fn lines_keep_their_terminators_and_offsets() {
    let source = Source::new("a.txt", "ab\r\ncd\n\nx");
    assert_eq!(source.lines.len(), 4);
    assert_eq!(source.lines[0].text, vec!['a', 'b', '\r', '\n']);
    assert_eq!(source.lines[1].offset, 4);
    assert_eq!(source.lines[2].text, vec!['\n']);
    assert_eq!(source.lines[3].offset, 8);
    assert_eq!(source.lines[3].text, vec!['x']);
}

#[test]
fn empty_text_has_one_empty_line() {
    let source = Source::new("a.txt", "");
    assert_eq!(source.lines.len(), 1);
    assert!(source.lines[0].text.is_empty());
}

#[test]
fn whitespace_only_trims_to_empty_at_start() {
    let source = Source::new("a.txt", "  \t ");
    let full_line = SourceLocation::full_line(&source, 0);
    let trimmed = full_line.trim();
    assert!(trimmed.is_empty());
    assert_eq!(trimmed.start_column, 0);
}

#[test]
fn trim_removes_the_line_terminator() {
    let source = Source::new("a.txt", "  give (A)  \nnext");
    let full_line = SourceLocation::full_line(&source, 0);
    assert_eq!(full_line.trim(), SourceLocation::new(&source, 0, 2..10));
    assert_eq!(full_line.trim().text(), "give (A)".chars().collect::<Vec<_>>());
}

#[test]
fn partition_and_take_prefix() {
    let source = Source::new("a.txt", "abc=def");
    let full_line = SourceLocation::full_line(&source, 0);
    let (symbol, rest) = full_line.partition(conjure::chars::CharClass::Symbol);
    assert_eq!(symbol, SourceLocation::new(&source, 0, 0..3));
    assert_eq!(rest, SourceLocation::new(&source, 0, 3..7));
    assert_eq!(full_line.take_prefix("abc"), Some(SourceLocation::new(&source, 0, 0..3)));
    assert_eq!(full_line.take_prefix("abd"), None);
    assert_eq!(full_line.truncate(2), SourceLocation::new(&source, 0, 0..2));
    assert_eq!(full_line.truncate(20), full_line);
    assert!(rest.starts_with_char('='));
    assert!(rest.strip_prefix_char('=').unwrap().text_is("def"));
}

#[test]
fn character_classes() {
    assert!(is_in_class(' ', CharClass::Whitespace));
    assert!(is_in_class('\n', CharClass::Whitespace));
    assert!(is_in_class('\u{A0}', CharClass::Whitespace));
    assert!(!is_in_class('a', CharClass::Whitespace));
    assert!(is_in_class('a', CharClass::NotWhitespace));
    assert!(is_symbol_char('a'));
    assert!(is_symbol_char('\''));
    assert!(!is_symbol_char('('));
    assert!(!is_symbol_char(')'));
    assert!(!is_symbol_char('='));
    assert!(!is_symbol_char(' '));
}

#[test]
fn span_offsets_count_characters_of_earlier_lines() {
    let source = Source::new("a.txt", "one\ntwo three");
    let loc = SourceLocation::new(&source, 1, 4..9);
    assert_eq!(loc.span_start(), 8);
    assert_eq!(loc.span_end(), 13);
}

#[test]
fn whitespace_is_the_unicode_white_space_property() {
    for c in ['\t', '\u{0B}', '\u{0C}', '\r', '\u{85}', '\u{1680}', '\u{2000}', '\u{200A}', '\u{2028}', '\u{2029}', '\u{202F}', '\u{205F}', '\u{3000}'] {
        assert!(is_in_class(c, CharClass::Whitespace));
        assert!(!is_symbol_char(c));
    }
    for c in ['\u{180E}', '\u{200B}', '\u{FEFF}', 'x'] {
        assert!(!is_in_class(c, CharClass::Whitespace));
        assert!(is_symbol_char(c));
    }
}

#[test]
fn every_separator_ends_a_line() {
    let source = Source::new("test.txt", "a\u{0B}b\u{0C}c\u{85}d\u{2028}e\u{2029}f\r\rg");
    let texts: Vec<String> = source.lines.iter().map(|l| l.text.iter().collect()).collect();
    assert_eq!(texts, vec!["a\u{0B}", "b\u{0C}", "c\u{85}", "d\u{2028}", "e\u{2029}", "f\r", "\r", "g"]);
    let offsets: Vec<usize> = source.lines.iter().map(|l| l.offset).collect();
    assert_eq!(offsets, vec![0, 2, 4, 6, 8, 10, 12, 13]);
}

#[test]
fn whitespace_agrees_with_std_on_every_character() {
    for c in char::MIN..=char::MAX {
        assert_eq!(is_whitespace(c), c.is_whitespace(), "{:?}", c);
    }
}
