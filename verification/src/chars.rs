//! Character classes that the parser splits lines by.
use vstd::prelude::*;

verus! {

/// The characters with the Unicode `White_Space` property: the controls
/// U+0009 to U+000D, the space, U+0085, the no-break space U+00A0, U+1680,
/// the spaces U+2000 to U+200A, the line and paragraph separators U+2028 and
/// U+2029, U+202F, U+205F and the ideographic space U+3000.
pub open spec fn char_is_whitespace(c: char) -> bool {
    let n = c as u32;
    ||| 0x9 <= n <= 0xD
    ||| n == 0x20
    ||| n == 0x85
    ||| n == 0xA0
    ||| n == 0x1680
    ||| 0x2000 <= n <= 0x200A
    ||| n == 0x2028
    ||| n == 0x2029
    ||| n == 0x202F
    ||| n == 0x205F
    ||| n == 0x3000
}

/// Whether `c` is whitespace: the same as `char::is_whitespace`, which std
/// documents as the characters with the `White_Space` property.
pub fn is_whitespace(c: char) -> (b: bool)
    ensures
        b == char_is_whitespace(c),
{
    let n = c as u32;
    (0x9 <= n && n <= 0xD) || n == 0x20 || n == 0x85 || n == 0xA0 || n == 0x1680 || (0x2000 <= n && n <= 0x200A)
        || n == 0x2028 || n == 0x2029 || n == 0x202F || n == 0x205F || n == 0x3000
}

/// A character that may stand in the name of a signature or a function.
pub open spec fn spec_is_symbol_char(c: char) -> bool {
    !char_is_whitespace(c) && c != '(' && c != ')' && c != '='
}

/// Whether `c` may stand in the name of a signature or a function: it is no
/// whitespace and none of `(`, `)` and `=`.
pub fn is_symbol_char(c: char) -> (b: bool)
    ensures
        b == spec_is_symbol_char(c),
{
    !is_whitespace(c) && c != '(' && c != ')' && c != '='
}

/// The classes of characters by which a location is split.
#[derive(Clone, Copy, PartialEq, Eq, Debug)]
pub enum CharClass {
    Whitespace,
    NotWhitespace,
    Symbol,
}

pub open spec fn in_class(c: char, class: CharClass) -> bool {
    match class {
        CharClass::Whitespace => char_is_whitespace(c),
        CharClass::NotWhitespace => !char_is_whitespace(c),
        CharClass::Symbol => spec_is_symbol_char(c),
    }
}

pub fn is_in_class(c: char, class: CharClass) -> (b: bool)
    ensures
        b == in_class(c, class),
{
    match class {
        CharClass::Whitespace => is_whitespace(c),
        CharClass::NotWhitespace => !is_whitespace(c),
        CharClass::Symbol => is_symbol_char(c),
    }
}

/// The number of leading characters of `s` that belong to `class`.
pub open spec fn class_prefix_len(s: Seq<char>, class: CharClass) -> nat
    decreases s.len(),
{
    if s.len() == 0 {
        0
    } else if !in_class(s[0], class) {
        0
    } else {
        1 + class_prefix_len(s.drop_first(), class)
    }
}

/// The number of trailing characters of `s` that belong to `class`.
pub open spec fn class_suffix_len(s: Seq<char>, class: CharClass) -> nat
    decreases s.len(),
{
    if s.len() == 0 {
        0
    } else if !in_class(s.last(), class) {
        0
    } else {
        1 + class_suffix_len(s.drop_last(), class)
    }
}

/// `n` is the length of the longest prefix of `s` in `class` exactly when all
/// of its characters are in the class and the next one, if any, is not.
pub proof fn lemma_class_prefix_len(s: Seq<char>, class: CharClass, n: int)
    ensures
        (0 <= n <= s.len() && (forall|j: int| 0 <= j < n ==> in_class(#[trigger] s[j], class))
            && (n < s.len() ==> !in_class(s[n], class))) <==> n == class_prefix_len(s, class),
    decreases s.len(),
{
    if s.len() > 0 {
        lemma_class_prefix_len(s.drop_first(), class, n - 1);
        if n > 0 && 0 <= n <= s.len() && (forall|j: int| 0 <= j < n ==> in_class(#[trigger] s[j], class)) {
            assert forall|j: int| 0 <= j < n - 1 implies in_class(#[trigger] s.drop_first()[j], class) by {
                assert(s.drop_first()[j] == s[j + 1]);
            }
        }
        if n == class_prefix_len(s, class) && n > 0 {
            assert forall|j: int| 0 <= j < n implies in_class(#[trigger] s[j], class) by {
                if j > 0 {
                    assert(s[j] == s.drop_first()[j - 1]);
                }
            }
        }
    }
}

/// `n` is the length of the longest suffix of `s` in `class` exactly when all
/// of its characters are in the class and the one before it, if any, is not.
pub proof fn lemma_class_suffix_len(s: Seq<char>, class: CharClass, n: int)
    ensures
        (0 <= n <= s.len() && (forall|j: int| s.len() - n <= j < s.len() ==> in_class(#[trigger] s[j], class))
            && (n < s.len() ==> !in_class(s[s.len() - n - 1], class))) <==> n == class_suffix_len(s, class),
    decreases s.len(),
{
    if s.len() > 0 {
        lemma_class_suffix_len(s.drop_last(), class, n - 1);
        if n > 0 && 0 <= n <= s.len() && (forall|j: int| s.len() - n <= j < s.len() ==> in_class(#[trigger] s[j], class)) {
            assert forall|j: int| s.drop_last().len() - (n - 1) <= j < s.drop_last().len() implies in_class(#[trigger] s.drop_last()[j], class) by {
                assert(s.drop_last()[j] == s[j]);
            }
        }
        if n == class_suffix_len(s, class) && n > 0 {
            assert forall|j: int| s.len() - n <= j < s.len() implies in_class(#[trigger] s[j], class) by {
                if j < s.len() - 1 {
                    assert(s[j] == s.drop_last()[j]);
                }
            }
        }
        if n == 0 && class_suffix_len(s, class) == 0 {
        }
    }
}

} // verus!
