# conjure

A parser and checker for a small language of signatures and functions, written
in Verus. A file is a function context: statements that take, define, give and
conjure signatures (names in parentheses) and functions; indented lines form the
context of a definition. The checker evaluates each statement to a lambda and
reports the first statement whose parts do not fit together.

Layout:

- `src/source.rs`, `src/location.rs`, `src/lines.rs`, `src/chars.rs`: source
  texts split into lines, and locations (column ranges of one line) with the
  operations the parser needs.
- `src/syntax.rs`, `src/parse.rs`, `src/error.rs`: the syntax tree, the
  indentation-based parser, and its errors. Each parser function is stated as a
  spec function and proved equal to it.
- `src/check/`: the values that signatures and functions evaluate to
  (`value.rs`), their persistent maps (`items.rs`, `names.rs`), substitution
  and where an identifier occurs (`substitute.rs`, `occurrence.rs`),
  the comparison of signatures (`describes.rs`), the operations of assignments
  (`operations.rs`), the evaluation of contexts (`evaluate.rs`) and the text of
  values for the trace (`format.rs`).
- `app/main.rs`: reads a file, runs the parser and the checker, and prints
  reports with `ariadne`.
- `tests/`: scenarios for the locations, the parser, the checker and the laws.

Maps and sets in the checker are persistent lists of their own (`Items`,
`IdMap`, `IdSet`, `NameMap`), ordered by insertion, in place of an ordered map
crate and std's hash map: declared as an outside type, an ordered map could not
hold the checker's recursive value types (Verus refuses a type that recursively
uses itself through such a declaration), and a hash map's order of iteration
is not fixed. Insertion keeps keys unique (`map_keys_unique`, and
`LambdaDependencies::wf` for the dependencies of a lambda).
