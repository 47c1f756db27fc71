//! Names, read from the source at their spans, and the maps from names to
//! identifiers that contexts keep.
use vstd::prelude::*;
use std::rc::Rc;
use crate::check::items::{lemma_map_get_insert, map_contains, map_insert, IdMap, Items};
use crate::check::value::Span;
use crate::location::line_chars;
use crate::source::Source;

verus! {

/// The text at `span` in `source` (empty where the span lies outside it).
pub open spec fn span_name(source: &Source, span: Span) -> Seq<char> {
    if span.line < source.lines@.len() && span.start_column <= span.end_column <= line_chars(
        source,
        span.line as int,
    ).len() {
        line_chars(source, span.line as int).subrange(span.start_column as int, span.end_column as int)
    } else {
        Seq::empty()
    }
}

/// The text at `span` in `source` (empty where the span lies outside it).
pub fn name_text(source: &Source, span: Span) -> (text: Vec<char>)
    ensures
        text@ == span_name(source, span),
{
    let mut text: Vec<char> = Vec::new();
    if span.line < source.lines.len() && span.start_column <= span.end_column && span.end_column
        <= source.lines[span.line].text.len() {
        let line = &source.lines[span.line].text;
        let mut i: usize = span.start_column;
        while i < span.end_column
            invariant
                line@ == line_chars(source, span.line as int),
                span.start_column <= i <= span.end_column <= line@.len(),
                text@ == line@.subrange(span.start_column as int, i as int),
            decreases span.end_column - i,
        {
            text.push(line[i]);
            i += 1;
            assert(text@ =~= line@.subrange(span.start_column as int, i as int));
        }
    }
    text
}

/// Whether the texts at the two spans are the same.
pub fn same_name(source: &Source, a: Span, b: Span) -> (same: bool)
    ensures
        same == (span_name(source, a) == span_name(source, b)),
{
    let x = name_text(source, a);
    let y = name_text(source, b);
    if x.len() != y.len() {
        return false;
    }
    let mut i: usize = 0;
    while i < x.len()
        invariant
            x@ == span_name(source, a),
            y@ == span_name(source, b),
            x@.len() == y@.len(),
            0 <= i <= x@.len(),
            forall|j: int| 0 <= j < i ==> x@[j] == y@[j],
        decreases x@.len() - i,
    {
        if x[i] != y[i] {
            assert(x@[i as int] != y@[i as int]);
            return false;
        }
        i += 1;
    }
    assert(x@ =~= y@);
    true
}

/// A map from names, each given by the span of an occurrence.
pub type NameMap = Items<(Span, u64)>;

/// The identifier of the name `name`, if any.
pub open spec fn names_get(source: &Source, m: NameMap, name: Seq<char>) -> Option<u64>
    decreases m,
{
    match m {
        Items::Nil => None,
        Items::Cons(entry, rest) => if span_name(source, entry.0) == name {
            Some(entry.1)
        } else {
            names_get(source, *rest, name)
        },
    }
}

/// `m` with the name at `key` mapped to `id`: in its place (keeping its
/// first span) if the name is there, else at the end.
pub open spec fn names_insert(source: &Source, m: NameMap, key: Span, id: u64) -> NameMap
    decreases m,
{
    match m {
        Items::Nil => Items::Cons(Rc::new((key, id)), Rc::new(Items::Nil)),
        Items::Cons(entry, rest) => if span_name(source, entry.0) == span_name(source, key) {
            Items::Cons(Rc::new((entry.0, id)), rest)
        } else {
            Items::Cons(entry, Rc::new(names_insert(source, *rest, key, id)))
        },
    }
}

/// `m` without the name `name`.
pub open spec fn names_remove(source: &Source, m: NameMap, name: Seq<char>) -> NameMap
    decreases m,
{
    match m {
        Items::Nil => Items::Nil,
        Items::Cons(entry, rest) => if span_name(source, entry.0) == name {
            *rest
        } else {
            Items::Cons(entry, Rc::new(names_remove(source, *rest, name)))
        },
    }
}

/// The identifier of the name at `name`, if any.
pub fn name_lookup(source: &Source, m: &NameMap, name: Span) -> (id: Option<u64>)
    ensures
        id == names_get(source, *m, span_name(source, name)),
    decreases m,
{
    match m {
        Items::Nil => None,
        Items::Cons(entry, rest) => if same_name(source, entry.0, name) {
            Some(entry.1)
        } else {
            name_lookup(source, &**rest, name)
        },
    }
}

pub fn name_insert(source: &Source, m: &NameMap, key: Span, id: u64) -> (r: NameMap)
    ensures
        r == names_insert(source, *m, key, id),
    decreases m,
{
    match m {
        Items::Nil => Items::Cons(Rc::new((key, id)), Rc::new(Items::Nil)),
        Items::Cons(entry, rest) => if same_name(source, entry.0, key) {
            Items::Cons(Rc::new((entry.0, id)), Rc::clone(rest))
        } else {
            Items::Cons(Rc::clone(entry), Rc::new(name_insert(source, &**rest, key, id)))
        },
    }
}

pub fn name_remove(source: &Source, m: &NameMap, name: Span) -> (r: NameMap)
    ensures
        r == names_remove(source, *m, span_name(source, name)),
    decreases m,
{
    match m {
        Items::Nil => Items::Nil,
        Items::Cons(entry, rest) => if same_name(source, entry.0, name) {
            (**rest).copy()
        } else {
            Items::Cons(Rc::clone(entry), Rc::new(name_remove(source, &**rest, name)))
        },
    }
}

/// Law: a name maps, after an insertion, to the inserted identifier; other
/// names keep theirs.
pub proof fn lemma_names_get_insert(source: &Source, m: NameMap, key: Span, id: u64, name: Seq<char>)
    ensures
        names_get(source, names_insert(source, m, key, id), name) == (if name == span_name(source, key) {
            Some(id)
        } else {
            names_get(source, m, name)
        }),
    decreases m,
{
    match m {
        Items::Nil => {},
        Items::Cons(entry, rest) => {
            if span_name(source, entry.0) != span_name(source, key) {
                lemma_names_get_insert(source, crate::check::items::tail(m), key, id, name);
            }
        },
    }
}

/// No name occurs twice in `m`.
pub open spec fn names_unique(source: &Source, m: NameMap) -> bool
    decreases m,
{
    match m {
        Items::Nil => true,
        Items::Cons(entry, rest) => names_get(source, *rest, span_name(source, entry.0)) is None && names_unique(source, *rest),
    }
}

/// Law: inserting keeps the names of a map unique.
pub proof fn lemma_names_insert_unique(source: &Source, m: NameMap, key: Span, id: u64)
    requires
        names_unique(source, m),
    ensures
        names_unique(source, names_insert(source, m, key, id)),
    decreases m,
{
    if m is Cons {
        let entry = crate::check::items::first(m);
        let rest = crate::check::items::tail(m);
        if span_name(source, entry.0) != span_name(source, key) {
            lemma_names_insert_unique(source, rest, key, id);
            lemma_names_get_insert(source, rest, key, id, span_name(source, entry.0));
        }
    }
}

/// Law: removing a name that was absent before it was inserted gives back
/// the map as it was.
pub proof fn lemma_names_remove_insert(source: &Source, m: NameMap, key: Span, id: u64)
    requires
        names_get(source, m, span_name(source, key)) is None,
    ensures
        names_remove(source, names_insert(source, m, key, id), span_name(source, key)) == m,
    decreases m,
{
    if m is Cons {
        lemma_names_remove_insert(source, crate::check::items::tail(m), key, id);
    }
}

/// Law: once a name is removed from a map whose names are unique, it is
/// found no more; the other names keep their identifiers.
pub proof fn lemma_names_get_remove(source: &Source, m: NameMap, name: Seq<char>, other: Seq<char>)
    requires
        names_unique(source, m),
    ensures
        names_get(source, names_remove(source, m, name), other) == (if other == name {
            None
        } else {
            names_get(source, m, other)
        }),
    decreases m,
{
    if m is Cons {
        let rest = crate::check::items::tail(m);
        lemma_names_get_remove(source, rest, name, other);
    }
}

/// Each identifier that `names` binds has an entry in `definitions`.
pub open spec fn names_defined<V>(names: NameMap, definitions: IdMap<V>) -> bool
    decreases names,
{
    match names {
        Items::Nil => true,
        Items::Cons(entry, rest) => map_contains(definitions, entry.1) && names_defined(*rest, definitions),
    }
}

/// Law: a name found in a map whose names are all defined is defined.
pub proof fn lemma_defined_name_found<V>(source: &Source, names: NameMap, definitions: IdMap<V>, name: Seq<char>)
    requires
        names_defined(names, definitions),
    ensures
        names_get(source, names, name) matches Some(id) ==> map_contains(definitions, id),
    decreases names,
{
    if names is Cons {
        lemma_defined_name_found(source, crate::check::items::tail(names), definitions, name);
    }
}

/// Law: adding a definition keeps names defined.
pub proof fn lemma_names_defined_more<V>(names: NameMap, definitions: IdMap<V>, id: u64, v: V)
    requires
        names_defined(names, definitions),
    ensures
        names_defined(names, map_insert(definitions, id, v)),
    decreases names,
{
    if names is Cons {
        lemma_map_get_insert(definitions, id, v, crate::check::items::first(names).1);
        lemma_names_defined_more(crate::check::items::tail(names), definitions, id, v);
    }
}

/// Law: inserting a name together with its definition keeps names defined.
pub proof fn lemma_names_defined_insert<V>(source: &Source, names: NameMap, definitions: IdMap<V>, key: Span, id: u64, v: V)
    requires
        names_defined(names, definitions),
    ensures
        names_defined(names_insert(source, names, key, id), map_insert(definitions, id, v)),
    decreases names,
{
    lemma_map_get_insert(definitions, id, v, id);
    if names is Cons {
        let entry = crate::check::items::first(names);
        let rest = crate::check::items::tail(names);
        lemma_map_get_insert(definitions, id, v, entry.1);
        lemma_names_defined_insert(source, rest, definitions, key, id, v);
        lemma_names_defined_more(rest, definitions, id, v);
        let m = map_insert(definitions, id, v);
        if span_name(source, entry.0) == span_name(source, key) {
            assert(names_insert(source, names, key, id) == Items::Cons(Rc::new((entry.0, id)), Rc::new(rest)));
            assert(names_defined(Items::Cons(Rc::new((entry.0, id)), Rc::new(rest)), m));
        } else {
            let r = names_insert(source, rest, key, id);
            assert(names_insert(source, names, key, id) == Items::Cons(Rc::new(entry), Rc::new(r)));
            assert(names_defined(Items::Cons(Rc::new(entry), Rc::new(r)), m));
        }
    } else {
        assert(names_defined(Items::<(Span, u64)>::Nil, map_insert(definitions, id, v)));
    }
}

} // verus!
