//! Persistent lists, shared by reference count, and the ordered maps and sets
//! built on them. A map keeps its keys in insertion order; replacing the value
//! of a key keeps the key's place, and removing a key keeps the order of the
//! others.
use vstd::prelude::*;
use std::rc::Rc;

verus! {

/// A list whose cells are shared: copying it copies one cell.
#[derive(Debug)]
pub enum Items<T> {
    Nil,
    Cons(Rc<T>, Rc<Items<T>>),
}

/// An ordered map from identifiers.
pub type IdMap<V> = Items<(u64, V)>;

/// An ordered set of identifiers.
pub type IdSet = Items<u64>;

impl<T> Items<T> {
    /// The elements, in order.
    pub open spec fn seq(self) -> Seq<T>
        decreases self,
    {
        match self {
            Items::Nil => Seq::empty(),
            Items::Cons(head, tail) => seq![*head].add((*tail).seq()),
        }
    }

    /// Another handle on the same list.
    pub fn copy(&self) -> (r: Items<T>)
        ensures
            r == *self,
    {
        match self {
            Items::Nil => Items::Nil,
            Items::Cons(head, tail) => Items::Cons(Rc::clone(head), Rc::clone(tail)),
        }
    }

    pub fn is_empty(&self) -> (b: bool)
        ensures
            b == (*self is Nil),
    {
        match self {
            Items::Nil => true,
            Items::Cons(..) => false,
        }
    }
}

/// The list without its first element.
pub open spec fn tail<T>(items: Items<T>) -> Items<T> {
    match items {
        Items::Nil => Items::Nil,
        Items::Cons(_, rest) => *rest,
    }
}

/// The first element of a list that has one.
pub open spec fn first<T>(items: Items<T>) -> T
    recommends
        items is Cons,
{
    match items {
        Items::Cons(x, _) => *x,
        Items::Nil => arbitrary(),
    }
}

/// The value of key `k`, if any (the first entry of that key).
pub open spec fn map_get<V>(m: IdMap<V>, k: u64) -> Option<V>
    decreases m,
{
    match m {
        Items::Nil => None,
        Items::Cons(entry, rest) => if entry.0 == k {
            Some(entry.1)
        } else {
            map_get(*rest, k)
        },
    }
}

pub open spec fn map_contains<V>(m: IdMap<V>, k: u64) -> bool {
    map_get(m, k) is Some
}

/// `m` with `k` mapped to `v`: in its place if present, else at the end.
pub open spec fn map_insert<V>(m: IdMap<V>, k: u64, v: V) -> IdMap<V>
    decreases m,
{
    match m {
        Items::Nil => Items::Cons(Rc::new((k, v)), Rc::new(Items::Nil)),
        Items::Cons(entry, rest) => if entry.0 == k {
            Items::Cons(Rc::new((k, v)), rest)
        } else {
            Items::Cons(entry, Rc::new(map_insert(*rest, k, v)))
        },
    }
}

/// `m` without key `k`; the other entries keep their order.
pub open spec fn map_remove<V>(m: IdMap<V>, k: u64) -> IdMap<V>
    decreases m,
{
    match m {
        Items::Nil => Items::Nil,
        Items::Cons(entry, rest) => if entry.0 == k {
            *rest
        } else {
            Items::Cons(entry, Rc::new(map_remove(*rest, k)))
        },
    }
}

pub open spec fn set_contains(s: IdSet, k: u64) -> bool
    decreases s,
{
    match s {
        Items::Nil => false,
        Items::Cons(x, rest) => *x == k || set_contains(*rest, k),
    }
}

/// `s` with `k` at the end, unless it is there already.
pub open spec fn set_insert(s: IdSet, k: u64) -> IdSet
    decreases s,
{
    match s {
        Items::Nil => Items::Cons(Rc::new(k), Rc::new(Items::Nil)),
        Items::Cons(x, rest) => if *x == k {
            s
        } else {
            Items::Cons(x, Rc::new(set_insert(*rest, k)))
        },
    }
}

/// `s` without `k`; the others keep their order.
pub open spec fn set_remove(s: IdSet, k: u64) -> IdSet
    decreases s,
{
    match s {
        Items::Nil => Items::Nil,
        Items::Cons(x, rest) => if *x == k {
            *rest
        } else {
            Items::Cons(x, Rc::new(set_remove(*rest, k)))
        },
    }
}

/// The value of key `k`, if any.
pub fn get<V>(m: &IdMap<V>, k: u64) -> (r: Option<&V>)
    ensures
        match r {
            Some(v) => map_get(*m, k) == Some(*v),
            None => map_get(*m, k) is None,
        },
    decreases m,
{
    match m {
        Items::Nil => None,
        Items::Cons(entry, rest) => if entry.0 == k {
            Some(&entry.1)
        } else {
            get(&**rest, k)
        },
    }
}

pub fn contains_key<V>(m: &IdMap<V>, k: u64) -> (b: bool)
    ensures
        b == map_contains(*m, k),
{
    get(m, k).is_some()
}

/// `m` with `k` mapped to `v`: in its place if present, else at the end.
pub fn insert<V>(m: &IdMap<V>, k: u64, v: V) -> (r: IdMap<V>)
    ensures
        r == map_insert(*m, k, v),
    decreases m,
{
    match m {
        Items::Nil => Items::Cons(Rc::new((k, v)), Rc::new(Items::Nil)),
        Items::Cons(entry, rest) => if entry.0 == k {
            Items::Cons(Rc::new((k, v)), Rc::clone(rest))
        } else {
            Items::Cons(Rc::clone(entry), Rc::new(insert(&**rest, k, v)))
        },
    }
}

/// `m` without key `k`; the other entries keep their order.
pub fn remove<V>(m: &IdMap<V>, k: u64) -> (r: IdMap<V>)
    ensures
        r == map_remove(*m, k),
    decreases m,
{
    match m {
        Items::Nil => Items::Nil,
        Items::Cons(entry, rest) => if entry.0 == k {
            (**rest).copy()
        } else {
            Items::Cons(Rc::clone(entry), Rc::new(remove(&**rest, k)))
        },
    }
}

pub fn set_has(s: &IdSet, k: u64) -> (b: bool)
    ensures
        b == set_contains(*s, k),
    decreases s,
{
    match s {
        Items::Nil => false,
        Items::Cons(x, rest) => **x == k || set_has(&**rest, k),
    }
}

/// `s` with `k` at the end, unless it is there already.
pub fn set_add(s: &IdSet, k: u64) -> (r: IdSet)
    ensures
        r == set_insert(*s, k),
    decreases s,
{
    match s {
        Items::Nil => Items::Cons(Rc::new(k), Rc::new(Items::Nil)),
        Items::Cons(x, rest) => if **x == k {
            s.copy()
        } else {
            Items::Cons(Rc::clone(x), Rc::new(set_add(&**rest, k)))
        },
    }
}

/// `s` without `k`.
pub fn set_without(s: &IdSet, k: u64) -> (r: IdSet)
    ensures
        r == set_remove(*s, k),
    decreases s,
{
    match s {
        Items::Nil => Items::Nil,
        Items::Cons(x, rest) => if **x == k {
            (**rest).copy()
        } else {
            Items::Cons(Rc::clone(x), Rc::new(set_without(&**rest, k)))
        },
    }
}

/// Law: a key maps, after an insertion, to the inserted value; the other
/// keys keep their values.
pub proof fn lemma_map_get_insert<V>(m: IdMap<V>, k: u64, v: V, j: u64)
    ensures
        map_get(map_insert(m, k, v), j) == (if j == k { Some(v) } else { map_get(m, j) }),
    decreases m,
{
    match m {
        Items::Nil => {},
        Items::Cons(entry, rest) => {
            if entry.0 != k {
                lemma_map_get_insert(tail(m), k, v, j);
            }
        },
    }
}

/// Law: after a removal the key has no value; the other keys keep theirs,
/// provided that no key occurs twice.
pub proof fn lemma_map_get_remove<V>(m: IdMap<V>, k: u64, j: u64)
    requires
        map_keys_unique(m),
    ensures
        map_get(map_remove(m, k), j) == (if j == k { None } else { map_get(m, j) }),
    decreases m,
{
    match m {
        Items::Nil => {},
        Items::Cons(entry, rest) => {
            lemma_map_get_remove(tail(m), k, j);
        },
    }
}

/// Law: removing a key that was absent before it was inserted gives back
/// the map as it was.
pub proof fn lemma_map_remove_insert<V>(m: IdMap<V>, k: u64, v: V)
    requires
        map_get(m, k) is None,
    ensures
        map_remove(map_insert(m, k, v), k) == m,
    decreases m,
{
    if m is Cons {
        lemma_map_remove_insert(tail(m), k, v);
    }
}

/// No key occurs twice.
pub open spec fn map_keys_unique<V>(m: IdMap<V>) -> bool
    decreases m,
{
    match m {
        Items::Nil => true,
        Items::Cons(entry, rest) => map_get(*rest, entry.0) is None && map_keys_unique(*rest),
    }
}

/// Law: insertion keeps keys unique.
pub proof fn lemma_map_insert_unique<V>(m: IdMap<V>, k: u64, v: V)
    requires
        map_keys_unique(m),
    ensures
        map_keys_unique(map_insert(m, k, v)),
    decreases m,
{
    match m {
        Items::Nil => {},
        Items::Cons(entry, rest) => {
            if entry.0 != k {
                lemma_map_insert_unique(tail(m), k, v);
                lemma_map_get_insert(tail(m), k, v, entry.0);
            }
        },
    }
}

/// Law: after an insertion the set holds the inserted identifier and those
/// it held.
pub proof fn lemma_set_contains_insert(s: IdSet, k: u64, j: u64)
    ensures
        set_contains(set_insert(s, k), j) == (j == k || set_contains(s, j)),
    decreases s,
{
    match s {
        Items::Nil => {},
        Items::Cons(x, rest) => {
            if *x != k {
                lemma_set_contains_insert(tail(s), k, j);
            }
        },
    }
}

/// No identifier occurs twice.
pub open spec fn set_unique(s: IdSet) -> bool
    decreases s,
{
    match s {
        Items::Nil => true,
        Items::Cons(x, rest) => !set_contains(*rest, *x) && set_unique(*rest),
    }
}

/// Law: once removed from a set in which no identifier occurs twice, an
/// identifier is in it no more.
pub proof fn lemma_set_remove_absent(s: IdSet, k: u64)
    ensures
        set_unique(s) ==> !set_contains(set_remove(s, k), k),
    decreases s,
{
    if s is Cons {
        lemma_set_remove_absent(tail(s), k);
    }
}

} // verus!
