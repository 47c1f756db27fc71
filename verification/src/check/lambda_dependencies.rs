//! What a lambda depends on: the taken signatures and functions that its
//! value mentions.
use vstd::prelude::*;
use std::rc::Rc;
use crate::check::equality::eq_signature_value;
use crate::check::error::{CheckError, CheckResult, InternalError};
use crate::check::items::{
    first, get, insert, lemma_map_get_insert, lemma_map_insert_unique, map_keys_unique, tail, lemma_set_contains_insert, map_contains, map_get, map_insert, set_add, set_contains,
    set_insert, IdMap, IdSet, Items,
};
use crate::check::value::{
    FunctionId, FunctionValue, LambdaDependencies, LambdaDependencyValues, SignatureId, SignatureValue,
    UnknownFunctionValue, UnknownSignatureValue,
};

verus! {

/// `signatures` with each of `other` added, in order.
pub open spec fn spec_add_signatures(signatures: IdSet, other: IdSet) -> IdSet
    decreases other,
{
    match other {
        Items::Nil => signatures,
        Items::Cons(x, rest) => spec_add_signatures(set_insert(signatures, *x), *rest),
    }
}

/// `functions` with each of `other` added, in order; `None` where a function
/// is constrained by two different signatures.
pub open spec fn spec_add_functions(functions: IdMap<SignatureValue>, other: IdMap<SignatureValue>) -> Option<
    IdMap<SignatureValue>,
>
    decreases other,
{
    match other {
        Items::Nil => Some(functions),
        Items::Cons(entry, rest) => match map_get(functions, entry.0) {
            Some(signature) => if signature == entry.1 {
                spec_add_functions(functions, *rest)
            } else {
                None
            },
            None => spec_add_functions(map_insert(functions, entry.0, entry.1), *rest),
        },
    }
}

impl LambdaDependencies {
    /// No function is depended on twice: each has one signature.
    pub open spec fn wf(self) -> bool {
        map_keys_unique(self.functions)
    }

    pub open spec fn spec_is_empty(self) -> bool {
        self.signatures is Nil && self.functions is Nil
    }

    /// Whether no function that both depend on has a different signature in
    /// each (as `other`'s entries are added in order).
    pub open spec fn compatible(self, other: LambdaDependencies) -> bool {
        spec_add_functions(self.functions, other.functions) is Some
    }

    /// The dependencies of both lambdas: those of `self`, then those of
    /// `other` that `self` lacks, in `other`'s order.
    pub open spec fn spec_union(self, other: LambdaDependencies) -> LambdaDependencies {
        LambdaDependencies {
            signatures: spec_add_signatures(self.signatures, other.signatures),
            functions: spec_add_functions(self.functions, other.functions).unwrap(),
        }
    }

    /// The union, or an internal error where the two disagree on the
    /// signature of a function.
    pub open spec fn spec_add(self, other: LambdaDependencies) -> CheckResult<LambdaDependencies> {
        if self.compatible(other) {
            Ok(self.spec_union(other))
        } else {
            Err(CheckError::Internal { error: InternalError::ConflictingDependencySignature })
        }
    }

    pub fn is_empty(&self) -> (b: bool)
        ensures
            b == self.spec_is_empty(),
    {
        self.signatures.is_empty() && self.functions.is_empty()
    }

    /// Whether the two agree on the signature of every function both depend on.
    pub fn is_compatible(&self, other: &LambdaDependencies) -> (b: bool)
        ensures
            b == self.compatible(*other),
    {
        add_functions(&self.functions, &other.functions).is_some()
    }

    /// The dependencies of both lambdas, where they agree on the signature of
    /// every function both depend on.
    pub fn add(&self, other: &LambdaDependencies) -> (r: LambdaDependencies)
        requires
            self.compatible(*other),
        ensures
            r == self.spec_union(*other),
            self.wf() ==> r.wf(),
    {
        proof {
            if self.wf() {
                lemma_add_functions_unique(self.functions, other.functions);
            }
        }
        let functions = add_functions(&self.functions, &other.functions).unwrap();
        LambdaDependencies { signatures: add_signatures(&self.signatures, &other.signatures), functions }
    }

    /// The dependencies of both lambdas, or an internal error where they
    /// disagree on the signature of a function.
    pub fn checked_add(&self, other: &LambdaDependencies) -> (r: CheckResult<LambdaDependencies>)
        ensures
            r == self.spec_add(*other),
            self.wf() ==> (r matches Ok(d) ==> d.wf()),
    {
        if self.is_compatible(other) {
            Ok(self.add(other))
        } else {
            Err(CheckError::Internal { error: InternalError::ConflictingDependencySignature })
        }
    }

    pub open spec fn spec_as_values(self) -> LambdaDependencyValues {
        LambdaDependencyValues {
            signatures: spec_taken_signature_values(self.signatures),
            functions: spec_taken_function_values(self.functions),
        }
    }

    /// Each dependency, as the value of itself taken.
    pub fn as_values(&self) -> (r: LambdaDependencyValues)
        ensures
            r == self.spec_as_values(),
    {
        LambdaDependencyValues {
            signatures: taken_signature_values(&self.signatures),
            functions: taken_function_values(&self.functions),
        }
    }
}

fn add_signatures(signatures: &IdSet, other: &IdSet) -> (r: IdSet)
    ensures
        r == spec_add_signatures(*signatures, *other),
    decreases other,
{
    match other {
        Items::Nil => signatures.copy(),
        Items::Cons(x, rest) => add_signatures(&set_add(signatures, **x), &**rest),
    }
}

fn add_functions(functions: &IdMap<SignatureValue>, other: &IdMap<SignatureValue>) -> (r: Option<IdMap<SignatureValue>>)
    ensures
        r == spec_add_functions(*functions, *other),
    decreases other,
{
    match other {
        Items::Nil => Some(functions.copy()),
        Items::Cons(entry, rest) => match get(functions, entry.0) {
            Some(signature) => if eq_signature_value(signature, &entry.1) {
                add_functions(functions, &**rest)
            } else {
                None
            },
            None => add_functions(&insert(functions, entry.0, entry.1.copy()), &**rest),
        },
    }
}

pub open spec fn spec_taken_signature_values(signatures: IdSet) -> IdMap<SignatureValue>
    decreases signatures,
{
    match signatures {
        Items::Nil => Items::Nil,
        Items::Cons(x, rest) => Items::Cons(
            Rc::new((*x, SignatureValue::Unknown(UnknownSignatureValue::Taken(SignatureId(*x))))),
            Rc::new(spec_taken_signature_values(*rest)),
        ),
    }
}

pub open spec fn spec_taken_function_values(functions: IdMap<SignatureValue>) -> IdMap<FunctionValue>
    decreases functions,
{
    match functions {
        Items::Nil => Items::Nil,
        Items::Cons(entry, rest) => Items::Cons(
            Rc::new((entry.0, FunctionValue::Unknown(UnknownFunctionValue::Taken(FunctionId(entry.0), Rc::new(entry.1))))),
            Rc::new(spec_taken_function_values(*rest)),
        ),
    }
}

fn taken_signature_values(signatures: &IdSet) -> (r: IdMap<SignatureValue>)
    ensures
        r == spec_taken_signature_values(*signatures),
    decreases signatures,
{
    match signatures {
        Items::Nil => Items::Nil,
        Items::Cons(x, rest) => Items::Cons(
            Rc::new((**x, SignatureValue::Unknown(UnknownSignatureValue::Taken(SignatureId(**x))))),
            Rc::new(taken_signature_values(&**rest)),
        ),
    }
}

fn taken_function_values(functions: &IdMap<SignatureValue>) -> (r: IdMap<FunctionValue>)
    ensures
        r == spec_taken_function_values(*functions),
    decreases functions,
{
    match functions {
        Items::Nil => Items::Nil,
        Items::Cons(entry, rest) => Items::Cons(
            Rc::new((entry.0, FunctionValue::Unknown(UnknownFunctionValue::Taken(FunctionId(entry.0), Rc::new(entry.1.copy()))))),
            Rc::new(taken_function_values(&**rest)),
        ),
    }
}

proof fn lemma_add_signatures_union(signatures: IdSet, other: IdSet, j: u64)
    ensures
        set_contains(spec_add_signatures(signatures, other), j) == (set_contains(signatures, j) || set_contains(other, j)),
    decreases other,
{
    if other is Cons {
        let x = first(other);
        lemma_add_signatures_union(set_insert(signatures, x), tail(other), j);
        lemma_set_contains_insert(signatures, x, j);
    }
}

proof fn lemma_add_functions_union(functions: IdMap<SignatureValue>, other: IdMap<SignatureValue>, j: u64)
    ensures
        spec_add_functions(functions, other) matches Some(r) ==> map_contains(r, j) == (map_contains(functions, j)
            || map_contains(other, j)),
    decreases other,
{
    if other is Cons {
        let entry = first(other);
        if map_get(functions, entry.0) is Some {
            lemma_add_functions_union(functions, tail(other), j);
        } else {
            lemma_add_functions_union(map_insert(functions, entry.0, entry.1), tail(other), j);
            lemma_map_get_insert(functions, entry.0, entry.1, j);
        }
    }
}

/// Law: the dependencies of two lambdas together are exactly the signatures
/// and the functions that either depends on.
pub proof fn lemma_add_is_union(a: LambdaDependencies, b: LambdaDependencies, j: u64)
    ensures
        a.spec_add(b) matches Ok(r) ==> {
            &&& set_contains(r.signatures, j) == (set_contains(a.signatures, j) || set_contains(b.signatures, j))
            &&& map_contains(r.functions, j) == (map_contains(a.functions, j) || map_contains(b.functions, j))
        },
{
    lemma_add_signatures_union(a.signatures, b.signatures, j);
    lemma_add_functions_union(a.functions, b.functions, j);
}

/// Each entry of `o` is what its key finds in `f`.
pub open spec fn entries_in(f: IdMap<SignatureValue>, o: IdMap<SignatureValue>) -> bool
    decreases o,
{
    match o {
        Items::Nil => true,
        Items::Cons(entry, rest) => map_get(f, entry.0) == Some(entry.1) && entries_in(f, *rest),
    }
}

proof fn lemma_set_insert_present(s: IdSet, k: u64)
    requires
        set_contains(s, k),
    ensures
        set_insert(s, k) == s,
    decreases s,
{
    if s is Cons && first(s) != k {
        lemma_set_insert_present(tail(s), k);
    }
}

proof fn lemma_add_signatures_present(s: IdSet, o: IdSet)
    requires
        forall|j: u64| set_contains(o, j) ==> set_contains(s, j),
    ensures
        spec_add_signatures(s, o) == s,
    decreases o,
{
    if o is Cons {
        assert(set_contains(o, first(o)));
        lemma_set_insert_present(s, first(o));
        assert forall|j: u64| set_contains(tail(o), j) implies set_contains(s, j) by {
            assert(set_contains(o, j));
        }
        lemma_add_signatures_present(s, tail(o));
    }
}

proof fn lemma_add_functions_present(f: IdMap<SignatureValue>, o: IdMap<SignatureValue>)
    requires
        entries_in(f, o),
    ensures
        spec_add_functions(f, o) == Some(f),
    decreases o,
{
    if o is Cons {
        lemma_add_functions_present(f, tail(o));
    }
}

proof fn lemma_add_functions_keeps(f: IdMap<SignatureValue>, o: IdMap<SignatureValue>, k: u64)
    ensures
        spec_add_functions(f, o) matches Some(r) ==> (map_get(f, k) is Some ==> map_get(r, k) == map_get(f, k)),
    decreases o,
{
    if o is Cons {
        let entry = first(o);
        if map_get(f, entry.0) is Some {
            lemma_add_functions_keeps(f, tail(o), k);
        } else {
            let g = map_insert(f, entry.0, entry.1);
            lemma_add_functions_keeps(g, tail(o), k);
            lemma_map_get_insert(f, entry.0, entry.1, k);
        }
    }
}

proof fn lemma_add_functions_holds_other(f: IdMap<SignatureValue>, o: IdMap<SignatureValue>)
    ensures
        spec_add_functions(f, o) matches Some(r) ==> entries_in(r, o),
    decreases o,
{
    if o is Cons {
        let entry = first(o);
        if map_get(f, entry.0) is Some {
            lemma_add_functions_holds_other(f, tail(o));
            lemma_add_functions_keeps(f, tail(o), entry.0);
        } else {
            let g = map_insert(f, entry.0, entry.1);
            lemma_add_functions_holds_other(g, tail(o));
            lemma_add_functions_keeps(g, tail(o), entry.0);
            lemma_map_get_insert(f, entry.0, entry.1, entry.0);
        }
    }
}

proof fn lemma_entries_in_cons(m: IdMap<SignatureValue>, o: IdMap<SignatureValue>)
    requires
        m is Cons,
        entries_in(tail(m), o),
        map_get(tail(m), first(m).0) is None,
    ensures
        entries_in(m, o),
    decreases o,
{
    if o is Cons {
        lemma_entries_in_cons(m, tail(o));
    }
}

proof fn lemma_entries_in_itself(m: IdMap<SignatureValue>)
    requires
        map_keys_unique(m),
    ensures
        entries_in(m, m),
    decreases m,
{
    if m is Cons {
        lemma_entries_in_itself(tail(m));
        lemma_entries_in_cons(m, tail(m));
    }
}

/// No key of `o` finds a different value in `f`.
pub open spec fn signatures_agree(f: IdMap<SignatureValue>, o: IdMap<SignatureValue>) -> bool {
    forall|k: u64|
        #![trigger map_get(o, k), map_get(f, k)]
        map_get(o, k) is Some && map_get(f, k) is Some ==> map_get(f, k) == map_get(o, k)
}

/// Law: where no function is constrained twice by `o`, the functions of two
/// lambdas can be added exactly when no function that both depend on has a
/// different signature in each.
pub proof fn lemma_compatible_when_signatures_agree(f: IdMap<SignatureValue>, o: IdMap<SignatureValue>)
    requires
        map_keys_unique(o),
    ensures
        (spec_add_functions(f, o) is Some) <==> signatures_agree(f, o),
    decreases o,
{
    if o is Cons {
        let entry = first(o);
        let rest = tail(o);
        assert(map_get(rest, entry.0) is None);
        assert forall|k: u64| map_get(o, k) == (if k == entry.0 { Some(entry.1) } else { map_get(rest, k) }) by {}
        if map_get(f, entry.0) is Some {
            lemma_compatible_when_signatures_agree(f, rest);
            if map_get(f, entry.0) == Some(entry.1) {
                if signatures_agree(f, rest) {
                    assert forall|k: u64| map_get(o, k) is Some && map_get(f, k) is Some implies map_get(f, k) == map_get(o, k) by {
                        if k != entry.0 {
                            assert(map_get(rest, k) is Some);
                        }
                    }
                } else {
                    let k = choose|k: u64| !(map_get(rest, k) is Some && map_get(f, k) is Some ==> map_get(f, k) == map_get(rest, k));
                    assert(k != entry.0);
                    assert(!(map_get(o, k) is Some && map_get(f, k) is Some ==> map_get(f, k) == map_get(o, k)));
                }
            } else {
                assert(!(map_get(o, entry.0) is Some && map_get(f, entry.0) is Some ==> map_get(f, entry.0) == map_get(o, entry.0)));
            }
        } else {
            let g = map_insert(f, entry.0, entry.1);
            lemma_compatible_when_signatures_agree(g, rest);
            assert forall|k: u64| k != entry.0 implies map_get(g, k) == map_get(f, k) by {
                lemma_map_get_insert(f, entry.0, entry.1, k);
            }
            if signatures_agree(g, rest) {
                assert forall|k: u64| map_get(o, k) is Some && map_get(f, k) is Some implies map_get(f, k) == map_get(o, k) by {
                    if k != entry.0 {
                        assert(map_get(rest, k) is Some && map_get(g, k) is Some);
                    }
                }
            } else {
                let k = choose|k: u64| !(map_get(rest, k) is Some && map_get(g, k) is Some ==> map_get(g, k) == map_get(rest, k));
                assert(k != entry.0);
                assert(!(map_get(o, k) is Some && map_get(f, k) is Some ==> map_get(f, k) == map_get(o, k)));
            }
        }
    }
}

proof fn lemma_add_functions_unique(f: IdMap<SignatureValue>, o: IdMap<SignatureValue>)
    requires
        map_keys_unique(f),
    ensures
        spec_add_functions(f, o) matches Some(g) ==> map_keys_unique(g),
    decreases o,
{
    if o is Cons {
        let entry = first(o);
        if map_get(f, entry.0) is Some {
            lemma_add_functions_unique(f, tail(o));
        } else {
            lemma_map_insert_unique(f, entry.0, entry.1);
            lemma_add_functions_unique(map_insert(f, entry.0, entry.1), tail(o));
        }
    }
}

/// Law: no dependencies depend on a function twice, and adding keeps it so.
pub proof fn lemma_add_keeps_wf(d: LambdaDependencies, o: LambdaDependencies)
    requires
        d.wf(),
    ensures
        LambdaDependencies::empty().wf(),
        d.spec_add(o) matches Ok(r) ==> r.wf(),
{
    lemma_add_functions_unique(d.functions, o.functions);
}

/// Law: adding dependencies a second time changes nothing, adding none
/// changes nothing, and well-formed dependencies added to themselves stay as
/// they are.
pub proof fn lemma_add_is_idempotent(d: LambdaDependencies, o: LambdaDependencies)
    ensures
        d.spec_add(o) matches Ok(r) ==> r.spec_add(o) == Ok::<LambdaDependencies, CheckError>(r),
        d.spec_add(LambdaDependencies::empty()) == Ok::<LambdaDependencies, CheckError>(d),
        d.wf() ==> d.spec_add(d) == Ok::<LambdaDependencies, CheckError>(d),
{
    if let Ok(r) = d.spec_add(o) {
        assert forall|j: u64| set_contains(o.signatures, j) implies set_contains(r.signatures, j) by {
            lemma_add_signatures_union(d.signatures, o.signatures, j);
        }
        lemma_add_signatures_present(r.signatures, o.signatures);
        lemma_add_functions_holds_other(d.functions, o.functions);
        lemma_add_functions_present(r.functions, o.functions);
    }
    if map_keys_unique(d.functions) {
        lemma_add_signatures_present(d.signatures, d.signatures);
        lemma_entries_in_itself(d.functions);
        lemma_add_functions_present(d.functions, d.functions);
    }
}

} // verus!
