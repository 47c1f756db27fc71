//! Values in which a taken signature or function does not occur, and what
//! substituting for it leaves of them.
use vstd::prelude::*;
use std::rc::Rc;
use crate::check::items::{first, tail, IdMap, Items};
use crate::check::substitute::{
    spec_conjured_function_sig, spec_conjured_signature_sig, spec_dependency_values_sig, spec_function_conjuration_map_sig,
    spec_function_lambda_map_sig, spec_function_map_sig, spec_function_sig, spec_known_function_sig, spec_known_signature_sig,
    spec_signature_lambda_map_sig, spec_signature_map_sig, spec_signature_sig, spec_conjured_function_fn, spec_conjured_signature_fn,
    spec_dependency_values_fn, spec_function_conjuration_map_fn, spec_function_lambda_map_fn, spec_function_map_fn, spec_function_fn,
    spec_known_function_fn, spec_known_signature_fn, spec_signature_lambda_map_fn, spec_signature_map_fn, spec_signature_fn,
};
use crate::check::value::{
    ConjuredFunctionValue, ConjuredSignatureValue, FunctionConjuration, FunctionLambda, FunctionValue, KnownFunctionValue,
    KnownSignatureValue, LambdaDependencyValues, SignatureLambda, SignatureValue, UnknownFunctionValue, UnknownSignatureValue,
};
use crate::source::Source;

verus! {

spec fn known_signature_of(v: SignatureValue) -> KnownSignatureValue {
    match v {
        SignatureValue::Known(known) => *known,
        _ => arbitrary(),
    }
}

spec fn conjured_signature_of(v: SignatureValue) -> ConjuredSignatureValue {
    match v {
        SignatureValue::Unknown(UnknownSignatureValue::Conjured(conjured)) => *conjured,
        _ => arbitrary(),
    }
}

spec fn known_function_of(v: FunctionValue) -> KnownFunctionValue {
    match v {
        FunctionValue::Known(known) => *known,
        _ => arbitrary(),
    }
}

spec fn taken_function_signature_of(v: FunctionValue) -> SignatureValue {
    match v {
        FunctionValue::Unknown(UnknownFunctionValue::Taken(_, signature)) => *signature,
        _ => arbitrary(),
    }
}

spec fn conjured_function_of(v: FunctionValue) -> ConjuredFunctionValue {
    match v {
        FunctionValue::Unknown(UnknownFunctionValue::Conjured(conjured)) => *conjured,
        _ => arbitrary(),
    }
}

pub open spec fn signature_absent_in_signature_map(m: IdMap<SignatureValue>, id: u64, fuel: u64) -> bool
    decreases fuel,
{
    fuel == 0 || match m {
        Items::Nil => true,
        Items::Cons(entry, rest) => signature_absent_in_signature(entry.1, id, (fuel - 1) as u64) && signature_absent_in_signature_map(*rest, id, (fuel - 1) as u64),
    }
}

pub open spec fn signature_absent_in_function_map(m: IdMap<FunctionValue>, id: u64, fuel: u64) -> bool
    decreases fuel,
{
    fuel == 0 || match m {
        Items::Nil => true,
        Items::Cons(entry, rest) => signature_absent_in_function(entry.1, id, (fuel - 1) as u64) && signature_absent_in_function_map(*rest, id, (fuel - 1) as u64),
    }
}

pub open spec fn signature_absent_in_function_conjuration_map(m: IdMap<FunctionConjuration>, id: u64, fuel: u64) -> bool
    decreases fuel,
{
    fuel == 0 || match m {
        Items::Nil => true,
        Items::Cons(entry, rest) => signature_absent_in_signature(entry.1.signature, id, (fuel - 1) as u64) && signature_absent_in_function_conjuration_map(*rest, id, (fuel - 1) as u64),
    }
}

pub open spec fn signature_absent_in_signature_lambda_map(m: IdMap<SignatureLambda>, id: u64, fuel: u64) -> bool
    decreases fuel,
{
    fuel == 0 || match m {
        Items::Nil => true,
        Items::Cons(entry, rest) => signature_absent_in_signature(entry.1.signature, id, (fuel - 1) as u64) && signature_absent_in_signature_lambda_map(*rest, id, (fuel - 1) as u64),
    }
}

pub open spec fn signature_absent_in_function_lambda_map(m: IdMap<FunctionLambda>, id: u64, fuel: u64) -> bool
    decreases fuel,
{
    fuel == 0 || match m {
        Items::Nil => true,
        Items::Cons(entry, rest) => signature_absent_in_function(entry.1.function, id, (fuel - 1) as u64) && signature_absent_in_function_lambda_map(*rest, id, (fuel - 1) as u64),
    }
}

pub open spec fn signature_absent_in_known_signature(known: KnownSignatureValue, id: u64, fuel: u64) -> bool
    decreases fuel,
{
    fuel == 0 || (signature_absent_in_signature_map(known.taken_functions, id, (fuel - 1) as u64)
        && signature_absent_in_function_conjuration_map(known.conjured_functions, id, (fuel - 1) as u64))
}

pub open spec fn signature_absent_in_known_function(known: KnownFunctionValue, id: u64, fuel: u64) -> bool
    decreases fuel,
{
    fuel == 0 || (signature_absent_in_signature_map(known.taken_functions, id, (fuel - 1) as u64)
        && signature_absent_in_signature_lambda_map(known.given_signatures, id, (fuel - 1) as u64)
        && signature_absent_in_function_lambda_map(known.given_functions, id, (fuel - 1) as u64))
}

pub open spec fn signature_absent_in_dependency_values(values: LambdaDependencyValues, id: u64, fuel: u64) -> bool
    decreases fuel,
{
    fuel == 0 || (signature_absent_in_signature_map(values.signatures, id, (fuel - 1) as u64)
        && signature_absent_in_function_map(values.functions, id, (fuel - 1) as u64))
}

pub open spec fn signature_absent_in_conjured_signature(conjured: ConjuredSignatureValue, id: u64, fuel: u64) -> bool
    decreases fuel,
{
    fuel == 0 || (signature_absent_in_function(FunctionValue::Unknown(conjured.unknown_function), id, (fuel - 1) as u64)
        && signature_absent_in_known_signature(conjured.unknown_function_signature, id, (fuel - 1) as u64)
        && signature_absent_in_dependency_values(conjured.conjure_dependency_values, id, (fuel - 1) as u64))
}

pub open spec fn signature_absent_in_conjured_function(conjured: ConjuredFunctionValue, id: u64, fuel: u64) -> bool
    decreases fuel,
{
    fuel == 0 || (signature_absent_in_function(FunctionValue::Unknown(conjured.unknown_function), id, (fuel - 1) as u64)
        && signature_absent_in_known_signature(conjured.unknown_function_signature, id, (fuel - 1) as u64)
        && signature_absent_in_dependency_values(conjured.conjure_dependency_values, id, (fuel - 1) as u64))
}

/// Within `fuel` steps of the substitution, `v` holds no taken signature `id`.
pub open spec fn signature_absent_in_signature(v: SignatureValue, id: u64, fuel: u64) -> bool
    decreases fuel,
{
    fuel == 0 || match v {
        SignatureValue::Known(known) => signature_absent_in_known_signature(*known, id, (fuel - 1) as u64),
        SignatureValue::Unknown(UnknownSignatureValue::Taken(signature)) => signature.0 != id,
        SignatureValue::Unknown(UnknownSignatureValue::Conjured(conjured)) => signature_absent_in_conjured_signature(*conjured, id, (fuel - 1) as u64),
    }
}

/// Within `fuel` steps of the substitution, `v` holds no taken signature `id`.
pub open spec fn signature_absent_in_function(v: FunctionValue, id: u64, fuel: u64) -> bool
    decreases fuel,
{
    fuel == 0 || match v {
        FunctionValue::Known(known) => signature_absent_in_known_function(*known, id, (fuel - 1) as u64),
        FunctionValue::Unknown(UnknownFunctionValue::Taken(_, signature)) => signature_absent_in_signature(*signature, id, (fuel - 1) as u64),
        FunctionValue::Unknown(UnknownFunctionValue::Conjured(conjured)) => signature_absent_in_conjured_function(*conjured, id, (fuel - 1) as u64),
    }
}

/// The taken signature `id` occurs nowhere in `v`, at any depth.
pub open spec fn signature_lacks_taken_signature(v: SignatureValue, id: u64) -> bool {
    forall|fuel: u64| #[trigger] signature_absent_in_signature(v, id, fuel)
}

/// The taken signature `id` occurs nowhere in `v`, at any depth.
pub open spec fn function_lacks_taken_signature(v: FunctionValue, id: u64) -> bool {
    forall|fuel: u64| #[trigger] signature_absent_in_function(v, id, fuel)
}

proof fn lemma_unchanged_by_signature_signature_map(source: &Source, m: IdMap<SignatureValue>, id: u64, value: SignatureValue, fuel: u64)
    requires
        signature_absent_in_signature_map(m, id, fuel),
    ensures
        spec_signature_map_sig(source, m, id, value, fuel) matches Ok(r) ==> r == m,
    decreases fuel,
{
    if fuel > 0 && m is Cons {
        let entry = first(m);
        lemma_unchanged_by_signature_signature(source, entry.1, id, value, (fuel - 1) as u64);
        lemma_unchanged_by_signature_signature_map(source, tail(m), id, value, (fuel - 1) as u64);
    }
}

proof fn lemma_unchanged_by_signature_function_map(source: &Source, m: IdMap<FunctionValue>, id: u64, value: SignatureValue, fuel: u64)
    requires
        signature_absent_in_function_map(m, id, fuel),
    ensures
        spec_function_map_sig(source, m, id, value, fuel) matches Ok(r) ==> r == m,
    decreases fuel,
{
    if fuel > 0 && m is Cons {
        let entry = first(m);
        lemma_unchanged_by_signature_function(source, entry.1, id, value, (fuel - 1) as u64);
        lemma_unchanged_by_signature_function_map(source, tail(m), id, value, (fuel - 1) as u64);
    }
}

proof fn lemma_unchanged_by_signature_function_conjuration_map(source: &Source, m: IdMap<FunctionConjuration>, id: u64, value: SignatureValue, fuel: u64)
    requires
        signature_absent_in_function_conjuration_map(m, id, fuel),
    ensures
        spec_function_conjuration_map_sig(source, m, id, value, fuel) matches Ok(r) ==> r == m,
    decreases fuel,
{
    if fuel > 0 && m is Cons {
        let entry = first(m);
        lemma_unchanged_by_signature_signature(source, entry.1.signature, id, value, (fuel - 1) as u64);
        lemma_unchanged_by_signature_function_conjuration_map(source, tail(m), id, value, (fuel - 1) as u64);
    }
}

proof fn lemma_unchanged_by_signature_signature_lambda_map(source: &Source, m: IdMap<SignatureLambda>, id: u64, value: SignatureValue, fuel: u64)
    requires
        signature_absent_in_signature_lambda_map(m, id, fuel),
    ensures
        spec_signature_lambda_map_sig(source, m, id, value, fuel) matches Ok(r) ==> r == m,
    decreases fuel,
{
    if fuel > 0 && m is Cons {
        let entry = first(m);
        lemma_unchanged_by_signature_signature(source, entry.1.signature, id, value, (fuel - 1) as u64);
        lemma_unchanged_by_signature_signature_lambda_map(source, tail(m), id, value, (fuel - 1) as u64);
    }
}

proof fn lemma_unchanged_by_signature_function_lambda_map(source: &Source, m: IdMap<FunctionLambda>, id: u64, value: SignatureValue, fuel: u64)
    requires
        signature_absent_in_function_lambda_map(m, id, fuel),
    ensures
        spec_function_lambda_map_sig(source, m, id, value, fuel) matches Ok(r) ==> r == m,
    decreases fuel,
{
    if fuel > 0 && m is Cons {
        let entry = first(m);
        lemma_unchanged_by_signature_function(source, entry.1.function, id, value, (fuel - 1) as u64);
        lemma_unchanged_by_signature_function_lambda_map(source, tail(m), id, value, (fuel - 1) as u64);
    }
}

proof fn lemma_unchanged_by_signature_known_signature(source: &Source, known: KnownSignatureValue, id: u64, value: SignatureValue, fuel: u64)
    requires
        signature_absent_in_known_signature(known, id, fuel),
    ensures
        spec_known_signature_sig(source, known, id, value, fuel) matches Ok(r) ==> r == known,
    decreases fuel,
{
    if fuel > 0 {
        lemma_unchanged_by_signature_signature_map(source, known.taken_functions, id, value, (fuel - 1) as u64);
        lemma_unchanged_by_signature_function_conjuration_map(source, known.conjured_functions, id, value, (fuel - 1) as u64);
    }
}

proof fn lemma_unchanged_by_signature_known_function(source: &Source, known: KnownFunctionValue, id: u64, value: SignatureValue, fuel: u64)
    requires
        signature_absent_in_known_function(known, id, fuel),
    ensures
        spec_known_function_sig(source, known, id, value, fuel) matches Ok(r) ==> r == known,
    decreases fuel,
{
    if fuel > 0 {
        lemma_unchanged_by_signature_signature_map(source, known.taken_functions, id, value, (fuel - 1) as u64);
        lemma_unchanged_by_signature_signature_lambda_map(source, known.given_signatures, id, value, (fuel - 1) as u64);
        lemma_unchanged_by_signature_function_lambda_map(source, known.given_functions, id, value, (fuel - 1) as u64);
    }
}

proof fn lemma_unchanged_by_signature_dependency_values(source: &Source, values: LambdaDependencyValues, id: u64, value: SignatureValue, fuel: u64)
    requires
        signature_absent_in_dependency_values(values, id, fuel),
    ensures
        spec_dependency_values_sig(source, values, id, value, fuel) matches Ok(r) ==> r == values,
    decreases fuel,
{
    if fuel > 0 {
        lemma_unchanged_by_signature_signature_map(source, values.signatures, id, value, (fuel - 1) as u64);
        lemma_unchanged_by_signature_function_map(source, values.functions, id, value, (fuel - 1) as u64);
    }
}

proof fn lemma_unchanged_by_signature_conjured_signature(source: &Source, conjured: ConjuredSignatureValue, id: u64, value: SignatureValue, fuel: u64)
    requires
        signature_absent_in_conjured_signature(conjured, id, fuel),
    ensures
        spec_conjured_signature_sig(source, conjured, id, value, fuel) matches Ok(r)
            ==> r == SignatureValue::Unknown(UnknownSignatureValue::Conjured(Rc::new(conjured))),
    decreases fuel,
{
    if fuel > 0 {
        lemma_unchanged_by_signature_function(source, FunctionValue::Unknown(conjured.unknown_function), id, value, (fuel - 1) as u64);
        lemma_unchanged_by_signature_known_signature(source, conjured.unknown_function_signature, id, value, (fuel - 1) as u64);
        lemma_unchanged_by_signature_dependency_values(source, conjured.conjure_dependency_values, id, value, (fuel - 1) as u64);
    }
}

proof fn lemma_unchanged_by_signature_conjured_function(source: &Source, conjured: ConjuredFunctionValue, id: u64, value: SignatureValue, fuel: u64)
    requires
        signature_absent_in_conjured_function(conjured, id, fuel),
    ensures
        spec_conjured_function_sig(source, conjured, id, value, fuel) matches Ok(r)
            ==> r == FunctionValue::Unknown(UnknownFunctionValue::Conjured(Rc::new(conjured))),
    decreases fuel,
{
    if fuel > 0 {
        lemma_unchanged_by_signature_function(source, FunctionValue::Unknown(conjured.unknown_function), id, value, (fuel - 1) as u64);
        lemma_unchanged_by_signature_known_signature(source, conjured.unknown_function_signature, id, value, (fuel - 1) as u64);
        lemma_unchanged_by_signature_dependency_values(source, conjured.conjure_dependency_values, id, value, (fuel - 1) as u64);
    }
}

proof fn lemma_unchanged_by_signature_signature(source: &Source, v: SignatureValue, id: u64, value: SignatureValue, fuel: u64)
    requires
        signature_absent_in_signature(v, id, fuel),
    ensures
        spec_signature_sig(source, v, id, value, fuel) matches Ok(r) ==> r == v,
    decreases fuel,
{
    if fuel > 0 {
        if v is Known {
            lemma_unchanged_by_signature_known_signature(source, known_signature_of(v), id, value, (fuel - 1) as u64);
        } else if v matches SignatureValue::Unknown(UnknownSignatureValue::Conjured(_)) {
            lemma_unchanged_by_signature_conjured_signature(source, conjured_signature_of(v), id, value, (fuel - 1) as u64);
        }
    }
}

proof fn lemma_unchanged_by_signature_function(source: &Source, v: FunctionValue, id: u64, value: SignatureValue, fuel: u64)
    requires
        signature_absent_in_function(v, id, fuel),
    ensures
        spec_function_sig(source, v, id, value, fuel) matches Ok(r) ==> r == v,
    decreases fuel,
{
    if fuel > 0 {
        if v is Known {
            lemma_unchanged_by_signature_known_function(source, known_function_of(v), id, value, (fuel - 1) as u64);
        } else if v matches FunctionValue::Unknown(UnknownFunctionValue::Taken(_, _)) {
            lemma_unchanged_by_signature_signature(source, taken_function_signature_of(v), id, value, (fuel - 1) as u64);
        } else {
            lemma_unchanged_by_signature_conjured_function(source, conjured_function_of(v), id, value, (fuel - 1) as u64);
        }
    }
}

/// Law: substituting for a taken signature that a signature value does not
/// hold leaves the value as it is, whenever the substitution succeeds.
pub proof fn lemma_substitution_without_the_signature_changes_no_signature(
    source: &Source,
    v: SignatureValue,
    id: u64,
    value: SignatureValue,
    fuel: u64,
)
    requires
        signature_lacks_taken_signature(v, id),
    ensures
        spec_signature_sig(source, v, id, value, fuel) matches Ok(r) ==> r == v,
{
    assert(signature_absent_in_signature(v, id, fuel));
    lemma_unchanged_by_signature_signature(source, v, id, value, fuel);
}

/// Law: substituting for a taken signature that a function value does not
/// hold leaves the value as it is, whenever the substitution succeeds.
pub proof fn lemma_substitution_without_the_signature_changes_no_function(
    source: &Source,
    v: FunctionValue,
    id: u64,
    value: SignatureValue,
    fuel: u64,
)
    requires
        function_lacks_taken_signature(v, id),
    ensures
        spec_function_sig(source, v, id, value, fuel) matches Ok(r) ==> r == v,
{
    assert(signature_absent_in_function(v, id, fuel));
    lemma_unchanged_by_signature_function(source, v, id, value, fuel);
}

pub open spec fn function_absent_in_signature_map(m: IdMap<SignatureValue>, id: u64, fuel: u64) -> bool
    decreases fuel,
{
    fuel == 0 || match m {
        Items::Nil => true,
        Items::Cons(entry, rest) => function_absent_in_signature(entry.1, id, (fuel - 1) as u64) && function_absent_in_signature_map(*rest, id, (fuel - 1) as u64),
    }
}

pub open spec fn function_absent_in_function_map(m: IdMap<FunctionValue>, id: u64, fuel: u64) -> bool
    decreases fuel,
{
    fuel == 0 || match m {
        Items::Nil => true,
        Items::Cons(entry, rest) => function_absent_in_function(entry.1, id, (fuel - 1) as u64) && function_absent_in_function_map(*rest, id, (fuel - 1) as u64),
    }
}

pub open spec fn function_absent_in_function_conjuration_map(m: IdMap<FunctionConjuration>, id: u64, fuel: u64) -> bool
    decreases fuel,
{
    fuel == 0 || match m {
        Items::Nil => true,
        Items::Cons(entry, rest) => function_absent_in_signature(entry.1.signature, id, (fuel - 1) as u64) && function_absent_in_function_conjuration_map(*rest, id, (fuel - 1) as u64),
    }
}

pub open spec fn function_absent_in_signature_lambda_map(m: IdMap<SignatureLambda>, id: u64, fuel: u64) -> bool
    decreases fuel,
{
    fuel == 0 || match m {
        Items::Nil => true,
        Items::Cons(entry, rest) => function_absent_in_signature(entry.1.signature, id, (fuel - 1) as u64) && function_absent_in_signature_lambda_map(*rest, id, (fuel - 1) as u64),
    }
}

pub open spec fn function_absent_in_function_lambda_map(m: IdMap<FunctionLambda>, id: u64, fuel: u64) -> bool
    decreases fuel,
{
    fuel == 0 || match m {
        Items::Nil => true,
        Items::Cons(entry, rest) => function_absent_in_function(entry.1.function, id, (fuel - 1) as u64) && function_absent_in_function_lambda_map(*rest, id, (fuel - 1) as u64),
    }
}

pub open spec fn function_absent_in_known_signature(known: KnownSignatureValue, id: u64, fuel: u64) -> bool
    decreases fuel,
{
    fuel == 0 || (function_absent_in_signature_map(known.taken_functions, id, (fuel - 1) as u64)
        && function_absent_in_function_conjuration_map(known.conjured_functions, id, (fuel - 1) as u64))
}

pub open spec fn function_absent_in_known_function(known: KnownFunctionValue, id: u64, fuel: u64) -> bool
    decreases fuel,
{
    fuel == 0 || (function_absent_in_signature_map(known.taken_functions, id, (fuel - 1) as u64)
        && function_absent_in_signature_lambda_map(known.given_signatures, id, (fuel - 1) as u64)
        && function_absent_in_function_lambda_map(known.given_functions, id, (fuel - 1) as u64))
}

pub open spec fn function_absent_in_dependency_values(values: LambdaDependencyValues, id: u64, fuel: u64) -> bool
    decreases fuel,
{
    fuel == 0 || (function_absent_in_signature_map(values.signatures, id, (fuel - 1) as u64)
        && function_absent_in_function_map(values.functions, id, (fuel - 1) as u64))
}

pub open spec fn function_absent_in_conjured_signature(conjured: ConjuredSignatureValue, id: u64, fuel: u64) -> bool
    decreases fuel,
{
    fuel == 0 || (function_absent_in_function(FunctionValue::Unknown(conjured.unknown_function), id, (fuel - 1) as u64)
        && function_absent_in_known_signature(conjured.unknown_function_signature, id, (fuel - 1) as u64)
        && function_absent_in_dependency_values(conjured.conjure_dependency_values, id, (fuel - 1) as u64))
}

pub open spec fn function_absent_in_conjured_function(conjured: ConjuredFunctionValue, id: u64, fuel: u64) -> bool
    decreases fuel,
{
    fuel == 0 || (function_absent_in_function(FunctionValue::Unknown(conjured.unknown_function), id, (fuel - 1) as u64)
        && function_absent_in_known_signature(conjured.unknown_function_signature, id, (fuel - 1) as u64)
        && function_absent_in_dependency_values(conjured.conjure_dependency_values, id, (fuel - 1) as u64))
}

/// Within `fuel` steps of the substitution, `v` holds no taken function `id`.
pub open spec fn function_absent_in_signature(v: SignatureValue, id: u64, fuel: u64) -> bool
    decreases fuel,
{
    fuel == 0 || match v {
        SignatureValue::Known(known) => function_absent_in_known_signature(*known, id, (fuel - 1) as u64),
        SignatureValue::Unknown(UnknownSignatureValue::Taken(_)) => true,
        SignatureValue::Unknown(UnknownSignatureValue::Conjured(conjured)) => function_absent_in_conjured_signature(*conjured, id, (fuel - 1) as u64),
    }
}

/// Within `fuel` steps of the substitution, `v` holds no taken function `id`.
pub open spec fn function_absent_in_function(v: FunctionValue, id: u64, fuel: u64) -> bool
    decreases fuel,
{
    fuel == 0 || match v {
        FunctionValue::Known(known) => function_absent_in_known_function(*known, id, (fuel - 1) as u64),
        FunctionValue::Unknown(UnknownFunctionValue::Taken(function, signature)) => function.0 != id
            && function_absent_in_signature(*signature, id, (fuel - 1) as u64),
        FunctionValue::Unknown(UnknownFunctionValue::Conjured(conjured)) => function_absent_in_conjured_function(*conjured, id, (fuel - 1) as u64),
    }
}

/// The taken function `id` occurs nowhere in `v`, at any depth.
pub open spec fn signature_lacks_taken_function(v: SignatureValue, id: u64) -> bool {
    forall|fuel: u64| #[trigger] function_absent_in_signature(v, id, fuel)
}

/// The taken function `id` occurs nowhere in `v`, at any depth.
pub open spec fn function_lacks_taken_function(v: FunctionValue, id: u64) -> bool {
    forall|fuel: u64| #[trigger] function_absent_in_function(v, id, fuel)
}

proof fn lemma_unchanged_by_function_signature_map(source: &Source, m: IdMap<SignatureValue>, id: u64, value: FunctionValue, fuel: u64)
    requires
        function_absent_in_signature_map(m, id, fuel),
    ensures
        spec_signature_map_fn(source, m, id, value, fuel) matches Ok(r) ==> r == m,
    decreases fuel,
{
    if fuel > 0 && m is Cons {
        let entry = first(m);
        lemma_unchanged_by_function_signature(source, entry.1, id, value, (fuel - 1) as u64);
        lemma_unchanged_by_function_signature_map(source, tail(m), id, value, (fuel - 1) as u64);
    }
}

proof fn lemma_unchanged_by_function_function_map(source: &Source, m: IdMap<FunctionValue>, id: u64, value: FunctionValue, fuel: u64)
    requires
        function_absent_in_function_map(m, id, fuel),
    ensures
        spec_function_map_fn(source, m, id, value, fuel) matches Ok(r) ==> r == m,
    decreases fuel,
{
    if fuel > 0 && m is Cons {
        let entry = first(m);
        lemma_unchanged_by_function_function(source, entry.1, id, value, (fuel - 1) as u64);
        lemma_unchanged_by_function_function_map(source, tail(m), id, value, (fuel - 1) as u64);
    }
}

proof fn lemma_unchanged_by_function_function_conjuration_map(source: &Source, m: IdMap<FunctionConjuration>, id: u64, value: FunctionValue, fuel: u64)
    requires
        function_absent_in_function_conjuration_map(m, id, fuel),
    ensures
        spec_function_conjuration_map_fn(source, m, id, value, fuel) matches Ok(r) ==> r == m,
    decreases fuel,
{
    if fuel > 0 && m is Cons {
        let entry = first(m);
        lemma_unchanged_by_function_signature(source, entry.1.signature, id, value, (fuel - 1) as u64);
        lemma_unchanged_by_function_function_conjuration_map(source, tail(m), id, value, (fuel - 1) as u64);
    }
}

proof fn lemma_unchanged_by_function_signature_lambda_map(source: &Source, m: IdMap<SignatureLambda>, id: u64, value: FunctionValue, fuel: u64)
    requires
        function_absent_in_signature_lambda_map(m, id, fuel),
    ensures
        spec_signature_lambda_map_fn(source, m, id, value, fuel) matches Ok(r) ==> r == m,
    decreases fuel,
{
    if fuel > 0 && m is Cons {
        let entry = first(m);
        lemma_unchanged_by_function_signature(source, entry.1.signature, id, value, (fuel - 1) as u64);
        lemma_unchanged_by_function_signature_lambda_map(source, tail(m), id, value, (fuel - 1) as u64);
    }
}

proof fn lemma_unchanged_by_function_function_lambda_map(source: &Source, m: IdMap<FunctionLambda>, id: u64, value: FunctionValue, fuel: u64)
    requires
        function_absent_in_function_lambda_map(m, id, fuel),
    ensures
        spec_function_lambda_map_fn(source, m, id, value, fuel) matches Ok(r) ==> r == m,
    decreases fuel,
{
    if fuel > 0 && m is Cons {
        let entry = first(m);
        lemma_unchanged_by_function_function(source, entry.1.function, id, value, (fuel - 1) as u64);
        lemma_unchanged_by_function_function_lambda_map(source, tail(m), id, value, (fuel - 1) as u64);
    }
}

proof fn lemma_unchanged_by_function_known_signature(source: &Source, known: KnownSignatureValue, id: u64, value: FunctionValue, fuel: u64)
    requires
        function_absent_in_known_signature(known, id, fuel),
    ensures
        spec_known_signature_fn(source, known, id, value, fuel) matches Ok(r) ==> r == known,
    decreases fuel,
{
    if fuel > 0 {
        lemma_unchanged_by_function_signature_map(source, known.taken_functions, id, value, (fuel - 1) as u64);
        lemma_unchanged_by_function_function_conjuration_map(source, known.conjured_functions, id, value, (fuel - 1) as u64);
    }
}

proof fn lemma_unchanged_by_function_known_function(source: &Source, known: KnownFunctionValue, id: u64, value: FunctionValue, fuel: u64)
    requires
        function_absent_in_known_function(known, id, fuel),
    ensures
        spec_known_function_fn(source, known, id, value, fuel) matches Ok(r) ==> r == known,
    decreases fuel,
{
    if fuel > 0 {
        lemma_unchanged_by_function_signature_map(source, known.taken_functions, id, value, (fuel - 1) as u64);
        lemma_unchanged_by_function_signature_lambda_map(source, known.given_signatures, id, value, (fuel - 1) as u64);
        lemma_unchanged_by_function_function_lambda_map(source, known.given_functions, id, value, (fuel - 1) as u64);
    }
}

proof fn lemma_unchanged_by_function_dependency_values(source: &Source, values: LambdaDependencyValues, id: u64, value: FunctionValue, fuel: u64)
    requires
        function_absent_in_dependency_values(values, id, fuel),
    ensures
        spec_dependency_values_fn(source, values, id, value, fuel) matches Ok(r) ==> r == values,
    decreases fuel,
{
    if fuel > 0 {
        lemma_unchanged_by_function_signature_map(source, values.signatures, id, value, (fuel - 1) as u64);
        lemma_unchanged_by_function_function_map(source, values.functions, id, value, (fuel - 1) as u64);
    }
}

proof fn lemma_unchanged_by_function_conjured_signature(source: &Source, conjured: ConjuredSignatureValue, id: u64, value: FunctionValue, fuel: u64)
    requires
        function_absent_in_conjured_signature(conjured, id, fuel),
    ensures
        spec_conjured_signature_fn(source, conjured, id, value, fuel) matches Ok(r)
            ==> r == SignatureValue::Unknown(UnknownSignatureValue::Conjured(Rc::new(conjured))),
    decreases fuel,
{
    if fuel > 0 {
        lemma_unchanged_by_function_function(source, FunctionValue::Unknown(conjured.unknown_function), id, value, (fuel - 1) as u64);
        lemma_unchanged_by_function_known_signature(source, conjured.unknown_function_signature, id, value, (fuel - 1) as u64);
        lemma_unchanged_by_function_dependency_values(source, conjured.conjure_dependency_values, id, value, (fuel - 1) as u64);
    }
}

proof fn lemma_unchanged_by_function_conjured_function(source: &Source, conjured: ConjuredFunctionValue, id: u64, value: FunctionValue, fuel: u64)
    requires
        function_absent_in_conjured_function(conjured, id, fuel),
    ensures
        spec_conjured_function_fn(source, conjured, id, value, fuel) matches Ok(r)
            ==> r == FunctionValue::Unknown(UnknownFunctionValue::Conjured(Rc::new(conjured))),
    decreases fuel,
{
    if fuel > 0 {
        lemma_unchanged_by_function_function(source, FunctionValue::Unknown(conjured.unknown_function), id, value, (fuel - 1) as u64);
        lemma_unchanged_by_function_known_signature(source, conjured.unknown_function_signature, id, value, (fuel - 1) as u64);
        lemma_unchanged_by_function_dependency_values(source, conjured.conjure_dependency_values, id, value, (fuel - 1) as u64);
    }
}

proof fn lemma_unchanged_by_function_signature(source: &Source, v: SignatureValue, id: u64, value: FunctionValue, fuel: u64)
    requires
        function_absent_in_signature(v, id, fuel),
    ensures
        spec_signature_fn(source, v, id, value, fuel) matches Ok(r) ==> r == v,
    decreases fuel,
{
    if fuel > 0 {
        if v is Known {
            lemma_unchanged_by_function_known_signature(source, known_signature_of(v), id, value, (fuel - 1) as u64);
        } else if v matches SignatureValue::Unknown(UnknownSignatureValue::Conjured(_)) {
            lemma_unchanged_by_function_conjured_signature(source, conjured_signature_of(v), id, value, (fuel - 1) as u64);
        }
    }
}

proof fn lemma_unchanged_by_function_function(source: &Source, v: FunctionValue, id: u64, value: FunctionValue, fuel: u64)
    requires
        function_absent_in_function(v, id, fuel),
    ensures
        spec_function_fn(source, v, id, value, fuel) matches Ok(r) ==> r == v,
    decreases fuel,
{
    if fuel > 0 {
        if v is Known {
            lemma_unchanged_by_function_known_function(source, known_function_of(v), id, value, (fuel - 1) as u64);
        } else if v matches FunctionValue::Unknown(UnknownFunctionValue::Taken(_, _)) {
            lemma_unchanged_by_function_signature(source, taken_function_signature_of(v), id, value, (fuel - 1) as u64);
        } else {
            lemma_unchanged_by_function_conjured_function(source, conjured_function_of(v), id, value, (fuel - 1) as u64);
        }
    }
}

/// Law: substituting for a taken function that a signature value does not
/// hold leaves the value as it is, whenever the substitution succeeds.
pub proof fn lemma_substitution_without_the_function_changes_no_signature(
    source: &Source,
    v: SignatureValue,
    id: u64,
    value: FunctionValue,
    fuel: u64,
)
    requires
        signature_lacks_taken_function(v, id),
    ensures
        spec_signature_fn(source, v, id, value, fuel) matches Ok(r) ==> r == v,
{
    assert(function_absent_in_signature(v, id, fuel));
    lemma_unchanged_by_function_signature(source, v, id, value, fuel);
}

/// Law: substituting for a taken function that a function value does not
/// hold leaves the value as it is, whenever the substitution succeeds.
pub proof fn lemma_substitution_without_the_function_changes_no_function(
    source: &Source,
    v: FunctionValue,
    id: u64,
    value: FunctionValue,
    fuel: u64,
)
    requires
        function_lacks_taken_function(v, id),
    ensures
        spec_function_fn(source, v, id, value, fuel) matches Ok(r) ==> r == v,
{
    assert(function_absent_in_function(v, id, fuel));
    lemma_unchanged_by_function_function(source, v, id, value, fuel);
}

} // verus!
