//! Equality of values, decided field by field.
use vstd::prelude::*;
use crate::check::items::{IdMap, Items};
use crate::check::names::NameMap;
use crate::check::value::{
    ConjuredFunctionValue, ConjuredSignatureValue, ContextResolver, FunctionConjuration, FunctionDefinition,
    FunctionLambda, FunctionValue, KnownFunctionValue, KnownSignatureValue, LambdaDependencies,
    LambdaDependencyValues, SignatureConjuration, SignatureDefinition, SignatureLambda, SignatureValue,
    UnknownFunctionValue, UnknownSignatureValue,
};

verus! {

pub fn eq_u64_items(a: &Items<u64>, b: &Items<u64>) -> (r: bool)
    ensures
        r == (*a == *b),
    decreases a,
{
    match (a, b) {
        (Items::Nil, Items::Nil) => true,
        (Items::Cons(x, xs), Items::Cons(y, ys)) => **x == **y && eq_u64_items(&**xs, &**ys),
        _ => false,
    }
}

pub fn eq_signature_definitions(a: &IdMap<SignatureDefinition>, b: &IdMap<SignatureDefinition>) -> (r: bool)
    ensures
        r == (*a == *b),
    decreases a,
{
    match (a, b) {
        (Items::Nil, Items::Nil) => true,
        (Items::Cons(x, xs), Items::Cons(y, ys)) => x.0 == y.0 && x.1 == y.1 && eq_signature_definitions(&**xs, &**ys),
        _ => false,
    }
}

pub fn eq_function_definitions(a: &IdMap<FunctionDefinition>, b: &IdMap<FunctionDefinition>) -> (r: bool)
    ensures
        r == (*a == *b),
    decreases a,
{
    match (a, b) {
        (Items::Nil, Items::Nil) => true,
        (Items::Cons(x, xs), Items::Cons(y, ys)) => x.0 == y.0 && x.1 == y.1 && eq_function_definitions(&**xs, &**ys),
        _ => false,
    }
}

pub fn eq_name_maps(a: &NameMap, b: &NameMap) -> (r: bool)
    ensures
        r == (*a == *b),
    decreases a,
{
    match (a, b) {
        (Items::Nil, Items::Nil) => true,
        (Items::Cons(x, xs), Items::Cons(y, ys)) => x.0 == y.0 && x.1 == y.1 && eq_name_maps(&**xs, &**ys),
        _ => false,
    }
}

pub fn eq_signature_value_items(a: &IdMap<SignatureValue>, b: &IdMap<SignatureValue>) -> (r: bool)
    ensures
        r == (*a == *b),
    decreases a,
{
    match (a, b) {
        (Items::Nil, Items::Nil) => true,
        (Items::Cons(x, xs), Items::Cons(y, ys)) => x.0 == y.0 && eq_signature_value(&x.1, &y.1) && eq_signature_value_items(&**xs, &**ys),
        _ => false,
    }
}

pub fn eq_function_value_items(a: &IdMap<FunctionValue>, b: &IdMap<FunctionValue>) -> (r: bool)
    ensures
        r == (*a == *b),
    decreases a,
{
    match (a, b) {
        (Items::Nil, Items::Nil) => true,
        (Items::Cons(x, xs), Items::Cons(y, ys)) => x.0 == y.0 && eq_function_value(&x.1, &y.1) && eq_function_value_items(&**xs, &**ys),
        _ => false,
    }
}

pub fn eq_signature_lambda_items(a: &IdMap<SignatureLambda>, b: &IdMap<SignatureLambda>) -> (r: bool)
    ensures
        r == (*a == *b),
    decreases a,
{
    match (a, b) {
        (Items::Nil, Items::Nil) => true,
        (Items::Cons(x, xs), Items::Cons(y, ys)) => x.0 == y.0 && eq_signature_lambda(&x.1, &y.1) && eq_signature_lambda_items(&**xs, &**ys),
        _ => false,
    }
}

pub fn eq_function_lambda_items(a: &IdMap<FunctionLambda>, b: &IdMap<FunctionLambda>) -> (r: bool)
    ensures
        r == (*a == *b),
    decreases a,
{
    match (a, b) {
        (Items::Nil, Items::Nil) => true,
        (Items::Cons(x, xs), Items::Cons(y, ys)) => x.0 == y.0 && eq_function_lambda(&x.1, &y.1) && eq_function_lambda_items(&**xs, &**ys),
        _ => false,
    }
}

pub fn eq_signature_conjuration_items(a: &IdMap<SignatureConjuration>, b: &IdMap<SignatureConjuration>) -> (r: bool)
    ensures
        r == (*a == *b),
    decreases a,
{
    match (a, b) {
        (Items::Nil, Items::Nil) => true,
        (Items::Cons(x, xs), Items::Cons(y, ys)) => x.0 == y.0 && eq_signature_conjuration(&x.1, &y.1) && eq_signature_conjuration_items(&**xs, &**ys),
        _ => false,
    }
}

pub fn eq_function_conjuration_items(a: &IdMap<FunctionConjuration>, b: &IdMap<FunctionConjuration>) -> (r: bool)
    ensures
        r == (*a == *b),
    decreases a,
{
    match (a, b) {
        (Items::Nil, Items::Nil) => true,
        (Items::Cons(x, xs), Items::Cons(y, ys)) => x.0 == y.0 && eq_function_conjuration(&x.1, &y.1) && eq_function_conjuration_items(&**xs, &**ys),
        _ => false,
    }
}

pub fn eq_resolver(a: &ContextResolver, b: &ContextResolver) -> (r: bool)
    ensures
        r == (*a == *b),
{
    eq_signature_definitions(&a.taken_signature_definitions, &b.taken_signature_definitions)
        && eq_function_definitions(&a.taken_function_definitions, &b.taken_function_definitions)
        && eq_name_maps(&a.taken_signature_ids, &b.taken_signature_ids)
        && eq_name_maps(&a.taken_function_ids, &b.taken_function_ids)
        && eq_signature_definitions(&a.produced_signature_definitions, &b.produced_signature_definitions)
        && eq_function_definitions(&a.produced_function_definitions, &b.produced_function_definitions)
        && eq_name_maps(&a.produced_signature_ids, &b.produced_signature_ids)
        && eq_name_maps(&a.produced_function_ids, &b.produced_function_ids)
}

pub fn eq_dependencies(a: &LambdaDependencies, b: &LambdaDependencies) -> (r: bool)
    ensures
        r == (*a == *b),
    decreases a,
{
    eq_u64_items(&a.signatures, &b.signatures) && eq_signature_value_items(&a.functions, &b.functions)
}

pub fn eq_dependency_values(a: &LambdaDependencyValues, b: &LambdaDependencyValues) -> (r: bool)
    ensures
        r == (*a == *b),
    decreases a,
{
    eq_signature_value_items(&a.signatures, &b.signatures) && eq_function_value_items(&a.functions, &b.functions)
}

pub fn eq_signature_lambda(a: &SignatureLambda, b: &SignatureLambda) -> (r: bool)
    ensures
        r == (*a == *b),
    decreases a,
{
    eq_signature_value(&a.signature, &b.signature) && eq_dependencies(&a.dependencies, &b.dependencies)
}

pub fn eq_function_lambda(a: &FunctionLambda, b: &FunctionLambda) -> (r: bool)
    ensures
        r == (*a == *b),
    decreases a,
{
    eq_function_value(&a.function, &b.function) && eq_dependencies(&a.dependencies, &b.dependencies)
}

pub fn eq_signature_conjuration(a: &SignatureConjuration, b: &SignatureConjuration) -> (r: bool)
    ensures
        r == (*a == *b),
    decreases a,
{
    eq_dependencies(&a.dependencies, &b.dependencies)
}

pub fn eq_function_conjuration(a: &FunctionConjuration, b: &FunctionConjuration) -> (r: bool)
    ensures
        r == (*a == *b),
    decreases a,
{
    eq_signature_value(&a.signature, &b.signature) && eq_dependencies(&a.dependencies, &b.dependencies)
}

pub fn eq_known_signature(a: &KnownSignatureValue, b: &KnownSignatureValue) -> (r: bool)
    ensures
        r == (*a == *b),
    decreases a,
{
    eq_signature_conjuration_items(&a.conjured_signatures, &b.conjured_signatures)
        && eq_function_conjuration_items(&a.conjured_functions, &b.conjured_functions)
        && eq_u64_items(&a.taken_signatures, &b.taken_signatures)
        && eq_signature_value_items(&a.taken_functions, &b.taken_functions)
        && eq_resolver(&a.resolver, &b.resolver)
}

pub fn eq_known_function(a: &KnownFunctionValue, b: &KnownFunctionValue) -> (r: bool)
    ensures
        r == (*a == *b),
    decreases a,
{
    eq_signature_lambda_items(&a.given_signatures, &b.given_signatures)
        && eq_function_lambda_items(&a.given_functions, &b.given_functions)
        && eq_u64_items(&a.taken_signatures, &b.taken_signatures)
        && eq_signature_value_items(&a.taken_functions, &b.taken_functions)
        && eq_resolver(&a.resolver, &b.resolver)
}

pub fn eq_conjured_signature(a: &ConjuredSignatureValue, b: &ConjuredSignatureValue) -> (r: bool)
    ensures
        r == (*a == *b),
    decreases a,
{
    eq_unknown_function(&a.unknown_function, &b.unknown_function)
        && eq_known_signature(&a.unknown_function_signature, &b.unknown_function_signature)
        && a.conjured_signature == b.conjured_signature
        && eq_dependency_values(&a.conjure_dependency_values, &b.conjure_dependency_values)
}

pub fn eq_conjured_function(a: &ConjuredFunctionValue, b: &ConjuredFunctionValue) -> (r: bool)
    ensures
        r == (*a == *b),
    decreases a,
{
    eq_unknown_function(&a.unknown_function, &b.unknown_function)
        && eq_known_signature(&a.unknown_function_signature, &b.unknown_function_signature)
        && a.conjured_function == b.conjured_function
        && eq_signature_value(&a.conjured_function_signature, &b.conjured_function_signature)
        && eq_dependency_values(&a.conjure_dependency_values, &b.conjure_dependency_values)
}

pub fn eq_unknown_signature(a: &UnknownSignatureValue, b: &UnknownSignatureValue) -> (r: bool)
    ensures
        r == (*a == *b),
    decreases a,
{
    match (a, b) {
        (UnknownSignatureValue::Taken(x), UnknownSignatureValue::Taken(y)) => *x == *y,
        (UnknownSignatureValue::Conjured(x), UnknownSignatureValue::Conjured(y)) => eq_conjured_signature(&**x, &**y),
        _ => false,
    }
}

pub fn eq_unknown_function(a: &UnknownFunctionValue, b: &UnknownFunctionValue) -> (r: bool)
    ensures
        r == (*a == *b),
    decreases a,
{
    match (a, b) {
        (UnknownFunctionValue::Taken(x, xs), UnknownFunctionValue::Taken(y, ys)) => *x == *y && eq_signature_value(
            &**xs,
            &**ys,
        ),
        (UnknownFunctionValue::Conjured(x), UnknownFunctionValue::Conjured(y)) => eq_conjured_function(&**x, &**y),
        _ => false,
    }
}

pub fn eq_signature_value(a: &SignatureValue, b: &SignatureValue) -> (r: bool)
    ensures
        r == (*a == *b),
    decreases a,
{
    match (a, b) {
        (SignatureValue::Known(x), SignatureValue::Known(y)) => eq_known_signature(&**x, &**y),
        (SignatureValue::Unknown(x), SignatureValue::Unknown(y)) => eq_unknown_signature(x, y),
        _ => false,
    }
}

pub fn eq_function_value(a: &FunctionValue, b: &FunctionValue) -> (r: bool)
    ensures
        r == (*a == *b),
    decreases a,
{
    match (a, b) {
        (FunctionValue::Known(x), FunctionValue::Known(y)) => eq_known_function(&**x, &**y),
        (FunctionValue::Unknown(x), FunctionValue::Unknown(y)) => eq_unknown_function(x, y),
        _ => false,
    }
}

} // verus!
