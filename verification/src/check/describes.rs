//! Which signature a function has, and when one signature can stand for
//! another.
use vstd::prelude::*;
use std::rc::Rc;
use crate::check::equality::eq_conjured_signature;
use crate::check::error::{CheckError, CheckResult, InternalError};
use crate::check::items::{
    first, get, map_contains, map_get, set_contains, set_has, tail, contains_key, IdMap, IdSet, Items,
};
use crate::check::names::span_name;
use crate::check::value::{
    ContextResolver, LambdaDependencies, FunctionConjuration, FunctionLambda, FunctionValue, KnownFunctionValue, KnownSignatureValue,
    SignatureConjuration, SignatureLambda, SignatureValue, UnknownFunctionValue, UnknownSignatureValue,
};
use crate::source::Source;

verus! {

pub open spec fn missing_name() -> CheckError {
    CheckError::Internal { error: InternalError::MissingName }
}

pub open spec fn missing_value() -> CheckError {
    CheckError::Internal { error: InternalError::MissingValue }
}

// ---- the signature of a function ----

pub open spec fn spec_given_signature_conjurations(given: IdMap<SignatureLambda>) -> IdMap<SignatureConjuration>
    decreases given,
{
    match given {
        Items::Nil => Items::Nil,
        Items::Cons(entry, rest) => Items::Cons(
            Rc::new((entry.0, SignatureConjuration { dependencies: entry.1.dependencies })),
            Rc::new(spec_given_signature_conjurations(*rest)),
        ),
    }
}

pub open spec fn spec_given_function_conjurations(given: IdMap<FunctionLambda>) -> IdMap<FunctionConjuration>
    decreases given,
{
    match given {
        Items::Nil => Items::Nil,
        Items::Cons(entry, rest) => Items::Cons(
            Rc::new((entry.0, FunctionConjuration { signature: spec_function_signature(entry.1.function), dependencies: entry.1.dependencies })),
            Rc::new(spec_given_function_conjurations(*rest)),
        ),
    }
}

/// The signature of a function: for a known one, what it gives becomes what
/// the signature conjures, with the same dependencies.
pub open spec fn spec_function_signature(function: FunctionValue) -> SignatureValue
    decreases function,
{
    match function {
        FunctionValue::Known(known) => SignatureValue::Known(Rc::new(KnownSignatureValue {
            conjured_signatures: spec_given_signature_conjurations(known.given_signatures),
            conjured_functions: spec_given_function_conjurations(known.given_functions),
            taken_signatures: known.taken_signatures,
            taken_functions: known.taken_functions,
            resolver: known.resolver,
        })),
        FunctionValue::Unknown(UnknownFunctionValue::Taken(_, signature)) => *signature,
        FunctionValue::Unknown(UnknownFunctionValue::Conjured(conjured)) => conjured.conjured_function_signature,
    }
}

fn given_signature_conjurations(given: &IdMap<SignatureLambda>) -> (r: IdMap<SignatureConjuration>)
    ensures
        r == spec_given_signature_conjurations(*given),
    decreases given,
{
    match given {
        Items::Nil => Items::Nil,
        Items::Cons(entry, rest) => Items::Cons(
            Rc::new((entry.0, SignatureConjuration { dependencies: entry.1.dependencies.copy() })),
            Rc::new(given_signature_conjurations(&**rest)),
        ),
    }
}

fn given_function_conjurations(given: &IdMap<FunctionLambda>) -> (r: IdMap<FunctionConjuration>)
    ensures
        r == spec_given_function_conjurations(*given),
    decreases given,
{
    match given {
        Items::Nil => Items::Nil,
        Items::Cons(entry, rest) => Items::Cons(
            Rc::new((entry.0, FunctionConjuration { signature: entry.1.function.signature(), dependencies: entry.1.dependencies.copy() })),
            Rc::new(given_function_conjurations(&**rest)),
        ),
    }
}

impl FunctionValue {
    /// The signature of the function.
    pub fn signature(&self) -> (r: SignatureValue)
        ensures
            r == spec_function_signature(*self),
        decreases self,
    {
        match self {
            FunctionValue::Known(known) => SignatureValue::Known(Rc::new(KnownSignatureValue {
                conjured_signatures: given_signature_conjurations(&known.given_signatures),
                conjured_functions: given_function_conjurations(&known.given_functions),
                taken_signatures: known.taken_signatures.copy(),
                taken_functions: known.taken_functions.copy(),
                resolver: known.resolver.copy(),
            })),
            FunctionValue::Unknown(UnknownFunctionValue::Taken(_, signature)) => (**signature).copy(),
            FunctionValue::Unknown(UnknownFunctionValue::Conjured(conjured)) => conjured.conjured_function_signature.copy(),
        }
    }
}

// ---- sizes, by which the comparison of signatures terminates ----

pub open spec fn signature_size(value: SignatureValue) -> nat
    decreases value,
{
    match value {
        SignatureValue::Known(known) => 1 + taken_functions_size(known.taken_functions) + conjured_functions_size(
            known.conjured_functions,
        ),
        SignatureValue::Unknown(_) => 1,
    }
}

pub open spec fn taken_functions_size(taken: IdMap<SignatureValue>) -> nat
    decreases taken,
{
    match taken {
        Items::Nil => 0,
        Items::Cons(entry, rest) => 1 + signature_size(entry.1) + taken_functions_size(*rest),
    }
}

pub open spec fn conjured_functions_size(conjured: IdMap<FunctionConjuration>) -> nat
    decreases conjured,
{
    match conjured {
        Items::Nil => 0,
        Items::Cons(entry, rest) => 1 + signature_size(entry.1.signature) + conjured_functions_size(*rest),
    }
}

pub proof fn lemma_taken_function_size(taken: IdMap<SignatureValue>, id: u64)
    ensures
        map_get(taken, id) matches Some(v) ==> signature_size(v) < taken_functions_size(taken),
    decreases taken,
{
    match taken {
        Items::Nil => {},
        Items::Cons(entry, rest) => {
            lemma_taken_function_size(crate::check::items::tail(taken), id);
        },
    }
}

pub proof fn lemma_conjured_function_size(conjured: IdMap<FunctionConjuration>, id: u64)
    ensures
        map_get(conjured, id) matches Some(c) ==> signature_size(c.signature) < conjured_functions_size(conjured),
    decreases conjured,
{
    match conjured {
        Items::Nil => {},
        Items::Cons(entry, rest) => {
            lemma_conjured_function_size(crate::check::items::tail(conjured), id);
        },
    }
}

// ---- conditions on names and dependencies, outside the recursion ----

/// Each signature that `other` takes, `this` takes too (by name).
pub open spec fn spec_takes_signatures_of(source: &Source, this: KnownSignatureValue, other: KnownSignatureValue, ids: IdSet) -> CheckResult<bool>
    decreases ids,
{
    match ids {
        Items::Nil => Ok(true),
        Items::Cons(id, rest) => match other.resolver.spec_taken_signature_name(*id) {
            None => Err(missing_name()),
            Some(name) => match this.resolver.spec_taken_signature_id(source, span_name(source, name)) {
                None => Ok(false),
                Some(_) => spec_takes_signatures_of(source, this, other, *rest),
            },
        },
    }
}

fn takes_signatures_of(source: &Source, this: &KnownSignatureValue, other: &KnownSignatureValue, ids: &IdSet) -> (r: CheckResult<bool>)
    ensures
        r == spec_takes_signatures_of(source, *this, *other, *ids),
    decreases ids,
{
    match ids {
        Items::Nil => Ok(true),
        Items::Cons(id, rest) => match other.resolver.taken_signature_name(**id) {
            None => Err(CheckError::Internal { error: InternalError::MissingName }),
            Some(name) => match this.resolver.taken_signature_id(source, name) {
                None => Ok(false),
                Some(_) => takes_signatures_of(source, this, other, &**rest),
            },
        },
    }
}

/// Each signature dependency of a conjuration of `this` is, by name, a
/// dependency of the matching conjuration of `other`.
pub open spec fn spec_signature_dependencies_within(source: &Source, this: KnownSignatureValue, dependencies: IdSet, other: KnownSignatureValue, other_dependencies: IdSet) -> CheckResult<bool>
    decreases dependencies,
{
    match dependencies {
        Items::Nil => Ok(true),
        Items::Cons(id, rest) => match this.resolver.spec_taken_signature_name(*id) {
            None => Err(missing_name()),
            Some(name) => match other.resolver.spec_taken_signature_id(source, span_name(source, name)) {
                Some(other_id) => if set_contains(other_dependencies, other_id) {
                    spec_signature_dependencies_within(source, this, *rest, other, other_dependencies)
                } else {
                    Ok(false)
                },
                None => Ok(false),
            },
        },
    }
}

fn signature_dependencies_within(source: &Source, this: &KnownSignatureValue, dependencies: &IdSet, other: &KnownSignatureValue, other_dependencies: &IdSet) -> (r: CheckResult<bool>)
    ensures
        r == spec_signature_dependencies_within(source, *this, *dependencies, *other, *other_dependencies),
    decreases dependencies,
{
    match dependencies {
        Items::Nil => Ok(true),
        Items::Cons(id, rest) => match this.resolver.taken_signature_name(**id) {
            None => Err(CheckError::Internal { error: InternalError::MissingName }),
            Some(name) => match other.resolver.taken_signature_id(source, name) {
                Some(other_id) => if set_has(other_dependencies, other_id) {
                    signature_dependencies_within(source, this, &**rest, other, other_dependencies)
                } else {
                    Ok(false)
                },
                None => Ok(false),
            },
        },
    }
}

/// Each function dependency of a conjuration of `this` is, by name, a
/// dependency of the matching conjuration of `other`.
pub open spec fn spec_function_dependencies_within(source: &Source, this: KnownSignatureValue, dependencies: IdMap<SignatureValue>, other: KnownSignatureValue, other_dependencies: IdMap<SignatureValue>) -> CheckResult<bool>
    decreases dependencies,
{
    match dependencies {
        Items::Nil => Ok(true),
        Items::Cons(entry, rest) => match this.resolver.spec_taken_function_name(entry.0) {
            None => Err(missing_name()),
            Some(name) => match other.resolver.spec_taken_function_id(source, span_name(source, name)) {
                Some(other_id) => if map_contains(other_dependencies, other_id) {
                    spec_function_dependencies_within(source, this, *rest, other, other_dependencies)
                } else {
                    Ok(false)
                },
                None => Ok(false),
            },
        },
    }
}

fn function_dependencies_within(source: &Source, this: &KnownSignatureValue, dependencies: &IdMap<SignatureValue>, other: &KnownSignatureValue, other_dependencies: &IdMap<SignatureValue>) -> (r: CheckResult<bool>)
    ensures
        r == spec_function_dependencies_within(source, *this, *dependencies, *other, *other_dependencies),
    decreases dependencies,
{
    match dependencies {
        Items::Nil => Ok(true),
        Items::Cons(entry, rest) => match this.resolver.taken_function_name(entry.0) {
            None => Err(CheckError::Internal { error: InternalError::MissingName }),
            Some(name) => match other.resolver.taken_function_id(source, name) {
                Some(other_id) => if contains_key(other_dependencies, other_id) {
                    function_dependencies_within(source, this, &**rest, other, other_dependencies)
                } else {
                    Ok(false)
                },
                None => Ok(false),
            },
        },
    }
}

/// Each signature that `other` conjures, `this` conjures too (by name), from
/// no more dependencies.
pub open spec fn spec_conjures_signatures_of(source: &Source, this: KnownSignatureValue, other: KnownSignatureValue, conjured: IdMap<SignatureConjuration>) -> CheckResult<bool>
    decreases conjured,
{
    match conjured {
        Items::Nil => Ok(true),
        Items::Cons(entry, rest) => match other.resolver.spec_produced_signature_name(entry.0) {
            None => Err(missing_name()),
            Some(name) => match this.resolver.spec_produced_signature_id(source, span_name(source, name)) {
                None => Ok(false),
                Some(this_id) => match map_get(this.conjured_signatures, this_id) {
                    None => Err(missing_value()),
                    Some(this_conjuration) => match spec_signature_dependencies_within(
                        source,
                        this,
                        this_conjuration.dependencies.signatures,
                        other,
                        entry.1.dependencies.signatures,
                    ) {
                        Err(e) => Err(e),
                        Ok(false) => Ok(false),
                        Ok(true) => match spec_function_dependencies_within(
                            source,
                            this,
                            this_conjuration.dependencies.functions,
                            other,
                            entry.1.dependencies.functions,
                        ) {
                            Err(e) => Err(e),
                            Ok(false) => Ok(false),
                            Ok(true) => spec_conjures_signatures_of(source, this, other, *rest),
                        },
                    },
                },
            },
        },
    }
}

fn conjures_signatures_of(source: &Source, this: &KnownSignatureValue, other: &KnownSignatureValue, conjured: &IdMap<SignatureConjuration>) -> (r: CheckResult<bool>)
    ensures
        r == spec_conjures_signatures_of(source, *this, *other, *conjured),
    decreases conjured,
{
    match conjured {
        Items::Nil => Ok(true),
        Items::Cons(entry, rest) => match other.resolver.produced_signature_name(entry.0) {
            None => Err(CheckError::Internal { error: InternalError::MissingName }),
            Some(name) => match this.resolver.produced_signature_id(source, name) {
                None => Ok(false),
                Some(this_id) => match get(&this.conjured_signatures, this_id) {
                    None => Err(CheckError::Internal { error: InternalError::MissingValue }),
                    Some(this_conjuration) => {
                        if !signature_dependencies_within(
                            source,
                            this,
                            &this_conjuration.dependencies.signatures,
                            other,
                            &entry.1.dependencies.signatures,
                        )? {
                            return Ok(false);
                        }
                        if !function_dependencies_within(
                            source,
                            this,
                            &this_conjuration.dependencies.functions,
                            other,
                            &entry.1.dependencies.functions,
                        )? {
                            return Ok(false);
                        }
                        conjures_signatures_of(source, this, other, &**rest)
                    },
                },
            },
        },
    }
}

// ---- the comparison itself ----

/// Each function that `other` takes, `this` takes too (by name), and every
/// function that may be given to `other` there may be given to `this`.
pub open spec fn spec_takes_functions_of(source: &Source, this: KnownSignatureValue, other: KnownSignatureValue, taken: IdMap<SignatureValue>) -> CheckResult<bool>
    decreases taken_functions_size(this.taken_functions) + conjured_functions_size(this.conjured_functions) + taken_functions_size(taken), 0nat,
{
    match taken {
        Items::Nil => Ok(true),
        Items::Cons(entry, rest) => match other.resolver.spec_taken_function_name(entry.0) {
            None => Err(missing_name()),
            Some(name) => match this.resolver.spec_taken_function_id(source, span_name(source, name)) {
                None => Ok(false),
                Some(this_id) => match map_get(this.taken_functions, this_id) {
                    None => Err(missing_value()),
                    Some(this_signature) => {
                        proof {
                            lemma_taken_function_size(this.taken_functions, this_id);
                        }
                        match spec_can_be_used_in_place_of(source, entry.1, this_signature) {
                            Err(e) => Err(e),
                            Ok(false) => Ok(false),
                            Ok(true) => spec_takes_functions_of(source, this, other, *rest),
                        }
                    },
                },
            },
        },
    }
}

/// Each function that `other` conjures, `this` conjures too (by name), from
/// no more dependencies, and with a signature that can stand for the one
/// `other` promises.
pub open spec fn spec_conjures_functions_of(source: &Source, this: KnownSignatureValue, other: KnownSignatureValue, conjured: IdMap<FunctionConjuration>) -> CheckResult<bool>
    decreases taken_functions_size(this.taken_functions) + conjured_functions_size(this.conjured_functions) + conjured_functions_size(conjured), 0nat,
{
    match conjured {
        Items::Nil => Ok(true),
        Items::Cons(entry, rest) => match other.resolver.spec_produced_function_name(entry.0) {
            None => Err(missing_name()),
            Some(name) => match this.resolver.spec_produced_function_id(source, span_name(source, name)) {
                None => Ok(false),
                Some(this_id) => match map_get(this.conjured_functions, this_id) {
                    None => Err(missing_value()),
                    Some(this_conjuration) => match spec_signature_dependencies_within(
                        source,
                        this,
                        this_conjuration.dependencies.signatures,
                        other,
                        entry.1.dependencies.signatures,
                    ) {
                        Err(e) => Err(e),
                        Ok(false) => Ok(false),
                        Ok(true) => match spec_function_dependencies_within(
                            source,
                            this,
                            this_conjuration.dependencies.functions,
                            other,
                            entry.1.dependencies.functions,
                        ) {
                            Err(e) => Err(e),
                            Ok(false) => Ok(false),
                            Ok(true) => {
                                proof {
                                    lemma_conjured_function_size(this.conjured_functions, this_id);
                                }
                                match spec_can_be_used_in_place_of(source, this_conjuration.signature, entry.1.signature) {
                                    Err(e) => Err(e),
                                    Ok(false) => Ok(false),
                                    Ok(true) => spec_conjures_functions_of(source, this, other, *rest),
                                }
                            },
                        },
                    },
                },
            },
        },
    }
}

/// Whether every function of signature `this` can be used wherever a
/// function of signature `other` is required.
pub open spec fn spec_can_be_used_in_place_of(source: &Source, this: SignatureValue, other: SignatureValue) -> CheckResult<bool>
    decreases signature_size(this) + signature_size(other), 1nat,
{
    match this {
        SignatureValue::Known(known_this) => match other {
            SignatureValue::Known(known_other) => match spec_takes_signatures_of(source, *known_this, *known_other, known_other.taken_signatures) {
                Err(e) => Err(e),
                Ok(false) => Ok(false),
                Ok(true) => match spec_takes_functions_of(source, *known_this, *known_other, known_other.taken_functions) {
                    Err(e) => Err(e),
                    Ok(false) => Ok(false),
                    Ok(true) => match spec_conjures_signatures_of(source, *known_this, *known_other, known_other.conjured_signatures) {
                        Err(e) => Err(e),
                        Ok(false) => Ok(false),
                        Ok(true) => spec_conjures_functions_of(source, *known_this, *known_other, known_other.conjured_functions),
                    },
                },
            },
            SignatureValue::Unknown(_) => Ok(false),
        },
        SignatureValue::Unknown(UnknownSignatureValue::Taken(this_id)) => match other {
            SignatureValue::Unknown(UnknownSignatureValue::Taken(other_id)) => Ok(this_id == other_id),
            _ => Ok(false),
        },
        SignatureValue::Unknown(UnknownSignatureValue::Conjured(this_conjured)) => match other {
            SignatureValue::Unknown(UnknownSignatureValue::Conjured(other_conjured)) => Ok(this_conjured == other_conjured),
            _ => Ok(false),
        },
    }
}

fn takes_functions_of(source: &Source, this: &KnownSignatureValue, other: &KnownSignatureValue, taken: &IdMap<SignatureValue>) -> (r: CheckResult<bool>)
    ensures
        r == spec_takes_functions_of(source, *this, *other, *taken),
    decreases taken_functions_size(this.taken_functions) + conjured_functions_size(this.conjured_functions) + taken_functions_size(*taken), 0nat,
{
    match taken {
        Items::Nil => Ok(true),
        Items::Cons(entry, rest) => match other.resolver.taken_function_name(entry.0) {
            None => Err(CheckError::Internal { error: InternalError::MissingName }),
            Some(name) => match this.resolver.taken_function_id(source, name) {
                None => Ok(false),
                Some(this_id) => match get(&this.taken_functions, this_id) {
                    None => Err(CheckError::Internal { error: InternalError::MissingValue }),
                    Some(this_signature) => {
                        proof {
                            lemma_taken_function_size(this.taken_functions, this_id);
                        }
                        if !can_be_used_in_place_of(source, &entry.1, this_signature)? {
                            return Ok(false);
                        }
                        takes_functions_of(source, this, other, &**rest)
                    },
                },
            },
        },
    }
}

fn conjures_functions_of(source: &Source, this: &KnownSignatureValue, other: &KnownSignatureValue, conjured: &IdMap<FunctionConjuration>) -> (r: CheckResult<bool>)
    ensures
        r == spec_conjures_functions_of(source, *this, *other, *conjured),
    decreases taken_functions_size(this.taken_functions) + conjured_functions_size(this.conjured_functions) + conjured_functions_size(*conjured), 0nat,
{
    match conjured {
        Items::Nil => Ok(true),
        Items::Cons(entry, rest) => match other.resolver.produced_function_name(entry.0) {
            None => Err(CheckError::Internal { error: InternalError::MissingName }),
            Some(name) => match this.resolver.produced_function_id(source, name) {
                None => Ok(false),
                Some(this_id) => match get(&this.conjured_functions, this_id) {
                    None => Err(CheckError::Internal { error: InternalError::MissingValue }),
                    Some(this_conjuration) => {
                        if !signature_dependencies_within(
                            source,
                            this,
                            &this_conjuration.dependencies.signatures,
                            other,
                            &entry.1.dependencies.signatures,
                        )? {
                            return Ok(false);
                        }
                        if !function_dependencies_within(
                            source,
                            this,
                            &this_conjuration.dependencies.functions,
                            other,
                            &entry.1.dependencies.functions,
                        )? {
                            return Ok(false);
                        }
                        proof {
                            lemma_conjured_function_size(this.conjured_functions, this_id);
                        }
                        if !can_be_used_in_place_of(source, &this_conjuration.signature, &entry.1.signature)? {
                            return Ok(false);
                        }
                        conjures_functions_of(source, this, other, &**rest)
                    },
                },
            },
        },
    }
}

/// Returns `Ok(true)` iff all functions of signature `this` can be used
/// wherever a function of signature `other` is required: `this` takes every
/// signature and function that `other` takes (by name, accepting at least the
/// functions `other` accepts), and produces every signature and function that
/// `other` produces, from no more dependencies (and, for functions, with a
/// signature that can stand for the promised one). Unknown signatures stand
/// only for themselves.
pub fn can_be_used_in_place_of(source: &Source, this: &SignatureValue, other: &SignatureValue) -> (r: CheckResult<bool>)
    ensures
        r == spec_can_be_used_in_place_of(source, *this, *other),
    decreases signature_size(*this) + signature_size(*other), 1nat,
{
    match this {
        SignatureValue::Known(known_this) => match other {
            SignatureValue::Known(known_other) => {
                if !takes_signatures_of(source, known_this, known_other, &known_other.taken_signatures)? {
                    return Ok(false);
                }
                if !takes_functions_of(source, known_this, known_other, &known_other.taken_functions)? {
                    return Ok(false);
                }
                if !conjures_signatures_of(source, known_this, known_other, &known_other.conjured_signatures)? {
                    return Ok(false);
                }
                conjures_functions_of(source, known_this, known_other, &known_other.conjured_functions)
            },
            SignatureValue::Unknown(_) => Ok(false),
        },
        SignatureValue::Unknown(UnknownSignatureValue::Taken(this_id)) => match other {
            SignatureValue::Unknown(UnknownSignatureValue::Taken(other_id)) => Ok(*this_id == *other_id),
            _ => Ok(false),
        },
        SignatureValue::Unknown(UnknownSignatureValue::Conjured(this_conjured)) => match other {
            SignatureValue::Unknown(UnknownSignatureValue::Conjured(other_conjured)) => Ok(
                eq_conjured_signature(&**this_conjured, &**other_conjured),
            ),
            _ => Ok(false),
        },
    }
}

/// Whether `function` has a signature that can stand for `signature`.
pub open spec fn spec_describes(source: &Source, signature: SignatureValue, function: FunctionValue) -> CheckResult<bool> {
    spec_can_be_used_in_place_of(source, signature, spec_function_signature(function))
}

impl SignatureValue {
    /// Whether the signature of `function` can stand for this one.
    pub fn describes(&self, source: &Source, function: &FunctionValue) -> (r: CheckResult<bool>)
        ensures
            r == spec_describes(source, *self, *function),
    {
        can_be_used_in_place_of(source, self, &function.signature())
    }
}

// ---- a signature can stand for itself ----

/// The taken signature `id` has a name, under which it is found again.
pub open spec fn taken_signature_named(source: &Source, resolver: ContextResolver, id: u64) -> bool {
    resolver.spec_taken_signature_name(id) matches Some(name) && resolver.spec_taken_signature_id(
        source,
        span_name(source, name),
    ) == Some(id)
}

pub open spec fn taken_function_named(source: &Source, resolver: ContextResolver, id: u64) -> bool {
    resolver.spec_taken_function_name(id) matches Some(name) && resolver.spec_taken_function_id(
        source,
        span_name(source, name),
    ) == Some(id)
}

pub open spec fn produced_signature_named(source: &Source, resolver: ContextResolver, id: u64) -> bool {
    resolver.spec_produced_signature_name(id) matches Some(name) && resolver.spec_produced_signature_id(
        source,
        span_name(source, name),
    ) == Some(id)
}

pub open spec fn produced_function_named(source: &Source, resolver: ContextResolver, id: u64) -> bool {
    resolver.spec_produced_function_name(id) matches Some(name) && resolver.spec_produced_function_id(
        source,
        span_name(source, name),
    ) == Some(id)
}

/// Each identifier of `ids` is a taken signature with a name.
pub open spec fn signatures_named(source: &Source, resolver: ContextResolver, ids: IdSet) -> bool
    decreases ids,
{
    match ids {
        Items::Nil => true,
        Items::Cons(id, rest) => taken_signature_named(source, resolver, *id) && signatures_named(source, resolver, *rest),
    }
}

/// Each key of `m` is a taken function with a name.
pub open spec fn functions_named(source: &Source, resolver: ContextResolver, m: IdMap<SignatureValue>) -> bool
    decreases m,
{
    match m {
        Items::Nil => true,
        Items::Cons(entry, rest) => taken_function_named(source, resolver, entry.0) && functions_named(source, resolver, *rest),
    }
}

/// What a lambda depends on are taken signatures and functions with names.
pub open spec fn dependencies_named(source: &Source, resolver: ContextResolver, d: LambdaDependencies) -> bool {
    signatures_named(source, resolver, d.signatures) && functions_named(source, resolver, d.functions)
}

/// Each taken function of `taken` is named, is the one its key finds in the
/// value, and has a well-formed signature.
pub open spec fn taken_functions_wf(source: &Source, value: KnownSignatureValue, taken: IdMap<SignatureValue>) -> bool
    decreases taken,
{
    match taken {
        Items::Nil => true,
        Items::Cons(entry, rest) => {
            &&& taken_function_named(source, value.resolver, entry.0)
            &&& map_get(value.taken_functions, entry.0) == Some(entry.1)
            &&& signature_wf(source, entry.1)
            &&& taken_functions_wf(source, value, *rest)
        },
    }
}

pub open spec fn conjured_signatures_wf(source: &Source, value: KnownSignatureValue, conjured: IdMap<SignatureConjuration>) -> bool
    decreases conjured,
{
    match conjured {
        Items::Nil => true,
        Items::Cons(entry, rest) => {
            &&& produced_signature_named(source, value.resolver, entry.0)
            &&& map_get(value.conjured_signatures, entry.0) == Some(entry.1)
            &&& dependencies_named(source, value.resolver, entry.1.dependencies)
            &&& conjured_signatures_wf(source, value, *rest)
        },
    }
}

pub open spec fn conjured_functions_wf(source: &Source, value: KnownSignatureValue, conjured: IdMap<FunctionConjuration>) -> bool
    decreases conjured,
{
    match conjured {
        Items::Nil => true,
        Items::Cons(entry, rest) => {
            &&& produced_function_named(source, value.resolver, entry.0)
            &&& map_get(value.conjured_functions, entry.0) == Some(entry.1)
            &&& dependencies_named(source, value.resolver, entry.1.dependencies)
            &&& signature_wf(source, entry.1.signature)
            &&& conjured_functions_wf(source, value, *rest)
        },
    }
}

/// A signature whose names are consistent: every identifier it takes or
/// conjures is found again by its name, each key occurs once, and what its
/// conjurations depend on it takes; and so on for the signatures it mentions.
pub open spec fn signature_wf(source: &Source, value: SignatureValue) -> bool
    decreases value,
{
    match value {
        SignatureValue::Known(known) => {
            &&& signatures_named(source, known.resolver, known.taken_signatures)
            &&& taken_functions_wf(source, *known, known.taken_functions)
            &&& conjured_signatures_wf(source, *known, known.conjured_signatures)
            &&& conjured_functions_wf(source, *known, known.conjured_functions)
        },
        SignatureValue::Unknown(_) => true,
    }
}

proof fn lemma_takes_signatures_of_itself(source: &Source, value: KnownSignatureValue, ids: IdSet)
    requires
        signatures_named(source, value.resolver, ids),
    ensures
        spec_takes_signatures_of(source, value, value, ids) == Ok::<bool, CheckError>(true),
    decreases ids,
{
    if ids is Cons {
        lemma_takes_signatures_of_itself(source, value, tail(ids));
    }
}

proof fn lemma_signature_dependencies_within_itself(source: &Source, value: KnownSignatureValue, ids: IdSet, all: IdSet)
    requires
        signatures_named(source, value.resolver, ids),
        forall|x: u64| set_contains(ids, x) ==> set_contains(all, x),
    ensures
        spec_signature_dependencies_within(source, value, ids, value, all) == Ok::<bool, CheckError>(true),
    decreases ids,
{
    if ids is Cons {
        let x = first(ids);
        assert(set_contains(ids, x));
        assert forall|y: u64| set_contains(tail(ids), y) implies set_contains(all, y) by {
            assert(set_contains(ids, y));
        }
        lemma_signature_dependencies_within_itself(source, value, tail(ids), all);
    }
}

proof fn lemma_function_dependencies_within_itself(
    source: &Source,
    value: KnownSignatureValue,
    m: IdMap<SignatureValue>,
    all: IdMap<SignatureValue>,
)
    requires
        functions_named(source, value.resolver, m),
        forall|x: u64| map_contains(m, x) ==> map_contains(all, x),
    ensures
        spec_function_dependencies_within(source, value, m, value, all) == Ok::<bool, CheckError>(true),
    decreases m,
{
    if m is Cons {
        let x = first(m).0;
        assert(map_contains(m, x));
        assert forall|y: u64| map_contains(tail(m), y) implies map_contains(all, y) by {
            if y != x {
                assert(map_get(m, y) == map_get(tail(m), y));
            }
        }
        lemma_function_dependencies_within_itself(source, value, tail(m), all);
    }
}

proof fn lemma_conjures_signatures_of_itself(source: &Source, value: KnownSignatureValue, conjured: IdMap<SignatureConjuration>)
    requires
        conjured_signatures_wf(source, value, conjured),
    ensures
        spec_conjures_signatures_of(source, value, value, conjured) == Ok::<bool, CheckError>(true),
    decreases conjured,
{
    if conjured is Cons {
        let entry = first(conjured);
        lemma_signature_dependencies_within_itself(source, value, entry.1.dependencies.signatures, entry.1.dependencies.signatures);
        lemma_function_dependencies_within_itself(source, value, entry.1.dependencies.functions, entry.1.dependencies.functions);
        lemma_conjures_signatures_of_itself(source, value, tail(conjured));
    }
}

proof fn lemma_takes_functions_of_itself(source: &Source, value: KnownSignatureValue, taken: IdMap<SignatureValue>)
    requires
        taken_functions_wf(source, value, taken),
    ensures
        spec_takes_functions_of(source, value, value, taken) == Ok::<bool, CheckError>(true),
    decreases taken_functions_size(taken), 0nat,
{
    if taken is Cons {
        let entry = first(taken);
        lemma_can_be_used_in_place_of_itself(source, entry.1);
        lemma_takes_functions_of_itself(source, value, tail(taken));
    }
}

proof fn lemma_conjures_functions_of_itself(source: &Source, value: KnownSignatureValue, conjured: IdMap<FunctionConjuration>)
    requires
        conjured_functions_wf(source, value, conjured),
    ensures
        spec_conjures_functions_of(source, value, value, conjured) == Ok::<bool, CheckError>(true),
    decreases conjured_functions_size(conjured), 0nat,
{
    if conjured is Cons {
        let entry = first(conjured);
        lemma_signature_dependencies_within_itself(source, value, entry.1.dependencies.signatures, entry.1.dependencies.signatures);
        lemma_function_dependencies_within_itself(source, value, entry.1.dependencies.functions, entry.1.dependencies.functions);
        lemma_can_be_used_in_place_of_itself(source, entry.1.signature);
        lemma_conjures_functions_of_itself(source, value, tail(conjured));
    }
}

/// The known signature that `value` is.
pub open spec fn known_signature(value: SignatureValue) -> KnownSignatureValue
    recommends
        value is Known,
{
    match value {
        SignatureValue::Known(known) => *known,
        SignatureValue::Unknown(_) => arbitrary(),
    }
}

/// Law: every function of a signature can be used wherever a function of
/// that same signature is required, where the signature's names are
/// consistent.
pub proof fn lemma_can_be_used_in_place_of_itself(source: &Source, value: SignatureValue)
    requires
        signature_wf(source, value),
    ensures
        spec_can_be_used_in_place_of(source, value, value) == Ok::<bool, CheckError>(true),
    decreases signature_size(value), 1nat,
{
    if value is Known {
        let known = known_signature(value);
        lemma_takes_signatures_of_itself(source, known, known.taken_signatures);
        lemma_takes_functions_of_itself(source, known, known.taken_functions);
        lemma_conjures_signatures_of_itself(source, known, known.conjured_signatures);
        lemma_conjures_functions_of_itself(source, known, known.conjured_functions);
    }
}

/// Law: a function may be given wherever its own signature is expected,
/// where the names of that signature are consistent.
pub proof fn lemma_signature_describes_its_function(source: &Source, function: FunctionValue)
    requires
        signature_wf(source, spec_function_signature(function)),
    ensures
        spec_describes(source, spec_function_signature(function), function) == Ok::<bool, CheckError>(true),
{
    lemma_can_be_used_in_place_of_itself(source, spec_function_signature(function));
}

/// `this` takes, by name, the signature that `other` takes as `id`.
pub open spec fn takes_signature_named_as(source: &Source, this: KnownSignatureValue, other: KnownSignatureValue, id: u64) -> bool {
    other.resolver.spec_taken_signature_name(id) matches Some(name)
        && this.resolver.spec_taken_signature_id(source, span_name(source, name)) is Some
}

proof fn lemma_takes_signatures_of_names(source: &Source, this: KnownSignatureValue, other: KnownSignatureValue, ids: IdSet)
    ensures
        spec_takes_signatures_of(source, this, other, ids) == Ok::<bool, CheckError>(true) ==> forall|id: u64|
            #[trigger] set_contains(ids, id) ==> takes_signature_named_as(source, this, other, id),
        (forall|id: u64| #[trigger] set_contains(ids, id) ==> other.resolver.spec_taken_signature_name(id) is Some) ==> (
        spec_takes_signatures_of(source, this, other, ids) is Ok),
    decreases ids,
{
    if ids is Cons {
        let x = first(ids);
        let rest = tail(ids);
        assert(ids == Items::Cons(Rc::new(x), Rc::new(rest)));
        assert forall|id: u64| set_contains(ids, id) == (id == x || set_contains(rest, id)) by {}
        lemma_takes_signatures_of_names(source, this, other, rest);
        if spec_takes_signatures_of(source, this, other, ids) == Ok::<bool, CheckError>(true) {
            assert(takes_signature_named_as(source, this, other, x));
            assert forall|id: u64| #[trigger] set_contains(ids, id) implies takes_signature_named_as(source, this, other, id) by {
                if id != x {
                    assert(set_contains(rest, id));
                }
            }
        }
        if forall|id: u64| #[trigger] set_contains(ids, id) ==> other.resolver.spec_taken_signature_name(id) is Some {
            assert(set_contains(ids, x));
            assert forall|id: u64| #[trigger] set_contains(rest, id) implies other.resolver.spec_taken_signature_name(id) is Some by {
                assert(set_contains(ids, id));
            }
        }
    }
}

/// Law: a signature stands for another only if it takes, by name, every
/// signature that the other takes; where it lacks one of them (and the
/// other's taken signatures all have names) it does not stand for it.
pub proof fn lemma_standing_for_needs_every_taken_signature(
    source: &Source,
    this: KnownSignatureValue,
    other: KnownSignatureValue,
)
    ensures
        spec_can_be_used_in_place_of(source, SignatureValue::Known(Rc::new(this)), SignatureValue::Known(Rc::new(other)))
            == Ok::<bool, CheckError>(true) ==> forall|id: u64|
            #[trigger] set_contains(other.taken_signatures, id) ==> takes_signature_named_as(source, this, other, id),
        (forall|id: u64| #[trigger] set_contains(other.taken_signatures, id) ==> other.resolver.spec_taken_signature_name(id) is Some)
            && (exists|id: u64| #[trigger] set_contains(other.taken_signatures, id) && !takes_signature_named_as(source, this, other, id))
            ==> spec_can_be_used_in_place_of(source, SignatureValue::Known(Rc::new(this)), SignatureValue::Known(Rc::new(other)))
            == Ok::<bool, CheckError>(false),
{
    lemma_takes_signatures_of_names(source, this, other, other.taken_signatures);
}

/// `this` takes, by name, the function that `other` takes as `id`, with a
/// signature that a function of signature `signature` may stand for.
pub open spec fn takes_function_named_as(
    source: &Source,
    this: KnownSignatureValue,
    other: KnownSignatureValue,
    id: u64,
    signature: SignatureValue,
) -> bool {
    other.resolver.spec_taken_function_name(id) matches Some(name)
        && this.resolver.spec_taken_function_id(source, span_name(source, name)) matches Some(this_id)
        && map_get(this.taken_functions, this_id) matches Some(this_signature)
        && spec_can_be_used_in_place_of(source, signature, this_signature) == Ok::<bool, CheckError>(true)
}

/// The taken signature `id` of `this` is, by name, one of `dependencies` of `other`.
pub open spec fn signature_dependency_matched(
    source: &Source,
    this: KnownSignatureValue,
    other: KnownSignatureValue,
    dependencies: IdSet,
    id: u64,
) -> bool {
    this.resolver.spec_taken_signature_name(id) matches Some(name)
        && other.resolver.spec_taken_signature_id(source, span_name(source, name)) matches Some(other_id)
        && set_contains(dependencies, other_id)
}

/// The taken function `id` of `this` is, by name, one of `dependencies` of `other`.
pub open spec fn function_dependency_matched(
    source: &Source,
    this: KnownSignatureValue,
    other: KnownSignatureValue,
    dependencies: IdMap<SignatureValue>,
    id: u64,
) -> bool {
    this.resolver.spec_taken_function_name(id) matches Some(name)
        && other.resolver.spec_taken_function_id(source, span_name(source, name)) matches Some(other_id)
        && map_contains(dependencies, other_id)
}

/// Each dependency in `mine` of `this` is, by name, a dependency in `theirs` of `other`.
pub open spec fn dependencies_matched(
    source: &Source,
    this: KnownSignatureValue,
    mine: LambdaDependencies,
    other: KnownSignatureValue,
    theirs: LambdaDependencies,
) -> bool {
    &&& forall|x: u64| #[trigger] set_contains(mine.signatures, x) ==> signature_dependency_matched(source, this, other, theirs.signatures, x)
    &&& forall|x: u64| #[trigger] map_contains(mine.functions, x) ==> function_dependency_matched(source, this, other, theirs.functions, x)
}

/// `this` conjures, by name, the signature that `other` conjures as `id`
/// with `conjuration`, from no more dependencies.
pub open spec fn conjures_signature_named_as(
    source: &Source,
    this: KnownSignatureValue,
    other: KnownSignatureValue,
    id: u64,
    conjuration: SignatureConjuration,
) -> bool {
    other.resolver.spec_produced_signature_name(id) matches Some(name)
        && this.resolver.spec_produced_signature_id(source, span_name(source, name)) matches Some(this_id)
        && map_get(this.conjured_signatures, this_id) matches Some(mine)
        && dependencies_matched(source, this, mine.dependencies, other, conjuration.dependencies)
}

/// `this` conjures, by name, the function that `other` conjures as `id`
/// with `conjuration`, from no more dependencies, with a signature that can
/// stand for the promised one.
pub open spec fn conjures_function_named_as(
    source: &Source,
    this: KnownSignatureValue,
    other: KnownSignatureValue,
    id: u64,
    conjuration: FunctionConjuration,
) -> bool {
    other.resolver.spec_produced_function_name(id) matches Some(name)
        && this.resolver.spec_produced_function_id(source, span_name(source, name)) matches Some(this_id)
        && map_get(this.conjured_functions, this_id) matches Some(mine)
        && dependencies_matched(source, this, mine.dependencies, other, conjuration.dependencies)
        && spec_can_be_used_in_place_of(source, mine.signature, conjuration.signature) == Ok::<bool, CheckError>(true)
}

proof fn lemma_signature_dependencies_within_matched(
    source: &Source,
    this: KnownSignatureValue,
    dependencies: IdSet,
    other: KnownSignatureValue,
    other_dependencies: IdSet,
)
    ensures
        spec_signature_dependencies_within(source, this, dependencies, other, other_dependencies) == Ok::<bool, CheckError>(true)
            ==> forall|x: u64| #[trigger] set_contains(dependencies, x) ==> signature_dependency_matched(source, this, other, other_dependencies, x),
    decreases dependencies,
{
    if dependencies is Cons {
        let x0 = first(dependencies);
        let rest = tail(dependencies);
        assert(dependencies == Items::Cons(Rc::new(x0), Rc::new(rest)));
        lemma_signature_dependencies_within_matched(source, this, rest, other, other_dependencies);
        if spec_signature_dependencies_within(source, this, dependencies, other, other_dependencies) == Ok::<bool, CheckError>(true) {
            assert forall|x: u64| #[trigger] set_contains(dependencies, x) implies signature_dependency_matched(source, this, other, other_dependencies, x) by {
                if x != x0 {
                    assert(set_contains(rest, x));
                }
            }
        }
    }
}

proof fn lemma_function_dependencies_within_matched(
    source: &Source,
    this: KnownSignatureValue,
    dependencies: IdMap<SignatureValue>,
    other: KnownSignatureValue,
    other_dependencies: IdMap<SignatureValue>,
)
    ensures
        spec_function_dependencies_within(source, this, dependencies, other, other_dependencies) == Ok::<bool, CheckError>(true)
            ==> forall|x: u64| #[trigger] map_contains(dependencies, x) ==> function_dependency_matched(source, this, other, other_dependencies, x),
    decreases dependencies,
{
    if dependencies is Cons {
        let e = first(dependencies);
        let rest = tail(dependencies);
        lemma_function_dependencies_within_matched(source, this, rest, other, other_dependencies);
        if spec_function_dependencies_within(source, this, dependencies, other, other_dependencies) == Ok::<bool, CheckError>(true) {
            assert forall|x: u64| #[trigger] map_contains(dependencies, x) implies function_dependency_matched(source, this, other, other_dependencies, x) by {
                if x != e.0 {
                    assert(map_contains(rest, x));
                }
            }
        }
    }
}

proof fn lemma_takes_functions_of_matched(source: &Source, this: KnownSignatureValue, other: KnownSignatureValue, taken: IdMap<SignatureValue>)
    ensures
        spec_takes_functions_of(source, this, other, taken) == Ok::<bool, CheckError>(true) ==> forall|k: u64|
            #[trigger] map_get(taken, k) matches Some(signature) ==> takes_function_named_as(source, this, other, k, signature),
    decreases taken,
{
    if taken is Cons {
        let e = first(taken);
        let rest = tail(taken);
        lemma_takes_functions_of_matched(source, this, other, rest);
        if spec_takes_functions_of(source, this, other, taken) == Ok::<bool, CheckError>(true) {
            assert forall|k: u64| #[trigger] map_get(taken, k) is Some implies takes_function_named_as(source, this, other, k, map_get(taken, k)->Some_0) by {
                if k != e.0 {
                    assert(map_get(taken, k) == map_get(rest, k));
                }
            }
        }
    }
}

proof fn lemma_conjures_signatures_of_matched(
    source: &Source,
    this: KnownSignatureValue,
    other: KnownSignatureValue,
    conjured: IdMap<SignatureConjuration>,
)
    ensures
        spec_conjures_signatures_of(source, this, other, conjured) == Ok::<bool, CheckError>(true) ==> forall|k: u64|
            #[trigger] map_get(conjured, k) matches Some(c) ==> conjures_signature_named_as(source, this, other, k, c),
    decreases conjured,
{
    if conjured is Cons {
        let e = first(conjured);
        let rest = tail(conjured);
        lemma_conjures_signatures_of_matched(source, this, other, rest);
        if spec_conjures_signatures_of(source, this, other, conjured) == Ok::<bool, CheckError>(true) {
            let name = other.resolver.spec_produced_signature_name(e.0)->Some_0;
            let this_id = this.resolver.spec_produced_signature_id(source, span_name(source, name))->Some_0;
            let mine = map_get(this.conjured_signatures, this_id)->Some_0;
            lemma_signature_dependencies_within_matched(source, this, mine.dependencies.signatures, other, e.1.dependencies.signatures);
            lemma_function_dependencies_within_matched(source, this, mine.dependencies.functions, other, e.1.dependencies.functions);
            assert forall|k: u64| #[trigger] map_get(conjured, k) is Some implies conjures_signature_named_as(source, this, other, k, map_get(conjured, k)->Some_0) by {
                if k != e.0 {
                    assert(map_get(conjured, k) == map_get(rest, k));
                }
            }
        }
    }
}

proof fn lemma_conjures_functions_of_matched(
    source: &Source,
    this: KnownSignatureValue,
    other: KnownSignatureValue,
    conjured: IdMap<FunctionConjuration>,
)
    ensures
        spec_conjures_functions_of(source, this, other, conjured) == Ok::<bool, CheckError>(true) ==> forall|k: u64|
            #[trigger] map_get(conjured, k) matches Some(c) ==> conjures_function_named_as(source, this, other, k, c),
    decreases conjured,
{
    if conjured is Cons {
        let e = first(conjured);
        let rest = tail(conjured);
        lemma_conjures_functions_of_matched(source, this, other, rest);
        if spec_conjures_functions_of(source, this, other, conjured) == Ok::<bool, CheckError>(true) {
            let name = other.resolver.spec_produced_function_name(e.0)->Some_0;
            let this_id = this.resolver.spec_produced_function_id(source, span_name(source, name))->Some_0;
            let mine = map_get(this.conjured_functions, this_id)->Some_0;
            lemma_signature_dependencies_within_matched(source, this, mine.dependencies.signatures, other, e.1.dependencies.signatures);
            lemma_function_dependencies_within_matched(source, this, mine.dependencies.functions, other, e.1.dependencies.functions);
            assert forall|k: u64| #[trigger] map_get(conjured, k) is Some implies conjures_function_named_as(source, this, other, k, map_get(conjured, k)->Some_0) by {
                if k != e.0 {
                    assert(map_get(conjured, k) == map_get(rest, k));
                }
            }
        }
    }
}

/// Law: where a known signature stands for another, it takes every
/// signature the other takes; it takes every function the other takes,
/// with a signature that the other's may stand for; and it conjures every
/// signature and function the other conjures, from no more dependencies,
/// each conjured function with a signature that can stand for the promised one.
pub proof fn lemma_standing_for_matches_all_of_the_other(source: &Source, this: KnownSignatureValue, other: KnownSignatureValue)
    ensures
        spec_can_be_used_in_place_of(source, SignatureValue::Known(Rc::new(this)), SignatureValue::Known(Rc::new(other)))
            == Ok::<bool, CheckError>(true) ==> {
            &&& forall|id: u64| #[trigger] set_contains(other.taken_signatures, id) ==> takes_signature_named_as(source, this, other, id)
            &&& forall|k: u64| #[trigger] map_get(other.taken_functions, k) matches Some(signature)
                ==> takes_function_named_as(source, this, other, k, signature)
            &&& forall|k: u64| #[trigger] map_get(other.conjured_signatures, k) matches Some(c)
                ==> conjures_signature_named_as(source, this, other, k, c)
            &&& forall|k: u64| #[trigger] map_get(other.conjured_functions, k) matches Some(c)
                ==> conjures_function_named_as(source, this, other, k, c)
        },
{
    lemma_standing_for_needs_every_taken_signature(source, this, other);
    lemma_takes_functions_of_matched(source, this, other, other.taken_functions);
    lemma_conjures_signatures_of_matched(source, this, other, other.conjured_signatures);
    lemma_conjures_functions_of_matched(source, this, other, other.conjured_functions);
}

} // verus!
