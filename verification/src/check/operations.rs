//! What the right-hand side of an assignment makes of the lambdas it names:
//! taking a signature or function that a function gives, giving a signature
//! or function to what a signature or function takes, and the value of a
//! function that is taken.
use vstd::prelude::*;
use std::rc::Rc;
use crate::check::error::{CheckError, CheckResult, ForeignFunctionName, ForeignSignatureName, InternalError};
use crate::check::items::{contains_key, get, map_get, map_remove, remove, set_remove, set_without, IdMap, Items};
use crate::check::names::span_name;
use crate::check::substitute::{
    function_conjuration_map_fn, function_conjuration_map_sig, function_lambda_map_fn, function_lambda_map_sig,
    signature_lambda_map_fn, signature_lambda_map_sig, signature_map_fn, signature_map_sig,
    spec_function_conjuration_map_fn, spec_function_conjuration_map_sig, spec_function_lambda_map_fn,
    spec_function_lambda_map_sig, spec_signature_lambda_map_fn, spec_signature_lambda_map_sig, spec_signature_map_fn,
    spec_signature_map_sig,
};
use crate::check::describes::spec_describes;
use crate::check::value::{
    spec_span, span_of, ConjuredFunctionValue, ConjuredSignatureValue, FunctionConjuration, FunctionId,
    FunctionLambda, FunctionValue, KnownFunctionValue, KnownSignatureValue, LambdaDependencies, SignatureConjuration,
    SignatureId, SignatureLambda, SignatureValue, Span, UnknownFunctionValue, UnknownSignatureValue,
};
use crate::source::Source;
use crate::check::evaluate::{sig_name, signature_name};
use crate::syntax::{
    ForeignFunction, ForeignSignature, Function, GiveFunctionToFunction, GiveFunctionToSignature, GiveSignatureToFunction,
    GiveSignatureToSignature, Signature,
};

verus! {

/// How deep substitution may go. Every value that the evaluation builds is
/// far shallower.
pub const FUEL: u64 = 0xffff_ffff_ffff_ffffu64;

pub open spec fn foreign_signature_name(f: ForeignSignature) -> ForeignSignatureName {
    ForeignSignatureName {
        explicit: f is Explicit,
        signature: sig_name(f.signature()),
    }
}

pub open spec fn foreign_function_name(f: ForeignFunction) -> ForeignFunctionName {
    ForeignFunctionName { explicit: f is Explicit, function: spec_span(f.function().symbol) }
}

pub fn foreign_signature(f: &ForeignSignature) -> (n: ForeignSignatureName)
    ensures
        n == foreign_signature_name(*f),
{
    let explicit = match f {
        ForeignSignature::Explicit(_) => true,
        ForeignSignature::Implicit(_) => false,
    };
    ForeignSignatureName { explicit, signature: signature_name(&f.as_signature()) }
}

pub fn foreign_function(f: &ForeignFunction) -> (n: ForeignFunctionName)
    ensures
        n == foreign_function_name(*f),
{
    let explicit = match f {
        ForeignFunction::Explicit(_) => true,
        ForeignFunction::Implicit(_) => false,
    };
    ForeignFunctionName { explicit, function: span_of(&f.as_function().symbol) }
}

/// A dependency on a taken signature or on a taken function.
#[derive(Clone, Copy)]
pub enum Dependency {
    Signature(u64),
    Function(u64),
}

/// `dependencies` without `d`.
pub open spec fn spec_without(dependencies: LambdaDependencies, d: Dependency) -> LambdaDependencies {
    match d {
        Dependency::Signature(id) => LambdaDependencies { signatures: set_remove(dependencies.signatures, id), ..dependencies },
        Dependency::Function(id) => LambdaDependencies { functions: map_remove(dependencies.functions, id), ..dependencies },
    }
}

pub fn without(dependencies: &LambdaDependencies, d: Dependency) -> (r: LambdaDependencies)
    ensures
        r == spec_without(*dependencies, d),
{
    match d {
        Dependency::Signature(id) => LambdaDependencies {
            signatures: set_without(&dependencies.signatures, id),
            functions: dependencies.functions.copy(),
        },
        Dependency::Function(id) => LambdaDependencies {
            signatures: dependencies.signatures.copy(),
            functions: remove(&dependencies.functions, id),
        },
    }
}

pub open spec fn spec_signature_conjurations_without(m: IdMap<SignatureConjuration>, d: Dependency) -> IdMap<SignatureConjuration>
    decreases m,
{
    match m {
        Items::Nil => Items::Nil,
        Items::Cons(entry, rest) => Items::Cons(
            Rc::new((entry.0, SignatureConjuration { dependencies: spec_without(entry.1.dependencies, d) })),
            Rc::new(spec_signature_conjurations_without(*rest, d)),
        ),
    }
}

/// Each conjuration of `m` without the dependency `d`.
pub fn signature_conjurations_without(m: &IdMap<SignatureConjuration>, d: Dependency) -> (r: IdMap<SignatureConjuration>)
    ensures
        r == spec_signature_conjurations_without(*m, d),
    decreases m,
{
    match m {
        Items::Nil => Items::Nil,
        Items::Cons(entry, rest) => Items::Cons(
            Rc::new((entry.0, SignatureConjuration { dependencies: without(&entry.1.dependencies, d) })),
            Rc::new(signature_conjurations_without(&**rest, d)),
        ),
    }
}

pub open spec fn spec_function_conjurations_without(m: IdMap<FunctionConjuration>, d: Dependency) -> IdMap<FunctionConjuration>
    decreases m,
{
    match m {
        Items::Nil => Items::Nil,
        Items::Cons(entry, rest) => Items::Cons(
            Rc::new((entry.0, FunctionConjuration { signature: entry.1.signature, dependencies: spec_without(entry.1.dependencies, d) })),
            Rc::new(spec_function_conjurations_without(*rest, d)),
        ),
    }
}

pub fn function_conjurations_without(m: &IdMap<FunctionConjuration>, d: Dependency) -> (r: IdMap<FunctionConjuration>)
    ensures
        r == spec_function_conjurations_without(*m, d),
    decreases m,
{
    match m {
        Items::Nil => Items::Nil,
        Items::Cons(entry, rest) => Items::Cons(
            Rc::new(
                (
                    entry.0,
                    FunctionConjuration { signature: entry.1.signature.copy(), dependencies: without(&entry.1.dependencies, d) },
                ),
            ),
            Rc::new(function_conjurations_without(&**rest, d)),
        ),
    }
}

pub open spec fn spec_signature_lambdas_without(m: IdMap<SignatureLambda>, d: Dependency) -> IdMap<SignatureLambda>
    decreases m,
{
    match m {
        Items::Nil => Items::Nil,
        Items::Cons(entry, rest) => Items::Cons(
            Rc::new((entry.0, SignatureLambda { signature: entry.1.signature, dependencies: spec_without(entry.1.dependencies, d) })),
            Rc::new(spec_signature_lambdas_without(*rest, d)),
        ),
    }
}

pub fn signature_lambdas_without(m: &IdMap<SignatureLambda>, d: Dependency) -> (r: IdMap<SignatureLambda>)
    ensures
        r == spec_signature_lambdas_without(*m, d),
    decreases m,
{
    match m {
        Items::Nil => Items::Nil,
        Items::Cons(entry, rest) => Items::Cons(
            Rc::new(
                (entry.0, SignatureLambda { signature: entry.1.signature.copy(), dependencies: without(&entry.1.dependencies, d) }),
            ),
            Rc::new(signature_lambdas_without(&**rest, d)),
        ),
    }
}

pub open spec fn spec_function_lambdas_without(m: IdMap<FunctionLambda>, d: Dependency) -> IdMap<FunctionLambda>
    decreases m,
{
    match m {
        Items::Nil => Items::Nil,
        Items::Cons(entry, rest) => Items::Cons(
            Rc::new((entry.0, FunctionLambda { function: entry.1.function, dependencies: spec_without(entry.1.dependencies, d) })),
            Rc::new(spec_function_lambdas_without(*rest, d)),
        ),
    }
}

pub fn function_lambdas_without(m: &IdMap<FunctionLambda>, d: Dependency) -> (r: IdMap<FunctionLambda>)
    ensures
        r == spec_function_lambdas_without(*m, d),
    decreases m,
{
    match m {
        Items::Nil => Items::Nil,
        Items::Cons(entry, rest) => Items::Cons(
            Rc::new(
                (entry.0, FunctionLambda { function: entry.1.function.copy(), dependencies: without(&entry.1.dependencies, d) }),
            ),
            Rc::new(function_lambdas_without(&**rest, d)),
        ),
    }
}

/// The signature named `foreign` that a known function gives, where it
/// depends on nothing; it then depends on what the function depends on.
pub open spec fn spec_signature_from_function(
    source: &Source,
    statement: Span,
    foreign: ForeignSignature,
    function: Function,
    lambda: FunctionLambda,
) -> CheckResult<SignatureLambda> {
    match lambda.function {
        FunctionValue::Known(value) => match value.resolver.spec_produced_signature_id(
            source,
            span_name(source, spec_span(foreign.signature().symbol)),
        ) {
            None => Err(CheckError::CannotResolveGivenSignature {
                statement,
                source: spec_span(function.symbol),
                source_value: *value,
                foreign: foreign_signature_name(foreign),
            }),
            Some(id) => match map_get(value.given_signatures, id) {
                None => Err(CheckError::Internal { error: InternalError::MissingValue }),
                Some(given) => if !given.dependencies.spec_is_empty() {
                    Err(CheckError::TakenSignatureDependenciesNotProvided {
                        statement,
                        source: spec_span(function.symbol),
                        source_value: *value,
                        foreign: foreign_signature_name(foreign),
                    })
                } else {
                    Ok(SignatureLambda { signature: given.signature, dependencies: lambda.dependencies })
                },
            },
        },
        FunctionValue::Unknown(value) => Err(CheckError::CannotTakeSignatureFromUnknownFunction {
            statement,
            source: spec_span(function.symbol),
            source_value: value,
        }),
    }
}

pub fn signature_from_function(
    source: &Source,
    statement: Span,
    foreign: &ForeignSignature,
    function: &Function,
    lambda: &FunctionLambda,
) -> (r: CheckResult<SignatureLambda>)
    ensures
        r == spec_signature_from_function(source, statement, *foreign, *function, *lambda),
{
    match &lambda.function {
        FunctionValue::Known(value) => {
            let id = match value.resolver.produced_signature_id(source, span_of(&foreign.as_signature().symbol)) {
                Some(id) => id,
                None => return Err(CheckError::CannotResolveGivenSignature {
                    statement,
                    source: span_of(&function.symbol),
                    source_value: (**value).copy(),
                    foreign: foreign_signature(foreign),
                }),
            };
            match get(&value.given_signatures, id) {
                None => Err(CheckError::Internal { error: InternalError::MissingValue }),
                Some(given) => if !given.dependencies.is_empty() {
                    Err(CheckError::TakenSignatureDependenciesNotProvided {
                        statement,
                        source: span_of(&function.symbol),
                        source_value: (**value).copy(),
                        foreign: foreign_signature(foreign),
                    })
                } else {
                    Ok(SignatureLambda { signature: given.signature.copy(), dependencies: lambda.dependencies.copy() })
                },
            }
        },
        FunctionValue::Unknown(value) => Err(CheckError::CannotTakeSignatureFromUnknownFunction {
            statement,
            source: span_of(&function.symbol),
            source_value: value.copy(),
        }),
    }
}

/// The function named `foreign` that a known function gives, where it
/// depends on nothing; it then depends on what the giving function depends on.
pub open spec fn spec_function_from_function(
    source: &Source,
    statement: Span,
    foreign: ForeignFunction,
    function: Function,
    lambda: FunctionLambda,
) -> CheckResult<FunctionLambda> {
    match lambda.function {
        FunctionValue::Known(value) => match value.resolver.spec_produced_function_id(
            source,
            span_name(source, spec_span(foreign.function().symbol)),
        ) {
            None => Err(CheckError::CannotResolveGivenFunction {
                statement,
                source: spec_span(function.symbol),
                source_value: *value,
                foreign: foreign_function_name(foreign),
            }),
            Some(id) => match map_get(value.given_functions, id) {
                None => Err(CheckError::Internal { error: InternalError::MissingValue }),
                Some(given) => if !given.dependencies.spec_is_empty() {
                    Err(CheckError::TakenFunctionDependenciesNotProvided {
                        statement,
                        source: spec_span(function.symbol),
                        source_value: *value,
                        foreign: foreign_function_name(foreign),
                    })
                } else {
                    Ok(FunctionLambda { function: given.function, dependencies: lambda.dependencies })
                },
            },
        },
        FunctionValue::Unknown(value) => Err(CheckError::CannotTakeFunctionFromUnknownFunction {
            statement,
            source: spec_span(function.symbol),
            source_value: value,
        }),
    }
}

pub fn function_from_function(
    source: &Source,
    statement: Span,
    foreign: &ForeignFunction,
    function: &Function,
    lambda: &FunctionLambda,
) -> (r: CheckResult<FunctionLambda>)
    ensures
        r == spec_function_from_function(source, statement, *foreign, *function, *lambda),
{
    match &lambda.function {
        FunctionValue::Known(value) => {
            let id = match value.resolver.produced_function_id(source, span_of(&foreign.as_function().symbol)) {
                Some(id) => id,
                None => return Err(CheckError::CannotResolveGivenFunction {
                    statement,
                    source: span_of(&function.symbol),
                    source_value: (**value).copy(),
                    foreign: foreign_function(foreign),
                }),
            };
            match get(&value.given_functions, id) {
                None => Err(CheckError::Internal { error: InternalError::MissingValue }),
                Some(given) => if !given.dependencies.is_empty() {
                    Err(CheckError::TakenFunctionDependenciesNotProvided {
                        statement,
                        source: span_of(&function.symbol),
                        source_value: (**value).copy(),
                        foreign: foreign_function(foreign),
                    })
                } else {
                    Ok(FunctionLambda { function: given.function.copy(), dependencies: lambda.dependencies.copy() })
                },
            }
        },
        FunctionValue::Unknown(value) => Err(CheckError::CannotTakeFunctionFromUnknownFunction {
            statement,
            source: span_of(&function.symbol),
            source_value: value.copy(),
        }),
    }
}

/// `value` with its taken signature `id` given `given`: the taken signature
/// is forgotten and replaced by `given` in the signatures of the taken and
/// conjured functions, and no conjuration depends on it any more.
pub open spec fn spec_give_signature_to_known_signature(
    source: &Source,
    value: KnownSignatureValue,
    id: u64,
    given: SignatureValue,
) -> CheckResult<KnownSignatureValue> {
    match value.resolver.spec_remove_taken_signature(source, id) {
        Err(e) => Err(e),
        Ok(resolver) => match spec_signature_map_sig(source, value.taken_functions, id, given, FUEL) {
            Err(e) => Err(e),
            Ok(taken_functions) => match spec_function_conjuration_map_sig(
                source,
                spec_function_conjurations_without(value.conjured_functions, Dependency::Signature(id)),
                id,
                given,
                FUEL,
            ) {
                Err(e) => Err(e),
                Ok(conjured_functions) => Ok(KnownSignatureValue {
                    taken_signatures: set_remove(value.taken_signatures, id),
                    resolver,
                    taken_functions,
                    conjured_signatures: spec_signature_conjurations_without(value.conjured_signatures, Dependency::Signature(id)),
                    conjured_functions,
                }),
            },
        },
    }
}

pub fn give_signature_to_known_signature(source: &Source, value: &KnownSignatureValue, id: u64, given: &SignatureValue) -> (r:
    CheckResult<KnownSignatureValue>)
    ensures
        r == spec_give_signature_to_known_signature(source, *value, id, *given),
{
    if !contains_key(&value.resolver.taken_signature_definitions, id) {
        return Err(CheckError::Internal { error: InternalError::MissingName });
    }
    let resolver = value.resolver.remove_taken_signature(source, id);
    let taken_functions = signature_map_sig(source, &value.taken_functions, id, given, FUEL)?;
    let conjured_functions = function_conjuration_map_sig(
        source,
        &function_conjurations_without(&value.conjured_functions, Dependency::Signature(id)),
        id,
        given,
        FUEL,
    )?;
    Ok(KnownSignatureValue {
        taken_signatures: set_without(&value.taken_signatures, id),
        resolver,
        taken_functions,
        conjured_signatures: signature_conjurations_without(&value.conjured_signatures, Dependency::Signature(id)),
        conjured_functions,
    })
}

/// `value` with its taken function `id` given `given`.
pub open spec fn spec_give_function_to_known_signature(
    source: &Source,
    value: KnownSignatureValue,
    id: u64,
    given: FunctionValue,
) -> CheckResult<KnownSignatureValue> {
    match value.resolver.spec_remove_taken_function(source, id) {
        Err(e) => Err(e),
        Ok(resolver) => match spec_signature_map_fn(source, map_remove(value.taken_functions, id), id, given, FUEL) {
            Err(e) => Err(e),
            Ok(taken_functions) => match spec_function_conjuration_map_fn(
                source,
                spec_function_conjurations_without(value.conjured_functions, Dependency::Function(id)),
                id,
                given,
                FUEL,
            ) {
                Err(e) => Err(e),
                Ok(conjured_functions) => Ok(KnownSignatureValue {
                    resolver,
                    taken_functions,
                    conjured_signatures: spec_signature_conjurations_without(value.conjured_signatures, Dependency::Function(id)),
                    conjured_functions,
                    ..value
                }),
            },
        },
    }
}

pub fn give_function_to_known_signature(source: &Source, value: &KnownSignatureValue, id: u64, given: &FunctionValue) -> (r:
    CheckResult<KnownSignatureValue>)
    ensures
        r == spec_give_function_to_known_signature(source, *value, id, *given),
{
    if !contains_key(&value.resolver.taken_function_definitions, id) {
        return Err(CheckError::Internal { error: InternalError::MissingName });
    }
    let resolver = value.resolver.remove_taken_function(source, id);
    let taken_functions = signature_map_fn(source, &remove(&value.taken_functions, id), id, given, FUEL)?;
    let conjured_functions = function_conjuration_map_fn(
        source,
        &function_conjurations_without(&value.conjured_functions, Dependency::Function(id)),
        id,
        given,
        FUEL,
    )?;
    Ok(KnownSignatureValue {
        taken_signatures: value.taken_signatures.copy(),
        resolver,
        taken_functions,
        conjured_signatures: signature_conjurations_without(&value.conjured_signatures, Dependency::Function(id)),
        conjured_functions,
    })
}

/// `value` with its taken signature `id` given `given`: it is replaced by
/// `given` in the taken functions' signatures and in what is given, and
/// nothing given depends on it any more.
pub open spec fn spec_give_signature_to_known_function(
    source: &Source,
    value: KnownFunctionValue,
    id: u64,
    given: SignatureValue,
) -> CheckResult<KnownFunctionValue> {
    match value.resolver.spec_remove_taken_signature(source, id) {
        Err(e) => Err(e),
        Ok(resolver) => match spec_signature_map_sig(source, value.taken_functions, id, given, FUEL) {
            Err(e) => Err(e),
            Ok(taken_functions) => match spec_signature_lambda_map_sig(
                source,
                spec_signature_lambdas_without(value.given_signatures, Dependency::Signature(id)),
                id,
                given,
                FUEL,
            ) {
                Err(e) => Err(e),
                Ok(given_signatures) => match spec_function_lambda_map_sig(
                    source,
                    spec_function_lambdas_without(value.given_functions, Dependency::Signature(id)),
                    id,
                    given,
                    FUEL,
                ) {
                    Err(e) => Err(e),
                    Ok(given_functions) => Ok(KnownFunctionValue {
                        taken_signatures: set_remove(value.taken_signatures, id),
                        resolver,
                        taken_functions,
                        given_signatures,
                        given_functions,
                    }),
                },
            },
        },
    }
}

pub fn give_signature_to_known_function(source: &Source, value: &KnownFunctionValue, id: u64, given: &SignatureValue) -> (r:
    CheckResult<KnownFunctionValue>)
    ensures
        r == spec_give_signature_to_known_function(source, *value, id, *given),
{
    if !contains_key(&value.resolver.taken_signature_definitions, id) {
        return Err(CheckError::Internal { error: InternalError::MissingName });
    }
    let resolver = value.resolver.remove_taken_signature(source, id);
    let taken_functions = signature_map_sig(source, &value.taken_functions, id, given, FUEL)?;
    let given_signatures = signature_lambda_map_sig(
        source,
        &signature_lambdas_without(&value.given_signatures, Dependency::Signature(id)),
        id,
        given,
        FUEL,
    )?;
    let given_functions = function_lambda_map_sig(
        source,
        &function_lambdas_without(&value.given_functions, Dependency::Signature(id)),
        id,
        given,
        FUEL,
    )?;
    Ok(KnownFunctionValue {
        taken_signatures: set_without(&value.taken_signatures, id),
        resolver,
        taken_functions,
        given_signatures,
        given_functions,
    })
}

/// `value` with its taken function `id` given `given`.
pub open spec fn spec_give_function_to_known_function(
    source: &Source,
    value: KnownFunctionValue,
    id: u64,
    given: FunctionValue,
) -> CheckResult<KnownFunctionValue> {
    match value.resolver.spec_remove_taken_function(source, id) {
        Err(e) => Err(e),
        Ok(resolver) => match spec_signature_map_fn(source, map_remove(value.taken_functions, id), id, given, FUEL) {
            Err(e) => Err(e),
            Ok(taken_functions) => match spec_signature_lambda_map_fn(
                source,
                spec_signature_lambdas_without(value.given_signatures, Dependency::Function(id)),
                id,
                given,
                FUEL,
            ) {
                Err(e) => Err(e),
                Ok(given_signatures) => match spec_function_lambda_map_fn(
                    source,
                    spec_function_lambdas_without(value.given_functions, Dependency::Function(id)),
                    id,
                    given,
                    FUEL,
                ) {
                    Err(e) => Err(e),
                    Ok(given_functions) => Ok(KnownFunctionValue {
                        resolver,
                        taken_functions,
                        given_signatures,
                        given_functions,
                        ..value
                    }),
                },
            },
        },
    }
}

pub fn give_function_to_known_function(source: &Source, value: &KnownFunctionValue, id: u64, given: &FunctionValue) -> (r:
    CheckResult<KnownFunctionValue>)
    ensures
        r == spec_give_function_to_known_function(source, *value, id, *given),
{
    if !contains_key(&value.resolver.taken_function_definitions, id) {
        return Err(CheckError::Internal { error: InternalError::MissingName });
    }
    let resolver = value.resolver.remove_taken_function(source, id);
    let taken_functions = signature_map_fn(source, &remove(&value.taken_functions, id), id, given, FUEL)?;
    let given_signatures = signature_lambda_map_fn(
        source,
        &signature_lambdas_without(&value.given_signatures, Dependency::Function(id)),
        id,
        given,
        FUEL,
    )?;
    let given_functions = function_lambda_map_fn(
        source,
        &function_lambdas_without(&value.given_functions, Dependency::Function(id)),
        id,
        given,
        FUEL,
    )?;
    Ok(KnownFunctionValue {
        taken_signatures: value.taken_signatures.copy(),
        resolver,
        taken_functions,
        given_signatures,
        given_functions,
    })
}

/// The lambda of `given` given, as `foreign`, to the signature of `target`;
/// it depends on what both depend on.
pub open spec fn spec_give_signature_to_signature(
    source: &Source,
    statement: Span,
    g: GiveSignatureToSignature,
    given: SignatureLambda,
    target: SignatureLambda,
) -> CheckResult<SignatureLambda> {
    match target.signature {
        SignatureValue::Known(value) => match value.resolver.spec_taken_signature_id(
            source,
            span_name(source, spec_span(g.foreign.signature().symbol)),
        ) {
            None => Err(CheckError::CannotResolveTakenSignatureOfSignature {
                statement,
                source: sig_name(g.source),
                source_value: *value,
                foreign: foreign_signature_name(g.foreign),
            }),
            Some(id) => match spec_give_signature_to_known_signature(source, *value, id, given.signature) {
                Err(e) => Err(e),
                Ok(new_value) => match given.dependencies.spec_add(target.dependencies) {
                    Err(e) => Err(e),
                    Ok(dependencies) => Ok(SignatureLambda { signature: SignatureValue::Known(Rc::new(new_value)), dependencies }),
                },
            },
        },
        SignatureValue::Unknown(value) => Err(CheckError::CannotGiveSignatureToUnknownSignature {
            statement,
            source: sig_name(g.source),
            source_value: value,
        }),
    }
}

pub fn give_signature_to_signature(
    source: &Source,
    statement: Span,
    g: &GiveSignatureToSignature,
    given: &SignatureLambda,
    target: &SignatureLambda,
) -> (r: CheckResult<SignatureLambda>)
    ensures
        r == spec_give_signature_to_signature(source, statement, *g, *given, *target),
{
    match &target.signature {
        SignatureValue::Known(value) => {
            let id = match value.resolver.taken_signature_id(source, span_of(&g.foreign.as_signature().symbol)) {
                Some(id) => id,
                None => return Err(CheckError::CannotResolveTakenSignatureOfSignature {
                    statement,
                    source: signature_name(&g.source),
                    source_value: (**value).copy(),
                    foreign: foreign_signature(&g.foreign),
                }),
            };
            let new_value = give_signature_to_known_signature(source, &**value, id, &given.signature)?;
            let dependencies = given.dependencies.checked_add(&target.dependencies)?;
            Ok(SignatureLambda { signature: SignatureValue::Known(Rc::new(new_value)), dependencies })
        },
        SignatureValue::Unknown(value) => Err(CheckError::CannotGiveSignatureToUnknownSignature {
            statement,
            source: signature_name(&g.source),
            source_value: value.copy(),
        }),
    }
}

/// The lambda of `given` given, as `foreign`, to the signature of `target`,
/// where its signature can stand for the one that the target takes.
pub open spec fn spec_give_function_to_signature(
    source: &Source,
    statement: Span,
    g: GiveFunctionToSignature,
    given: FunctionLambda,
    target: SignatureLambda,
) -> CheckResult<SignatureLambda> {
    match target.signature {
        SignatureValue::Known(value) => match value.resolver.spec_taken_function_id(
            source,
            span_name(source, spec_span(g.foreign.function().symbol)),
        ) {
            None => Err(CheckError::CannotResolveTakenFunctionOfSignature {
                statement,
                source: sig_name(g.source),
                source_value: *value,
                foreign: foreign_function_name(g.foreign),
            }),
            Some(id) => match map_get(value.taken_functions, id) {
                None => Err(CheckError::Internal { error: InternalError::MissingValue }),
                Some(expected) => match spec_describes(source, expected, given.function) {
                    Err(e) => Err(e),
                    Ok(false) => Err(CheckError::FunctionGivenToSignatureDoesNotHaveExpectedSignature {
                        statement,
                        function: spec_span(g.function.symbol),
                        function_value: given.function,
                        foreign: foreign_function_name(g.foreign),
                        source: sig_name(g.source),
                        source_value: *value,
                        expected_signature_value: expected,
                    }),
                    Ok(true) => match spec_give_function_to_known_signature(source, *value, id, given.function) {
                        Err(e) => Err(e),
                        Ok(new_value) => match given.dependencies.spec_add(target.dependencies) {
                            Err(e) => Err(e),
                            Ok(dependencies) => Ok(
                                SignatureLambda { signature: SignatureValue::Known(Rc::new(new_value)), dependencies },
                            ),
                        },
                    },
                },
            },
        },
        SignatureValue::Unknown(value) => Err(CheckError::CannotGiveFunctionToUnknownSignature {
            statement,
            source: sig_name(g.source),
            source_value: value,
        }),
    }
}

pub fn give_function_to_signature(
    source: &Source,
    statement: Span,
    g: &GiveFunctionToSignature,
    given: &FunctionLambda,
    target: &SignatureLambda,
) -> (r: CheckResult<SignatureLambda>)
    ensures
        r == spec_give_function_to_signature(source, statement, *g, *given, *target),
{
    match &target.signature {
        SignatureValue::Known(value) => {
            let id = match value.resolver.taken_function_id(source, span_of(&g.foreign.as_function().symbol)) {
                Some(id) => id,
                None => return Err(CheckError::CannotResolveTakenFunctionOfSignature {
                    statement,
                    source: signature_name(&g.source),
                    source_value: (**value).copy(),
                    foreign: foreign_function(&g.foreign),
                }),
            };
            let expected = match get(&value.taken_functions, id) {
                Some(expected) => expected,
                None => return Err(CheckError::Internal { error: InternalError::MissingValue }),
            };
            if !expected.describes(source, &given.function)? {
                return Err(CheckError::FunctionGivenToSignatureDoesNotHaveExpectedSignature {
                    statement,
                    function: span_of(&g.function.symbol),
                    function_value: given.function.copy(),
                    foreign: foreign_function(&g.foreign),
                    source: signature_name(&g.source),
                    source_value: (**value).copy(),
                    expected_signature_value: expected.copy(),
                });
            }
            let new_value = give_function_to_known_signature(source, &**value, id, &given.function)?;
            let dependencies = given.dependencies.checked_add(&target.dependencies)?;
            Ok(SignatureLambda { signature: SignatureValue::Known(Rc::new(new_value)), dependencies })
        },
        SignatureValue::Unknown(value) => Err(CheckError::CannotGiveFunctionToUnknownSignature {
            statement,
            source: signature_name(&g.source),
            source_value: value.copy(),
        }),
    }
}

/// The lambda of `given` given, as `foreign`, to the function of `target`.
pub open spec fn spec_give_signature_to_function(
    source: &Source,
    statement: Span,
    g: GiveSignatureToFunction,
    given: SignatureLambda,
    target: FunctionLambda,
) -> CheckResult<FunctionLambda> {
    match target.function {
        FunctionValue::Known(value) => match value.resolver.spec_taken_signature_id(
            source,
            span_name(source, spec_span(g.foreign.signature().symbol)),
        ) {
            None => Err(CheckError::CannotResolveTakenSignatureOfFunction {
                statement,
                source: spec_span(g.source.symbol),
                source_value: *value,
                foreign: foreign_signature_name(g.foreign),
            }),
            Some(id) => match spec_give_signature_to_known_function(source, *value, id, given.signature) {
                Err(e) => Err(e),
                Ok(new_value) => match given.dependencies.spec_add(target.dependencies) {
                    Err(e) => Err(e),
                    Ok(dependencies) => Ok(FunctionLambda { function: FunctionValue::Known(Rc::new(new_value)), dependencies }),
                },
            },
        },
        FunctionValue::Unknown(value) => Err(CheckError::CannotGiveSignatureToUnknownFunction {
            statement,
            source: spec_span(g.source.symbol),
            source_value: value,
        }),
    }
}

pub fn give_signature_to_function(
    source: &Source,
    statement: Span,
    g: &GiveSignatureToFunction,
    given: &SignatureLambda,
    target: &FunctionLambda,
) -> (r: CheckResult<FunctionLambda>)
    ensures
        r == spec_give_signature_to_function(source, statement, *g, *given, *target),
{
    match &target.function {
        FunctionValue::Known(value) => {
            let id = match value.resolver.taken_signature_id(source, span_of(&g.foreign.as_signature().symbol)) {
                Some(id) => id,
                None => return Err(CheckError::CannotResolveTakenSignatureOfFunction {
                    statement,
                    source: span_of(&g.source.symbol),
                    source_value: (**value).copy(),
                    foreign: foreign_signature(&g.foreign),
                }),
            };
            let new_value = give_signature_to_known_function(source, &**value, id, &given.signature)?;
            let dependencies = given.dependencies.checked_add(&target.dependencies)?;
            Ok(FunctionLambda { function: FunctionValue::Known(Rc::new(new_value)), dependencies })
        },
        FunctionValue::Unknown(value) => Err(CheckError::CannotGiveSignatureToUnknownFunction {
            statement,
            source: span_of(&g.source.symbol),
            source_value: value.copy(),
        }),
    }
}

/// The lambda of `given` given, as `foreign`, to the function of `target`,
/// where its signature can stand for the one that the target takes.
pub open spec fn spec_give_function_to_function(
    source: &Source,
    statement: Span,
    g: GiveFunctionToFunction,
    given: FunctionLambda,
    target: FunctionLambda,
) -> CheckResult<FunctionLambda> {
    match target.function {
        FunctionValue::Known(value) => match value.resolver.spec_taken_function_id(
            source,
            span_name(source, spec_span(g.foreign.function().symbol)),
        ) {
            None => Err(CheckError::CannotResolveTakenFunctionOfFunction {
                statement,
                source: spec_span(g.source.symbol),
                source_value: *value,
                foreign: foreign_function_name(g.foreign),
            }),
            Some(id) => match map_get(value.taken_functions, id) {
                None => Err(CheckError::Internal { error: InternalError::MissingValue }),
                Some(expected) => match spec_describes(source, expected, given.function) {
                    Err(e) => Err(e),
                    Ok(false) => Err(CheckError::FunctionGivenToFunctionDoesNotHaveExpectedSignature {
                        statement,
                        function: spec_span(g.function.symbol),
                        function_value: given.function,
                        foreign: foreign_function_name(g.foreign),
                        source: spec_span(g.source.symbol),
                        source_value: *value,
                        expected_signature_value: expected,
                    }),
                    Ok(true) => match spec_give_function_to_known_function(source, *value, id, given.function) {
                        Err(e) => Err(e),
                        Ok(new_value) => match given.dependencies.spec_add(target.dependencies) {
                            Err(e) => Err(e),
                            Ok(dependencies) => Ok(
                                FunctionLambda { function: FunctionValue::Known(Rc::new(new_value)), dependencies },
                            ),
                        },
                    },
                },
            },
        },
        FunctionValue::Unknown(value) => Err(CheckError::CannotGiveFunctionToUnknownFunction {
            statement,
            source: spec_span(g.source.symbol),
            source_value: value,
        }),
    }
}

pub fn give_function_to_function(
    source: &Source,
    statement: Span,
    g: &GiveFunctionToFunction,
    given: &FunctionLambda,
    target: &FunctionLambda,
) -> (r: CheckResult<FunctionLambda>)
    ensures
        r == spec_give_function_to_function(source, statement, *g, *given, *target),
{
    match &target.function {
        FunctionValue::Known(value) => {
            let id = match value.resolver.taken_function_id(source, span_of(&g.foreign.as_function().symbol)) {
                Some(id) => id,
                None => return Err(CheckError::CannotResolveTakenFunctionOfFunction {
                    statement,
                    source: span_of(&g.source.symbol),
                    source_value: (**value).copy(),
                    foreign: foreign_function(&g.foreign),
                }),
            };
            let expected = match get(&value.taken_functions, id) {
                Some(expected) => expected,
                None => return Err(CheckError::Internal { error: InternalError::MissingValue }),
            };
            if !expected.describes(source, &given.function)? {
                return Err(CheckError::FunctionGivenToFunctionDoesNotHaveExpectedSignature {
                    statement,
                    function: span_of(&g.function.symbol),
                    function_value: given.function.copy(),
                    foreign: foreign_function(&g.foreign),
                    source: span_of(&g.source.symbol),
                    source_value: (**value).copy(),
                    expected_signature_value: expected.copy(),
                });
            }
            let new_value = give_function_to_known_function(source, &**value, id, &given.function)?;
            let dependencies = given.dependencies.checked_add(&target.dependencies)?;
            Ok(FunctionLambda { function: FunctionValue::Known(Rc::new(new_value)), dependencies })
        },
        FunctionValue::Unknown(value) => Err(CheckError::CannotGiveFunctionToUnknownFunction {
            statement,
            source: span_of(&g.source.symbol),
            source_value: value.copy(),
        }),
    }
}

/// For each conjuration of a signature that a taken function has, the lambda
/// of the signature that the function gives.
pub open spec fn spec_conjured_signature_lambdas(
    function: UnknownFunctionValue,
    signature: KnownSignatureValue,
    conjured: IdMap<SignatureConjuration>,
) -> IdMap<SignatureLambda>
    decreases conjured,
{
    match conjured {
        Items::Nil => Items::Nil,
        Items::Cons(entry, rest) => Items::Cons(
            Rc::new(
                (
                    entry.0,
                    SignatureLambda {
                        signature: SignatureValue::Unknown(
                            UnknownSignatureValue::Conjured(
                                Rc::new(
                                    ConjuredSignatureValue {
                                        unknown_function: function,
                                        unknown_function_signature: signature,
                                        conjured_signature: SignatureId(entry.0),
                                        conjure_dependency_values: entry.1.dependencies.spec_as_values(),
                                    },
                                ),
                            ),
                        ),
                        dependencies: entry.1.dependencies,
                    },
                ),
            ),
            Rc::new(spec_conjured_signature_lambdas(function, signature, *rest)),
        ),
    }
}

pub fn conjured_signature_lambdas(
    function: &UnknownFunctionValue,
    signature: &KnownSignatureValue,
    conjured: &IdMap<SignatureConjuration>,
) -> (r: IdMap<SignatureLambda>)
    ensures
        r == spec_conjured_signature_lambdas(*function, *signature, *conjured),
    decreases conjured,
{
    match conjured {
        Items::Nil => Items::Nil,
        Items::Cons(entry, rest) => {
            let value = ConjuredSignatureValue {
                unknown_function: function.copy(),
                unknown_function_signature: signature.copy(),
                conjured_signature: SignatureId(entry.0),
                conjure_dependency_values: entry.1.dependencies.as_values(),
            };
            let lambda = SignatureLambda {
                signature: SignatureValue::Unknown(UnknownSignatureValue::Conjured(Rc::new(value))),
                dependencies: entry.1.dependencies.copy(),
            };
            Items::Cons(Rc::new((entry.0, lambda)), Rc::new(conjured_signature_lambdas(function, signature, &**rest)))
        },
    }
}

/// For each conjuration of a function that a taken function has, the lambda
/// of the function that it gives.
pub open spec fn spec_conjured_function_lambdas(
    function: UnknownFunctionValue,
    signature: KnownSignatureValue,
    conjured: IdMap<FunctionConjuration>,
) -> IdMap<FunctionLambda>
    decreases conjured,
{
    match conjured {
        Items::Nil => Items::Nil,
        Items::Cons(entry, rest) => Items::Cons(
            Rc::new(
                (
                    entry.0,
                    FunctionLambda {
                        function: FunctionValue::Unknown(
                            UnknownFunctionValue::Conjured(
                                Rc::new(
                                    ConjuredFunctionValue {
                                        unknown_function: function,
                                        unknown_function_signature: signature,
                                        conjured_function: FunctionId(entry.0),
                                        conjured_function_signature: entry.1.signature,
                                        conjure_dependency_values: entry.1.dependencies.spec_as_values(),
                                    },
                                ),
                            ),
                        ),
                        dependencies: entry.1.dependencies,
                    },
                ),
            ),
            Rc::new(spec_conjured_function_lambdas(function, signature, *rest)),
        ),
    }
}

pub fn conjured_function_lambdas(
    function: &UnknownFunctionValue,
    signature: &KnownSignatureValue,
    conjured: &IdMap<FunctionConjuration>,
) -> (r: IdMap<FunctionLambda>)
    ensures
        r == spec_conjured_function_lambdas(*function, *signature, *conjured),
    decreases conjured,
{
    match conjured {
        Items::Nil => Items::Nil,
        Items::Cons(entry, rest) => {
            let value = ConjuredFunctionValue {
                unknown_function: function.copy(),
                unknown_function_signature: signature.copy(),
                conjured_function: FunctionId(entry.0),
                conjured_function_signature: entry.1.signature.copy(),
                conjure_dependency_values: entry.1.dependencies.as_values(),
            };
            let lambda = FunctionLambda {
                function: FunctionValue::Unknown(UnknownFunctionValue::Conjured(Rc::new(value))),
                dependencies: entry.1.dependencies.copy(),
            };
            Items::Cons(Rc::new((entry.0, lambda)), Rc::new(conjured_function_lambdas(function, signature, &**rest)))
        },
    }
}

/// The value of a function taken as `id` of signature `signature`. Of a
/// known signature it is a known function, which gives what the signature
/// conjures, and takes what it takes; else it is unknown.
pub open spec fn spec_taken_function_value(id: u64, signature: SignatureValue) -> FunctionValue {
    let function = UnknownFunctionValue::Taken(FunctionId(id), Rc::new(signature));
    match signature {
        SignatureValue::Known(known) => FunctionValue::Known(
            Rc::new(
                KnownFunctionValue {
                    given_signatures: spec_conjured_signature_lambdas(function, *known, known.conjured_signatures),
                    given_functions: spec_conjured_function_lambdas(function, *known, known.conjured_functions),
                    taken_signatures: known.taken_signatures,
                    taken_functions: known.taken_functions,
                    resolver: known.resolver,
                },
            ),
        ),
        SignatureValue::Unknown(_) => FunctionValue::Unknown(function),
    }
}

pub fn taken_function_value(id: u64, signature: &SignatureValue) -> (r: FunctionValue)
    ensures
        r == spec_taken_function_value(id, *signature),
{
    let function = UnknownFunctionValue::Taken(FunctionId(id), Rc::new(signature.copy()));
    match signature {
        SignatureValue::Known(known) => FunctionValue::Known(
            Rc::new(
                KnownFunctionValue {
                    given_signatures: conjured_signature_lambdas(&function, &**known, &known.conjured_signatures),
                    given_functions: conjured_function_lambdas(&function, &**known, &known.conjured_functions),
                    taken_signatures: known.taken_signatures.copy(),
                    taken_functions: known.taken_functions.copy(),
                    resolver: known.resolver.copy(),
                },
            ),
        ),
        SignatureValue::Unknown(_) => FunctionValue::Unknown(function),
    }
}

/// Law: a signature taken from a known function is the one the function
/// gives under that name, where it depends on nothing; it then depends on
/// what the function depends on.
pub proof fn lemma_take_signature_gives_back_what_was_given(
    source: &Source,
    statement: Span,
    foreign: ForeignSignature,
    function: Function,
    lambda: FunctionLambda,
    value: KnownFunctionValue,
    id: u64,
    given: SignatureLambda,
)
    requires
        lambda.function == FunctionValue::Known(Rc::new(value)),
        value.resolver.spec_produced_signature_id(source, span_name(source, spec_span(foreign.signature().symbol))) == Some(id),
        map_get(value.given_signatures, id) == Some(given),
        given.dependencies.spec_is_empty(),
    ensures
        spec_signature_from_function(source, statement, foreign, function, lambda) == Ok::<SignatureLambda, CheckError>(
            SignatureLambda { signature: given.signature, dependencies: lambda.dependencies },
        ),
{
}

/// Law: a function taken from a known function is the one the function
/// gives under that name, where it depends on nothing.
pub proof fn lemma_take_function_gives_back_what_was_given(
    source: &Source,
    statement: Span,
    foreign: ForeignFunction,
    function: Function,
    lambda: FunctionLambda,
    value: KnownFunctionValue,
    id: u64,
    given: FunctionLambda,
)
    requires
        lambda.function == FunctionValue::Known(Rc::new(value)),
        value.resolver.spec_produced_function_id(source, span_name(source, spec_span(foreign.function().symbol))) == Some(id),
        map_get(value.given_functions, id) == Some(given),
        given.dependencies.spec_is_empty(),
    ensures
        spec_function_from_function(source, statement, foreign, function, lambda) == Ok::<FunctionLambda, CheckError>(
            FunctionLambda { function: given.function, dependencies: lambda.dependencies },
        ),
{
}

} // verus!
