//! Substitution: replacing a taken signature or function by a value
//! throughout a value. Where an unknown function becomes known, what it
//! gives is looked up and applied to the values of its dependencies.
//! Every step spends one unit of `fuel`; when none is left, substitution
//! stops with `InternalError::TooDeep`.
use vstd::prelude::*;
use std::rc::Rc;
use crate::check::error::{CheckError, CheckResult, InternalError};
use crate::check::items::{
    get, map_get, map_remove, remove, set_contains, set_has, set_remove, set_without, IdMap, Items,
};
use crate::check::names::span_name;
use crate::check::value::{
    ConjuredFunctionValue, ConjuredSignatureValue, FunctionConjuration, FunctionLambda, FunctionValue,
    KnownFunctionValue, KnownSignatureValue, LambdaDependencies, LambdaDependencyValues, SignatureLambda,
    SignatureValue, UnknownFunctionValue, UnknownSignatureValue,
};
use crate::source::Source;

verus! {

pub open spec fn too_deep<T>() -> CheckResult<T> {
    Err(CheckError::Internal { error: InternalError::TooDeep })
}

pub open spec fn mismatch<T>() -> CheckResult<T> {
    Err(CheckError::Internal { error: InternalError::DependencyMismatch })
}

pub open spec fn spec_signature_map_sig(source: &Source, m: IdMap<SignatureValue>, id: u64, value: SignatureValue, fuel: u64) -> CheckResult<IdMap<SignatureValue>>
    decreases fuel,
{
    if fuel == 0 {
        too_deep()
    } else {
        match m {
            Items::Nil => Ok(Items::Nil),
            Items::Cons(entry, rest) => match spec_signature_sig(source, entry.1, id, value, (fuel - 1) as u64) {
                Err(e) => Err(e),
                Ok(new) => match spec_signature_map_sig(source, *rest, id, value, (fuel - 1) as u64) {
                    Err(e) => Err(e),
                    Ok(rest) => Ok(Items::Cons(Rc::new((entry.0, new)), Rc::new(rest))),
                },
            },
        }
    }
}

pub fn signature_map_sig(source: &Source, m: &IdMap<SignatureValue>, id: u64, value: &SignatureValue, fuel: u64) -> (r: CheckResult<IdMap<SignatureValue>>)
    ensures
        r == spec_signature_map_sig(source, *m, id, *value, fuel),
    decreases fuel,
{
    if fuel == 0 {
        return Err(CheckError::Internal { error: InternalError::TooDeep });
    }
    match m {
        Items::Nil => Ok(Items::Nil),
        Items::Cons(entry, rest) => {
            let new = signature_sig(source, &entry.1, id, value, fuel - 1)?;
            let rest = signature_map_sig(source, &**rest, id, value, fuel - 1)?;
            Ok(Items::Cons(Rc::new((entry.0, new)), Rc::new(rest)))
        },
    }
}

pub open spec fn spec_function_map_sig(source: &Source, m: IdMap<FunctionValue>, id: u64, value: SignatureValue, fuel: u64) -> CheckResult<IdMap<FunctionValue>>
    decreases fuel,
{
    if fuel == 0 {
        too_deep()
    } else {
        match m {
            Items::Nil => Ok(Items::Nil),
            Items::Cons(entry, rest) => match spec_function_sig(source, entry.1, id, value, (fuel - 1) as u64) {
                Err(e) => Err(e),
                Ok(new) => match spec_function_map_sig(source, *rest, id, value, (fuel - 1) as u64) {
                    Err(e) => Err(e),
                    Ok(rest) => Ok(Items::Cons(Rc::new((entry.0, new)), Rc::new(rest))),
                },
            },
        }
    }
}

fn function_map_sig(source: &Source, m: &IdMap<FunctionValue>, id: u64, value: &SignatureValue, fuel: u64) -> (r: CheckResult<IdMap<FunctionValue>>)
    ensures
        r == spec_function_map_sig(source, *m, id, *value, fuel),
    decreases fuel,
{
    if fuel == 0 {
        return Err(CheckError::Internal { error: InternalError::TooDeep });
    }
    match m {
        Items::Nil => Ok(Items::Nil),
        Items::Cons(entry, rest) => {
            let new = function_sig(source, &entry.1, id, value, fuel - 1)?;
            let rest = function_map_sig(source, &**rest, id, value, fuel - 1)?;
            Ok(Items::Cons(Rc::new((entry.0, new)), Rc::new(rest)))
        },
    }
}

pub open spec fn spec_function_conjuration_map_sig(source: &Source, m: IdMap<FunctionConjuration>, id: u64, value: SignatureValue, fuel: u64) -> CheckResult<IdMap<FunctionConjuration>>
    decreases fuel,
{
    if fuel == 0 {
        too_deep()
    } else {
        match m {
            Items::Nil => Ok(Items::Nil),
            Items::Cons(entry, rest) => match spec_signature_sig(source, entry.1.signature, id, value, (fuel - 1) as u64) {
                Err(e) => Err(e),
                Ok(new) => match spec_function_conjuration_map_sig(source, *rest, id, value, (fuel - 1) as u64) {
                    Err(e) => Err(e),
                    Ok(rest) => Ok(Items::Cons(Rc::new((entry.0, FunctionConjuration { signature: new, dependencies: entry.1.dependencies })), Rc::new(rest))),
                },
            },
        }
    }
}

pub fn function_conjuration_map_sig(source: &Source, m: &IdMap<FunctionConjuration>, id: u64, value: &SignatureValue, fuel: u64) -> (r: CheckResult<IdMap<FunctionConjuration>>)
    ensures
        r == spec_function_conjuration_map_sig(source, *m, id, *value, fuel),
    decreases fuel,
{
    if fuel == 0 {
        return Err(CheckError::Internal { error: InternalError::TooDeep });
    }
    match m {
        Items::Nil => Ok(Items::Nil),
        Items::Cons(entry, rest) => {
            let new = signature_sig(source, &entry.1.signature, id, value, fuel - 1)?;
            let rest = function_conjuration_map_sig(source, &**rest, id, value, fuel - 1)?;
            Ok(Items::Cons(Rc::new((entry.0, FunctionConjuration { signature: new, dependencies: entry.1.dependencies.copy() })), Rc::new(rest)))
        },
    }
}

pub open spec fn spec_signature_lambda_map_sig(source: &Source, m: IdMap<SignatureLambda>, id: u64, value: SignatureValue, fuel: u64) -> CheckResult<IdMap<SignatureLambda>>
    decreases fuel,
{
    if fuel == 0 {
        too_deep()
    } else {
        match m {
            Items::Nil => Ok(Items::Nil),
            Items::Cons(entry, rest) => match spec_signature_sig(source, entry.1.signature, id, value, (fuel - 1) as u64) {
                Err(e) => Err(e),
                Ok(new) => match spec_signature_lambda_map_sig(source, *rest, id, value, (fuel - 1) as u64) {
                    Err(e) => Err(e),
                    Ok(rest) => Ok(Items::Cons(Rc::new((entry.0, SignatureLambda { signature: new, dependencies: entry.1.dependencies })), Rc::new(rest))),
                },
            },
        }
    }
}

pub fn signature_lambda_map_sig(source: &Source, m: &IdMap<SignatureLambda>, id: u64, value: &SignatureValue, fuel: u64) -> (r: CheckResult<IdMap<SignatureLambda>>)
    ensures
        r == spec_signature_lambda_map_sig(source, *m, id, *value, fuel),
    decreases fuel,
{
    if fuel == 0 {
        return Err(CheckError::Internal { error: InternalError::TooDeep });
    }
    match m {
        Items::Nil => Ok(Items::Nil),
        Items::Cons(entry, rest) => {
            let new = signature_sig(source, &entry.1.signature, id, value, fuel - 1)?;
            let rest = signature_lambda_map_sig(source, &**rest, id, value, fuel - 1)?;
            Ok(Items::Cons(Rc::new((entry.0, SignatureLambda { signature: new, dependencies: entry.1.dependencies.copy() })), Rc::new(rest)))
        },
    }
}

pub open spec fn spec_function_lambda_map_sig(source: &Source, m: IdMap<FunctionLambda>, id: u64, value: SignatureValue, fuel: u64) -> CheckResult<IdMap<FunctionLambda>>
    decreases fuel,
{
    if fuel == 0 {
        too_deep()
    } else {
        match m {
            Items::Nil => Ok(Items::Nil),
            Items::Cons(entry, rest) => match spec_function_sig(source, entry.1.function, id, value, (fuel - 1) as u64) {
                Err(e) => Err(e),
                Ok(new) => match spec_function_lambda_map_sig(source, *rest, id, value, (fuel - 1) as u64) {
                    Err(e) => Err(e),
                    Ok(rest) => Ok(Items::Cons(Rc::new((entry.0, FunctionLambda { function: new, dependencies: entry.1.dependencies })), Rc::new(rest))),
                },
            },
        }
    }
}

pub fn function_lambda_map_sig(source: &Source, m: &IdMap<FunctionLambda>, id: u64, value: &SignatureValue, fuel: u64) -> (r: CheckResult<IdMap<FunctionLambda>>)
    ensures
        r == spec_function_lambda_map_sig(source, *m, id, *value, fuel),
    decreases fuel,
{
    if fuel == 0 {
        return Err(CheckError::Internal { error: InternalError::TooDeep });
    }
    match m {
        Items::Nil => Ok(Items::Nil),
        Items::Cons(entry, rest) => {
            let new = function_sig(source, &entry.1.function, id, value, fuel - 1)?;
            let rest = function_lambda_map_sig(source, &**rest, id, value, fuel - 1)?;
            Ok(Items::Cons(Rc::new((entry.0, FunctionLambda { function: new, dependencies: entry.1.dependencies.copy() })), Rc::new(rest)))
        },
    }
}

pub open spec fn spec_signature_map_fn(source: &Source, m: IdMap<SignatureValue>, id: u64, value: FunctionValue, fuel: u64) -> CheckResult<IdMap<SignatureValue>>
    decreases fuel,
{
    if fuel == 0 {
        too_deep()
    } else {
        match m {
            Items::Nil => Ok(Items::Nil),
            Items::Cons(entry, rest) => match spec_signature_fn(source, entry.1, id, value, (fuel - 1) as u64) {
                Err(e) => Err(e),
                Ok(new) => match spec_signature_map_fn(source, *rest, id, value, (fuel - 1) as u64) {
                    Err(e) => Err(e),
                    Ok(rest) => Ok(Items::Cons(Rc::new((entry.0, new)), Rc::new(rest))),
                },
            },
        }
    }
}

pub fn signature_map_fn(source: &Source, m: &IdMap<SignatureValue>, id: u64, value: &FunctionValue, fuel: u64) -> (r: CheckResult<IdMap<SignatureValue>>)
    ensures
        r == spec_signature_map_fn(source, *m, id, *value, fuel),
    decreases fuel,
{
    if fuel == 0 {
        return Err(CheckError::Internal { error: InternalError::TooDeep });
    }
    match m {
        Items::Nil => Ok(Items::Nil),
        Items::Cons(entry, rest) => {
            let new = signature_fn(source, &entry.1, id, value, fuel - 1)?;
            let rest = signature_map_fn(source, &**rest, id, value, fuel - 1)?;
            Ok(Items::Cons(Rc::new((entry.0, new)), Rc::new(rest)))
        },
    }
}

pub open spec fn spec_function_map_fn(source: &Source, m: IdMap<FunctionValue>, id: u64, value: FunctionValue, fuel: u64) -> CheckResult<IdMap<FunctionValue>>
    decreases fuel,
{
    if fuel == 0 {
        too_deep()
    } else {
        match m {
            Items::Nil => Ok(Items::Nil),
            Items::Cons(entry, rest) => match spec_function_fn(source, entry.1, id, value, (fuel - 1) as u64) {
                Err(e) => Err(e),
                Ok(new) => match spec_function_map_fn(source, *rest, id, value, (fuel - 1) as u64) {
                    Err(e) => Err(e),
                    Ok(rest) => Ok(Items::Cons(Rc::new((entry.0, new)), Rc::new(rest))),
                },
            },
        }
    }
}

fn function_map_fn(source: &Source, m: &IdMap<FunctionValue>, id: u64, value: &FunctionValue, fuel: u64) -> (r: CheckResult<IdMap<FunctionValue>>)
    ensures
        r == spec_function_map_fn(source, *m, id, *value, fuel),
    decreases fuel,
{
    if fuel == 0 {
        return Err(CheckError::Internal { error: InternalError::TooDeep });
    }
    match m {
        Items::Nil => Ok(Items::Nil),
        Items::Cons(entry, rest) => {
            let new = function_fn(source, &entry.1, id, value, fuel - 1)?;
            let rest = function_map_fn(source, &**rest, id, value, fuel - 1)?;
            Ok(Items::Cons(Rc::new((entry.0, new)), Rc::new(rest)))
        },
    }
}

pub open spec fn spec_function_conjuration_map_fn(source: &Source, m: IdMap<FunctionConjuration>, id: u64, value: FunctionValue, fuel: u64) -> CheckResult<IdMap<FunctionConjuration>>
    decreases fuel,
{
    if fuel == 0 {
        too_deep()
    } else {
        match m {
            Items::Nil => Ok(Items::Nil),
            Items::Cons(entry, rest) => match spec_signature_fn(source, entry.1.signature, id, value, (fuel - 1) as u64) {
                Err(e) => Err(e),
                Ok(new) => match spec_function_conjuration_map_fn(source, *rest, id, value, (fuel - 1) as u64) {
                    Err(e) => Err(e),
                    Ok(rest) => Ok(Items::Cons(Rc::new((entry.0, FunctionConjuration { signature: new, dependencies: entry.1.dependencies })), Rc::new(rest))),
                },
            },
        }
    }
}

pub fn function_conjuration_map_fn(source: &Source, m: &IdMap<FunctionConjuration>, id: u64, value: &FunctionValue, fuel: u64) -> (r: CheckResult<IdMap<FunctionConjuration>>)
    ensures
        r == spec_function_conjuration_map_fn(source, *m, id, *value, fuel),
    decreases fuel,
{
    if fuel == 0 {
        return Err(CheckError::Internal { error: InternalError::TooDeep });
    }
    match m {
        Items::Nil => Ok(Items::Nil),
        Items::Cons(entry, rest) => {
            let new = signature_fn(source, &entry.1.signature, id, value, fuel - 1)?;
            let rest = function_conjuration_map_fn(source, &**rest, id, value, fuel - 1)?;
            Ok(Items::Cons(Rc::new((entry.0, FunctionConjuration { signature: new, dependencies: entry.1.dependencies.copy() })), Rc::new(rest)))
        },
    }
}

pub open spec fn spec_signature_lambda_map_fn(source: &Source, m: IdMap<SignatureLambda>, id: u64, value: FunctionValue, fuel: u64) -> CheckResult<IdMap<SignatureLambda>>
    decreases fuel,
{
    if fuel == 0 {
        too_deep()
    } else {
        match m {
            Items::Nil => Ok(Items::Nil),
            Items::Cons(entry, rest) => match spec_signature_fn(source, entry.1.signature, id, value, (fuel - 1) as u64) {
                Err(e) => Err(e),
                Ok(new) => match spec_signature_lambda_map_fn(source, *rest, id, value, (fuel - 1) as u64) {
                    Err(e) => Err(e),
                    Ok(rest) => Ok(Items::Cons(Rc::new((entry.0, SignatureLambda { signature: new, dependencies: entry.1.dependencies })), Rc::new(rest))),
                },
            },
        }
    }
}

pub fn signature_lambda_map_fn(source: &Source, m: &IdMap<SignatureLambda>, id: u64, value: &FunctionValue, fuel: u64) -> (r: CheckResult<IdMap<SignatureLambda>>)
    ensures
        r == spec_signature_lambda_map_fn(source, *m, id, *value, fuel),
    decreases fuel,
{
    if fuel == 0 {
        return Err(CheckError::Internal { error: InternalError::TooDeep });
    }
    match m {
        Items::Nil => Ok(Items::Nil),
        Items::Cons(entry, rest) => {
            let new = signature_fn(source, &entry.1.signature, id, value, fuel - 1)?;
            let rest = signature_lambda_map_fn(source, &**rest, id, value, fuel - 1)?;
            Ok(Items::Cons(Rc::new((entry.0, SignatureLambda { signature: new, dependencies: entry.1.dependencies.copy() })), Rc::new(rest)))
        },
    }
}

pub open spec fn spec_function_lambda_map_fn(source: &Source, m: IdMap<FunctionLambda>, id: u64, value: FunctionValue, fuel: u64) -> CheckResult<IdMap<FunctionLambda>>
    decreases fuel,
{
    if fuel == 0 {
        too_deep()
    } else {
        match m {
            Items::Nil => Ok(Items::Nil),
            Items::Cons(entry, rest) => match spec_function_fn(source, entry.1.function, id, value, (fuel - 1) as u64) {
                Err(e) => Err(e),
                Ok(new) => match spec_function_lambda_map_fn(source, *rest, id, value, (fuel - 1) as u64) {
                    Err(e) => Err(e),
                    Ok(rest) => Ok(Items::Cons(Rc::new((entry.0, FunctionLambda { function: new, dependencies: entry.1.dependencies })), Rc::new(rest))),
                },
            },
        }
    }
}

pub fn function_lambda_map_fn(source: &Source, m: &IdMap<FunctionLambda>, id: u64, value: &FunctionValue, fuel: u64) -> (r: CheckResult<IdMap<FunctionLambda>>)
    ensures
        r == spec_function_lambda_map_fn(source, *m, id, *value, fuel),
    decreases fuel,
{
    if fuel == 0 {
        return Err(CheckError::Internal { error: InternalError::TooDeep });
    }
    match m {
        Items::Nil => Ok(Items::Nil),
        Items::Cons(entry, rest) => {
            let new = function_fn(source, &entry.1.function, id, value, fuel - 1)?;
            let rest = function_lambda_map_fn(source, &**rest, id, value, fuel - 1)?;
            Ok(Items::Cons(Rc::new((entry.0, FunctionLambda { function: new, dependencies: entry.1.dependencies.copy() })), Rc::new(rest)))
        },
    }
}

pub open spec fn spec_known_signature_sig(source: &Source, known: KnownSignatureValue, id: u64, value: SignatureValue, fuel: u64) -> CheckResult<KnownSignatureValue>
    decreases fuel,
{
    if fuel == 0 {
        too_deep()
    } else {
        match spec_signature_map_sig(source, known.taken_functions, id, value, (fuel - 1) as u64) {
            Err(e) => Err(e),
            Ok(taken_functions) => match spec_function_conjuration_map_sig(source, known.conjured_functions, id, value, (fuel - 1) as u64) {
                Err(e) => Err(e),
                Ok(conjured_functions) => Ok(KnownSignatureValue { taken_functions, conjured_functions, ..known }),
            },
        }
    }
}

/// In a known signature, substitutes in the signatures of the taken
/// functions and of the conjured functions.
fn known_signature_sig(source: &Source, known: &KnownSignatureValue, id: u64, value: &SignatureValue, fuel: u64) -> (r: CheckResult<KnownSignatureValue>)
    ensures
        r == spec_known_signature_sig(source, *known, id, *value, fuel),
    decreases fuel,
{
    if fuel == 0 {
        return Err(CheckError::Internal { error: InternalError::TooDeep });
    }
    let taken_functions = signature_map_sig(source, &known.taken_functions, id, value, fuel - 1)?;
    let conjured_functions = function_conjuration_map_sig(source, &known.conjured_functions, id, value, fuel - 1)?;
    Ok(KnownSignatureValue {
        taken_functions,
        conjured_functions,
        conjured_signatures: known.conjured_signatures.copy(),
        taken_signatures: known.taken_signatures.copy(),
        resolver: known.resolver.copy(),
    })
}

pub open spec fn spec_known_function_sig(source: &Source, known: KnownFunctionValue, id: u64, value: SignatureValue, fuel: u64) -> CheckResult<KnownFunctionValue>
    decreases fuel,
{
    if fuel == 0 {
        too_deep()
    } else {
        match spec_signature_map_sig(source, known.taken_functions, id, value, (fuel - 1) as u64) {
            Err(e) => Err(e),
            Ok(taken_functions) => match spec_signature_lambda_map_sig(source, known.given_signatures, id, value, (fuel - 1) as u64) {
                Err(e) => Err(e),
                Ok(given_signatures) => match spec_function_lambda_map_sig(source, known.given_functions, id, value, (fuel - 1) as u64) {
                    Err(e) => Err(e),
                    Ok(given_functions) => Ok(KnownFunctionValue { taken_functions, given_signatures, given_functions, ..known }),
                },
            },
        }
    }
}

/// In a known function, substitutes in the signatures of the taken
/// functions and in what it gives.
fn known_function_sig(source: &Source, known: &KnownFunctionValue, id: u64, value: &SignatureValue, fuel: u64) -> (r: CheckResult<KnownFunctionValue>)
    ensures
        r == spec_known_function_sig(source, *known, id, *value, fuel),
    decreases fuel,
{
    if fuel == 0 {
        return Err(CheckError::Internal { error: InternalError::TooDeep });
    }
    let taken_functions = signature_map_sig(source, &known.taken_functions, id, value, fuel - 1)?;
    let given_signatures = signature_lambda_map_sig(source, &known.given_signatures, id, value, fuel - 1)?;
    let given_functions = function_lambda_map_sig(source, &known.given_functions, id, value, fuel - 1)?;
    Ok(KnownFunctionValue {
        taken_functions,
        given_signatures,
        given_functions,
        taken_signatures: known.taken_signatures.copy(),
        resolver: known.resolver.copy(),
    })
}

pub open spec fn spec_dependency_values_sig(source: &Source, values: LambdaDependencyValues, id: u64, value: SignatureValue, fuel: u64) -> CheckResult<LambdaDependencyValues>
    decreases fuel,
{
    if fuel == 0 {
        too_deep()
    } else {
        match spec_signature_map_sig(source, values.signatures, id, value, (fuel - 1) as u64) {
            Err(e) => Err(e),
            Ok(signatures) => match spec_function_map_sig(source, values.functions, id, value, (fuel - 1) as u64) {
                Err(e) => Err(e),
                Ok(functions) => Ok(LambdaDependencyValues { signatures, functions }),
            },
        }
    }
}

fn dependency_values_sig(source: &Source, values: &LambdaDependencyValues, id: u64, value: &SignatureValue, fuel: u64) -> (r: CheckResult<LambdaDependencyValues>)
    ensures
        r == spec_dependency_values_sig(source, *values, id, *value, fuel),
    decreases fuel,
{
    if fuel == 0 {
        return Err(CheckError::Internal { error: InternalError::TooDeep });
    }
    let signatures = signature_map_sig(source, &values.signatures, id, value, fuel - 1)?;
    let functions = function_map_sig(source, &values.functions, id, value, fuel - 1)?;
    Ok(LambdaDependencyValues { signatures, functions })
}

pub open spec fn spec_known_signature_fn(source: &Source, known: KnownSignatureValue, id: u64, value: FunctionValue, fuel: u64) -> CheckResult<KnownSignatureValue>
    decreases fuel,
{
    if fuel == 0 {
        too_deep()
    } else {
        match spec_signature_map_fn(source, known.taken_functions, id, value, (fuel - 1) as u64) {
            Err(e) => Err(e),
            Ok(taken_functions) => match spec_function_conjuration_map_fn(source, known.conjured_functions, id, value, (fuel - 1) as u64) {
                Err(e) => Err(e),
                Ok(conjured_functions) => Ok(KnownSignatureValue { taken_functions, conjured_functions, ..known }),
            },
        }
    }
}

/// In a known signature, substitutes in the signatures of the taken
/// functions and of the conjured functions.
fn known_signature_fn(source: &Source, known: &KnownSignatureValue, id: u64, value: &FunctionValue, fuel: u64) -> (r: CheckResult<KnownSignatureValue>)
    ensures
        r == spec_known_signature_fn(source, *known, id, *value, fuel),
    decreases fuel,
{
    if fuel == 0 {
        return Err(CheckError::Internal { error: InternalError::TooDeep });
    }
    let taken_functions = signature_map_fn(source, &known.taken_functions, id, value, fuel - 1)?;
    let conjured_functions = function_conjuration_map_fn(source, &known.conjured_functions, id, value, fuel - 1)?;
    Ok(KnownSignatureValue {
        taken_functions,
        conjured_functions,
        conjured_signatures: known.conjured_signatures.copy(),
        taken_signatures: known.taken_signatures.copy(),
        resolver: known.resolver.copy(),
    })
}

pub open spec fn spec_known_function_fn(source: &Source, known: KnownFunctionValue, id: u64, value: FunctionValue, fuel: u64) -> CheckResult<KnownFunctionValue>
    decreases fuel,
{
    if fuel == 0 {
        too_deep()
    } else {
        match spec_signature_map_fn(source, known.taken_functions, id, value, (fuel - 1) as u64) {
            Err(e) => Err(e),
            Ok(taken_functions) => match spec_signature_lambda_map_fn(source, known.given_signatures, id, value, (fuel - 1) as u64) {
                Err(e) => Err(e),
                Ok(given_signatures) => match spec_function_lambda_map_fn(source, known.given_functions, id, value, (fuel - 1) as u64) {
                    Err(e) => Err(e),
                    Ok(given_functions) => Ok(KnownFunctionValue { taken_functions, given_signatures, given_functions, ..known }),
                },
            },
        }
    }
}

/// In a known function, substitutes in the signatures of the taken
/// functions and in what it gives.
fn known_function_fn(source: &Source, known: &KnownFunctionValue, id: u64, value: &FunctionValue, fuel: u64) -> (r: CheckResult<KnownFunctionValue>)
    ensures
        r == spec_known_function_fn(source, *known, id, *value, fuel),
    decreases fuel,
{
    if fuel == 0 {
        return Err(CheckError::Internal { error: InternalError::TooDeep });
    }
    let taken_functions = signature_map_fn(source, &known.taken_functions, id, value, fuel - 1)?;
    let given_signatures = signature_lambda_map_fn(source, &known.given_signatures, id, value, fuel - 1)?;
    let given_functions = function_lambda_map_fn(source, &known.given_functions, id, value, fuel - 1)?;
    Ok(KnownFunctionValue {
        taken_functions,
        given_signatures,
        given_functions,
        taken_signatures: known.taken_signatures.copy(),
        resolver: known.resolver.copy(),
    })
}

pub open spec fn spec_dependency_values_fn(source: &Source, values: LambdaDependencyValues, id: u64, value: FunctionValue, fuel: u64) -> CheckResult<LambdaDependencyValues>
    decreases fuel,
{
    if fuel == 0 {
        too_deep()
    } else {
        match spec_signature_map_fn(source, values.signatures, id, value, (fuel - 1) as u64) {
            Err(e) => Err(e),
            Ok(signatures) => match spec_function_map_fn(source, values.functions, id, value, (fuel - 1) as u64) {
                Err(e) => Err(e),
                Ok(functions) => Ok(LambdaDependencyValues { signatures, functions }),
            },
        }
    }
}

fn dependency_values_fn(source: &Source, values: &LambdaDependencyValues, id: u64, value: &FunctionValue, fuel: u64) -> (r: CheckResult<LambdaDependencyValues>)
    ensures
        r == spec_dependency_values_fn(source, *values, id, *value, fuel),
    decreases fuel,
{
    if fuel == 0 {
        return Err(CheckError::Internal { error: InternalError::TooDeep });
    }
    let signatures = signature_map_fn(source, &values.signatures, id, value, fuel - 1)?;
    let functions = function_map_fn(source, &values.functions, id, value, fuel - 1)?;
    Ok(LambdaDependencyValues { signatures, functions })
}

/// Substitutes each signature dependency by its value in `target`, and
/// removes it from `dependencies`, where it must be.
pub open spec fn spec_apply_signature_values_to_signature(source: &Source, target: SignatureValue, dependencies: LambdaDependencies, values: IdMap<SignatureValue>, fuel: u64) -> CheckResult<(SignatureValue, LambdaDependencies)>
    decreases fuel,
{
    if fuel == 0 {
        too_deep()
    } else {
        match values {
            Items::Nil => Ok((target, dependencies)),
            Items::Cons(entry, rest) => match spec_signature_sig(source, target, entry.0, entry.1, (fuel - 1) as u64) {
                Err(e) => Err(e),
                Ok(target) => if set_contains(dependencies.signatures, entry.0) {
                    spec_apply_signature_values_to_signature(
                        source,
                        target,
                        LambdaDependencies { signatures: set_remove(dependencies.signatures, entry.0), ..dependencies },
                        *rest,
                        (fuel - 1) as u64,
                    )
                } else {
                    mismatch()
                },
            },
        }
    }
}

fn apply_signature_values_to_signature(source: &Source, target: &SignatureValue, dependencies: &LambdaDependencies, values: &IdMap<SignatureValue>, fuel: u64) -> (r: CheckResult<(SignatureValue, LambdaDependencies)>)
    ensures
        r == spec_apply_signature_values_to_signature(source, *target, *dependencies, *values, fuel),
    decreases fuel,
{
    if fuel == 0 {
        return Err(CheckError::Internal { error: InternalError::TooDeep });
    }
    match values {
        Items::Nil => Ok((target.copy(), dependencies.copy())),
        Items::Cons(entry, rest) => {
            let target = signature_sig(source, target, entry.0, &entry.1, fuel - 1)?;
            if set_has(&dependencies.signatures, entry.0) {
                let dependencies = LambdaDependencies {
                    signatures: set_without(&dependencies.signatures, entry.0),
                    functions: dependencies.functions.copy(),
                };
                apply_signature_values_to_signature(source, &target, &dependencies, &**rest, fuel - 1)
            } else {
                Err(CheckError::Internal { error: InternalError::DependencyMismatch })
            }
        },
    }
}

/// Substitutes each function dependency by its value in `target`, and
/// removes it from `dependencies`, where it must be.
pub open spec fn spec_apply_function_values_to_signature(source: &Source, target: SignatureValue, dependencies: LambdaDependencies, values: IdMap<FunctionValue>, fuel: u64) -> CheckResult<(SignatureValue, LambdaDependencies)>
    decreases fuel,
{
    if fuel == 0 {
        too_deep()
    } else {
        match values {
            Items::Nil => Ok((target, dependencies)),
            Items::Cons(entry, rest) => match spec_signature_fn(source, target, entry.0, entry.1, (fuel - 1) as u64) {
                Err(e) => Err(e),
                Ok(target) => if map_get(dependencies.functions, entry.0) is Some {
                    spec_apply_function_values_to_signature(
                        source,
                        target,
                        LambdaDependencies { functions: map_remove(dependencies.functions, entry.0), ..dependencies },
                        *rest,
                        (fuel - 1) as u64,
                    )
                } else {
                    mismatch()
                },
            },
        }
    }
}

fn apply_function_values_to_signature(source: &Source, target: &SignatureValue, dependencies: &LambdaDependencies, values: &IdMap<FunctionValue>, fuel: u64) -> (r: CheckResult<(SignatureValue, LambdaDependencies)>)
    ensures
        r == spec_apply_function_values_to_signature(source, *target, *dependencies, *values, fuel),
    decreases fuel,
{
    if fuel == 0 {
        return Err(CheckError::Internal { error: InternalError::TooDeep });
    }
    match values {
        Items::Nil => Ok((target.copy(), dependencies.copy())),
        Items::Cons(entry, rest) => {
            let target = signature_fn(source, target, entry.0, &entry.1, fuel - 1)?;
            if get(&dependencies.functions, entry.0).is_some() {
                let dependencies = LambdaDependencies {
                    signatures: dependencies.signatures.copy(),
                    functions: remove(&dependencies.functions, entry.0),
                };
                apply_function_values_to_signature(source, &target, &dependencies, &**rest, fuel - 1)
            } else {
                Err(CheckError::Internal { error: InternalError::DependencyMismatch })
            }
        },
    }
}

/// Substitutes each signature dependency by its value in `target`, and
/// removes it from `dependencies`, where it must be.
pub open spec fn spec_apply_signature_values_to_function(source: &Source, target: FunctionValue, dependencies: LambdaDependencies, values: IdMap<SignatureValue>, fuel: u64) -> CheckResult<(FunctionValue, LambdaDependencies)>
    decreases fuel,
{
    if fuel == 0 {
        too_deep()
    } else {
        match values {
            Items::Nil => Ok((target, dependencies)),
            Items::Cons(entry, rest) => match spec_function_sig(source, target, entry.0, entry.1, (fuel - 1) as u64) {
                Err(e) => Err(e),
                Ok(target) => if set_contains(dependencies.signatures, entry.0) {
                    spec_apply_signature_values_to_function(
                        source,
                        target,
                        LambdaDependencies { signatures: set_remove(dependencies.signatures, entry.0), ..dependencies },
                        *rest,
                        (fuel - 1) as u64,
                    )
                } else {
                    mismatch()
                },
            },
        }
    }
}

fn apply_signature_values_to_function(source: &Source, target: &FunctionValue, dependencies: &LambdaDependencies, values: &IdMap<SignatureValue>, fuel: u64) -> (r: CheckResult<(FunctionValue, LambdaDependencies)>)
    ensures
        r == spec_apply_signature_values_to_function(source, *target, *dependencies, *values, fuel),
    decreases fuel,
{
    if fuel == 0 {
        return Err(CheckError::Internal { error: InternalError::TooDeep });
    }
    match values {
        Items::Nil => Ok((target.copy(), dependencies.copy())),
        Items::Cons(entry, rest) => {
            let target = function_sig(source, target, entry.0, &entry.1, fuel - 1)?;
            if set_has(&dependencies.signatures, entry.0) {
                let dependencies = LambdaDependencies {
                    signatures: set_without(&dependencies.signatures, entry.0),
                    functions: dependencies.functions.copy(),
                };
                apply_signature_values_to_function(source, &target, &dependencies, &**rest, fuel - 1)
            } else {
                Err(CheckError::Internal { error: InternalError::DependencyMismatch })
            }
        },
    }
}

/// Substitutes each function dependency by its value in `target`, and
/// removes it from `dependencies`, where it must be.
pub open spec fn spec_apply_function_values_to_function(source: &Source, target: FunctionValue, dependencies: LambdaDependencies, values: IdMap<FunctionValue>, fuel: u64) -> CheckResult<(FunctionValue, LambdaDependencies)>
    decreases fuel,
{
    if fuel == 0 {
        too_deep()
    } else {
        match values {
            Items::Nil => Ok((target, dependencies)),
            Items::Cons(entry, rest) => match spec_function_fn(source, target, entry.0, entry.1, (fuel - 1) as u64) {
                Err(e) => Err(e),
                Ok(target) => if map_get(dependencies.functions, entry.0) is Some {
                    spec_apply_function_values_to_function(
                        source,
                        target,
                        LambdaDependencies { functions: map_remove(dependencies.functions, entry.0), ..dependencies },
                        *rest,
                        (fuel - 1) as u64,
                    )
                } else {
                    mismatch()
                },
            },
        }
    }
}

fn apply_function_values_to_function(source: &Source, target: &FunctionValue, dependencies: &LambdaDependencies, values: &IdMap<FunctionValue>, fuel: u64) -> (r: CheckResult<(FunctionValue, LambdaDependencies)>)
    ensures
        r == spec_apply_function_values_to_function(source, *target, *dependencies, *values, fuel),
    decreases fuel,
{
    if fuel == 0 {
        return Err(CheckError::Internal { error: InternalError::TooDeep });
    }
    match values {
        Items::Nil => Ok((target.copy(), dependencies.copy())),
        Items::Cons(entry, rest) => {
            let target = function_fn(source, target, entry.0, &entry.1, fuel - 1)?;
            if get(&dependencies.functions, entry.0).is_some() {
                let dependencies = LambdaDependencies {
                    signatures: dependencies.signatures.copy(),
                    functions: remove(&dependencies.functions, entry.0),
                };
                apply_function_values_to_function(source, &target, &dependencies, &**rest, fuel - 1)
            } else {
                Err(CheckError::Internal { error: InternalError::DependencyMismatch })
            }
        },
    }
}

/// Looks up, in what the now known function gives, the signature that the
/// conjuration names, and applies it to the values of the dependencies.
pub open spec fn spec_resolve_conjured_signature(source: &Source, conjured: ConjuredSignatureValue, known: KnownFunctionValue, fuel: u64) -> CheckResult<SignatureValue>
    decreases fuel,
{
    if fuel == 0 {
        too_deep()
    } else {
        match conjured.unknown_function_signature.resolver.spec_produced_signature_name(conjured.conjured_signature.0) {
            None => Err(CheckError::Internal { error: InternalError::MissingName }),
            Some(name) => match known.resolver.spec_produced_signature_id(source, span_name(source, name)) {
                None => Err(CheckError::Internal { error: InternalError::MissingName }),
                Some(given_id) => match map_get(known.given_signatures, given_id) {
                    None => Err(CheckError::Internal { error: InternalError::MissingValue }),
                    Some(lambda) => match spec_apply_signature_values_to_signature(
                        source,
                        lambda.signature,
                        lambda.dependencies,
                        conjured.conjure_dependency_values.signatures,
                        (fuel - 1) as u64,
                    ) {
                        Err(e) => Err(e),
                        Ok((value, dependencies)) => match spec_apply_function_values_to_signature(
                            source,
                            value,
                            dependencies,
                            conjured.conjure_dependency_values.functions,
                            (fuel - 1) as u64,
                        ) {
                            Err(e) => Err(e),
                            Ok((value, dependencies)) => if dependencies.spec_is_empty() {
                                Ok(value)
                            } else {
                                mismatch()
                            },
                        },
                    },
                },
            },
        }
    }
}

fn resolve_conjured_signature(source: &Source, conjured: &ConjuredSignatureValue, known: &KnownFunctionValue, fuel: u64) -> (r: CheckResult<SignatureValue>)
    ensures
        r == spec_resolve_conjured_signature(source, *conjured, *known, fuel),
    decreases fuel,
{
    if fuel == 0 {
        return Err(CheckError::Internal { error: InternalError::TooDeep });
    }
    let name = match conjured.unknown_function_signature.resolver.produced_signature_name(conjured.conjured_signature.0) {
        Some(name) => name,
        None => return Err(CheckError::Internal { error: InternalError::MissingName }),
    };
    let given_id = match known.resolver.produced_signature_id(source, name) {
        Some(id) => id,
        None => return Err(CheckError::Internal { error: InternalError::MissingName }),
    };
    let lambda = match get(&known.given_signatures, given_id) {
        Some(lambda) => lambda,
        None => return Err(CheckError::Internal { error: InternalError::MissingValue }),
    };
    let (value, dependencies) = apply_signature_values_to_signature(
        source,
        &lambda.signature,
        &lambda.dependencies,
        &conjured.conjure_dependency_values.signatures,
        fuel - 1,
    )?;
    let (value, dependencies) = apply_function_values_to_signature(
        source,
        &value,
        &dependencies,
        &conjured.conjure_dependency_values.functions,
        fuel - 1,
    )?;
    if dependencies.is_empty() {
        Ok(value)
    } else {
        Err(CheckError::Internal { error: InternalError::DependencyMismatch })
    }
}

pub open spec fn spec_conjured_signature_sig(source: &Source, conjured: ConjuredSignatureValue, id: u64, value: SignatureValue, fuel: u64) -> CheckResult<SignatureValue>
    decreases fuel,
{
    if fuel == 0 {
        too_deep()
    } else {
        match spec_function_sig(source, FunctionValue::Unknown(conjured.unknown_function), id, value, (fuel - 1) as u64) {
            Err(e) => Err(e),
            Ok(unknown_function) => match spec_known_signature_sig(source, conjured.unknown_function_signature, id, value, (fuel - 1) as u64) {
                Err(e) => Err(e),
                Ok(unknown_function_signature) => match spec_dependency_values_sig(source, conjured.conjure_dependency_values, id, value, (fuel - 1) as u64) {
                    Err(e) => Err(e),
                    Ok(conjure_dependency_values) => {
                        let conjured = ConjuredSignatureValue { unknown_function_signature, conjure_dependency_values, ..conjured };
                        match unknown_function {
                            FunctionValue::Known(known) => spec_resolve_conjured_signature(source, conjured, *known, (fuel - 1) as u64),
                            FunctionValue::Unknown(unknown) => Ok(SignatureValue::Unknown(UnknownSignatureValue::Conjured(Rc::new(ConjuredSignatureValue { unknown_function: unknown, ..conjured })))),
                        }
                    },
                },
            },
        }
    }
}

/// Substitutes in a conjured signature: in the function that conjures it, its
/// signature and the values of the dependencies. If the function becomes
/// known, the conjured signature is what it gives.
fn conjured_signature_sig(source: &Source, conjured: &ConjuredSignatureValue, id: u64, value: &SignatureValue, fuel: u64) -> (r: CheckResult<SignatureValue>)
    ensures
        r == spec_conjured_signature_sig(source, *conjured, id, *value, fuel),
    decreases fuel,
{
    if fuel == 0 {
        return Err(CheckError::Internal { error: InternalError::TooDeep });
    }
    let unknown_function = function_sig(source, &FunctionValue::Unknown(conjured.unknown_function.copy()), id, value, fuel - 1)?;
    let unknown_function_signature = known_signature_sig(source, &conjured.unknown_function_signature, id, value, fuel - 1)?;
    let conjure_dependency_values = dependency_values_sig(source, &conjured.conjure_dependency_values, id, value, fuel - 1)?;
    match unknown_function {
        FunctionValue::Known(known) => {
            let conjured = ConjuredSignatureValue {
                unknown_function: conjured.unknown_function.copy(),
                unknown_function_signature,
                conjure_dependency_values,
                conjured_signature: conjured.conjured_signature,
            };
            resolve_conjured_signature(source, &conjured, &known, fuel - 1)
        },
        FunctionValue::Unknown(unknown) => Ok(SignatureValue::Unknown(UnknownSignatureValue::Conjured(Rc::new(ConjuredSignatureValue {
            unknown_function: unknown,
            unknown_function_signature,
            conjure_dependency_values,
            conjured_signature: conjured.conjured_signature,
        })))),
    }
}

/// Looks up, in what the now known function gives, the function that the
/// conjuration names, and applies it to the values of the dependencies.
pub open spec fn spec_resolve_conjured_function(source: &Source, conjured: ConjuredFunctionValue, known: KnownFunctionValue, fuel: u64) -> CheckResult<FunctionValue>
    decreases fuel,
{
    if fuel == 0 {
        too_deep()
    } else {
        match conjured.unknown_function_signature.resolver.spec_produced_function_name(conjured.conjured_function.0) {
            None => Err(CheckError::Internal { error: InternalError::MissingName }),
            Some(name) => match known.resolver.spec_produced_function_id(source, span_name(source, name)) {
                None => Err(CheckError::Internal { error: InternalError::MissingName }),
                Some(given_id) => match map_get(known.given_functions, given_id) {
                    None => Err(CheckError::Internal { error: InternalError::MissingValue }),
                    Some(lambda) => match spec_apply_signature_values_to_function(
                        source,
                        lambda.function,
                        lambda.dependencies,
                        conjured.conjure_dependency_values.signatures,
                        (fuel - 1) as u64,
                    ) {
                        Err(e) => Err(e),
                        Ok((value, dependencies)) => match spec_apply_function_values_to_function(
                            source,
                            value,
                            dependencies,
                            conjured.conjure_dependency_values.functions,
                            (fuel - 1) as u64,
                        ) {
                            Err(e) => Err(e),
                            Ok((value, dependencies)) => if dependencies.spec_is_empty() {
                                Ok(value)
                            } else {
                                mismatch()
                            },
                        },
                    },
                },
            },
        }
    }
}

fn resolve_conjured_function(source: &Source, conjured: &ConjuredFunctionValue, known: &KnownFunctionValue, fuel: u64) -> (r: CheckResult<FunctionValue>)
    ensures
        r == spec_resolve_conjured_function(source, *conjured, *known, fuel),
    decreases fuel,
{
    if fuel == 0 {
        return Err(CheckError::Internal { error: InternalError::TooDeep });
    }
    let name = match conjured.unknown_function_signature.resolver.produced_function_name(conjured.conjured_function.0) {
        Some(name) => name,
        None => return Err(CheckError::Internal { error: InternalError::MissingName }),
    };
    let given_id = match known.resolver.produced_function_id(source, name) {
        Some(id) => id,
        None => return Err(CheckError::Internal { error: InternalError::MissingName }),
    };
    let lambda = match get(&known.given_functions, given_id) {
        Some(lambda) => lambda,
        None => return Err(CheckError::Internal { error: InternalError::MissingValue }),
    };
    let (value, dependencies) = apply_signature_values_to_function(
        source,
        &lambda.function,
        &lambda.dependencies,
        &conjured.conjure_dependency_values.signatures,
        fuel - 1,
    )?;
    let (value, dependencies) = apply_function_values_to_function(
        source,
        &value,
        &dependencies,
        &conjured.conjure_dependency_values.functions,
        fuel - 1,
    )?;
    if dependencies.is_empty() {
        Ok(value)
    } else {
        Err(CheckError::Internal { error: InternalError::DependencyMismatch })
    }
}

pub open spec fn spec_conjured_function_sig(source: &Source, conjured: ConjuredFunctionValue, id: u64, value: SignatureValue, fuel: u64) -> CheckResult<FunctionValue>
    decreases fuel,
{
    if fuel == 0 {
        too_deep()
    } else {
        match spec_function_sig(source, FunctionValue::Unknown(conjured.unknown_function), id, value, (fuel - 1) as u64) {
            Err(e) => Err(e),
            Ok(unknown_function) => match spec_known_signature_sig(source, conjured.unknown_function_signature, id, value, (fuel - 1) as u64) {
                Err(e) => Err(e),
                Ok(unknown_function_signature) => match spec_dependency_values_sig(source, conjured.conjure_dependency_values, id, value, (fuel - 1) as u64) {
                    Err(e) => Err(e),
                    Ok(conjure_dependency_values) => {
                        let conjured = ConjuredFunctionValue { unknown_function_signature, conjure_dependency_values, ..conjured };
                        match unknown_function {
                            FunctionValue::Known(known) => spec_resolve_conjured_function(source, conjured, *known, (fuel - 1) as u64),
                            FunctionValue::Unknown(unknown) => Ok(FunctionValue::Unknown(UnknownFunctionValue::Conjured(Rc::new(ConjuredFunctionValue { unknown_function: unknown, ..conjured })))),
                        }
                    },
                },
            },
        }
    }
}

/// Substitutes in a conjured function: in the function that conjures it, its
/// signature and the values of the dependencies. If the function becomes
/// known, the conjured function is what it gives.
fn conjured_function_sig(source: &Source, conjured: &ConjuredFunctionValue, id: u64, value: &SignatureValue, fuel: u64) -> (r: CheckResult<FunctionValue>)
    ensures
        r == spec_conjured_function_sig(source, *conjured, id, *value, fuel),
    decreases fuel,
{
    if fuel == 0 {
        return Err(CheckError::Internal { error: InternalError::TooDeep });
    }
    let unknown_function = function_sig(source, &FunctionValue::Unknown(conjured.unknown_function.copy()), id, value, fuel - 1)?;
    let unknown_function_signature = known_signature_sig(source, &conjured.unknown_function_signature, id, value, fuel - 1)?;
    let conjure_dependency_values = dependency_values_sig(source, &conjured.conjure_dependency_values, id, value, fuel - 1)?;
    match unknown_function {
        FunctionValue::Known(known) => {
            let conjured = ConjuredFunctionValue {
                unknown_function: conjured.unknown_function.copy(),
                unknown_function_signature,
                conjure_dependency_values,
                conjured_function: conjured.conjured_function,
            conjured_function_signature: conjured.conjured_function_signature.copy(),
            };
            resolve_conjured_function(source, &conjured, &known, fuel - 1)
        },
        FunctionValue::Unknown(unknown) => Ok(FunctionValue::Unknown(UnknownFunctionValue::Conjured(Rc::new(ConjuredFunctionValue {
            unknown_function: unknown,
            unknown_function_signature,
            conjure_dependency_values,
            conjured_function: conjured.conjured_function,
            conjured_function_signature: conjured.conjured_function_signature.copy(),
        })))),
    }
}

pub open spec fn spec_conjured_signature_fn(source: &Source, conjured: ConjuredSignatureValue, id: u64, value: FunctionValue, fuel: u64) -> CheckResult<SignatureValue>
    decreases fuel,
{
    if fuel == 0 {
        too_deep()
    } else {
        match spec_function_fn(source, FunctionValue::Unknown(conjured.unknown_function), id, value, (fuel - 1) as u64) {
            Err(e) => Err(e),
            Ok(unknown_function) => match spec_known_signature_fn(source, conjured.unknown_function_signature, id, value, (fuel - 1) as u64) {
                Err(e) => Err(e),
                Ok(unknown_function_signature) => match spec_dependency_values_fn(source, conjured.conjure_dependency_values, id, value, (fuel - 1) as u64) {
                    Err(e) => Err(e),
                    Ok(conjure_dependency_values) => {
                        let conjured = ConjuredSignatureValue { unknown_function_signature, conjure_dependency_values, ..conjured };
                        match unknown_function {
                            FunctionValue::Known(known) => spec_resolve_conjured_signature(source, conjured, *known, (fuel - 1) as u64),
                            FunctionValue::Unknown(unknown) => Ok(SignatureValue::Unknown(UnknownSignatureValue::Conjured(Rc::new(ConjuredSignatureValue { unknown_function: unknown, ..conjured })))),
                        }
                    },
                },
            },
        }
    }
}

/// Substitutes in a conjured signature: in the function that conjures it, its
/// signature and the values of the dependencies. If the function becomes
/// known, the conjured signature is what it gives.
fn conjured_signature_fn(source: &Source, conjured: &ConjuredSignatureValue, id: u64, value: &FunctionValue, fuel: u64) -> (r: CheckResult<SignatureValue>)
    ensures
        r == spec_conjured_signature_fn(source, *conjured, id, *value, fuel),
    decreases fuel,
{
    if fuel == 0 {
        return Err(CheckError::Internal { error: InternalError::TooDeep });
    }
    let unknown_function = function_fn(source, &FunctionValue::Unknown(conjured.unknown_function.copy()), id, value, fuel - 1)?;
    let unknown_function_signature = known_signature_fn(source, &conjured.unknown_function_signature, id, value, fuel - 1)?;
    let conjure_dependency_values = dependency_values_fn(source, &conjured.conjure_dependency_values, id, value, fuel - 1)?;
    match unknown_function {
        FunctionValue::Known(known) => {
            let conjured = ConjuredSignatureValue {
                unknown_function: conjured.unknown_function.copy(),
                unknown_function_signature,
                conjure_dependency_values,
                conjured_signature: conjured.conjured_signature,
            };
            resolve_conjured_signature(source, &conjured, &known, fuel - 1)
        },
        FunctionValue::Unknown(unknown) => Ok(SignatureValue::Unknown(UnknownSignatureValue::Conjured(Rc::new(ConjuredSignatureValue {
            unknown_function: unknown,
            unknown_function_signature,
            conjure_dependency_values,
            conjured_signature: conjured.conjured_signature,
        })))),
    }
}

pub open spec fn spec_conjured_function_fn(source: &Source, conjured: ConjuredFunctionValue, id: u64, value: FunctionValue, fuel: u64) -> CheckResult<FunctionValue>
    decreases fuel,
{
    if fuel == 0 {
        too_deep()
    } else {
        match spec_function_fn(source, FunctionValue::Unknown(conjured.unknown_function), id, value, (fuel - 1) as u64) {
            Err(e) => Err(e),
            Ok(unknown_function) => match spec_known_signature_fn(source, conjured.unknown_function_signature, id, value, (fuel - 1) as u64) {
                Err(e) => Err(e),
                Ok(unknown_function_signature) => match spec_dependency_values_fn(source, conjured.conjure_dependency_values, id, value, (fuel - 1) as u64) {
                    Err(e) => Err(e),
                    Ok(conjure_dependency_values) => {
                        let conjured = ConjuredFunctionValue { unknown_function_signature, conjure_dependency_values, ..conjured };
                        match unknown_function {
                            FunctionValue::Known(known) => spec_resolve_conjured_function(source, conjured, *known, (fuel - 1) as u64),
                            FunctionValue::Unknown(unknown) => Ok(FunctionValue::Unknown(UnknownFunctionValue::Conjured(Rc::new(ConjuredFunctionValue { unknown_function: unknown, ..conjured })))),
                        }
                    },
                },
            },
        }
    }
}

/// Substitutes in a conjured function: in the function that conjures it, its
/// signature and the values of the dependencies. If the function becomes
/// known, the conjured function is what it gives.
fn conjured_function_fn(source: &Source, conjured: &ConjuredFunctionValue, id: u64, value: &FunctionValue, fuel: u64) -> (r: CheckResult<FunctionValue>)
    ensures
        r == spec_conjured_function_fn(source, *conjured, id, *value, fuel),
    decreases fuel,
{
    if fuel == 0 {
        return Err(CheckError::Internal { error: InternalError::TooDeep });
    }
    let unknown_function = function_fn(source, &FunctionValue::Unknown(conjured.unknown_function.copy()), id, value, fuel - 1)?;
    let unknown_function_signature = known_signature_fn(source, &conjured.unknown_function_signature, id, value, fuel - 1)?;
    let conjure_dependency_values = dependency_values_fn(source, &conjured.conjure_dependency_values, id, value, fuel - 1)?;
    match unknown_function {
        FunctionValue::Known(known) => {
            let conjured = ConjuredFunctionValue {
                unknown_function: conjured.unknown_function.copy(),
                unknown_function_signature,
                conjure_dependency_values,
                conjured_function: conjured.conjured_function,
            conjured_function_signature: conjured.conjured_function_signature.copy(),
            };
            resolve_conjured_function(source, &conjured, &known, fuel - 1)
        },
        FunctionValue::Unknown(unknown) => Ok(FunctionValue::Unknown(UnknownFunctionValue::Conjured(Rc::new(ConjuredFunctionValue {
            unknown_function: unknown,
            unknown_function_signature,
            conjure_dependency_values,
            conjured_function: conjured.conjured_function,
            conjured_function_signature: conjured.conjured_function_signature.copy(),
        })))),
    }
}

pub open spec fn spec_signature_sig(source: &Source, v: SignatureValue, id: u64, value: SignatureValue, fuel: u64) -> CheckResult<SignatureValue>
    decreases fuel,
{
    if fuel == 0 {
        too_deep()
    } else {
        match v {
            SignatureValue::Known(known) => match spec_known_signature_sig(source, *known, id, value, (fuel - 1) as u64) {
                Err(e) => Err(e),
                Ok(known) => Ok(SignatureValue::Known(Rc::new(known))),
            },
            SignatureValue::Unknown(UnknownSignatureValue::Taken(signature)) => if signature.0 == id {
                Ok(value)
            } else {
                Ok(v)
            },
            SignatureValue::Unknown(UnknownSignatureValue::Conjured(conjured)) => spec_conjured_signature_sig(
                source,
                *conjured,
                id,
                value,
                (fuel - 1) as u64,
            ),
        }
    }
}

/// The signature value with the taken signature `id` replaced by `value`.
pub fn signature_sig(source: &Source, v: &SignatureValue, id: u64, value: &SignatureValue, fuel: u64) -> (r: CheckResult<SignatureValue>)
    ensures
        r == spec_signature_sig(source, *v, id, *value, fuel),
    decreases fuel,
{
    if fuel == 0 {
        return Err(CheckError::Internal { error: InternalError::TooDeep });
    }
    match v {
        SignatureValue::Known(known) => Ok(SignatureValue::Known(Rc::new(known_signature_sig(source, &**known, id, value, fuel - 1)?))),
        SignatureValue::Unknown(UnknownSignatureValue::Taken(signature)) => if signature.0 == id {
            Ok(value.copy())
        } else {
            Ok(v.copy())
        },
        SignatureValue::Unknown(UnknownSignatureValue::Conjured(conjured)) => conjured_signature_sig(source, &**conjured, id, value, fuel - 1),
    }
}

pub open spec fn spec_signature_fn(source: &Source, v: SignatureValue, id: u64, value: FunctionValue, fuel: u64) -> CheckResult<SignatureValue>
    decreases fuel,
{
    if fuel == 0 {
        too_deep()
    } else {
        match v {
            SignatureValue::Known(known) => match spec_known_signature_fn(source, *known, id, value, (fuel - 1) as u64) {
                Err(e) => Err(e),
                Ok(known) => Ok(SignatureValue::Known(Rc::new(known))),
            },
            SignatureValue::Unknown(UnknownSignatureValue::Taken(_)) => Ok(v),
            SignatureValue::Unknown(UnknownSignatureValue::Conjured(conjured)) => spec_conjured_signature_fn(
                source,
                *conjured,
                id,
                value,
                (fuel - 1) as u64,
            ),
        }
    }
}

/// The signature value with the taken function `id` replaced by `value`.
pub fn signature_fn(source: &Source, v: &SignatureValue, id: u64, value: &FunctionValue, fuel: u64) -> (r: CheckResult<SignatureValue>)
    ensures
        r == spec_signature_fn(source, *v, id, *value, fuel),
    decreases fuel,
{
    if fuel == 0 {
        return Err(CheckError::Internal { error: InternalError::TooDeep });
    }
    match v {
        SignatureValue::Known(known) => Ok(SignatureValue::Known(Rc::new(known_signature_fn(source, &**known, id, value, fuel - 1)?))),
        SignatureValue::Unknown(UnknownSignatureValue::Taken(_)) => Ok(v.copy()),
        SignatureValue::Unknown(UnknownSignatureValue::Conjured(conjured)) => conjured_signature_fn(source, &**conjured, id, value, fuel - 1),
    }
}

pub open spec fn spec_function_sig(source: &Source, v: FunctionValue, id: u64, value: SignatureValue, fuel: u64) -> CheckResult<FunctionValue>
    decreases fuel,
{
    if fuel == 0 {
        too_deep()
    } else {
        match v {
            FunctionValue::Known(known) => match spec_known_function_sig(source, *known, id, value, (fuel - 1) as u64) {
                Err(e) => Err(e),
                Ok(known) => Ok(FunctionValue::Known(Rc::new(known))),
            },
            FunctionValue::Unknown(UnknownFunctionValue::Taken(function, signature)) => match spec_signature_sig(
                source,
                *signature,
                id,
                value,
                (fuel - 1) as u64,
            ) {
                Err(e) => Err(e),
                Ok(signature) => Ok(FunctionValue::Unknown(UnknownFunctionValue::Taken(function, Rc::new(signature)))),
            },
            FunctionValue::Unknown(UnknownFunctionValue::Conjured(conjured)) => spec_conjured_function_sig(
                source,
                *conjured,
                id,
                value,
                (fuel - 1) as u64,
            ),
        }
    }
}

/// The function value with the taken signature `id` replaced by `value`.
pub fn function_sig(source: &Source, v: &FunctionValue, id: u64, value: &SignatureValue, fuel: u64) -> (r: CheckResult<FunctionValue>)
    ensures
        r == spec_function_sig(source, *v, id, *value, fuel),
    decreases fuel,
{
    if fuel == 0 {
        return Err(CheckError::Internal { error: InternalError::TooDeep });
    }
    match v {
        FunctionValue::Known(known) => Ok(FunctionValue::Known(Rc::new(known_function_sig(source, &**known, id, value, fuel - 1)?))),
        FunctionValue::Unknown(UnknownFunctionValue::Taken(function, signature)) => {
            let signature = signature_sig(source, &**signature, id, value, fuel - 1)?;
            Ok(FunctionValue::Unknown(UnknownFunctionValue::Taken(*function, Rc::new(signature))))
        },
        FunctionValue::Unknown(UnknownFunctionValue::Conjured(conjured)) => conjured_function_sig(source, &**conjured, id, value, fuel - 1),
    }
}

pub open spec fn spec_function_fn(source: &Source, v: FunctionValue, id: u64, value: FunctionValue, fuel: u64) -> CheckResult<FunctionValue>
    decreases fuel,
{
    if fuel == 0 {
        too_deep()
    } else {
        match v {
            FunctionValue::Known(known) => match spec_known_function_fn(source, *known, id, value, (fuel - 1) as u64) {
                Err(e) => Err(e),
                Ok(known) => Ok(FunctionValue::Known(Rc::new(known))),
            },
            FunctionValue::Unknown(UnknownFunctionValue::Taken(function, signature)) => if function.0 == id {
                Ok(value)
            } else {
                match spec_signature_fn(source, *signature, id, value, (fuel - 1) as u64) {
                    Err(e) => Err(e),
                    Ok(signature) => Ok(FunctionValue::Unknown(UnknownFunctionValue::Taken(function, Rc::new(signature)))),
                }
            },
            FunctionValue::Unknown(UnknownFunctionValue::Conjured(conjured)) => spec_conjured_function_fn(
                source,
                *conjured,
                id,
                value,
                (fuel - 1) as u64,
            ),
        }
    }
}

/// The function value with the taken function `id` replaced by `value`.
pub fn function_fn(source: &Source, v: &FunctionValue, id: u64, value: &FunctionValue, fuel: u64) -> (r: CheckResult<FunctionValue>)
    ensures
        r == spec_function_fn(source, *v, id, *value, fuel),
    decreases fuel,
{
    if fuel == 0 {
        return Err(CheckError::Internal { error: InternalError::TooDeep });
    }
    match v {
        FunctionValue::Known(known) => Ok(FunctionValue::Known(Rc::new(known_function_fn(source, &**known, id, value, fuel - 1)?))),
        FunctionValue::Unknown(UnknownFunctionValue::Taken(function, signature)) => if function.0 == id {
            Ok(value.copy())
        } else {
            let signature = signature_fn(source, &**signature, id, value, fuel - 1)?;
            Ok(FunctionValue::Unknown(UnknownFunctionValue::Taken(*function, Rc::new(signature))))
        },
        FunctionValue::Unknown(UnknownFunctionValue::Conjured(conjured)) => conjured_function_fn(source, &**conjured, id, value, fuel - 1),
    }
}

} // verus!
