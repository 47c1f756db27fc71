//! What giving a signature or a function for a taken one does to a known
//! value: what it gives or conjures is substituted entry by entry, and no
//! longer depends on what was given.
use vstd::prelude::*;
use crate::check::error::CheckError;
use crate::check::items::{
    first, lemma_map_get_remove, lemma_set_remove_absent, map_contains, map_get, map_keys_unique, set_contains, set_unique, tail, IdMap,
};
use crate::check::operations::{
    spec_function_conjurations_without, spec_function_lambdas_without, spec_give_function_to_known_function,
    spec_give_function_to_known_signature, spec_give_signature_to_known_function, spec_give_signature_to_known_signature,
    spec_signature_conjurations_without, spec_signature_lambdas_without, spec_without, Dependency, FUEL,
};
use crate::check::substitute::{
    spec_function_conjuration_map_fn, spec_function_conjuration_map_sig, spec_function_fn, spec_function_lambda_map_fn,
    spec_function_lambda_map_sig, spec_function_sig, spec_signature_fn, spec_signature_lambda_map_fn,
    spec_signature_lambda_map_sig, spec_signature_sig, spec_function_map_fn, spec_function_map_sig, spec_signature_map_fn,
    spec_signature_map_sig,
};
use crate::check::value::{
    FunctionConjuration, FunctionLambda, FunctionValue, KnownFunctionValue, KnownSignatureValue, LambdaDependencies,
    SignatureConjuration, SignatureId, SignatureLambda, SignatureValue, UnknownSignatureValue,
};
use crate::source::Source;

verus! {

/// Law: substituting in a map of signature lambdas keeps its keys and each entry's
/// dependencies, and substitutes in each entry's signature as one substitution alone does.
pub proof fn lemma_signature_lambda_map_sig_entries(source: &Source, m: IdMap<SignatureLambda>, id: u64, value: SignatureValue, fuel: u64)
    ensures
        spec_signature_lambda_map_sig(source, m, id, value, fuel) matches Ok(r) ==> {
            &&& forall|k: u64| #![trigger map_get(r, k)] #![trigger map_get(m, k)] (map_get(r, k) is Some) == (map_get(m, k) is Some)
            &&& forall|k: u64|
                #![trigger map_get(m, k)]
                map_get(m, k) matches Some(l) ==> map_get(r, k) matches Some(l2) && l2.dependencies == l.dependencies
                    && exists|f: u64| f < fuel && #[trigger] spec_signature_sig(source, l.signature, id, value, f) == Ok::<SignatureValue, CheckError>(l2.signature)
        },
    decreases fuel,
{
    if fuel > 0 && m is Cons {
        let entry = first(m);
        let rest = tail(m);
        lemma_signature_lambda_map_sig_entries(source, rest, id, value, (fuel - 1) as u64);
        if let Ok(r) = spec_signature_lambda_map_sig(source, m, id, value, fuel) {
            let new = spec_signature_sig(source, entry.1.signature, id, value, (fuel - 1) as u64)->Ok_0;
            let r_rest = spec_signature_lambda_map_sig(source, rest, id, value, (fuel - 1) as u64)->Ok_0;
            assert(spec_signature_sig(source, entry.1.signature, id, value, (fuel - 1) as u64) == Ok::<SignatureValue, CheckError>(new));
            assert forall|k: u64| #![trigger map_get(r, k)] #![trigger map_get(m, k)] (map_get(r, k) is Some) == (map_get(m, k) is Some) by {
                if k != entry.0 {
                    assert(map_get(r, k) == map_get(r_rest, k));
                }
            }
            assert forall|k: u64|
                #![trigger map_get(m, k)]
                (map_get(m, k) matches Some(l) ==> map_get(r, k) matches Some(l2) && l2.dependencies == l.dependencies
                    && exists|f: u64| f < fuel && #[trigger] spec_signature_sig(source, l.signature, id, value, f) == Ok::<SignatureValue, CheckError>(l2.signature)) by {
                if map_get(m, k) is Some {
                    if k == entry.0 {
                        assert(spec_signature_sig(source, entry.1.signature, id, value, (fuel - 1) as u64) == Ok::<SignatureValue, CheckError>(new));
                    } else {
                        assert(map_get(r, k) == map_get(r_rest, k));
                        assert(map_get(m, k) == map_get(rest, k));
                    }
                }
            }
        }
    }
}

/// Law: substituting in a map of signature lambdas keeps its keys and each entry's
/// dependencies, and substitutes in each entry's signature as one substitution alone does.
pub proof fn lemma_signature_lambda_map_fn_entries(source: &Source, m: IdMap<SignatureLambda>, id: u64, value: FunctionValue, fuel: u64)
    ensures
        spec_signature_lambda_map_fn(source, m, id, value, fuel) matches Ok(r) ==> {
            &&& forall|k: u64| #![trigger map_get(r, k)] #![trigger map_get(m, k)] (map_get(r, k) is Some) == (map_get(m, k) is Some)
            &&& forall|k: u64|
                #![trigger map_get(m, k)]
                map_get(m, k) matches Some(l) ==> map_get(r, k) matches Some(l2) && l2.dependencies == l.dependencies
                    && exists|f: u64| f < fuel && #[trigger] spec_signature_fn(source, l.signature, id, value, f) == Ok::<SignatureValue, CheckError>(l2.signature)
        },
    decreases fuel,
{
    if fuel > 0 && m is Cons {
        let entry = first(m);
        let rest = tail(m);
        lemma_signature_lambda_map_fn_entries(source, rest, id, value, (fuel - 1) as u64);
        if let Ok(r) = spec_signature_lambda_map_fn(source, m, id, value, fuel) {
            let new = spec_signature_fn(source, entry.1.signature, id, value, (fuel - 1) as u64)->Ok_0;
            let r_rest = spec_signature_lambda_map_fn(source, rest, id, value, (fuel - 1) as u64)->Ok_0;
            assert(spec_signature_fn(source, entry.1.signature, id, value, (fuel - 1) as u64) == Ok::<SignatureValue, CheckError>(new));
            assert forall|k: u64| #![trigger map_get(r, k)] #![trigger map_get(m, k)] (map_get(r, k) is Some) == (map_get(m, k) is Some) by {
                if k != entry.0 {
                    assert(map_get(r, k) == map_get(r_rest, k));
                }
            }
            assert forall|k: u64|
                #![trigger map_get(m, k)]
                (map_get(m, k) matches Some(l) ==> map_get(r, k) matches Some(l2) && l2.dependencies == l.dependencies
                    && exists|f: u64| f < fuel && #[trigger] spec_signature_fn(source, l.signature, id, value, f) == Ok::<SignatureValue, CheckError>(l2.signature)) by {
                if map_get(m, k) is Some {
                    if k == entry.0 {
                        assert(spec_signature_fn(source, entry.1.signature, id, value, (fuel - 1) as u64) == Ok::<SignatureValue, CheckError>(new));
                    } else {
                        assert(map_get(r, k) == map_get(r_rest, k));
                        assert(map_get(m, k) == map_get(rest, k));
                    }
                }
            }
        }
    }
}

/// Law: substituting in a map of function lambdas keeps its keys and each entry's
/// dependencies, and substitutes in each entry's function as one substitution alone does.
pub proof fn lemma_function_lambda_map_sig_entries(source: &Source, m: IdMap<FunctionLambda>, id: u64, value: SignatureValue, fuel: u64)
    ensures
        spec_function_lambda_map_sig(source, m, id, value, fuel) matches Ok(r) ==> {
            &&& forall|k: u64| #![trigger map_get(r, k)] #![trigger map_get(m, k)] (map_get(r, k) is Some) == (map_get(m, k) is Some)
            &&& forall|k: u64|
                #![trigger map_get(m, k)]
                map_get(m, k) matches Some(l) ==> map_get(r, k) matches Some(l2) && l2.dependencies == l.dependencies
                    && exists|f: u64| f < fuel && #[trigger] spec_function_sig(source, l.function, id, value, f) == Ok::<FunctionValue, CheckError>(l2.function)
        },
    decreases fuel,
{
    if fuel > 0 && m is Cons {
        let entry = first(m);
        let rest = tail(m);
        lemma_function_lambda_map_sig_entries(source, rest, id, value, (fuel - 1) as u64);
        if let Ok(r) = spec_function_lambda_map_sig(source, m, id, value, fuel) {
            let new = spec_function_sig(source, entry.1.function, id, value, (fuel - 1) as u64)->Ok_0;
            let r_rest = spec_function_lambda_map_sig(source, rest, id, value, (fuel - 1) as u64)->Ok_0;
            assert(spec_function_sig(source, entry.1.function, id, value, (fuel - 1) as u64) == Ok::<FunctionValue, CheckError>(new));
            assert forall|k: u64| #![trigger map_get(r, k)] #![trigger map_get(m, k)] (map_get(r, k) is Some) == (map_get(m, k) is Some) by {
                if k != entry.0 {
                    assert(map_get(r, k) == map_get(r_rest, k));
                }
            }
            assert forall|k: u64|
                #![trigger map_get(m, k)]
                (map_get(m, k) matches Some(l) ==> map_get(r, k) matches Some(l2) && l2.dependencies == l.dependencies
                    && exists|f: u64| f < fuel && #[trigger] spec_function_sig(source, l.function, id, value, f) == Ok::<FunctionValue, CheckError>(l2.function)) by {
                if map_get(m, k) is Some {
                    if k == entry.0 {
                        assert(spec_function_sig(source, entry.1.function, id, value, (fuel - 1) as u64) == Ok::<FunctionValue, CheckError>(new));
                    } else {
                        assert(map_get(r, k) == map_get(r_rest, k));
                        assert(map_get(m, k) == map_get(rest, k));
                    }
                }
            }
        }
    }
}

/// Law: substituting in a map of function lambdas keeps its keys and each entry's
/// dependencies, and substitutes in each entry's function as one substitution alone does.
pub proof fn lemma_function_lambda_map_fn_entries(source: &Source, m: IdMap<FunctionLambda>, id: u64, value: FunctionValue, fuel: u64)
    ensures
        spec_function_lambda_map_fn(source, m, id, value, fuel) matches Ok(r) ==> {
            &&& forall|k: u64| #![trigger map_get(r, k)] #![trigger map_get(m, k)] (map_get(r, k) is Some) == (map_get(m, k) is Some)
            &&& forall|k: u64|
                #![trigger map_get(m, k)]
                map_get(m, k) matches Some(l) ==> map_get(r, k) matches Some(l2) && l2.dependencies == l.dependencies
                    && exists|f: u64| f < fuel && #[trigger] spec_function_fn(source, l.function, id, value, f) == Ok::<FunctionValue, CheckError>(l2.function)
        },
    decreases fuel,
{
    if fuel > 0 && m is Cons {
        let entry = first(m);
        let rest = tail(m);
        lemma_function_lambda_map_fn_entries(source, rest, id, value, (fuel - 1) as u64);
        if let Ok(r) = spec_function_lambda_map_fn(source, m, id, value, fuel) {
            let new = spec_function_fn(source, entry.1.function, id, value, (fuel - 1) as u64)->Ok_0;
            let r_rest = spec_function_lambda_map_fn(source, rest, id, value, (fuel - 1) as u64)->Ok_0;
            assert(spec_function_fn(source, entry.1.function, id, value, (fuel - 1) as u64) == Ok::<FunctionValue, CheckError>(new));
            assert forall|k: u64| #![trigger map_get(r, k)] #![trigger map_get(m, k)] (map_get(r, k) is Some) == (map_get(m, k) is Some) by {
                if k != entry.0 {
                    assert(map_get(r, k) == map_get(r_rest, k));
                }
            }
            assert forall|k: u64|
                #![trigger map_get(m, k)]
                (map_get(m, k) matches Some(l) ==> map_get(r, k) matches Some(l2) && l2.dependencies == l.dependencies
                    && exists|f: u64| f < fuel && #[trigger] spec_function_fn(source, l.function, id, value, f) == Ok::<FunctionValue, CheckError>(l2.function)) by {
                if map_get(m, k) is Some {
                    if k == entry.0 {
                        assert(spec_function_fn(source, entry.1.function, id, value, (fuel - 1) as u64) == Ok::<FunctionValue, CheckError>(new));
                    } else {
                        assert(map_get(r, k) == map_get(r_rest, k));
                        assert(map_get(m, k) == map_get(rest, k));
                    }
                }
            }
        }
    }
}

/// Law: substituting in a map of function conjurations keeps its keys and each entry's
/// dependencies, and substitutes in each entry's signature as one substitution alone does.
pub proof fn lemma_function_conjuration_map_sig_entries(source: &Source, m: IdMap<FunctionConjuration>, id: u64, value: SignatureValue, fuel: u64)
    ensures
        spec_function_conjuration_map_sig(source, m, id, value, fuel) matches Ok(r) ==> {
            &&& forall|k: u64| #![trigger map_get(r, k)] #![trigger map_get(m, k)] (map_get(r, k) is Some) == (map_get(m, k) is Some)
            &&& forall|k: u64|
                #![trigger map_get(m, k)]
                map_get(m, k) matches Some(l) ==> map_get(r, k) matches Some(l2) && l2.dependencies == l.dependencies
                    && exists|f: u64| f < fuel && #[trigger] spec_signature_sig(source, l.signature, id, value, f) == Ok::<SignatureValue, CheckError>(l2.signature)
        },
    decreases fuel,
{
    if fuel > 0 && m is Cons {
        let entry = first(m);
        let rest = tail(m);
        lemma_function_conjuration_map_sig_entries(source, rest, id, value, (fuel - 1) as u64);
        if let Ok(r) = spec_function_conjuration_map_sig(source, m, id, value, fuel) {
            let new = spec_signature_sig(source, entry.1.signature, id, value, (fuel - 1) as u64)->Ok_0;
            let r_rest = spec_function_conjuration_map_sig(source, rest, id, value, (fuel - 1) as u64)->Ok_0;
            assert(spec_signature_sig(source, entry.1.signature, id, value, (fuel - 1) as u64) == Ok::<SignatureValue, CheckError>(new));
            assert forall|k: u64| #![trigger map_get(r, k)] #![trigger map_get(m, k)] (map_get(r, k) is Some) == (map_get(m, k) is Some) by {
                if k != entry.0 {
                    assert(map_get(r, k) == map_get(r_rest, k));
                }
            }
            assert forall|k: u64|
                #![trigger map_get(m, k)]
                (map_get(m, k) matches Some(l) ==> map_get(r, k) matches Some(l2) && l2.dependencies == l.dependencies
                    && exists|f: u64| f < fuel && #[trigger] spec_signature_sig(source, l.signature, id, value, f) == Ok::<SignatureValue, CheckError>(l2.signature)) by {
                if map_get(m, k) is Some {
                    if k == entry.0 {
                        assert(spec_signature_sig(source, entry.1.signature, id, value, (fuel - 1) as u64) == Ok::<SignatureValue, CheckError>(new));
                    } else {
                        assert(map_get(r, k) == map_get(r_rest, k));
                        assert(map_get(m, k) == map_get(rest, k));
                    }
                }
            }
        }
    }
}

/// Law: substituting in a map of function conjurations keeps its keys and each entry's
/// dependencies, and substitutes in each entry's signature as one substitution alone does.
pub proof fn lemma_function_conjuration_map_fn_entries(source: &Source, m: IdMap<FunctionConjuration>, id: u64, value: FunctionValue, fuel: u64)
    ensures
        spec_function_conjuration_map_fn(source, m, id, value, fuel) matches Ok(r) ==> {
            &&& forall|k: u64| #![trigger map_get(r, k)] #![trigger map_get(m, k)] (map_get(r, k) is Some) == (map_get(m, k) is Some)
            &&& forall|k: u64|
                #![trigger map_get(m, k)]
                map_get(m, k) matches Some(l) ==> map_get(r, k) matches Some(l2) && l2.dependencies == l.dependencies
                    && exists|f: u64| f < fuel && #[trigger] spec_signature_fn(source, l.signature, id, value, f) == Ok::<SignatureValue, CheckError>(l2.signature)
        },
    decreases fuel,
{
    if fuel > 0 && m is Cons {
        let entry = first(m);
        let rest = tail(m);
        lemma_function_conjuration_map_fn_entries(source, rest, id, value, (fuel - 1) as u64);
        if let Ok(r) = spec_function_conjuration_map_fn(source, m, id, value, fuel) {
            let new = spec_signature_fn(source, entry.1.signature, id, value, (fuel - 1) as u64)->Ok_0;
            let r_rest = spec_function_conjuration_map_fn(source, rest, id, value, (fuel - 1) as u64)->Ok_0;
            assert(spec_signature_fn(source, entry.1.signature, id, value, (fuel - 1) as u64) == Ok::<SignatureValue, CheckError>(new));
            assert forall|k: u64| #![trigger map_get(r, k)] #![trigger map_get(m, k)] (map_get(r, k) is Some) == (map_get(m, k) is Some) by {
                if k != entry.0 {
                    assert(map_get(r, k) == map_get(r_rest, k));
                }
            }
            assert forall|k: u64|
                #![trigger map_get(m, k)]
                (map_get(m, k) matches Some(l) ==> map_get(r, k) matches Some(l2) && l2.dependencies == l.dependencies
                    && exists|f: u64| f < fuel && #[trigger] spec_signature_fn(source, l.signature, id, value, f) == Ok::<SignatureValue, CheckError>(l2.signature)) by {
                if map_get(m, k) is Some {
                    if k == entry.0 {
                        assert(spec_signature_fn(source, entry.1.signature, id, value, (fuel - 1) as u64) == Ok::<SignatureValue, CheckError>(new));
                    } else {
                        assert(map_get(r, k) == map_get(r_rest, k));
                        assert(map_get(m, k) == map_get(rest, k));
                    }
                }
            }
        }
    }
}

/// Law: substituting in a map of signatures keeps its keys and substitutes in
/// each entry as one substitution alone does.
pub proof fn lemma_signature_map_sig_entries(source: &Source, m: IdMap<SignatureValue>, id: u64, value: SignatureValue, fuel: u64)
    ensures
        spec_signature_map_sig(source, m, id, value, fuel) matches Ok(r) ==> {
            &&& forall|k: u64| #![trigger map_get(r, k)] #![trigger map_get(m, k)] (map_get(r, k) is Some) == (map_get(m, k) is Some)
            &&& forall|k: u64|
                #![trigger map_get(m, k)]
                map_get(m, k) matches Some(v) ==> map_get(r, k) matches Some(v2)
                    && exists|f: u64| f < fuel && #[trigger] spec_signature_sig(source, v, id, value, f) == Ok::<SignatureValue, CheckError>(v2)
        },
    decreases fuel,
{
    if fuel > 0 && m is Cons {
        let entry = first(m);
        let rest = tail(m);
        lemma_signature_map_sig_entries(source, rest, id, value, (fuel - 1) as u64);
        if let Ok(r) = spec_signature_map_sig(source, m, id, value, fuel) {
            let new = spec_signature_sig(source, entry.1, id, value, (fuel - 1) as u64)->Ok_0;
            let r_rest = spec_signature_map_sig(source, rest, id, value, (fuel - 1) as u64)->Ok_0;
            assert(spec_signature_sig(source, entry.1, id, value, (fuel - 1) as u64) == Ok::<SignatureValue, CheckError>(new));
            assert forall|k: u64| #![trigger map_get(r, k)] #![trigger map_get(m, k)] (map_get(r, k) is Some) == (map_get(m, k) is Some) by {
                if k != entry.0 {
                    assert(map_get(r, k) == map_get(r_rest, k));
                }
            }
            assert forall|k: u64|
                #![trigger map_get(m, k)]
                (map_get(m, k) matches Some(v) ==> map_get(r, k) matches Some(v2)
                    && exists|f: u64| f < fuel && #[trigger] spec_signature_sig(source, v, id, value, f) == Ok::<SignatureValue, CheckError>(v2)) by {
                if map_get(m, k) is Some {
                    if k == entry.0 {
                        assert(map_get(m, k) == Some(entry.1));
                        assert(map_get(r, k) == Some(new));
                        assert(spec_signature_sig(source, entry.1, id, value, (fuel - 1) as u64) == Ok::<SignatureValue, CheckError>(new));
                    } else {
                        assert(map_get(r, k) == map_get(r_rest, k));
                        assert(map_get(m, k) == map_get(rest, k));
                        assert(map_get(rest, k) is Some);
                    }
                }
            }
        }
    }
}

/// Law: substituting in a map of signatures keeps its keys and substitutes in
/// each entry as one substitution alone does.
pub proof fn lemma_signature_map_fn_entries(source: &Source, m: IdMap<SignatureValue>, id: u64, value: FunctionValue, fuel: u64)
    ensures
        spec_signature_map_fn(source, m, id, value, fuel) matches Ok(r) ==> {
            &&& forall|k: u64| #![trigger map_get(r, k)] #![trigger map_get(m, k)] (map_get(r, k) is Some) == (map_get(m, k) is Some)
            &&& forall|k: u64|
                #![trigger map_get(m, k)]
                map_get(m, k) matches Some(v) ==> map_get(r, k) matches Some(v2)
                    && exists|f: u64| f < fuel && #[trigger] spec_signature_fn(source, v, id, value, f) == Ok::<SignatureValue, CheckError>(v2)
        },
    decreases fuel,
{
    if fuel > 0 && m is Cons {
        let entry = first(m);
        let rest = tail(m);
        lemma_signature_map_fn_entries(source, rest, id, value, (fuel - 1) as u64);
        if let Ok(r) = spec_signature_map_fn(source, m, id, value, fuel) {
            let new = spec_signature_fn(source, entry.1, id, value, (fuel - 1) as u64)->Ok_0;
            let r_rest = spec_signature_map_fn(source, rest, id, value, (fuel - 1) as u64)->Ok_0;
            assert(spec_signature_fn(source, entry.1, id, value, (fuel - 1) as u64) == Ok::<SignatureValue, CheckError>(new));
            assert forall|k: u64| #![trigger map_get(r, k)] #![trigger map_get(m, k)] (map_get(r, k) is Some) == (map_get(m, k) is Some) by {
                if k != entry.0 {
                    assert(map_get(r, k) == map_get(r_rest, k));
                }
            }
            assert forall|k: u64|
                #![trigger map_get(m, k)]
                (map_get(m, k) matches Some(v) ==> map_get(r, k) matches Some(v2)
                    && exists|f: u64| f < fuel && #[trigger] spec_signature_fn(source, v, id, value, f) == Ok::<SignatureValue, CheckError>(v2)) by {
                if map_get(m, k) is Some {
                    if k == entry.0 {
                        assert(map_get(m, k) == Some(entry.1));
                        assert(map_get(r, k) == Some(new));
                        assert(spec_signature_fn(source, entry.1, id, value, (fuel - 1) as u64) == Ok::<SignatureValue, CheckError>(new));
                    } else {
                        assert(map_get(r, k) == map_get(r_rest, k));
                        assert(map_get(m, k) == map_get(rest, k));
                        assert(map_get(rest, k) is Some);
                    }
                }
            }
        }
    }
}

/// Law: substituting in a map of functions keeps its keys and substitutes in
/// each entry as one substitution alone does.
pub proof fn lemma_function_map_sig_entries(source: &Source, m: IdMap<FunctionValue>, id: u64, value: SignatureValue, fuel: u64)
    ensures
        spec_function_map_sig(source, m, id, value, fuel) matches Ok(r) ==> {
            &&& forall|k: u64| #![trigger map_get(r, k)] #![trigger map_get(m, k)] (map_get(r, k) is Some) == (map_get(m, k) is Some)
            &&& forall|k: u64|
                #![trigger map_get(m, k)]
                map_get(m, k) matches Some(v) ==> map_get(r, k) matches Some(v2)
                    && exists|f: u64| f < fuel && #[trigger] spec_function_sig(source, v, id, value, f) == Ok::<FunctionValue, CheckError>(v2)
        },
    decreases fuel,
{
    if fuel > 0 && m is Cons {
        let entry = first(m);
        let rest = tail(m);
        lemma_function_map_sig_entries(source, rest, id, value, (fuel - 1) as u64);
        if let Ok(r) = spec_function_map_sig(source, m, id, value, fuel) {
            let new = spec_function_sig(source, entry.1, id, value, (fuel - 1) as u64)->Ok_0;
            let r_rest = spec_function_map_sig(source, rest, id, value, (fuel - 1) as u64)->Ok_0;
            assert(spec_function_sig(source, entry.1, id, value, (fuel - 1) as u64) == Ok::<FunctionValue, CheckError>(new));
            assert forall|k: u64| #![trigger map_get(r, k)] #![trigger map_get(m, k)] (map_get(r, k) is Some) == (map_get(m, k) is Some) by {
                if k != entry.0 {
                    assert(map_get(r, k) == map_get(r_rest, k));
                }
            }
            assert forall|k: u64|
                #![trigger map_get(m, k)]
                (map_get(m, k) matches Some(v) ==> map_get(r, k) matches Some(v2)
                    && exists|f: u64| f < fuel && #[trigger] spec_function_sig(source, v, id, value, f) == Ok::<FunctionValue, CheckError>(v2)) by {
                if map_get(m, k) is Some {
                    if k == entry.0 {
                        assert(map_get(m, k) == Some(entry.1));
                        assert(map_get(r, k) == Some(new));
                        assert(spec_function_sig(source, entry.1, id, value, (fuel - 1) as u64) == Ok::<FunctionValue, CheckError>(new));
                    } else {
                        assert(map_get(r, k) == map_get(r_rest, k));
                        assert(map_get(m, k) == map_get(rest, k));
                        assert(map_get(rest, k) is Some);
                    }
                }
            }
        }
    }
}

/// Law: substituting in a map of functions keeps its keys and substitutes in
/// each entry as one substitution alone does.
pub proof fn lemma_function_map_fn_entries(source: &Source, m: IdMap<FunctionValue>, id: u64, value: FunctionValue, fuel: u64)
    ensures
        spec_function_map_fn(source, m, id, value, fuel) matches Ok(r) ==> {
            &&& forall|k: u64| #![trigger map_get(r, k)] #![trigger map_get(m, k)] (map_get(r, k) is Some) == (map_get(m, k) is Some)
            &&& forall|k: u64|
                #![trigger map_get(m, k)]
                map_get(m, k) matches Some(v) ==> map_get(r, k) matches Some(v2)
                    && exists|f: u64| f < fuel && #[trigger] spec_function_fn(source, v, id, value, f) == Ok::<FunctionValue, CheckError>(v2)
        },
    decreases fuel,
{
    if fuel > 0 && m is Cons {
        let entry = first(m);
        let rest = tail(m);
        lemma_function_map_fn_entries(source, rest, id, value, (fuel - 1) as u64);
        if let Ok(r) = spec_function_map_fn(source, m, id, value, fuel) {
            let new = spec_function_fn(source, entry.1, id, value, (fuel - 1) as u64)->Ok_0;
            let r_rest = spec_function_map_fn(source, rest, id, value, (fuel - 1) as u64)->Ok_0;
            assert(spec_function_fn(source, entry.1, id, value, (fuel - 1) as u64) == Ok::<FunctionValue, CheckError>(new));
            assert forall|k: u64| #![trigger map_get(r, k)] #![trigger map_get(m, k)] (map_get(r, k) is Some) == (map_get(m, k) is Some) by {
                if k != entry.0 {
                    assert(map_get(r, k) == map_get(r_rest, k));
                }
            }
            assert forall|k: u64|
                #![trigger map_get(m, k)]
                (map_get(m, k) matches Some(v) ==> map_get(r, k) matches Some(v2)
                    && exists|f: u64| f < fuel && #[trigger] spec_function_fn(source, v, id, value, f) == Ok::<FunctionValue, CheckError>(v2)) by {
                if map_get(m, k) is Some {
                    if k == entry.0 {
                        assert(map_get(m, k) == Some(entry.1));
                        assert(map_get(r, k) == Some(new));
                        assert(spec_function_fn(source, entry.1, id, value, (fuel - 1) as u64) == Ok::<FunctionValue, CheckError>(new));
                    } else {
                        assert(map_get(r, k) == map_get(r_rest, k));
                        assert(map_get(m, k) == map_get(rest, k));
                        assert(map_get(rest, k) is Some);
                    }
                }
            }
        }
    }
}

/// Law: removing a dependency from each entry of a map keeps its keys and
/// changes nothing else of an entry.
pub proof fn lemma_signature_lambdas_without_entries(m: IdMap<SignatureLambda>, d: Dependency, k: u64)
    ensures
        map_get(spec_signature_lambdas_without(m, d), k) == (match map_get(m, k) {
            Some(l) => Some(SignatureLambda { signature: l.signature, dependencies: spec_without(l.dependencies, d) }),
            None => None,
        }),
    decreases m,
{
    if m is Cons {
        lemma_signature_lambdas_without_entries(tail(m), d, k);
    }
}

pub proof fn lemma_function_lambdas_without_entries(m: IdMap<FunctionLambda>, d: Dependency, k: u64)
    ensures
        map_get(spec_function_lambdas_without(m, d), k) == (match map_get(m, k) {
            Some(l) => Some(FunctionLambda { function: l.function, dependencies: spec_without(l.dependencies, d) }),
            None => None,
        }),
    decreases m,
{
    if m is Cons {
        lemma_function_lambdas_without_entries(tail(m), d, k);
    }
}

pub proof fn lemma_function_conjurations_without_entries(m: IdMap<FunctionConjuration>, d: Dependency, k: u64)
    ensures
        map_get(spec_function_conjurations_without(m, d), k) == (match map_get(m, k) {
            Some(c) => Some(FunctionConjuration { signature: c.signature, dependencies: spec_without(c.dependencies, d) }),
            None => None,
        }),
    decreases m,
{
    if m is Cons {
        lemma_function_conjurations_without_entries(tail(m), d, k);
    }
}

pub proof fn lemma_signature_conjurations_without_entries(m: IdMap<SignatureConjuration>, d: Dependency, k: u64)
    ensures
        map_get(spec_signature_conjurations_without(m, d), k) == (match map_get(m, k) {
            Some(c) => Some(SignatureConjuration { dependencies: spec_without(c.dependencies, d) }),
            None => None,
        }),
    decreases m,
{
    if m is Cons {
        lemma_signature_conjurations_without_entries(tail(m), d, k);
    }
}

/// Law: dependencies without a dependency on the taken signature `id` do
/// not depend on it, where no signature is depended on twice.
pub proof fn lemma_without_signature(d: LambdaDependencies, id: u64)
    requires
        set_unique(d.signatures),
    ensures
        !set_contains(spec_without(d, Dependency::Signature(id)).signatures, id),
{
    lemma_set_remove_absent(d.signatures, id);
}

/// Law: dependencies without a dependency on the taken function `id` do not
/// depend on it, where no function is depended on twice.
pub proof fn lemma_without_function(d: LambdaDependencies, id: u64)
    requires
        d.wf(),
    ensures
        !map_contains(spec_without(d, Dependency::Function(id)).functions, id),
{
    lemma_map_get_remove(d.functions, id, id);
}

/// Law: once a signature is given as the taken signature `id` of a known
/// signature, the signatures of its taken functions have `given` substituted
/// for `id`, no conjuration of the result depends on `id` any more, and the
/// result no longer takes it (where nothing was recorded twice).
pub proof fn lemma_giving_a_signature_to_a_signature_ends_its_dependencies(
    source: &Source,
    value: KnownSignatureValue,
    id: u64,
    given: SignatureValue,
)
    requires
        forall|k: u64| #[trigger] map_get(value.conjured_functions, k) matches Some(c) ==> set_unique(c.dependencies.signatures),
        forall|k: u64| #[trigger] map_get(value.conjured_signatures, k) matches Some(c) ==> set_unique(c.dependencies.signatures),
    ensures
        spec_give_signature_to_known_signature(source, value, id, given) matches Ok(r) ==> {
            &&& forall|k: u64| #[trigger] map_get(r.conjured_functions, k) matches Some(c) ==> !set_contains(c.dependencies.signatures, id)
            &&& forall|k: u64| #[trigger] map_get(r.conjured_signatures, k) matches Some(c) ==> !set_contains(c.dependencies.signatures, id)
            &&& set_unique(value.taken_signatures) ==> !set_contains(r.taken_signatures, id)
            &&& map_keys_unique(value.resolver.taken_signature_definitions)
                ==> !map_contains(r.resolver.taken_signature_definitions, id)
            &&& forall|k: u64| #[trigger] map_get(value.taken_functions, k) matches Some(signature) ==> map_get(r.taken_functions, k) matches Some(
                substituted,
            ) && exists|f: u64| #[trigger] spec_signature_sig(source, signature, id, given, f) == Ok::<SignatureValue, CheckError>(substituted)
        },
{
    lemma_signature_map_sig_entries(source, value.taken_functions, id, given, FUEL);
    if map_keys_unique(value.resolver.taken_signature_definitions) {
        lemma_map_get_remove(value.resolver.taken_signature_definitions, id, id);
    }
    let d = Dependency::Signature(id);
    let w = spec_function_conjurations_without(value.conjured_functions, d);
    lemma_function_conjuration_map_sig_entries(source, w, id, given, FUEL);
    lemma_set_remove_absent(value.taken_signatures, id);
    if let Ok(r) = spec_give_signature_to_known_signature(source, value, id, given) {
        assert forall|k: u64| (#[trigger] map_get(r.conjured_functions, k) matches Some(c) ==> !set_contains(c.dependencies.signatures, id)) by {
            if map_get(r.conjured_functions, k) is Some {
                lemma_function_conjurations_without_entries(value.conjured_functions, d, k);
                assert(map_get(w, k) is Some);
                let c0 = map_get(value.conjured_functions, k)->Some_0;
                lemma_without_signature(c0.dependencies, id);
            }
        }
        assert forall|k: u64| (#[trigger] map_get(r.conjured_signatures, k) matches Some(c) ==> !set_contains(c.dependencies.signatures, id)) by {
            if map_get(r.conjured_signatures, k) is Some {
                lemma_signature_conjurations_without_entries(value.conjured_signatures, d, k);
                let c0 = map_get(value.conjured_signatures, k)->Some_0;
                lemma_without_signature(c0.dependencies, id);
            }
        }
    }
}

/// Law: once a function is given as the taken function `id` of a known
/// signature, no conjuration of the result depends on `id` any more (where
/// no function was depended on twice).
pub proof fn lemma_giving_a_function_to_a_signature_ends_its_dependencies(
    source: &Source,
    value: KnownSignatureValue,
    id: u64,
    given: FunctionValue,
)
    requires
        forall|k: u64| #[trigger] map_get(value.conjured_functions, k) matches Some(c) ==> c.dependencies.wf(),
        forall|k: u64| #[trigger] map_get(value.conjured_signatures, k) matches Some(c) ==> c.dependencies.wf(),
    ensures
        spec_give_function_to_known_signature(source, value, id, given) matches Ok(r) ==> {
            &&& forall|k: u64| #[trigger] map_get(r.conjured_functions, k) matches Some(c) ==> !map_contains(c.dependencies.functions, id)
            &&& forall|k: u64| #[trigger] map_get(r.conjured_signatures, k) matches Some(c) ==> !map_contains(c.dependencies.functions, id)
            &&& map_keys_unique(value.resolver.taken_function_definitions)
                ==> !map_contains(r.resolver.taken_function_definitions, id)
        },
{
    if map_keys_unique(value.resolver.taken_function_definitions) {
        lemma_map_get_remove(value.resolver.taken_function_definitions, id, id);
    }
    let d = Dependency::Function(id);
    let w = spec_function_conjurations_without(value.conjured_functions, d);
    lemma_function_conjuration_map_fn_entries(source, w, id, given, FUEL);
    if let Ok(r) = spec_give_function_to_known_signature(source, value, id, given) {
        assert forall|k: u64| (#[trigger] map_get(r.conjured_functions, k) matches Some(c) ==> !map_contains(c.dependencies.functions, id)) by {
            if map_get(r.conjured_functions, k) is Some {
                lemma_function_conjurations_without_entries(value.conjured_functions, d, k);
                assert(map_get(w, k) is Some);
                let c0 = map_get(value.conjured_functions, k)->Some_0;
                lemma_without_function(c0.dependencies, id);
            }
        }
        assert forall|k: u64| (#[trigger] map_get(r.conjured_signatures, k) matches Some(c) ==> !map_contains(c.dependencies.functions, id)) by {
            if map_get(r.conjured_signatures, k) is Some {
                lemma_signature_conjurations_without_entries(value.conjured_signatures, d, k);
                let c0 = map_get(value.conjured_signatures, k)->Some_0;
                lemma_without_function(c0.dependencies, id);
            }
        }
    }
}

/// Law: once a signature is given as the taken signature `id` of a known
/// function, each signature and function it gives, and the signature of each
/// function it takes, is the one it had with `given` substituted for `id`:
/// a given signature that was the taken signature `id` itself is now
/// `given`. What the result gives no longer depends on `id`, and it no
/// longer takes it (where nothing was recorded twice).
pub proof fn lemma_giving_a_signature_to_a_function_substitutes_it(
    source: &Source,
    value: KnownFunctionValue,
    id: u64,
    given: SignatureValue,
)
    ensures
        spec_give_signature_to_known_function(source, value, id, given) matches Ok(r) ==> {
            &&& forall|k: u64| #![trigger map_get(r.given_signatures, k)] #![trigger map_get(value.given_signatures, k)]
                (map_get(r.given_signatures, k) is Some) == (map_get(value.given_signatures, k) is Some)
            &&& forall|k: u64| #[trigger] map_get(value.given_signatures, k) matches Some(l) ==> map_get(r.given_signatures, k) matches Some(l2)
                && exists|f: u64| #[trigger] spec_signature_sig(source, l.signature, id, given, f) == Ok::<SignatureValue, CheckError>(l2.signature)
            &&& forall|k: u64| #[trigger] map_get(value.given_signatures, k) is Some
                && map_get(value.given_signatures, k)->Some_0.signature == SignatureValue::Unknown(UnknownSignatureValue::Taken(SignatureId(id)))
                ==> (map_get(r.given_signatures, k) matches Some(l2) && l2.signature == given)
            &&& forall|k: u64| #![trigger map_get(r.given_functions, k)] #![trigger map_get(value.given_functions, k)]
                (map_get(r.given_functions, k) is Some) == (map_get(value.given_functions, k) is Some)
            &&& forall|k: u64| #[trigger] map_get(value.given_functions, k) matches Some(l) ==> map_get(r.given_functions, k) matches Some(l2)
                && exists|f: u64| #[trigger] spec_function_sig(source, l.function, id, given, f) == Ok::<FunctionValue, CheckError>(l2.function)
            &&& (forall|k: u64| #[trigger] map_get(value.given_signatures, k) matches Some(l) ==> set_unique(l.dependencies.signatures))
                ==> forall|k: u64| #[trigger] map_get(r.given_signatures, k) matches Some(l) ==> !set_contains(l.dependencies.signatures, id)
            &&& (forall|k: u64| #[trigger] map_get(value.given_functions, k) matches Some(l) ==> set_unique(l.dependencies.signatures))
                ==> forall|k: u64| #[trigger] map_get(r.given_functions, k) matches Some(l) ==> !set_contains(l.dependencies.signatures, id)
            &&& set_unique(value.taken_signatures) ==> !set_contains(r.taken_signatures, id)
            &&& map_keys_unique(value.resolver.taken_signature_definitions)
                ==> !map_contains(r.resolver.taken_signature_definitions, id)
            &&& forall|k: u64| #[trigger] map_get(value.taken_functions, k) matches Some(signature) ==> map_get(r.taken_functions, k) matches Some(
                substituted,
            ) && exists|f: u64| #[trigger] spec_signature_sig(source, signature, id, given, f) == Ok::<SignatureValue, CheckError>(substituted)
        },
{
    lemma_signature_map_sig_entries(source, value.taken_functions, id, given, FUEL);
    lemma_set_remove_absent(value.taken_signatures, id);
    if map_keys_unique(value.resolver.taken_signature_definitions) {
        lemma_map_get_remove(value.resolver.taken_signature_definitions, id, id);
    }
    let d = Dependency::Signature(id);
    let ws = spec_signature_lambdas_without(value.given_signatures, d);
    let wf = spec_function_lambdas_without(value.given_functions, d);
    lemma_signature_lambda_map_sig_entries(source, ws, id, given, FUEL);
    lemma_function_lambda_map_sig_entries(source, wf, id, given, FUEL);
    if let Ok(r) = spec_give_signature_to_known_function(source, value, id, given) {
        assert forall|k: u64| #![trigger map_get(r.given_signatures, k)] #![trigger map_get(value.given_signatures, k)]
            (map_get(r.given_signatures, k) is Some) == (map_get(value.given_signatures, k) is Some) by {
            lemma_signature_lambdas_without_entries(value.given_signatures, d, k);
            assert((map_get(r.given_signatures, k) is Some) == (map_get(ws, k) is Some));
        }
        assert forall|k: u64| (#[trigger] map_get(value.given_signatures, k) matches Some(l) ==> map_get(r.given_signatures, k) matches Some(l2)
            && exists|f: u64| #[trigger] spec_signature_sig(source, l.signature, id, given, f) == Ok::<SignatureValue, CheckError>(l2.signature)) by {
            if map_get(value.given_signatures, k) is Some {
                lemma_signature_lambdas_without_entries(value.given_signatures, d, k);
                assert(map_get(ws, k) is Some);
            }
        }
        assert forall|k: u64| #[trigger] map_get(value.given_signatures, k) is Some
            && map_get(value.given_signatures, k)->Some_0.signature == SignatureValue::Unknown(UnknownSignatureValue::Taken(SignatureId(id)))
            implies (map_get(r.given_signatures, k) matches Some(l2) && l2.signature == given) by {
            if map_get(value.given_signatures, k) is Some {
                lemma_signature_lambdas_without_entries(value.given_signatures, d, k);
                assert(map_get(ws, k) is Some);
                let l = map_get(value.given_signatures, k)->Some_0;
                let l2 = map_get(r.given_signatures, k)->Some_0;
                let f = choose|f: u64| #[trigger] spec_signature_sig(source, l.signature, id, given, f) == Ok::<SignatureValue, CheckError>(l2.signature);
                assert(spec_signature_sig(source, l.signature, id, given, f) == Ok::<SignatureValue, CheckError>(l2.signature));
            }
        }
        assert forall|k: u64| #![trigger map_get(r.given_functions, k)] #![trigger map_get(value.given_functions, k)]
            (map_get(r.given_functions, k) is Some) == (map_get(value.given_functions, k) is Some) by {
            lemma_function_lambdas_without_entries(value.given_functions, d, k);
            assert((map_get(r.given_functions, k) is Some) == (map_get(wf, k) is Some));
        }
        assert forall|k: u64| (#[trigger] map_get(value.given_functions, k) matches Some(l) ==> map_get(r.given_functions, k) matches Some(l2)
            && exists|f: u64| #[trigger] spec_function_sig(source, l.function, id, given, f) == Ok::<FunctionValue, CheckError>(l2.function)) by {
            if map_get(value.given_functions, k) is Some {
                lemma_function_lambdas_without_entries(value.given_functions, d, k);
                assert(map_get(wf, k) is Some);
            }
        }
        if forall|k: u64| #[trigger] map_get(value.given_signatures, k) matches Some(l) ==> set_unique(l.dependencies.signatures) {
            assert forall|k: u64| (#[trigger] map_get(r.given_signatures, k) matches Some(l) ==> !set_contains(l.dependencies.signatures, id)) by {
                if map_get(r.given_signatures, k) is Some {
                    lemma_signature_lambdas_without_entries(value.given_signatures, d, k);
                    assert(map_get(ws, k) is Some);
                    let l0 = map_get(value.given_signatures, k)->Some_0;
                    lemma_without_signature(l0.dependencies, id);
                }
            }
        }
        if forall|k: u64| #[trigger] map_get(value.given_functions, k) matches Some(l) ==> set_unique(l.dependencies.signatures) {
            assert forall|k: u64| (#[trigger] map_get(r.given_functions, k) matches Some(l) ==> !set_contains(l.dependencies.signatures, id)) by {
                if map_get(r.given_functions, k) is Some {
                    lemma_function_lambdas_without_entries(value.given_functions, d, k);
                    assert(map_get(wf, k) is Some);
                    let l0 = map_get(value.given_functions, k)->Some_0;
                    lemma_without_signature(l0.dependencies, id);
                }
            }
        }
    }
}

/// Law: once a function is given as the taken function `id` of a known
/// function, nothing the result gives depends on `id` any more (where no
/// function was depended on twice).
pub proof fn lemma_giving_a_function_to_a_function_ends_its_dependencies(
    source: &Source,
    value: KnownFunctionValue,
    id: u64,
    given: FunctionValue,
)
    requires
        forall|k: u64| #[trigger] map_get(value.given_signatures, k) matches Some(l) ==> l.dependencies.wf(),
        forall|k: u64| #[trigger] map_get(value.given_functions, k) matches Some(l) ==> l.dependencies.wf(),
    ensures
        spec_give_function_to_known_function(source, value, id, given) matches Ok(r) ==> {
            &&& forall|k: u64| #[trigger] map_get(r.given_signatures, k) matches Some(l) ==> !map_contains(l.dependencies.functions, id)
            &&& forall|k: u64| #[trigger] map_get(r.given_functions, k) matches Some(l) ==> !map_contains(l.dependencies.functions, id)
            &&& map_keys_unique(value.resolver.taken_function_definitions)
                ==> !map_contains(r.resolver.taken_function_definitions, id)
        },
{
    if map_keys_unique(value.resolver.taken_function_definitions) {
        lemma_map_get_remove(value.resolver.taken_function_definitions, id, id);
    }
    let d = Dependency::Function(id);
    let ws = spec_signature_lambdas_without(value.given_signatures, d);
    let wf = spec_function_lambdas_without(value.given_functions, d);
    lemma_signature_lambda_map_fn_entries(source, ws, id, given, FUEL);
    lemma_function_lambda_map_fn_entries(source, wf, id, given, FUEL);
    if let Ok(r) = spec_give_function_to_known_function(source, value, id, given) {
        assert forall|k: u64| (#[trigger] map_get(r.given_signatures, k) matches Some(l) ==> !map_contains(l.dependencies.functions, id)) by {
            if map_get(r.given_signatures, k) is Some {
                lemma_signature_lambdas_without_entries(value.given_signatures, d, k);
                assert(map_get(ws, k) is Some);
                let l0 = map_get(value.given_signatures, k)->Some_0;
                lemma_without_function(l0.dependencies, id);
            }
        }
        assert forall|k: u64| (#[trigger] map_get(r.given_functions, k) matches Some(l) ==> !map_contains(l.dependencies.functions, id)) by {
            if map_get(r.given_functions, k) is Some {
                lemma_function_lambdas_without_entries(value.given_functions, d, k);
                assert(map_get(wf, k) is Some);
                let l0 = map_get(value.given_functions, k)->Some_0;
                lemma_without_function(l0.dependencies, id);
            }
        }
    }
}

} // verus!
