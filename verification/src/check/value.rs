//! The values that signatures and functions evaluate to.
use vstd::prelude::*;
use std::rc::Rc;
use crate::check::items::{IdMap, IdSet, Items};
use crate::location::SourceLocation;

verus! {

/// A place in a source, without the source: a line and a range of its columns.
#[derive(Clone, Copy, Debug, PartialEq, Eq, Structural)]
pub struct Span {
    pub line: usize,
    pub start_column: usize,
    pub end_column: usize,
    pub line_offset: usize,
}

pub open spec fn spec_span(location: SourceLocation) -> Span {
    Span {
        line: location.line,
        start_column: location.start_column,
        end_column: location.end_column,
        line_offset: location.line_offset,
    }
}

/// The place of a location.
pub fn span_of(location: &SourceLocation) -> (span: Span)
    ensures
        span == spec_span(*location),
{
    Span {
        line: location.line,
        start_column: location.start_column,
        end_column: location.end_column,
        line_offset: location.line_offset,
    }
}

/// The identity of a signature.
#[derive(Clone, Copy, Debug, PartialEq, Eq, Structural)]
pub struct SignatureId(pub u64);

/// The identity of a function.
#[derive(Clone, Copy, Debug, PartialEq, Eq, Structural)]
pub struct FunctionId(pub u64);

/// Where a signature got its name: the name with and without parentheses.
#[derive(Clone, Copy, Debug, PartialEq, Eq, Structural)]
pub struct SignatureName {
    pub with_parens: Span,
    pub symbol: Span,
}

#[derive(Clone, Copy, Debug, PartialEq, Eq, Structural)]
pub struct SignatureDefinition {
    pub signature: SignatureName,
    pub statement: Span,
}

#[derive(Clone, Copy, Debug, PartialEq, Eq, Structural)]
pub struct FunctionDefinition {
    /// The function's name.
    pub function: Span,
    pub statement: Span,
}

/// The names that a context takes and produces, with the statements that
/// introduced them. A name is the text at its span.
#[derive(Debug)]
pub struct ContextResolver {
    pub taken_signature_definitions: IdMap<SignatureDefinition>,
    pub taken_function_definitions: IdMap<FunctionDefinition>,
    pub taken_signature_ids: Items<(Span, u64)>,
    pub taken_function_ids: Items<(Span, u64)>,
    pub produced_signature_definitions: IdMap<SignatureDefinition>,
    pub produced_function_definitions: IdMap<FunctionDefinition>,
    pub produced_signature_ids: Items<(Span, u64)>,
    pub produced_function_ids: Items<(Span, u64)>,
}

/// A signature whose definition is known: what it conjures and what it takes.
#[derive(Debug)]
pub struct KnownSignatureValue {
    pub conjured_signatures: IdMap<SignatureConjuration>,
    pub conjured_functions: IdMap<FunctionConjuration>,
    pub taken_signatures: IdSet,
    pub taken_functions: IdMap<SignatureValue>,
    pub resolver: ContextResolver,
}

/// A function whose definition is known: what it gives and what it takes.
#[derive(Debug)]
pub struct KnownFunctionValue {
    pub given_signatures: IdMap<SignatureLambda>,
    pub given_functions: IdMap<FunctionLambda>,
    pub taken_signatures: IdSet,
    pub taken_functions: IdMap<SignatureValue>,
    pub resolver: ContextResolver,
}

#[derive(Debug)]
pub struct SignatureConjuration {
    pub dependencies: LambdaDependencies,
}

#[derive(Debug)]
pub struct FunctionConjuration {
    pub signature: SignatureValue,
    /// must also contain all dependencies of signature
    pub dependencies: LambdaDependencies,
}

/// A signature value, as a function of the taken signatures and functions
/// it depends on.
#[derive(Debug)]
pub struct SignatureLambda {
    pub signature: SignatureValue,
    pub dependencies: LambdaDependencies,
}

/// A function value, as a function of what it depends on.
#[derive(Debug)]
pub struct FunctionLambda {
    pub function: FunctionValue,
    pub dependencies: LambdaDependencies,
}

/// Taken signatures, and taken functions with their signatures.
#[derive(Debug)]
pub struct LambdaDependencies {
    pub signatures: IdSet,
    pub functions: IdMap<SignatureValue>,
}

#[derive(Debug)]
pub struct LambdaDependencyValues {
    pub signatures: IdMap<SignatureValue>,
    pub functions: IdMap<FunctionValue>,
}

/// A signature that an unknown function gives.
#[derive(Debug)]
pub struct ConjuredSignatureValue {
    pub unknown_function: UnknownFunctionValue,
    pub unknown_function_signature: KnownSignatureValue,
    pub conjured_signature: SignatureId,
    pub conjure_dependency_values: LambdaDependencyValues,
}

/// A function that an unknown function gives.
#[derive(Debug)]
pub struct ConjuredFunctionValue {
    pub unknown_function: UnknownFunctionValue,
    pub unknown_function_signature: KnownSignatureValue,
    pub conjured_function: FunctionId,
    pub conjured_function_signature: SignatureValue,
    pub conjure_dependency_values: LambdaDependencyValues,
}

#[derive(Debug)]
pub enum UnknownSignatureValue {
    Taken(SignatureId),
    Conjured(Rc<ConjuredSignatureValue>),
}

#[derive(Debug)]
pub enum UnknownFunctionValue {
    Taken(FunctionId, Rc<SignatureValue>),
    Conjured(Rc<ConjuredFunctionValue>),
}

#[derive(Debug)]
pub enum SignatureValue {
    Known(Rc<KnownSignatureValue>),
    Unknown(UnknownSignatureValue),
}

#[derive(Debug)]
pub enum FunctionValue {
    Known(Rc<KnownFunctionValue>),
    Unknown(UnknownFunctionValue),
}

impl ContextResolver {
    pub open spec fn empty() -> ContextResolver {
        ContextResolver {
            taken_signature_definitions: Items::Nil,
            taken_function_definitions: Items::Nil,
            taken_signature_ids: Items::Nil,
            taken_function_ids: Items::Nil,
            produced_signature_definitions: Items::Nil,
            produced_function_definitions: Items::Nil,
            produced_signature_ids: Items::Nil,
            produced_function_ids: Items::Nil,
        }
    }

    pub fn new() -> (r: ContextResolver)
        ensures
            r == ContextResolver::empty(),
    {
        ContextResolver {
            taken_signature_definitions: Items::Nil,
            taken_function_definitions: Items::Nil,
            taken_signature_ids: Items::Nil,
            taken_function_ids: Items::Nil,
            produced_signature_definitions: Items::Nil,
            produced_function_definitions: Items::Nil,
            produced_signature_ids: Items::Nil,
            produced_function_ids: Items::Nil,
        }
    }

    pub fn copy(&self) -> (r: ContextResolver)
        ensures
            r == *self,
    {
        ContextResolver {
            taken_signature_definitions: self.taken_signature_definitions.copy(),
            taken_function_definitions: self.taken_function_definitions.copy(),
            taken_signature_ids: self.taken_signature_ids.copy(),
            taken_function_ids: self.taken_function_ids.copy(),
            produced_signature_definitions: self.produced_signature_definitions.copy(),
            produced_function_definitions: self.produced_function_definitions.copy(),
            produced_signature_ids: self.produced_signature_ids.copy(),
            produced_function_ids: self.produced_function_ids.copy(),
        }
    }
}

impl KnownSignatureValue {
    /// A signature that conjures and takes nothing.
    pub open spec fn empty() -> KnownSignatureValue {
        KnownSignatureValue {
            conjured_signatures: Items::Nil,
            conjured_functions: Items::Nil,
            taken_signatures: Items::Nil,
            taken_functions: Items::Nil,
            resolver: ContextResolver::empty(),
        }
    }

    pub fn new() -> (r: KnownSignatureValue)
        ensures
            r == KnownSignatureValue::empty(),
    {
        KnownSignatureValue {
            conjured_signatures: Items::Nil,
            conjured_functions: Items::Nil,
            taken_signatures: Items::Nil,
            taken_functions: Items::Nil,
            resolver: ContextResolver::new(),
        }
    }

    pub fn copy(&self) -> (r: KnownSignatureValue)
        ensures
            r == *self,
    {
        KnownSignatureValue {
            conjured_signatures: self.conjured_signatures.copy(),
            conjured_functions: self.conjured_functions.copy(),
            taken_signatures: self.taken_signatures.copy(),
            taken_functions: self.taken_functions.copy(),
            resolver: self.resolver.copy(),
        }
    }
}

impl KnownFunctionValue {
    /// A function that gives and takes nothing.
    pub open spec fn empty() -> KnownFunctionValue {
        KnownFunctionValue {
            given_signatures: Items::Nil,
            given_functions: Items::Nil,
            taken_signatures: Items::Nil,
            taken_functions: Items::Nil,
            resolver: ContextResolver::empty(),
        }
    }

    pub fn new() -> (r: KnownFunctionValue)
        ensures
            r == KnownFunctionValue::empty(),
    {
        KnownFunctionValue {
            given_signatures: Items::Nil,
            given_functions: Items::Nil,
            taken_signatures: Items::Nil,
            taken_functions: Items::Nil,
            resolver: ContextResolver::new(),
        }
    }

    pub fn copy(&self) -> (r: KnownFunctionValue)
        ensures
            r == *self,
    {
        KnownFunctionValue {
            given_signatures: self.given_signatures.copy(),
            given_functions: self.given_functions.copy(),
            taken_signatures: self.taken_signatures.copy(),
            taken_functions: self.taken_functions.copy(),
            resolver: self.resolver.copy(),
        }
    }
}

impl LambdaDependencies {
    pub open spec fn empty() -> LambdaDependencies {
        LambdaDependencies { signatures: Items::Nil, functions: Items::Nil }
    }

    pub fn new() -> (r: LambdaDependencies)
        ensures
            r == LambdaDependencies::empty(),
            r.wf(),
    {
        LambdaDependencies { signatures: Items::Nil, functions: Items::Nil }
    }

    pub fn copy(&self) -> (r: LambdaDependencies)
        ensures
            r == *self,
    {
        LambdaDependencies { signatures: self.signatures.copy(), functions: self.functions.copy() }
    }
}

impl LambdaDependencyValues {
    pub fn copy(&self) -> (r: LambdaDependencyValues)
        ensures
            r == *self,
    {
        LambdaDependencyValues { signatures: self.signatures.copy(), functions: self.functions.copy() }
    }
}

impl SignatureValue {
    pub fn copy(&self) -> (r: SignatureValue)
        ensures
            r == *self,
    {
        match self {
            SignatureValue::Known(known) => SignatureValue::Known(Rc::clone(known)),
            SignatureValue::Unknown(unknown) => SignatureValue::Unknown(unknown.copy()),
        }
    }
}

impl FunctionValue {
    pub fn copy(&self) -> (r: FunctionValue)
        ensures
            r == *self,
    {
        match self {
            FunctionValue::Known(known) => FunctionValue::Known(Rc::clone(known)),
            FunctionValue::Unknown(unknown) => FunctionValue::Unknown(unknown.copy()),
        }
    }
}

impl UnknownSignatureValue {
    pub fn copy(&self) -> (r: UnknownSignatureValue)
        ensures
            r == *self,
    {
        match self {
            UnknownSignatureValue::Taken(id) => UnknownSignatureValue::Taken(*id),
            UnknownSignatureValue::Conjured(c) => UnknownSignatureValue::Conjured(Rc::clone(c)),
        }
    }
}

impl UnknownFunctionValue {
    pub fn copy(&self) -> (r: UnknownFunctionValue)
        ensures
            r == *self,
    {
        match self {
            UnknownFunctionValue::Taken(id, signature) => UnknownFunctionValue::Taken(*id, Rc::clone(signature)),
            UnknownFunctionValue::Conjured(c) => UnknownFunctionValue::Conjured(Rc::clone(c)),
        }
    }
}

impl SignatureLambda {
    pub fn copy(&self) -> (r: SignatureLambda)
        ensures
            r == *self,
    {
        SignatureLambda { signature: self.signature.copy(), dependencies: self.dependencies.copy() }
    }
}

impl FunctionLambda {
    pub fn copy(&self) -> (r: FunctionLambda)
        ensures
            r == *self,
    {
        FunctionLambda { function: self.function.copy(), dependencies: self.dependencies.copy() }
    }
}

impl SignatureConjuration {
    pub fn copy(&self) -> (r: SignatureConjuration)
        ensures
            r == *self,
    {
        SignatureConjuration { dependencies: self.dependencies.copy() }
    }
}

impl FunctionConjuration {
    pub fn copy(&self) -> (r: FunctionConjuration)
        ensures
            r == *self,
    {
        FunctionConjuration { signature: self.signature.copy(), dependencies: self.dependencies.copy() }
    }
}

impl ConjuredSignatureValue {
    pub fn copy(&self) -> (r: ConjuredSignatureValue)
        ensures
            r == *self,
    {
        ConjuredSignatureValue {
            unknown_function: self.unknown_function.copy(),
            unknown_function_signature: self.unknown_function_signature.copy(),
            conjured_signature: self.conjured_signature,
            conjure_dependency_values: self.conjure_dependency_values.copy(),
        }
    }
}

impl ConjuredFunctionValue {
    pub fn copy(&self) -> (r: ConjuredFunctionValue)
        ensures
            r == *self,
    {
        ConjuredFunctionValue {
            unknown_function: self.unknown_function.copy(),
            unknown_function_signature: self.unknown_function_signature.copy(),
            conjured_function: self.conjured_function,
            conjured_function_signature: self.conjured_function_signature.copy(),
            conjure_dependency_values: self.conjure_dependency_values.copy(),
        }
    }
}

} // verus!
