//! The names and defining statements of all signatures and functions met so
//! far, by identifier.
use vstd::prelude::*;
use crate::check::items::{get, insert, map_get, map_insert, IdMap, Items};
use crate::check::value::{FunctionDefinition, SignatureDefinition, SignatureName, Span};

verus! {

pub struct Resolver {
    pub signatures: IdMap<SignatureDefinition>,
    pub functions: IdMap<FunctionDefinition>,
}

impl Resolver {
    pub open spec fn empty() -> Resolver {
        Resolver { signatures: Items::Nil, functions: Items::Nil }
    }

    pub fn new() -> (r: Resolver)
        ensures
            r == Resolver::empty(),
    {
        Resolver { signatures: Items::Nil, functions: Items::Nil }
    }

    pub open spec fn spec_insert_signature(self, id: u64, signature: SignatureName, statement: Span) -> Resolver {
        Resolver { signatures: map_insert(self.signatures, id, SignatureDefinition { signature, statement }), ..self }
    }

    pub open spec fn spec_insert_function(self, id: u64, function: Span, statement: Span) -> Resolver {
        Resolver { functions: map_insert(self.functions, id, FunctionDefinition { function, statement }), ..self }
    }

    /// Records the signature `id` and the statement that defines it.
    pub fn insert_signature(&mut self, id: u64, signature: SignatureName, statement: Span)
        ensures
            *final(self) == old(self).spec_insert_signature(id, signature, statement),
    {
        self.signatures = insert(&self.signatures, id, SignatureDefinition { signature, statement });
    }

    /// Records the function `id` and the statement that defines it.
    pub fn insert_function(&mut self, id: u64, function: Span, statement: Span)
        ensures
            *final(self) == old(self).spec_insert_function(id, function, statement),
    {
        self.functions = insert(&self.functions, id, FunctionDefinition { function, statement });
    }

    /// The name of the signature `id`, if it was recorded.
    pub fn signature(&self, id: u64) -> (name: Option<SignatureName>)
        ensures
            name == (match map_get(self.signatures, id) {
                Some(d) => Some(d.signature),
                None => None,
            }),
    {
        match get(&self.signatures, id) {
            Some(d) => Some(d.signature),
            None => None,
        }
    }

    /// The name of the function `id`, if it was recorded.
    pub fn function(&self, id: u64) -> (name: Option<Span>)
        ensures
            name == (match map_get(self.functions, id) {
                Some(d) => Some(d.function),
                None => None,
            }),
    {
        match get(&self.functions, id) {
            Some(d) => Some(d.function),
            None => None,
        }
    }

    /// The statement that defines the signature `id`, if it was recorded.
    pub fn signature_definition(&self, id: u64) -> (statement: Option<Span>)
        ensures
            statement == (match map_get(self.signatures, id) {
                Some(d) => Some(d.statement),
                None => None,
            }),
    {
        match get(&self.signatures, id) {
            Some(d) => Some(d.statement),
            None => None,
        }
    }

    /// The statement that defines the function `id`, if it was recorded.
    pub fn function_definition(&self, id: u64) -> (statement: Option<Span>)
        ensures
            statement == (match map_get(self.functions, id) {
                Some(d) => Some(d.statement),
                None => None,
            }),
    {
        match get(&self.functions, id) {
            Some(d) => Some(d.statement),
            None => None,
        }
    }
}

} // verus!
