//! The names that one context takes and produces.
use vstd::prelude::*;
use crate::check::error::{CheckError, CheckResult, InternalError};
use crate::check::items::{get, insert, lemma_map_get_insert, lemma_map_remove_insert, map_contains, map_get, map_insert, map_remove, remove};
use crate::check::names::{
    lemma_defined_name_found, lemma_names_defined_insert, lemma_names_get_insert, lemma_names_get_remove, lemma_names_insert_unique,
    lemma_names_remove_insert, names_defined, name_insert, name_lookup, name_remove,
    names_get, names_insert, names_remove, names_unique, span_name,
};
use crate::check::value::{ContextResolver, FunctionDefinition, SignatureDefinition, SignatureName, Span};
use crate::source::Source;

verus! {

impl ContextResolver {
    pub open spec fn spec_taken_signature_id(self, source: &Source, name: Seq<char>) -> Option<u64> {
        names_get(source, self.taken_signature_ids, name)
    }

    pub open spec fn spec_taken_function_id(self, source: &Source, name: Seq<char>) -> Option<u64> {
        names_get(source, self.taken_function_ids, name)
    }

    pub open spec fn spec_produced_signature_id(self, source: &Source, name: Seq<char>) -> Option<u64> {
        names_get(source, self.produced_signature_ids, name)
    }

    pub open spec fn spec_produced_function_id(self, source: &Source, name: Seq<char>) -> Option<u64> {
        names_get(source, self.produced_function_ids, name)
    }

    /// The identifier of the taken signature named as at `name`.
    pub fn taken_signature_id(&self, source: &Source, name: Span) -> (id: Option<u64>)
        ensures
            id == self.spec_taken_signature_id(source, span_name(source, name)),
    {
        name_lookup(source, &self.taken_signature_ids, name)
    }

    pub fn taken_function_id(&self, source: &Source, name: Span) -> (id: Option<u64>)
        ensures
            id == self.spec_taken_function_id(source, span_name(source, name)),
    {
        name_lookup(source, &self.taken_function_ids, name)
    }

    pub fn produced_signature_id(&self, source: &Source, name: Span) -> (id: Option<u64>)
        ensures
            id == self.spec_produced_signature_id(source, span_name(source, name)),
    {
        name_lookup(source, &self.produced_signature_ids, name)
    }

    pub fn produced_function_id(&self, source: &Source, name: Span) -> (id: Option<u64>)
        ensures
            id == self.spec_produced_function_id(source, span_name(source, name)),
    {
        name_lookup(source, &self.produced_function_ids, name)
    }

    /// The span of the name of the taken signature `id`.
    pub open spec fn spec_taken_signature_name(self, id: u64) -> Option<Span> {
        match map_get(self.taken_signature_definitions, id) {
            Some(definition) => Some(definition.signature.symbol),
            None => None,
        }
    }

    pub open spec fn spec_taken_function_name(self, id: u64) -> Option<Span> {
        match map_get(self.taken_function_definitions, id) {
            Some(definition) => Some(definition.function),
            None => None,
        }
    }

    pub open spec fn spec_produced_signature_name(self, id: u64) -> Option<Span> {
        match map_get(self.produced_signature_definitions, id) {
            Some(definition) => Some(definition.signature.symbol),
            None => None,
        }
    }

    pub open spec fn spec_produced_function_name(self, id: u64) -> Option<Span> {
        match map_get(self.produced_function_definitions, id) {
            Some(definition) => Some(definition.function),
            None => None,
        }
    }

    pub fn taken_signature_name(&self, id: u64) -> (name: Option<Span>)
        ensures
            name == self.spec_taken_signature_name(id),
    {
        match get(&self.taken_signature_definitions, id) {
            Some(definition) => Some(definition.signature.symbol),
            None => None,
        }
    }

    pub fn taken_function_name(&self, id: u64) -> (name: Option<Span>)
        ensures
            name == self.spec_taken_function_name(id),
    {
        match get(&self.taken_function_definitions, id) {
            Some(definition) => Some(definition.function),
            None => None,
        }
    }

    pub fn produced_signature_name(&self, id: u64) -> (name: Option<Span>)
        ensures
            name == self.spec_produced_signature_name(id),
    {
        match get(&self.produced_signature_definitions, id) {
            Some(definition) => Some(definition.signature.symbol),
            None => None,
        }
    }

    pub fn produced_function_name(&self, id: u64) -> (name: Option<Span>)
        ensures
            name == self.spec_produced_function_name(id),
    {
        match get(&self.produced_function_definitions, id) {
            Some(definition) => Some(definition.function),
            None => None,
        }
    }

    pub open spec fn spec_insert_taken_signature(self, source: &Source, id: u64, signature: SignatureName, statement: Span) -> CheckResult<ContextResolver> {
        match self.spec_taken_signature_id(source, span_name(source, signature.symbol)) {
            Some(other_id) => match map_get(self.taken_signature_definitions, other_id) {
                Some(other) => Err(CheckError::CannotTakeTwoSignaturesWithIdenticalName {
                    signature,
                    statement,
                    other_signature: other.signature,
                    other_statement: other.statement,
                }),
                None => Err(CheckError::Internal { error: InternalError::MissingName }),
            },
            None => Ok(ContextResolver {
                taken_signature_ids: names_insert(source, self.taken_signature_ids, signature.symbol, id),
                taken_signature_definitions: map_insert(
                    self.taken_signature_definitions,
                    id,
                    SignatureDefinition { signature, statement },
                ),
                ..self
            }),
        }
    }

    /// Records that the context takes `signature` as `id`; two taken
    /// signatures cannot share a name.
    pub fn insert_taken_signature(&self, source: &Source, id: u64, signature: SignatureName, statement: Span) -> (r: CheckResult<ContextResolver>)
        ensures
            r == self.spec_insert_taken_signature(source, id, signature, statement),
    {
        if let Some(other_id) = self.taken_signature_id(source, signature.symbol) {
            return match get(&self.taken_signature_definitions, other_id) {
                Some(other) => Err(CheckError::CannotTakeTwoSignaturesWithIdenticalName {
                    signature,
                    statement,
                    other_signature: other.signature,
                    other_statement: other.statement,
                }),
                None => Err(CheckError::Internal { error: InternalError::MissingName }),
            };
        }
        let mut r = self.copy();
        r.taken_signature_ids = name_insert(source, &self.taken_signature_ids, signature.symbol, id);
        r.taken_signature_definitions = insert(&self.taken_signature_definitions, id, SignatureDefinition { signature, statement });
        Ok(r)
    }

    pub open spec fn spec_insert_taken_function(self, source: &Source, id: u64, function: Span, statement: Span) -> CheckResult<ContextResolver> {
        match self.spec_taken_function_id(source, span_name(source, function)) {
            Some(other_id) => match map_get(self.taken_function_definitions, other_id) {
                Some(other) => Err(CheckError::CannotTakeTwoFunctionsWithIdenticalName {
                    function,
                    statement,
                    other_function: other.function,
                    other_statement: other.statement,
                }),
                None => Err(CheckError::Internal { error: InternalError::MissingName }),
            },
            None => Ok(ContextResolver {
                taken_function_ids: names_insert(source, self.taken_function_ids, function, id),
                taken_function_definitions: map_insert(
                    self.taken_function_definitions,
                    id,
                    FunctionDefinition { function, statement },
                ),
                ..self
            }),
        }
    }

    /// Records that the context takes `function` as `id`; two taken
    /// functions cannot share a name.
    pub fn insert_taken_function(&self, source: &Source, id: u64, function: Span, statement: Span) -> (r: CheckResult<ContextResolver>)
        ensures
            r == self.spec_insert_taken_function(source, id, function, statement),
    {
        if let Some(other_id) = self.taken_function_id(source, function) {
            return match get(&self.taken_function_definitions, other_id) {
                Some(other) => Err(CheckError::CannotTakeTwoFunctionsWithIdenticalName {
                    function,
                    statement,
                    other_function: other.function,
                    other_statement: other.statement,
                }),
                None => Err(CheckError::Internal { error: InternalError::MissingName }),
            };
        }
        let mut r = self.copy();
        r.taken_function_ids = name_insert(source, &self.taken_function_ids, function, id);
        r.taken_function_definitions = insert(&self.taken_function_definitions, id, FunctionDefinition { function, statement });
        Ok(r)
    }

    pub open spec fn spec_insert_produced_signature(self, source: &Source, id: u64, signature: SignatureName, statement: Span) -> ContextResolver {
        ContextResolver {
            produced_signature_ids: names_insert(source, self.produced_signature_ids, signature.symbol, id),
            produced_signature_definitions: map_insert(
                self.produced_signature_definitions,
                id,
                SignatureDefinition { signature, statement },
            ),
            ..self
        }
    }

    /// Records that the context produces `signature` as `id`.
    pub fn insert_produced_signature(&self, source: &Source, id: u64, signature: SignatureName, statement: Span) -> (r: ContextResolver)
        ensures
            r == self.spec_insert_produced_signature(source, id, signature, statement),
    {
        let mut r = self.copy();
        r.produced_signature_ids = name_insert(source, &self.produced_signature_ids, signature.symbol, id);
        r.produced_signature_definitions = insert(&self.produced_signature_definitions, id, SignatureDefinition { signature, statement });
        r
    }

    pub open spec fn spec_insert_produced_function(self, source: &Source, id: u64, function: Span, statement: Span) -> ContextResolver {
        ContextResolver {
            produced_function_ids: names_insert(source, self.produced_function_ids, function, id),
            produced_function_definitions: map_insert(
                self.produced_function_definitions,
                id,
                FunctionDefinition { function, statement },
            ),
            ..self
        }
    }

    /// Records that the context produces `function` as `id`.
    pub fn insert_produced_function(&self, source: &Source, id: u64, function: Span, statement: Span) -> (r: ContextResolver)
        ensures
            r == self.spec_insert_produced_function(source, id, function, statement),
    {
        let mut r = self.copy();
        r.produced_function_ids = name_insert(source, &self.produced_function_ids, function, id);
        r.produced_function_definitions = insert(&self.produced_function_definitions, id, FunctionDefinition { function, statement });
        r
    }

    pub open spec fn spec_remove_taken_signature(self, source: &Source, id: u64) -> CheckResult<ContextResolver> {
        match map_get(self.taken_signature_definitions, id) {
            Some(definition) => Ok(ContextResolver {
                taken_signature_definitions: map_remove(self.taken_signature_definitions, id),
                taken_signature_ids: names_remove(source, self.taken_signature_ids, span_name(source, definition.signature.symbol)),
                ..self
            }),
            None => Err(CheckError::Internal { error: InternalError::MissingName }),
        }
    }

    /// Forgets the taken signature `id`, once it has been given.
    pub fn remove_taken_signature(&self, source: &Source, id: u64) -> (r: ContextResolver)
        requires
            map_contains(self.taken_signature_definitions, id),
        ensures
            self.spec_remove_taken_signature(source, id) == Ok::<ContextResolver, CheckError>(r),
    {
        let definition = *get(&self.taken_signature_definitions, id).unwrap();
        let mut r = self.copy();
        r.taken_signature_definitions = remove(&self.taken_signature_definitions, id);
        r.taken_signature_ids = name_remove(source, &self.taken_signature_ids, definition.signature.symbol);
        r
    }

    pub open spec fn spec_remove_taken_function(self, source: &Source, id: u64) -> CheckResult<ContextResolver> {
        match map_get(self.taken_function_definitions, id) {
            Some(definition) => Ok(ContextResolver {
                taken_function_definitions: map_remove(self.taken_function_definitions, id),
                taken_function_ids: names_remove(source, self.taken_function_ids, span_name(source, definition.function)),
                ..self
            }),
            None => Err(CheckError::Internal { error: InternalError::MissingName }),
        }
    }

    /// Forgets the taken function `id`, once it has been given.
    pub fn remove_taken_function(&self, source: &Source, id: u64) -> (r: ContextResolver)
        requires
            map_contains(self.taken_function_definitions, id),
        ensures
            self.spec_remove_taken_function(source, id) == Ok::<ContextResolver, CheckError>(r),
    {
        let definition = *get(&self.taken_function_definitions, id).unwrap();
        let mut r = self.copy();
        r.taken_function_definitions = remove(&self.taken_function_definitions, id);
        r.taken_function_ids = name_remove(source, &self.taken_function_ids, definition.function);
        r
    }
}

impl ContextResolver {
    /// The name of the taken signature `id`, as written where it was introduced.
    pub fn taken_signature(&self, id: u64) -> (name: Option<SignatureName>)
        ensures
            name == (match map_get(self.taken_signature_definitions, id) {
                Some(definition) => Some(definition.signature),
                None => None,
            }),
    {
        match get(&self.taken_signature_definitions, id) {
            Some(definition) => Some(definition.signature),
            None => None,
        }
    }

    /// The statement that introduced the taken signature `id`.
    pub fn taken_signature_definition(&self, id: u64) -> (statement: Option<Span>)
        ensures
            statement == (match map_get(self.taken_signature_definitions, id) {
                Some(definition) => Some(definition.statement),
                None => None,
            }),
    {
        match get(&self.taken_signature_definitions, id) {
            Some(definition) => Some(definition.statement),
            None => None,
        }
    }

    /// The name of the taken function `id`, as written where it was introduced.
    pub fn taken_function(&self, id: u64) -> (name: Option<Span>)
        ensures
            name == (match map_get(self.taken_function_definitions, id) {
                Some(definition) => Some(definition.function),
                None => None,
            }),
    {
        match get(&self.taken_function_definitions, id) {
            Some(definition) => Some(definition.function),
            None => None,
        }
    }

    /// The statement that introduced the taken function `id`.
    pub fn taken_function_definition(&self, id: u64) -> (statement: Option<Span>)
        ensures
            statement == (match map_get(self.taken_function_definitions, id) {
                Some(definition) => Some(definition.statement),
                None => None,
            }),
    {
        match get(&self.taken_function_definitions, id) {
            Some(definition) => Some(definition.statement),
            None => None,
        }
    }

    /// The name of the produced signature `id`, as written where it was introduced.
    pub fn produced_signature(&self, id: u64) -> (name: Option<SignatureName>)
        ensures
            name == (match map_get(self.produced_signature_definitions, id) {
                Some(definition) => Some(definition.signature),
                None => None,
            }),
    {
        match get(&self.produced_signature_definitions, id) {
            Some(definition) => Some(definition.signature),
            None => None,
        }
    }

    /// The statement that introduced the produced signature `id`.
    pub fn produced_signature_definition(&self, id: u64) -> (statement: Option<Span>)
        ensures
            statement == (match map_get(self.produced_signature_definitions, id) {
                Some(definition) => Some(definition.statement),
                None => None,
            }),
    {
        match get(&self.produced_signature_definitions, id) {
            Some(definition) => Some(definition.statement),
            None => None,
        }
    }

    /// The name of the produced function `id`, as written where it was introduced.
    pub fn produced_function(&self, id: u64) -> (name: Option<Span>)
        ensures
            name == (match map_get(self.produced_function_definitions, id) {
                Some(definition) => Some(definition.function),
                None => None,
            }),
    {
        match get(&self.produced_function_definitions, id) {
            Some(definition) => Some(definition.function),
            None => None,
        }
    }

    /// The statement that introduced the produced function `id`.
    pub fn produced_function_definition(&self, id: u64) -> (statement: Option<Span>)
        ensures
            statement == (match map_get(self.produced_function_definitions, id) {
                Some(definition) => Some(definition.statement),
                None => None,
            }),
    {
        match get(&self.produced_function_definitions, id) {
            Some(definition) => Some(definition.statement),
            None => None,
        }
    }
}

/// Law: taking a signature keeps the taken names unique, and the name then
/// finds the signature.
pub proof fn lemma_taken_signature_is_found(source: &Source, r: ContextResolver, id: u64, signature: SignatureName, statement: Span)
    requires
        names_unique(source, r.taken_signature_ids),
    ensures
        r.spec_insert_taken_signature(source, id, signature, statement) matches Ok(after) ==> {
            &&& names_unique(source, after.taken_signature_ids)
            &&& after.spec_taken_signature_id(source, span_name(source, signature.symbol)) == Some(id)
        },
{
    lemma_names_insert_unique(source, r.taken_signature_ids, signature.symbol, id);
    lemma_names_get_insert(source, r.taken_signature_ids, signature.symbol, id, span_name(source, signature.symbol));
}

/// Law: a taken signature that is removed, once given, is no longer found
/// by its name, where the taken names are unique.
pub proof fn lemma_removed_taken_signature_is_not_found(source: &Source, r: ContextResolver, id: u64)
    requires
        names_unique(source, r.taken_signature_ids),
    ensures
        r.spec_remove_taken_signature(source, id) matches Ok(after) ==> r.spec_taken_signature_name(id) matches Some(name)
            && after.spec_taken_signature_id(source, span_name(source, name)) is None,
{
    if let Some(name) = r.spec_taken_signature_name(id) {
        lemma_names_get_remove(source, r.taken_signature_ids, span_name(source, name), span_name(source, name));
    }
}

/// Law: taking a function keeps the taken names unique, and the name then
/// finds the function.
pub proof fn lemma_taken_function_is_found(source: &Source, r: ContextResolver, id: u64, function: Span, statement: Span)
    requires
        names_unique(source, r.taken_function_ids),
    ensures
        r.spec_insert_taken_function(source, id, function, statement) matches Ok(after) ==> {
            &&& names_unique(source, after.taken_function_ids)
            &&& after.spec_taken_function_id(source, span_name(source, function)) == Some(id)
        },
{
    lemma_names_insert_unique(source, r.taken_function_ids, function, id);
    lemma_names_get_insert(source, r.taken_function_ids, function, id, span_name(source, function));
}

/// Law: a taken function that is removed, once given, is no longer found by
/// its name, where the taken names are unique.
pub proof fn lemma_removed_taken_function_is_not_found(source: &Source, r: ContextResolver, id: u64)
    requires
        names_unique(source, r.taken_function_ids),
    ensures
        r.spec_remove_taken_function(source, id) matches Ok(after) ==> r.spec_taken_function_name(id) matches Some(name)
            && after.spec_taken_function_id(source, span_name(source, name)) is None,
{
    if let Some(name) = r.spec_taken_function_name(id) {
        lemma_names_get_remove(source, r.taken_function_ids, span_name(source, name), span_name(source, name));
    }
}

/// Law: taking a signature under a fresh name and a fresh identifier, then
/// forgetting that identifier, gives back the resolver as it was.
pub proof fn lemma_remove_taken_signature_undoes_insert(
    source: &Source,
    resolver: ContextResolver,
    id: u64,
    signature: SignatureName,
    statement: Span,
)
    requires
        resolver.spec_taken_signature_id(source, span_name(source, signature.symbol)) is None,
        map_get(resolver.taken_signature_definitions, id) is None,
    ensures
        resolver.spec_insert_taken_signature(source, id, signature, statement) matches Ok(inserted)
            && inserted.spec_remove_taken_signature(source, id) == Ok::<ContextResolver, CheckError>(resolver),
{
    let definition = SignatureDefinition { signature, statement };
    lemma_map_get_insert(resolver.taken_signature_definitions, id, definition, id);
    lemma_map_remove_insert(resolver.taken_signature_definitions, id, definition);
    lemma_names_remove_insert(source, resolver.taken_signature_ids, signature.symbol, id);
}

/// Law: taking a function under a fresh name and a fresh identifier, then
/// forgetting that identifier, gives back the resolver as it was.
pub proof fn lemma_remove_taken_function_undoes_insert(
    source: &Source,
    resolver: ContextResolver,
    id: u64,
    function: Span,
    statement: Span,
)
    requires
        resolver.spec_taken_function_id(source, span_name(source, function)) is None,
        map_get(resolver.taken_function_definitions, id) is None,
    ensures
        resolver.spec_insert_taken_function(source, id, function, statement) matches Ok(inserted)
            && inserted.spec_remove_taken_function(source, id) == Ok::<ContextResolver, CheckError>(resolver),
{
    let definition = FunctionDefinition { function, statement };
    lemma_map_get_insert(resolver.taken_function_definitions, id, definition, id);
    lemma_map_remove_insert(resolver.taken_function_definitions, id, definition);
    lemma_names_remove_insert(source, resolver.taken_function_ids, function, id);
}

impl ContextResolver {
    /// Every taken name has its definition.
    pub open spec fn taken_names_defined(self) -> bool {
        &&& names_defined(self.taken_signature_ids, self.taken_signature_definitions)
        &&& names_defined(self.taken_function_ids, self.taken_function_definitions)
    }
}

/// Law: where every taken name has its definition, taking a signature either
/// succeeds, keeping that so, or fails because the name is taken already;
/// it never fails for want of a definition.
pub proof fn lemma_taking_a_signature_keeps_names_defined(
    source: &Source,
    resolver: ContextResolver,
    id: u64,
    signature: SignatureName,
    statement: Span,
)
    requires
        resolver.taken_names_defined(),
    ensures
        match resolver.spec_insert_taken_signature(source, id, signature, statement) {
            Ok(inserted) => inserted.taken_names_defined(),
            Err(e) => e is CannotTakeTwoSignaturesWithIdenticalName,
        },
{
    lemma_defined_name_found(
        source,
        resolver.taken_signature_ids,
        resolver.taken_signature_definitions,
        span_name(source, signature.symbol),
    );
    lemma_names_defined_insert(
        source,
        resolver.taken_signature_ids,
        resolver.taken_signature_definitions,
        signature.symbol,
        id,
        SignatureDefinition { signature, statement },
    );
}

/// Law: where every taken name has its definition, taking a function either
/// succeeds, keeping that so, or fails because the name is taken already;
/// it never fails for want of a definition.
pub proof fn lemma_taking_a_function_keeps_names_defined(
    source: &Source,
    resolver: ContextResolver,
    id: u64,
    function: Span,
    statement: Span,
)
    requires
        resolver.taken_names_defined(),
    ensures
        match resolver.spec_insert_taken_function(source, id, function, statement) {
            Ok(inserted) => inserted.taken_names_defined(),
            Err(e) => e is CannotTakeTwoFunctionsWithIdenticalName,
        },
{
    lemma_defined_name_found(source, resolver.taken_function_ids, resolver.taken_function_definitions, span_name(source, function));
    lemma_names_defined_insert(
        source,
        resolver.taken_function_ids,
        resolver.taken_function_definitions,
        function,
        id,
        FunctionDefinition { function, statement },
    );
}

} // verus!
